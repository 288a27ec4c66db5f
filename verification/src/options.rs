use vstd::prelude::*;

verus! {

/// A rectangular region of a page, in unsigned integer units of the
/// page's native coordinate space. The all-zero value is the sentinel
/// meaning "no rectangle set": render the whole page. A genuinely empty
/// region therefore cannot be requested; the sentinel always wins.
#[derive(Debug, Clone, Copy, PartialEq, Eq, PartialOrd, Ord, Structural)]
pub struct Rect {
    pub x: u32,
    pub y: u32,
    pub width: u32,
    pub height: u32,
}

impl Rect {
    /// The all-zero sentinel value.
    pub open spec fn zero_spec() -> Rect {
        Rect { x: 0, y: 0, width: 0, height: 0 }
    }

    /// True exactly when this is the all-zero sentinel value.
    pub open spec fn is_zero_spec(self) -> bool {
        self == Rect::zero_spec()
    }

    /// True exactly when this is the all-zero sentinel value.
    pub fn is_zero(&self) -> (r: bool)
        ensures
            r == self.is_zero_spec(),
    {
        self.x == 0 && self.y == 0 && self.width == 0 && self.height == 0
    }
}

impl Default for Rect {
    /// The default rectangle is the "not set" sentinel.
    fn default() -> (r: Rect)
        ensures
            r == Rect::zero_spec(),
    {
        Rect { x: 0, y: 0, width: 0, height: 0 }
    }
}

/// The image format of a rendered page.
#[derive(Debug, Clone, Copy, PartialEq, Eq, Structural)]
pub enum ImageFormat {
    Png,
    Bmp,
    Jpeg,
    Tiff,
    Gif,
}

/// Platform-defined identifier of the bitmap encoder for the PNG format.
pub const PNG_ENCODER_ID: u128 = 0x27949969_876a_41d7_9447_568f6a35a4dc;

/// Platform-defined identifier of the bitmap encoder for the BMP format.
pub const BMP_ENCODER_ID: u128 = 0x69be8bb4_d66d_47c8_865a_ed1589433782;

/// Platform-defined identifier of the bitmap encoder for the JPEG format.
pub const JPEG_ENCODER_ID: u128 = 0x1a34f5c1_4a5a_46dc_b644_1f4567e7a676;

/// Platform-defined identifier of the bitmap encoder for the TIFF format.
pub const TIFF_ENCODER_ID: u128 = 0x0131be10_2001_4c5f_a9b0_cc88fab64ce8;

/// Platform-defined identifier of the bitmap encoder for the GIF format.
pub const GIF_ENCODER_ID: u128 = 0x114f5598_0b22_40a0_86a1_c83ea495adbd;

/// The identifier of a platform image encoder, held as the 128-bit
/// value of the platform's encoder class identifier. The five values
/// the library uses are fixed, documented platform constants; nothing
/// is computed from them here.
#[derive(Debug, Clone, Copy, PartialEq, Eq, Structural)]
pub struct EncoderId(pub u128);

impl ImageFormat {
    /// The encoder identifier selected by each format.
    pub open spec fn guid_spec(self) -> EncoderId {
        match self {
            ImageFormat::Png => EncoderId(PNG_ENCODER_ID),
            ImageFormat::Bmp => EncoderId(BMP_ENCODER_ID),
            ImageFormat::Jpeg => EncoderId(JPEG_ENCODER_ID),
            ImageFormat::Tiff => EncoderId(TIFF_ENCODER_ID),
            ImageFormat::Gif => EncoderId(GIF_ENCODER_ID),
        }
    }

    /// The platform encoder identifier for this format.
    pub fn guid(&self) -> (r: EncoderId)
        ensures
            r == self.guid_spec(),
    {
        match self {
            ImageFormat::Png => EncoderId(PNG_ENCODER_ID),
            ImageFormat::Bmp => EncoderId(BMP_ENCODER_ID),
            ImageFormat::Jpeg => EncoderId(JPEG_ENCODER_ID),
            ImageFormat::Tiff => EncoderId(TIFF_ENCODER_ID),
            ImageFormat::Gif => EncoderId(GIF_ENCODER_ID),
        }
    }
}

impl Default for ImageFormat {
    /// PNG is the default format.
    fn default() -> (r: ImageFormat)
        ensures
            r == ImageFormat::Png,
    {
        ImageFormat::Png
    }
}

/// Each format selects its own encoder: no two formats share an
/// encoder identifier.
pub proof fn lemma_encoder_ids_distinct(a: ImageFormat, b: ImageFormat)
    ensures
        a.guid_spec() == b.guid_spec() ==> a == b,
{
}

/// Configuration of one render call: destination size, source
/// sub-rectangle, page index and output format. A `width` or `height`
/// of zero means "unset": the missing dimension is derived by the
/// platform from the page's aspect ratio, and the page's native size is
/// used when both are zero.
#[derive(Debug, Clone, Copy, PartialEq, Eq, Structural)]
pub struct Options {
    /// The destination width of the rendered page. If `width` is not
    /// set, the page's aspect ratio is maintained relative to the
    /// destination height.
    pub width: u32,
    /// The destination height of the rendered page. If `height` is not
    /// set, the page's aspect ratio is maintained relative to the
    /// destination width.
    pub height: u32,
    /// The portion of the page to be rendered. If `rect` is not set,
    /// the whole page is rendered.
    pub rect: Rect,
    /// The zero-based index of the page to be rendered. If `page` is
    /// not set, the first page is rendered.
    pub page: u32,
    /// The image format of the output. If `format` is not set, PNG is
    /// used.
    pub format: ImageFormat,
}

impl Options {
    /// The default configuration: native size, whole page, first page,
    /// PNG output.
    pub open spec fn default_spec() -> Options {
        Options {
            width: 0,
            height: 0,
            rect: Rect::zero_spec(),
            page: 0,
            format: ImageFormat::Png,
        }
    }
}

impl Default for Options {
    fn default() -> (r: Options)
        ensures
            r == Options::default_spec(),
    {
        Options {
            width: 0,
            height: 0,
            rect: Rect { x: 0, y: 0, width: 0, height: 0 },
            page: 0,
            format: ImageFormat::Png,
        }
    }
}

/// What one render call asks of the platform, with every decision
/// already taken: which destination dimensions to set, whether a source
/// sub-rectangle is set at all, and which encoder to select. The
/// platform render-configuration object is written once from such a
/// plan, immediately before the render call, and never reused.
#[derive(Debug, Clone, Copy, PartialEq, Eq)]
pub struct RenderPlan {
    /// The destination width to set, or `None` to leave the width
    /// auto-derived.
    pub dest_width: Option<u32>,
    /// The destination height to set, or `None` to leave the height
    /// auto-derived.
    pub dest_height: Option<u32>,
    /// The source sub-rectangle to set, or `None` to render the whole
    /// page.
    pub source_rect: Option<Rect>,
    /// The encoder the output format selects; always set.
    pub encoder: EncoderId,
}

/// The translation of a user-facing `Options` value into a render plan.
pub open spec fn plan_spec(o: Options) -> RenderPlan {
    RenderPlan {
        dest_width: if o.width > 0 {
            Some(o.width)
        } else {
            None
        },
        dest_height: if o.height > 0 {
            Some(o.height)
        } else {
            None
        },
        source_rect: if o.rect.is_zero_spec() {
            None
        } else {
            Some(o.rect)
        },
        encoder: o.format.guid_spec(),
    }
}

impl Options {
    /// Translate this configuration into a render plan. The input is
    /// not changed; a dimension is set exactly when it is positive, the
    /// source rectangle exactly when it is not the zero sentinel, and
    /// the encoder always.
    pub fn render_plan(&self) -> (r: RenderPlan)
        ensures
            r == plan_spec(*self),
            r.dest_width == (if self.width > 0 {
                Some(self.width)
            } else {
                None::<u32>
            }),
            r.dest_height == (if self.height > 0 {
                Some(self.height)
            } else {
                None::<u32>
            }),
            r.source_rect is None <==> self.rect.is_zero_spec(),
            r.encoder == self.format.guid_spec(),
    {
        RenderPlan {
            dest_width: if self.width > 0 {
                Some(self.width)
            } else {
                None
            },
            dest_height: if self.height > 0 {
                Some(self.height)
            } else {
                None
            },
            source_rect: if self.rect.is_zero() {
                None
            } else {
                Some(self.rect)
            },
            encoder: self.format.guid(),
        }
    }
}

/// The zero rectangle always means "whole page". An options value whose
/// rectangle is the zero sentinel translates exactly as one whose
/// rectangle was never touched (left at its default), and its plan
/// never carries a literal empty source region.
pub proof fn lemma_zero_rect_means_whole_page(o: Options)
    ensures
        plan_spec(Options { rect: Rect::zero_spec(), ..o }) == plan_spec(
            Options { rect: Options::default_spec().rect, ..o },
        ),
        plan_spec(Options { rect: Rect::zero_spec(), ..o }).source_rect is None,
{
}

/// Setting only one destination dimension leaves the other auto-derived
/// by the platform from the page's aspect ratio: the plan fixes the
/// dimension that was set and sets nothing for the other.
pub proof fn lemma_single_dimension_keeps_aspect(o: Options)
    requires
        o.width > 0,
        o.height == 0,
    ensures
        plan_spec(o).dest_width == Some(o.width),
        plan_spec(o).dest_height is None,
{
}

} // verus!
