//! Core of a thin wrapper over a platform PDF-rendering engine: value
//! types for render configuration, the translation of that
//! configuration into per-call render plans, and the step-by-step
//! drivers that sequence one document-load or one page-render
//! operation against the platform, releasing the page handle exactly
//! once on every path. The platform calls themselves are made by the
//! surrounding, unverified shell, which reports each outcome back to
//! the drivers here.

pub mod error;
pub mod flow;
pub mod formats;
pub mod load;
pub mod options;

pub use error::PdfThumbError;
pub use flow::{read_plan, ReadPlan, RenderAction, RenderEvent, RenderFlow, RenderPhase};
pub use formats::{has_signature, signature};
pub use load::{LoadAction, LoadEvent, LoadFlow, LoadPhase, LoadSource};
pub use options::{
    EncoderId, ImageFormat, Options, Rect, RenderPlan, BMP_ENCODER_ID, GIF_ENCODER_ID,
    JPEG_ENCODER_ID, PNG_ENCODER_ID, TIFF_ENCODER_ID,
};
