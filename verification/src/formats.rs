use vstd::prelude::*;

use crate::options::ImageFormat;

verus! {

/// The leading bytes every well-formed file of the format begins with
/// (for TIFF, in the little-endian byte order the platform writes).
pub open spec fn signature_spec(f: ImageFormat) -> Seq<u8> {
    match f {
        ImageFormat::Png => seq![0x89u8, 0x50u8, 0x4eu8, 0x47u8, 0x0du8, 0x0au8, 0x1au8, 0x0au8],
        ImageFormat::Bmp => seq![0x42u8, 0x4du8],
        ImageFormat::Jpeg => seq![0xffu8, 0xd8u8],
        ImageFormat::Tiff => seq![0x49u8, 0x49u8, 0x2au8, 0x00u8],
        ImageFormat::Gif => seq![0x47u8, 0x49u8, 0x46u8],
    }
}

/// True exactly when the buffer begins with the format's signature.
pub open spec fn matches_signature_spec(buf: Seq<u8>, f: ImageFormat) -> bool {
    let sig = signature_spec(f);
    buf.len() >= sig.len() && (forall|j: int| 0 <= j < sig.len() ==> buf[j] == sig[j])
}

/// The file signature of the format.
pub fn signature(f: ImageFormat) -> (r: Vec<u8>)
    ensures
        r@ == signature_spec(f),
        r@.len() > 0,
{
    match f {
        ImageFormat::Png => vec![0x89u8, 0x50u8, 0x4eu8, 0x47u8, 0x0du8, 0x0au8, 0x1au8, 0x0au8],
        ImageFormat::Bmp => vec![0x42u8, 0x4du8],
        ImageFormat::Jpeg => vec![0xffu8, 0xd8u8],
        ImageFormat::Tiff => vec![0x49u8, 0x49u8, 0x2au8, 0x00u8],
        ImageFormat::Gif => vec![0x47u8, 0x49u8, 0x46u8],
    }
}

/// True exactly when the buffer begins with the format's signature.
pub fn has_signature(buf: &[u8], f: ImageFormat) -> (r: bool)
    ensures
        r == matches_signature_spec(buf@, f),
{
    let sig = signature(f);
    if buf.len() < sig.len() {
        return false;
    }
    let mut i: usize = 0;
    while i < sig.len()
        invariant
            i <= sig@.len(),
            sig@ == signature_spec(f),
            buf@.len() >= sig@.len(),
            forall|j: int| 0 <= j < i ==> buf@[j] == sig@[j],
        decreases sig@.len() - i,
    {
        if buf[i] != sig[i] {
            return false;
        }
        i = i + 1;
    }
    true
}

/// No format's signature is empty, so a buffer that begins with one
/// is itself non-empty.
pub proof fn lemma_signature_nonempty(f: ImageFormat, buf: Seq<u8>)
    ensures
        signature_spec(f).len() > 0,
        matches_signature_spec(buf, f) ==> buf.len() > 0,
{
}

} // verus!
