use vstd::prelude::*;

verus! {

/// The two failure kinds of the library.
///
/// `Io` stands for a file-system failure while bytes are read from a
/// path; `Windows` stands for any failure surfaced by the platform's
/// document / page / stream / render subsystem and carries the
/// platform's signed 32-bit status code.
#[derive(Debug, Clone, Copy, PartialEq, Eq, Structural)]
pub enum PdfThumbError {
    Io,
    Windows(i32),
}

impl PdfThumbError {
    /// True exactly when the error came from the platform subsystem.
    pub fn is_platform(&self) -> (r: bool)
        ensures
            r == (self is Windows),
    {
        match self {
            PdfThumbError::Windows(_) => true,
            PdfThumbError::Io => false,
        }
    }

    /// The platform status code, where the error carries one.
    pub fn code(&self) -> (r: Option<i32>)
        ensures
            r == (if self is Windows {
                Some(self->Windows_0)
            } else {
                None::<i32>
            }),
    {
        match self {
            PdfThumbError::Windows(c) => Some(*c),
            PdfThumbError::Io => None,
        }
    }
}

} // verus!
