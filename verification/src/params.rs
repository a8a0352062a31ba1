//! Parameter and result shapes of the tool operations, as plain data. The
//! transport-facing copies that carry serialization derives live with the
//! protocol wiring and convert to and from these.

use vstd::prelude::*;

verus! {

/// Parameters of "get page count".
pub struct GetPdfNumPagesParams {
    /// A `file:///` URI, an absolute path, or a path relative to any of the
    /// permitted root directories.
    pub path: String,
}

/// Parameters of "read pages as images".
pub struct ReadPdfAsImagesParams {
    pub path: String,
    /// 1-based first page, default 1.
    pub from_page: usize,
    /// 1-based inclusive last page; absent means the last page.
    pub to_page: Option<usize>,
    /// Pixels on the longer side of each output image.
    pub image_dimension: u16,
}

/// Parameters of "read as text".
pub struct ReadPdfAsTextParams {
    pub path: String,
    /// 1-based first page, default 1.
    pub from_page: usize,
    /// 1-based inclusive last page; absent means the last page.
    pub to_page: Option<usize>,
}

/// Parameters of "read one page as an image".
pub struct ReadPdfPageAsImageParams {
    pub path: String,
    /// 1-based page number.
    pub page: usize,
    /// Pixels on the longer side of the output image.
    pub image_dimension: u16,
}

/// Result of "get page count".
pub struct GetPdfNumPagesResult {
    pub num_pages: usize,
}

/// The constant default for a `u16` parameter.
pub fn const_u16<const N: u16>() -> (r: u16)
    ensures
        r == N,
{
    N
}

/// The constant default for a `usize` parameter.
pub fn const_usize<const N: usize>() -> (r: usize)
    ensures
        r == N,
{
    N
}

} // verus!
