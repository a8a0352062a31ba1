//! Conversion of caller-supplied, 1-based, inclusive page bounds into a
//! validated 0-based half-open window over a known item count.

use vstd::prelude::*;
use crate::error::ToolError;
use crate::error::page_out_of_range_message;
use crate::error::page_out_of_range_error;

verus! {

/// A 0-based, half-open index range `[start, end)` over a document's pages.
#[derive(Clone, Copy, PartialEq, Eq, Structural)]
pub struct Window {
    pub start: usize,
    pub end: usize,
}

impl Window {
    /// Validity of a window against an item count.
    pub open spec fn wf(self, total: nat) -> bool {
        self.start <= self.end <= total
    }

}

/// Where a window starts: `from_page` is 1-based, 0 is treated like 1
/// (clamped, not rejected), and a start past the end collapses to `total`.
pub open spec fn window_start(from_page: usize, total: usize) -> usize {
    if from_page == 0 {
        0
    } else if from_page - 1 <= total {
        (from_page - 1) as usize
    } else {
        total
    }
}

/// Where a window ends: `to_page` is 1-based inclusive, absence means the
/// last item, and the result is clamped into `[start, total]`.
pub open spec fn window_end(start: usize, to_page: Option<usize>, total: usize) -> usize {
    match to_page {
        None => total,
        Some(t) => if t < start {
            start
        } else if t <= total {
            t
        } else {
            total
        },
    }
}

/// Normalize optional 1-based inclusive page bounds into a 0-based half-open
/// window. Out-of-range bounds clamp; `to < from` collapses to an empty
/// window; no input is rejected.
pub fn normalize_range(from_page: usize, to_page: Option<usize>, total: usize) -> (w: Window)
    ensures
        w.start == window_start(from_page, total),
        w.end == window_end(w.start, to_page, total),
        w.wf(total as nat),
{
    let start: usize = if from_page == 0 {
        0
    } else if from_page - 1 <= total {
        from_page - 1
    } else {
        total
    };
    let end: usize = match to_page {
        None => total,
        Some(t) => if t < start {
            start
        } else if t <= total {
            t
        } else {
            total
        },
    };
    Window { start, end }
}

/// Range clamping: whatever 1-based bounds the caller supplies, the
/// normalized window lies within `[0, total]` with its start no later than
/// its end.
pub proof fn lemma_window_in_bounds(from_page: usize, to_page: Option<usize>, total: usize)
    ensures
        ({
            let s = window_start(from_page, total);
            let e = window_end(s, to_page, total);
            s <= e <= total
        }),
{
}

/// Convert an explicit 1-based page number into a 0-based index, or fail
/// when it names no page of a document with `total` pages. Unlike range
/// bounds, an explicit single-page request is rejected, not clamped.
pub fn page_index_for(page: usize, total: usize) -> (r: Result<usize, ToolError>)
    ensures
        r is Ok <==> 1 <= page <= total,
        r matches Ok(i) ==> i == page - 1,
        r matches Err(e) ==> e matches ToolError::PageOutOfRange(m) && m@
            == page_out_of_range_message(page as nat, total as nat),
{
    if 1 <= page && page <= total {
        Ok(page - 1)
    } else {
        Err(page_out_of_range_error(page, total))
    }
}

} // verus!
