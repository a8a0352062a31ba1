//! Tool-level errors. Every error carries a human-readable diagnostic that is
//! returned to the remote caller as an error payload, never as a
//! protocol-level fault.

use vstd::prelude::*;
use crate::strfmt::dec_rep;
use crate::strfmt::usize_to_decimal;

verus! {

/// The failure taxonomy of the reading operations.
#[derive(Debug)]
pub enum ToolError {
    /// The reference does not resolve to an existing file under any permitted
    /// root, or it carries a URI scheme other than `file`.
    NotFound(String),
    /// The reference resolves to a real file outside every permitted root.
    PermissionDenied(String),
    /// Some other filesystem failure while resolving or reading.
    Io(String),
    /// The document engine could not parse the file.
    Document(String),
    /// An explicit single-page request named a page outside `1..=total`.
    PageOutOfRange(String),
    /// A required progress notification could not be delivered.
    Transport(String),
}

impl ToolError {
    /// The diagnostic carried by the error.
    pub open spec fn message_view(&self) -> Seq<char> {
        match self {
            ToolError::NotFound(m) => m@,
            ToolError::PermissionDenied(m) => m@,
            ToolError::Io(m) => m@,
            ToolError::Document(m) => m@,
            ToolError::PageOutOfRange(m) => m@,
            ToolError::Transport(m) => m@,
        }
    }

    /// The diagnostic carried by the error.
    pub fn message(&self) -> (r: &str)
        ensures
            r@ == self.message_view(),
    {
        match self {
            ToolError::NotFound(m) => m.as_str(),
            ToolError::PermissionDenied(m) => m.as_str(),
            ToolError::Io(m) => m.as_str(),
            ToolError::Document(m) => m.as_str(),
            ToolError::PageOutOfRange(m) => m.as_str(),
            ToolError::Transport(m) => m.as_str(),
        }
    }
}

/// The diagnostic for a single-page request outside `1..=total`.
pub open spec fn page_out_of_range_message(page: nat, total: nat) -> Seq<char> {
    "Page number "@ + dec_rep(page) + " is out of range (1–"@ + dec_rep(total) + ")"@
}

/// Build the out-of-range error for a 1-based page number against a page
/// count.
pub fn page_out_of_range_error(page: usize, total: usize) -> (e: ToolError)
    ensures
        e matches ToolError::PageOutOfRange(m) && m@ == page_out_of_range_message(
            page as nat,
            total as nat,
        ),
{
    let mut m = String::from_str("Page number ");
    let p = usize_to_decimal(page);
    m.append(p.as_str());
    m.append(" is out of range (1–");
    let t = usize_to_decimal(total);
    m.append(t.as_str());
    m.append(")");
    proof {
        assert(m@ =~= page_out_of_range_message(page as nat, total as nat));
    }
    ToolError::PageOutOfRange(m)
}

} // verus!
