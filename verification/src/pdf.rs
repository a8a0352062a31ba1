//! The document engine's page count behind a trusted interface.

use vstd::prelude::*;
use crate::error::ToolError;

verus! {

/// The number of pages of the document the engine parses out of the bytes,
/// `None` when the engine cannot parse them. A pure function of the bytes.
pub uninterp spec fn pdf_page_count_of(data: Seq<u8>) -> Option<usize>;

#[verifier::external_type_specification]
#[verifier::external_body]
pub struct ExLoadPdfError(hayro::hayro_syntax::LoadPdfError);

/// Relies on hayro's `Pdf::new` and `Pdf::pages`: the number of pages of the
/// parsed document, a pure function of the document bytes.
#[verifier::external_body]
fn pdf_page_count_raw(data: &Vec<u8>) -> (r: Result<usize, hayro::hayro_syntax::LoadPdfError>)
    ensures
        match pdf_page_count_of(data@) {
            Some(n) => r matches Ok(m) && m == n,
            None => r is Err,
        },
{
    match hayro::hayro_syntax::Pdf::new(data.clone()) {
        Ok(pdf) => Ok(pdf.pages().len()),
        Err(e) => Err(e),
    }
}

/// Relies on the `Debug` implementation of hayro's `LoadPdfError` for the
/// diagnostic text.
#[verifier::external_body]
fn load_error_message(e: &hayro::hayro_syntax::LoadPdfError) -> (r: String) {
    format!("{e:?}")
}

/// The number of pages of a document. Succeeds exactly when the engine can
/// parse the bytes; the failure diagnostic names the loading failure.
pub fn pdf_page_count(data: &Vec<u8>) -> (r: Result<usize, ToolError>)
    ensures
        match pdf_page_count_of(data@) {
            Some(n) => r matches Ok(m) && m == n,
            None => r matches Err(e) && e matches ToolError::Document(m) && m@.len()
                >= "Failed to load PDF: "@.len() && m@.subrange(
                0,
                "Failed to load PDF: "@.len() as int,
            ) == "Failed to load PDF: "@,
        },
{
    match pdf_page_count_raw(data) {
        Ok(n) => Ok(n),
        Err(e) => {
            let mut m = String::from_str("Failed to load PDF: ");
            let detail = load_error_message(&e);
            m.append(detail.as_str());
            proof {
                assert(m@.subrange(0, "Failed to load PDF: "@.len() as int)
                    =~= "Failed to load PDF: "@);
            }
            Err(ToolError::Document(m))
        },
    }
}

} // verus!
