use vstd::prelude::*;

verus! {

/// Every caller-visible failure of the paste core, one variant per outcome.
#[derive(Clone, Copy, Debug, PartialEq, Eq, Structural)]
pub enum PasteError {
    /// The identifier is malformed; it never reaches storage.
    Validation,
    /// The identifier is well formed but nothing is stored under it.
    NotFound,
    /// The storage layer failed for a reason other than absence.
    IoFailure,
    /// A submission carried a text field with no content.
    EmptyContent,
    /// A submission carried no text field at all.
    MissingField,
}

/// The HTTP status that each failure maps to at the transport boundary:
/// malformed input is 400, absence is 404, storage failure is 500.
pub fn status_code(e: PasteError) -> (r: u16)
    ensures
        e == PasteError::Validation ==> r == 400,
        e == PasteError::NotFound ==> r == 404,
        e == PasteError::IoFailure ==> r == 500,
        e == PasteError::EmptyContent ==> r == 400,
        e == PasteError::MissingField ==> r == 400,
{
    match e {
        PasteError::Validation => 400,
        PasteError::NotFound => 404,
        PasteError::IoFailure => 500,
        PasteError::EmptyContent => 400,
        PasteError::MissingField => 400,
    }
}

} // verus!
