//! Why a page could not be read.

use vstd::prelude::*;
use crate::date::DateError;

verus! {

/// The part of a page that an error is about.
#[derive(Clone, Copy, Debug, PartialEq, Eq, Structural)]
pub enum Field {
    Name,
    Schedule,
    StartTime,
    EndTime,
    Attachment,
    SubmittedFiles,
    SubmissionId,
    SubmissionDate,
    Download,
    DeleteForm,
    UploadButton,
    UploadForm,
}

/// Why a page could not be read as what it should be.
#[derive(Clone, Copy, Debug, PartialEq, Eq, Structural)]
pub enum ExtractionError {
    /// A block, a row, an element or an attribute that must be there is not.
    StructuralMismatch(Field),
    /// The block is there, but none of its rows carries an accepted label.
    LocalizationMismatch(Field),
    /// A text that must be a date is none.
    DateGrammar(Field, DateError),
}

} // verus!
