//! The requests that change a submission, as plain values: what is sent
//! where. Sending them is the caller's part.

use vstd::prelude::*;

verus! {

/// A form to post: an address and the form's fields in order.
#[derive(Clone, Debug, PartialEq, Eq)]
pub struct FormRequest {
    pub querypath: String,
    pub fields: Vec<(String, String)>,
}

/// A part of a multipart body.
#[derive(Clone, Debug, PartialEq, Eq)]
pub enum Part {
    /// The content of the local file at `path`, sent under the name
    /// `filename`.
    File { field: String, path: String, filename: String },
    /// A text field.
    Text { field: String, value: String },
}

/// A multipart body to post: an address and the parts in order.
#[derive(Clone, Debug, PartialEq, Eq)]
pub struct MultipartRequest {
    pub querypath: String,
    pub parts: Vec<Part>,
}

/// A file was handed to a function that only takes files with an id.
#[derive(Clone, Copy, Debug, PartialEq, Eq, Structural)]
pub struct CallerContractViolation {
    /// The position of the first such file.
    pub index: usize,
}

/// A part, with its texts as sequences of characters.
pub enum PartView {
    File { field: Seq<char>, path: Seq<char>, filename: Seq<char> },
    Text { field: Seq<char>, value: Seq<char> },
}

impl View for Part {
    type V = PartView;

    open spec fn view(&self) -> PartView {
        match *self {
            Part::File { field, path, filename } => PartView::File {
                field: field@,
                path: path@,
                filename: filename@,
            },
            Part::Text { field, value } => PartView::Text { field: field@, value: value@ },
        }
    }
}

/// The fields of a form, with their texts as sequences of characters.
pub open spec fn field_views(fields: Seq<(String, String)>) -> Seq<(Seq<char>, Seq<char>)> {
    fields.map_values(|f: (String, String)| (f.0@, f.1@))
}

/// The parts of a body, with their texts as sequences of characters.
pub open spec fn part_views(parts: Seq<Part>) -> Seq<PartView> {
    parts.map_values(|p: Part| p@)
}

} // verus!
