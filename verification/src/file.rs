//! A file of the platform: an attachment of an assignment, or something
//! that was handed in.

use vstd::prelude::*;
use crate::date::LocalInstant;
use crate::text::chars_of;

verus! {

/// A file as a page lists it. Only a file that was handed in has an `id`
/// and a `date`; only such a file can be deleted.
#[derive(Clone, Debug, PartialEq, Eq)]
pub struct File {
    pub name: String,
    pub description: String,
    pub id: Option<String>,
    pub download_querypath: Option<String>,
    pub date: Option<LocalInstant>,
}

/// A file, with its texts as sequences of characters.
pub struct FileView {
    pub name: Seq<char>,
    pub description: Seq<char>,
    pub id: Option<Seq<char>>,
    pub download_querypath: Option<Seq<char>>,
    pub date: Option<LocalInstant>,
}

impl View for File {
    type V = FileView;

    open spec fn view(&self) -> FileView {
        FileView {
            name: self.name@,
            description: self.description@,
            id: chars_of(self.id),
            download_querypath: chars_of(self.download_querypath),
            date: self.date,
        }
    }
}

/// The views of a list of files, in order.
pub open spec fn file_views(files: Seq<File>) -> Seq<FileView> {
    files.map_values(|f: File| f@)
}

} // verus!
