//! What the extraction rules read of a page, as plain values: headed blocks
//! of label and value rows, and table rows of cells. The rules are stated
//! and proved over these; `crate::dom` fills them from a parsed document.

use vstd::prelude::*;
use crate::text::{accepts, is_one_of};

verus! {

/// A column of a row: its text, and of the first element inside it the
/// link address and the form value, where it has them.
#[derive(Clone, Debug, PartialEq, Eq)]
pub struct Cell {
    pub text: String,
    pub href: Option<String>,
    pub value: Option<String>,
}

/// A link inside a value; its address may be missing.
#[derive(Clone, Debug, PartialEq, Eq)]
pub struct Link {
    pub href: Option<String>,
}

/// The value of a property: its text and the first link inside it.
#[derive(Clone, Debug, PartialEq, Eq)]
pub struct PropertyValue {
    pub text: String,
    pub link: Option<Link>,
}

/// A row of a block: the label and the value where the row has them, and
/// its columns in order.
#[derive(Clone, Debug, PartialEq, Eq)]
pub struct PropertyRow {
    pub key: Option<String>,
    pub value: Option<PropertyValue>,
    pub cells: Vec<Cell>,
}

/// A headed block of a page.
#[derive(Clone, Debug, PartialEq, Eq)]
pub struct InfoScreen {
    pub heading: Option<String>,
    /// The text of the first value anywhere in the block.
    pub first_value: Option<String>,
    pub rows: Vec<PropertyRow>,
}

/// The detail page of an assignment.
#[derive(Clone, Debug, PartialEq, Eq)]
pub struct AssignmentPage {
    pub name: Option<String>,
    pub screens: Vec<InfoScreen>,
}

/// The page that lists what was handed in.
#[derive(Clone, Debug, PartialEq, Eq)]
pub struct SubmissionPage {
    /// The rows of the table of files, each with its columns.
    pub rows: Vec<Vec<Cell>>,
    /// Where the form that deletes files is sent.
    pub delete_action: Option<String>,
    /// The address of the upload form, as the upload button gives it.
    pub upload_form: Option<String>,
}

/// The page with the upload form.
#[derive(Clone, Debug, PartialEq, Eq)]
pub struct UploadPage {
    /// Where the upload form is sent.
    pub action: Option<String>,
}

/// What a labelled lookup in a block did not find.
#[derive(Clone, Copy, Debug, PartialEq, Eq, Structural)]
pub enum LookupError {
    /// No row carries one of the accepted labels.
    NoSuchLabel,
    /// The labelled row has no value.
    NoValue,
}

/// Whether a heading or label is there and is one of `names`.
pub open spec fn is_named(text: Option<String>, names: Seq<&str>) -> bool {
    text matches Some(t) && accepts(names, t@)
}

/// The index of the first block at or after `from` that is headed by one of
/// `names`, or the number of blocks.
pub open spec fn first_screen(screens: Seq<InfoScreen>, names: Seq<&str>, from: int) -> int
    decreases screens.len() - from,
{
    if 0 <= from < screens.len() && !is_named(screens[from].heading, names) {
        first_screen(screens, names, from + 1)
    } else {
        from
    }
}

/// The index of the first row at or after `from` that is labelled by one of
/// `labels`, or the number of rows.
pub open spec fn first_row(rows: Seq<PropertyRow>, labels: Seq<&str>, from: int) -> int
    decreases rows.len() - from,
{
    if 0 <= from < rows.len() && !is_named(rows[from].key, labels) {
        first_row(rows, labels, from + 1)
    } else {
        from
    }
}

/// The value of the first row of `screen` that one of `labels` labels.
pub open spec fn labelled_value(screen: InfoScreen, labels: Seq<&str>) -> Result<
    PropertyValue,
    LookupError,
> {
    let i = first_row(screen.rows@, labels, 0);
    if i >= screen.rows@.len() {
        Err(LookupError::NoSuchLabel)
    } else {
        match screen.rows@[i].value {
            Some(value) => Ok(value),
            None => Err(LookupError::NoValue),
        }
    }
}

/// Whether a heading or label is there and is one of `names`.
pub fn option_is_named(text: &Option<String>, names: &[&str]) -> (r: bool)
    ensures
        r == is_named(*text, names@),
{
    match text {
        Some(t) => is_one_of(t.as_str(), names),
        None => false,
    }
}

/// The first block that is headed by one of `names`.
pub fn find_screen<'a>(screens: &'a Vec<InfoScreen>, names: &[&str]) -> (r: Option<&'a InfoScreen>)
    ensures
        match r {
            Some(screen) => first_screen(screens@, names@, 0) < screens@.len() && *screen
                == screens@[first_screen(screens@, names@, 0)],
            None => first_screen(screens@, names@, 0) == screens@.len(),
        },
{
    let mut i: usize = 0;
    while i < screens.len()
        invariant
            i <= screens@.len(),
            first_screen(screens@, names@, 0) == first_screen(screens@, names@, i as int),
        decreases screens@.len() - i,
    {
        if option_is_named(&screens[i].heading, names) {
            return Some(&screens[i]);
        }
        i += 1;
    }
    None
}

/// The value of the first row of `screen` that one of `labels` labels.
pub fn find_value<'a>(screen: &'a InfoScreen, labels: &[&str]) -> (r: Result<
    &'a PropertyValue,
    LookupError,
>)
    ensures
        match r {
            Ok(value) => labelled_value(*screen, labels@) == Ok::<PropertyValue, LookupError>(
                *value,
            ),
            Err(e) => labelled_value(*screen, labels@) == Err::<PropertyValue, LookupError>(e),
        },
{
    let mut i: usize = 0;
    while i < screen.rows.len()
        invariant
            i <= screen.rows@.len(),
            first_row(screen.rows@, labels@, 0) == first_row(screen.rows@, labels@, i as int),
        decreases screen.rows@.len() - i,
    {
        if option_is_named(&screen.rows[i].key, labels) {
            return match &screen.rows[i].value {
                Some(value) => Ok(value),
                None => Err(LookupError::NoValue),
            };
        }
        i += 1;
    }
    Err(LookupError::NoSuchLabel)
}

} // verus!
