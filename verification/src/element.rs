//! What every kind of object on the platform can do: name its kind, build
//! the address of an object from its id, and read itself from a page.

use vstd::prelude::*;
use scraper::ElementRef;
use crate::error::ExtractionError;

verus! {

/// A kind of object on the platform.
pub trait IliasElement: Sized {
    /// The tag of the kind in addresses, where the kind has one.
    fn type_identifier() -> Option<&'static str>;

    /// The address of the object with the id `id`.
    fn querypath_from_id(id: &str) -> Option<String>;

    /// Reads an object from its page. Links to further pages are kept,
    /// not followed.
    fn parse(element: ElementRef<'_>) -> Result<Self, ExtractionError>;
}

} // verus!
