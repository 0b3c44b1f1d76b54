//! Typed access to the exercises of an ILIAS learning platform: the pages the
//! platform renders are read into assignments, files and submissions, and the
//! form requests that delete or upload submitted files are assembled.

use vstd::prelude::*;

pub mod address;
pub mod clock;
pub mod date;
pub mod dom;
pub mod element;
pub mod error;
pub mod exercise;
pub mod file;
pub mod local_file;
pub mod page;
pub mod querypath;
pub mod reference;
pub mod request;
pub mod text;

pub use crate::date::parse_date;
pub use crate::element::IliasElement;
pub use crate::querypath::Querypath;
pub use crate::reference::Reference;

verus! {

/// Where the platform lives.
pub const ILIAS_URL: &'static str = "https://ilias.studium.kit.edu";

} // verus!
