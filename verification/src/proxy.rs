//! The CMS proxy: fetching and normalizing content from the upstream
//! writing/visual service.
//!
//! The upstream serves a listing document and, per slug, a rendered body.
//! The proxy decodes each listing entry independently, drops entries whose
//! metadata does not decode, sorts what remains newest first, and maps
//! upstream statuses onto the error taxonomy.  The HTTP fetches themselves
//! happen outside this crate.

pub mod content;
pub mod gallery;
pub mod listing;
pub mod order;

use vstd::prelude::*;

use crate::dates::OrdinalDate;

verus! {

/// One listing entry from the upstream CMS: a stable slug used as the
/// public identifier, display metadata, and the decoded creation
/// timestamp.
pub struct ContentItem {
    pub name: String,
    pub title: String,
    pub description: String,
    pub created_at: OrdinalDate,
}

impl ContentItem {
    /// The creation timestamp names an existing day.
    pub open spec fn wf(self) -> bool {
        self.created_at.wf()
    }
}

/// One listing entry as the upstream encodes it, in plain values: the
/// slug, the two nine-component time vectors, and the display metadata.
/// Nothing here is validated yet; checking the vectors and decoding the
/// creation date is `listing`'s verified work.
pub struct RawEntry {
    pub name: String,
    pub created_at: Vec<i64>,
    pub updated_at: Vec<i64>,
    pub title: String,
    pub description: String,
}

/// Mathematical model of a raw listing entry.
#[verifier::ext_equal]
pub struct RawEntryModel {
    pub name: Seq<char>,
    pub created_at: Seq<i64>,
    pub updated_at: Seq<i64>,
    pub title: Seq<char>,
    pub description: Seq<char>,
}

impl View for RawEntry {
    type V = RawEntryModel;

    open spec fn view(&self) -> RawEntryModel {
        RawEntryModel {
            name: self.name@,
            created_at: self.created_at@,
            updated_at: self.updated_at@,
            title: self.title@,
            description: self.description@,
        }
    }
}

} // verus!
