//! The records of the directory.

use vstd::prelude::*;

verus! {

/// An instant as the store keeps it: microseconds since the first of January
/// 2000. A plain wrapper that says what the integer means.
#[derive(Debug, Clone, Copy, PartialEq, Eq, Structural, PartialOrd, Ord)]
pub struct PgTimestamp(pub i64);

/// A stored entry of the directory: a URL whose owner claimed a category.
#[derive(Debug, PartialEq, Eq)]
pub struct Listing {
    /// The category the URL is listed under.
    pub category: String,
    /// The canonical URL; no two listings share one.
    pub url: String,
    /// When the listing was last written.
    pub timestamp: PgTimestamp,
}

/// A verified pair that is ready to be written to the store.
#[derive(Debug, PartialEq, Eq)]
pub struct NewListing {
    /// The validated category.
    pub category: String,
    /// The canonical URL: the key of the write.
    pub url: String,
}

/// What a submitter sends: the raw URL.
#[derive(Debug, PartialEq, Eq)]
pub struct NewListingForm {
    /// The URL as typed.
    pub url: String,
}

/// The mathematical value of a [`Listing`].
pub ghost struct ListingView {
    pub category: Seq<char>,
    pub url: Seq<char>,
    pub timestamp: int,
}

/// The mathematical value of a [`NewListing`].
pub ghost struct NewListingView {
    pub category: Seq<char>,
    pub url: Seq<char>,
}

impl View for PgTimestamp {
    type V = int;

    open spec fn view(&self) -> int {
        self.0 as int
    }
}

impl View for Listing {
    type V = ListingView;

    open spec fn view(&self) -> ListingView {
        ListingView { category: self.category@, url: self.url@, timestamp: self.timestamp@ }
    }
}

impl View for NewListing {
    type V = NewListingView;

    open spec fn view(&self) -> NewListingView {
        NewListingView { category: self.category@, url: self.url@ }
    }
}

impl View for NewListingForm {
    type V = Seq<char>;

    open spec fn view(&self) -> Seq<char> {
        self.url@
    }
}

} // verus!
