//! The directory's store as a value: the contract that the persistent store
//! is held to.
//!
//! The store keeps at most one listing for each URL. A write of a verified
//! pair inserts a listing if the URL is new, and otherwise updates the
//! category and the timestamp of the listing that has it: the last verified
//! submission wins. Nothing here removes a listing.

use vstd::prelude::*;
use crate::models::{Listing, ListingView, NewListing, NewListingView, PgTimestamp};
use crate::text::same_text;

verus! {

/// No two rows share a URL.
pub open spec fn urls_distinct(rows: Seq<ListingView>) -> bool {
    forall|i: int, j: int|
        0 <= i < rows.len() && 0 <= j < rows.len() && i != j ==> (#[trigger] rows[i]).url != (
        #[trigger] rows[j]).url
}

/// Some row has this URL.
pub open spec fn holds_url(rows: Seq<ListingView>, url: Seq<char>) -> bool {
    exists|i: int| 0 <= i < rows.len() && (#[trigger] rows[i]).url == url
}

/// The place of a row with this URL, where there is one.
pub open spec fn row_of(rows: Seq<ListingView>, url: Seq<char>) -> int {
    choose|i: int| 0 <= i < rows.len() && (#[trigger] rows[i]).url == url
}

/// The listing that a write of `new` at the instant `now` leaves.
pub open spec fn written(new: NewListingView, now: int) -> ListingView {
    ListingView { category: new.category, url: new.url, timestamp: now }
}

/// The rows after a write: the row with the URL replaced in place, or a new
/// row added at the end.
pub open spec fn upserted(rows: Seq<ListingView>, new: NewListingView, now: int) -> Seq<
    ListingView,
> {
    if holds_url(rows, new.url) {
        rows.update(row_of(rows, new.url), written(new, now))
    } else {
        rows.push(written(new, now))
    }
}

/// The listings of a directory, held in memory.
pub struct Directory {
    rows: Vec<Listing>,
}

impl View for Directory {
    type V = Seq<ListingView>;

    closed spec fn view(&self) -> Seq<ListingView> {
        Seq::new(self.rows@.len(), |i: int| self.rows@[i]@)
    }
}

impl Directory {
    #[verifier::type_invariant]
    spec fn one_row_per_url(&self) -> bool {
        urls_distinct(self@)
    }

    /// An empty directory.
    pub fn new() -> (d: Directory)
        ensures
            d@ == Seq::<ListingView>::empty(),
    {
        let d = Directory { rows: Vec::new() };
        assert(d@ =~= Seq::<ListingView>::empty());
        d
    }

    /// The number of listings.
    pub fn len(&self) -> (n: usize)
        ensures
            n == self@.len(),
    {
        self.rows.len()
    }

    /// The listing at place `i`, in the order of first submission.
    pub fn get(&self, i: usize) -> (r: Option<&Listing>)
        ensures
            match r {
                Some(l) => i < self@.len() && l@ == self@[i as int],
                None => i >= self@.len(),
            },
    {
        if i < self.rows.len() {
            Some(&self.rows[i])
        } else {
            None
        }
    }

    /// The place of the listing with this URL.
    fn position(&self, url: &str) -> (r: Option<usize>)
        ensures
            urls_distinct(self@),
            match r {
                Some(i) => i < self@.len() && self@[i as int].url == url@ && i == row_of(
                    self@,
                    url@,
                ),
                None => !holds_url(self@, url@),
            },
    {
        proof {
            use_type_invariant(self);
        }
        let mut i: usize = 0;
        while i < self.rows.len()
            invariant
                i <= self.rows@.len(),
                urls_distinct(self@),
                forall|j: int| 0 <= j < i ==> (#[trigger] self@[j]).url != url@,
            decreases self.rows@.len() - i,
        {
            if same_text(self.rows[i].url.as_str(), url) {
                assert(self@[i as int].url == url@);
                return Some(i);
            }
            i += 1;
        }
        None
    }

    /// The listing with this URL. There is at most one.
    pub fn find(&self, url: &str) -> (r: Option<&Listing>)
        ensures
            urls_distinct(self@),
            match r {
                Some(l) => holds_url(self@, url@) && l@ == self@[row_of(self@, url@)] && l@.url
                    == url@,
                None => !holds_url(self@, url@),
            },
    {
        match self.position(url) {
            Some(i) => Some(&self.rows[i]),
            None => None,
        }
    }

    /// Writes a verified pair at the instant `now`: inserts a listing if the
    /// URL is new, and otherwise updates the listing that has it. Returns
    /// whether there was one.
    pub fn upsert(&mut self, new: NewListing, now: PgTimestamp) -> (conflict: bool)
        ensures
            final(self)@ == upserted(old(self)@, new@, now@),
            conflict == holds_url(old(self)@, new@.url),
            urls_distinct(old(self)@),
            urls_distinct(final(self)@),
    {
        let ghost before = self@;
        let found = self.position(new.url.as_str());
        proof {
            lemma_upsert_keeps_urls_distinct(before, new@, now@);
        }
        let listing = Listing { category: new.category, url: new.url, timestamp: now };
        // The rows leave the directory while they are changed: it is empty
        // meanwhile, and whole again once they are back.
        let mut rows: Vec<Listing> = Vec::new();
        core::mem::swap(&mut self.rows, &mut rows);
        assert(before =~= Seq::new(rows@.len(), |i: int| rows@[i]@));
        let conflict = match found {
            Some(i) => {
                rows.set(i, listing);
                true
            },
            None => {
                rows.push(listing);
                false
            },
        };
        assert(upserted(before, new@, now@) =~= Seq::new(rows@.len(), |i: int| rows@[i]@));
        core::mem::swap(&mut self.rows, &mut rows);
        conflict
    }
}

/// A write keeps one row per URL.
pub proof fn lemma_upsert_keeps_urls_distinct(rows: Seq<ListingView>, new: NewListingView, now: int)
    requires
        urls_distinct(rows),
    ensures
        urls_distinct(upserted(rows, new, now)),
{
    let after = upserted(rows, new, now);
    if holds_url(rows, new.url) {
        assert forall|i: int, j: int|
            0 <= i < after.len() && 0 <= j < after.len() && i != j implies (#[trigger] after[i]).url
            != (#[trigger] after[j]).url by {
            assert(rows[i].url != rows[j].url);
        }
    } else {
        assert forall|i: int, j: int|
            0 <= i < after.len() && 0 <= j < after.len() && i != j implies (#[trigger] after[i]).url
            != (#[trigger] after[j]).url by {
            if i < rows.len() && j < rows.len() {
                assert(rows[i].url != rows[j].url);
            } else if i < rows.len() {
                assert(rows[i].url != new.url);
            } else {
                assert(rows[j].url != new.url);
            }
        }
    }
}

/// After a write the URL has exactly one row: the pair written, stamped with
/// the instant of the write. A write adds a row only for a URL that had none,
/// and leaves every other row as it was.
pub proof fn lemma_upsert_stores_one_row(rows: Seq<ListingView>, new: NewListingView, now: int)
    requires
        urls_distinct(rows),
    ensures
        ({
            let after = upserted(rows, new, now);
            let at = row_of(after, new.url);
            &&& holds_url(after, new.url)
            &&& after[at] == written(new, now)
            &&& forall|i: int| 0 <= i < after.len() && (#[trigger] after[i]).url == new.url ==> i == at
            &&& after.len() == rows.len() + (if holds_url(rows, new.url) { 0int } else { 1int })
            &&& forall|i: int|
                0 <= i < rows.len() && (#[trigger] rows[i]).url != new.url ==> after[i] == rows[i]
        }),
{
    let after = upserted(rows, new, now);
    lemma_upsert_keeps_urls_distinct(rows, new, now);
    let k = if holds_url(rows, new.url) {
        row_of(rows, new.url)
    } else {
        rows.len() as int
    };
    assert(after[k].url == new.url);
    let at = row_of(after, new.url);
    assert(at == k) by {
        if at != k {
            assert(after[at].url != after[k].url);
        }
    }
    assert forall|i: int| 0 <= i < after.len() && (#[trigger] after[i]).url == new.url implies i
        == at by {
        if i != at {
            assert(after[i].url != after[at].url);
        }
    }
}

/// The last verified submission wins. Writing a URL a second time, under the
/// same category or another, leaves what writing it once with the later pair
/// would have left: one row for the URL, with the later category.
pub proof fn lemma_upsert_again_replaces(
    rows: Seq<ListingView>,
    url: Seq<char>,
    earlier: Seq<char>,
    later: Seq<char>,
    first_at: int,
    second_at: int,
)
    requires
        urls_distinct(rows),
    ensures
        ({
            let first = NewListingView { category: earlier, url };
            let second = NewListingView { category: later, url };
            let once = upserted(rows, first, first_at);
            let twice = upserted(once, second, second_at);
            &&& twice == upserted(rows, second, second_at)
            &&& twice.len() == once.len()
            &&& holds_url(once, url)
        }),
{
    let first = NewListingView { category: earlier, url };
    let second = NewListingView { category: later, url };
    let once = upserted(rows, first, first_at);
    lemma_upsert_stores_one_row(rows, first, first_at);
    let at = row_of(once, url);
    let twice = upserted(once, second, second_at);
    if holds_url(rows, url) {
        let k = row_of(rows, url);
        assert(once[k].url == url);
        assert(at == k);
    } else {
        assert(once[rows.len() as int].url == url);
        assert(at == rows.len());
    }
    assert(twice =~= upserted(rows, second, second_at));
}

} // verus!
