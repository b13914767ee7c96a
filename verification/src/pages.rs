//! Paging through a run's dataset: how many items to ask for next, where the
//! next page starts, and when to stop.

use vstd::prelude::*;

use crate::error::Error;
use crate::run::RunHandle;
use crate::text::{append, decimal, decimal_text, owned};
use crate::time::TimeSpan;

verus! {

/// The most items asked for in one page.
pub const MAX_PAGE: usize = 1000;

/// How many more items may be downloaded after `offset` of them: without a
/// cap, any number (`usize::MAX`); with one, what is left of it.
pub open spec fn items_left(cap: Option<usize>, offset: nat) -> nat {
    match cap {
        None => usize::MAX as nat,
        Some(c) => if offset <= c {
            (c - offset) as nat
        } else {
            0
        },
    }
}

/// The size of the page asked for after `offset` items: what is left, but
/// at most `MAX_PAGE`.
pub open spec fn page_limit(cap: Option<usize>, offset: nat) -> nat {
    let left = items_left(cap, offset);
    if left < MAX_PAGE {
        left
    } else {
        MAX_PAGE as nat
    }
}

/// The URL of the page of `limit` items from `offset` of the dataset.
pub open spec fn page_url(base: Seq<char>, dataset_id: Seq<char>, limit: nat, offset: nat) -> Seq<
    char,
> {
    base + "/datasets/"@ + dataset_id + "/items?format=json&clean=true&limit="@ + decimal(limit)
        + "&offset="@ + decimal(offset)
}

/// How many of the `received` items of a page that came after `offset`
/// items are kept: all of them, but with a cap never more than what is
/// left of it.
pub open spec fn kept_items(cap: Option<usize>, offset: nat, received: nat) -> nat {
    let left = items_left(cap, offset);
    if received < left {
        received
    } else {
        left
    }
}

/// The items a download that has `offset` items so far ends up adding when
/// the pages it asks for come back as `pages`, in turn, and the wait limit
/// is not reached: each page is asked for with `page_limit`, its items are
/// kept up to what is left of the cap (all of them without a cap), the next
/// page starts after the kept items, and the download stops after a short
/// page or when the cap is reached (or when `pages` runs out).
pub open spec fn collected<A>(cap: Option<usize>, offset: nat, pages: Seq<Seq<A>>) -> Seq<A>
    decreases pages.len(),
{
    let limit = page_limit(cap, offset);
    if limit == 0 || pages.len() == 0 {
        Seq::empty()
    } else {
        let p = pages[0];
        let kept = kept_items(cap, offset, p.len());
        let keep = p.take(kept as int);
        if p.len() < limit {
            keep
        } else {
            keep + collected(cap, offset + kept, pages.drop_first())
        }
    }
}

/// The answer to a request for `limit` items from `offset` of the dataset
/// `d`: its items from `offset` on, at most `limit` of them.
pub open spec fn dataset_page<A>(d: Seq<A>, offset: nat, limit: nat) -> Seq<A> {
    let end = if offset + limit < d.len() {
        offset + limit
    } else {
        d.len() as nat
    };
    if offset <= end {
        d.subrange(offset as int, end as int)
    } else {
        Seq::empty()
    }
}

/// The items a download that has `offset` items so far ends up adding when
/// every page is answered from the dataset `d` and the wait limit is not
/// reached.
pub open spec fn download<A>(cap: Option<usize>, d: Seq<A>, offset: nat) -> Seq<A>
    decreases d.len() - offset,
{
    let limit = page_limit(cap, offset);
    if limit == 0 {
        Seq::empty()
    } else {
        let p = dataset_page(d, offset, limit);
        let kept = kept_items(cap, offset, p.len());
        let keep = p.take(kept as int);
        if p.len() < limit {
            keep
        } else {
            keep + download(cap, d, offset + kept)
        }
    }
}

/// Where the download of a dataset stands: the number of items received so
/// far, which is also the offset of the next page.
#[derive(Debug, PartialEq, Eq, Structural)]
pub struct PageCursor {
    offset: usize,
}

impl View for PageCursor {
    type V = nat;

    closed spec fn view(&self) -> nat {
        self.offset as nat
    }
}

/// What to do next while downloading a dataset.
pub enum PageStep {
    /// Ask for `limit` items at the cursor's offset from `url`.
    Fetch { limit: usize, url: String },
    /// The cap is reached: the download is complete.
    Done,
    /// The wait limit is used up (`Error::Timeout`).
    TimedOut(Error),
}

impl PageCursor {
    /// The cursor before the first page.
    pub fn start() -> (r: PageCursor)
        ensures
            r@ == 0,
    {
        PageCursor { offset: 0 }
    }

    /// The number of items received so far.
    pub fn offset(&self) -> (r: usize)
        ensures
            r as nat == self@,
    {
        self.offset
    }
}

impl<'c> RunHandle<'c> {
    /// The URL of the page of `limit` items from `offset` of the run's
    /// dataset.
    pub fn dataset_page_url(&self, limit: usize, offset: usize) -> (r: String)
        ensures
            r@ == page_url(
                self.spec_client()@.api_base,
                self.spec_dataset_id(),
                limit as nat,
                offset as nat,
            ),
    {
        let mut u = owned(self.client().get_api_base());
        append(&mut u, "/datasets/");
        append(&mut u, self.get_dataset_id());
        append(&mut u, "/items?format=json&clean=true&limit=");
        let l = decimal_text(limit as u64);
        append(&mut u, l.as_str());
        append(&mut u, "&offset=");
        let o = decimal_text(offset as u64);
        append(&mut u, o.as_str());
        u
    }

    /// Records a page of `received` items that was asked for with `limit`
    /// at the cursor. Gives how many of its first items to keep: all of
    /// them, but with a cap never more than what is left of it, so a page
    /// that holds more than was asked for cannot push the download past the
    /// cap. Gives also where the download goes on: a short page ends it
    /// (`None`); a full one moves the cursor past the kept items.
    pub fn page_received(&self, cursor: PageCursor, limit: usize, received: usize) -> (r: (
        usize,
        Option<PageCursor>,
    ))
        requires
            cursor@ + received <= usize::MAX,
        ensures
            r.0 as nat == kept_items(self.spec_client()@.max_items, cursor@, received as nat),
            received < limit <==> r.1 is None,
            r.1 matches Some(c) ==> c@ == cursor@ + r.0,
    {
        let left: usize = match self.client().get_max_items() {
            Some(cap) => cap.saturating_sub(cursor.offset),
            None => usize::MAX,
        };
        let keep = if received < left {
            received
        } else {
            left
        };
        if received < limit {
            (keep, None)
        } else {
            (keep, Some(PageCursor { offset: cursor.offset + keep }))
        }
    }

    /// What to do next while downloading the dataset, `elapsed` after the
    /// download began: stop with `Timeout` once the wait limit is used up;
    /// stop when the cap on items is reached; otherwise ask for the next
    /// page, of what is left of the cap but at most `MAX_PAGE` items.
    pub fn next_page(&self, cursor: &PageCursor, elapsed: TimeSpan) -> (r: PageStep)
        ensures
            r matches PageStep::Fetch { limit, .. } ==> 1 <= limit <= 1000,
            elapsed@ < self.spec_client()@.max_wait@ && (self.spec_client()@.max_items matches Some(
                c,
            ) ==> cursor@ + 1000 <= c) ==> (r matches PageStep::Fetch { limit, .. } && limit
                == 1000),
            self.spec_client()@.max_wait@ <= elapsed@ ==> (r matches PageStep::TimedOut(
                Error::Timeout(w),
            ) && w == self.spec_client()@.max_wait),
            elapsed@ < self.spec_client()@.max_wait@ && page_limit(
                self.spec_client()@.max_items,
                cursor@,
            ) == 0 ==> r is Done,
            elapsed@ < self.spec_client()@.max_wait@ && page_limit(
                self.spec_client()@.max_items,
                cursor@,
            ) > 0 ==> (r matches PageStep::Fetch { limit, url } && limit == page_limit(
                self.spec_client()@.max_items,
                cursor@,
            ) && url@ == page_url(
                self.spec_client()@.api_base,
                self.spec_dataset_id(),
                limit as nat,
                cursor@,
            )),
    {
        let wait = self.client().get_max_wait();
        if wait.le(&elapsed) {
            return PageStep::TimedOut(Error::Timeout(wait));
        }
        let left: usize = match self.client().get_max_items() {
            Some(cap) => cap.saturating_sub(cursor.offset),
            None => usize::MAX,
        };
        if left == 0 {
            return PageStep::Done;
        }
        let limit = if left < MAX_PAGE {
            left
        } else {
            MAX_PAGE
        };
        let url = self.dataset_page_url(limit, cursor.offset);
        PageStep::Fetch { limit, url }
    }
}

} // verus!
