//! The paging envelope and the pagination helper.
//!
//! A [`Pager`] turns a sequence of paging envelopes into a continuous,
//! forward-only sequence of items.  It performs no fetch itself: when
//! the current page is exhausted and the server reported a next cursor,
//! it hands the cursor out as a [`PagerStep::Fetch`] request, and the
//! caller answers with [`Pager::supply_page`].  No fetch is ever
//! requested once the next cursor is absent.

use vstd::prelude::*;

verus! {

/// Paging envelope: one page of results plus the cursors to the
/// adjacent pages, as the server reports them.
#[derive(Clone, Debug, PartialEq, Eq)]
pub struct Page<T> {
    pub href: String,
    pub items: Vec<T>,
    pub limit: u32,
    pub next: Option<String>,
    pub offset: u32,
    pub previous: Option<String>,
    pub total: u32,
}

/// What the pagination helper asks of its caller next.
pub enum PagerStep<T> {
    /// The next item of the sequence, in page order.
    Item(T),
    /// The current page is exhausted and the server reported this next
    /// cursor: fetch it and answer with `supply_page`.
    Fetch(String),
    /// The current page is exhausted and no next cursor exists: the
    /// sequence has ended.
    Done,
}

/// A forward-only, non-restartable walk over paged results.
pub struct Pager<T> {
    /// Items of the current page not yet handed out, front first.
    pub items: Vec<T>,
    /// The next-page cursor the server reported with the current page.
    pub next: Option<String>,
    /// Whether a fetch request is outstanding.
    pub awaiting: bool,
    /// How many fetch requests have been handed out.
    pub fetches: u64,
    /// Every item handed out so far, in order.
    pub emitted: Ghost<Seq<T>>,
}

impl<T> Pager<T> {
    /// Starts a walk on the first page, which the caller already
    /// fetched.
    pub fn new(first: Page<T>) -> (r: Pager<T>)
        ensures
            r.items@ == first.items@,
            r.next == first.next,
            !r.awaiting,
            r.fetches == 0,
            r.emitted@ == Seq::<T>::empty(),
    {
        Pager {
            items: first.items,
            next: first.next,
            awaiting: false,
            fetches: 0,
            emitted: Ghost(Seq::empty()),
        }
    }

    /// Takes one step: hands out the next item while the current page
    /// lasts; asks for exactly one fetch when the page is exhausted and
    /// a next cursor exists; reports the end when no cursor is left.
    pub fn step(&mut self) -> (s: PagerStep<T>)
        requires
            !old(self).awaiting,
            old(self).fetches < u64::MAX,
        ensures
            match s {
                PagerStep::Item(it) => {
                    &&& old(self).items@.len() > 0
                    &&& it == old(self).items@[0]
                    &&& final(self).items@ == old(self).items@.drop_first()
                    &&& final(self).emitted@ == old(self).emitted@.push(it)
                    &&& final(self).next == old(self).next
                    &&& !final(self).awaiting
                    &&& final(self).fetches == old(self).fetches
                },
                PagerStep::Fetch(url) => {
                    &&& old(self).items@.len() == 0
                    &&& (old(self).next matches Some(u) && url@ == u@)
                    &&& final(self).items@ == old(self).items@
                    &&& final(self).emitted@ == old(self).emitted@
                    &&& final(self).next == old(self).next
                    &&& final(self).awaiting
                    &&& final(self).fetches == old(self).fetches + 1
                },
                PagerStep::Done => {
                    &&& old(self).items@.len() == 0
                    &&& old(self).next is None
                    &&& *final(self) == *old(self)
                },
            },
    {
        if self.items.len() > 0 {
            let it = self.items.remove(0);
            self.emitted = Ghost(self.emitted@.push(it));
            PagerStep::Item(it)
        } else {
            match &self.next {
                Some(u) => {
                    let url = u.clone();
                    self.awaiting = true;
                    self.fetches = self.fetches + 1;
                    PagerStep::Fetch(url)
                },
                None => PagerStep::Done,
            }
        }
    }

    /// Answers an outstanding fetch with the page it produced.
    pub fn supply_page(&mut self, page: Page<T>)
        requires
            old(self).awaiting,
        ensures
            final(self).items@ == page.items@,
            final(self).next == page.next,
            !final(self).awaiting,
            final(self).fetches == old(self).fetches,
            final(self).emitted@ == old(self).emitted@,
    {
        self.items = page.items;
        self.next = page.next;
        self.awaiting = false;
    }

    /// How many fetch requests the walk has handed out.
    pub fn fetch_count(&self) -> (r: u64)
        ensures
            r == self.fetches,
    {
        self.fetches
    }
}

} // verus!
