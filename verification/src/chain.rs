//! Lazy traversal of one cluster chain through a FAT.
//!
//! Starting from a given cluster, the walker follows the "next cluster"
//! links. Each step yields the cluster it stands on; before committing to a
//! step it has already looked up the entry of the cluster ahead, so a chain
//! whose link leads to a bad cluster surfaces an error naming the cluster
//! that held the link, and then ends. A chain whose very first entry is the
//! terminator yields nothing at all.

use vstd::prelude::*;
use crate::fat::{Fat, FatEntry, is_bad_value, is_last_value};

verus! {

/// A non-restartable walk over one cluster chain of `f`.
#[derive(Clone)]
pub struct ClusterChain<'a> {
    f: &'a Fat,
    prev: u32,
    cur: u32,
    e: FatEntry,
}

impl<'a> ClusterChain<'a> {
    /// The table being walked.
    pub closed spec fn spec_fat(&self) -> Seq<u32> {
        self.f@
    }

    /// The cluster yielded by the last successful step (the starting cluster
    /// before any step).
    pub closed spec fn spec_prev(&self) -> u32 {
        self.prev
    }

    /// The cluster the walk stands on.
    pub closed spec fn spec_cur(&self) -> u32 {
        self.cur
    }

    /// The FAT entry of the cluster the walk stands on.
    pub closed spec fn spec_entry(&self) -> u32 {
        self.e@
    }

    /// Starts a walk at cluster `start`, which must be a meaningful cluster
    /// address within the table.
    pub fn new(f: &'a Fat, start: u32) -> (r: Self)
        requires
            2 <= start,
            start < f@.len(),
        ensures
            r.spec_fat() == f@,
            r.spec_prev() == start,
            r.spec_cur() == start,
            r.spec_entry() == f@[start as int],
    {
        let e = f.entry(FatEntry::from_val(start));
        ClusterChain { f, prev: start, cur: start, e }
    }

    /// One traversal step.
    ///
    /// If the entry of the current cluster is the terminator, the sequence
    /// has ended and nothing is yielded. If it is the bad-cluster sentinel,
    /// the step yields an error carrying the cluster whose link led here,
    /// and the walk ends. Otherwise the step yields the current cluster and
    /// advances along the link, looking up the entry of the next cluster.
    pub fn next(&mut self) -> (r: Option<Result<FatEntry, FatEntry>>)
        requires
            !is_last_value(old(self).spec_entry()) && !is_bad_value(old(self).spec_entry())
                ==> 2 <= old(self).spec_entry() && old(self).spec_entry() < old(
                self,
            ).spec_fat().len(),
        ensures
            final(self).spec_fat() == old(self).spec_fat(),
            is_last_value(old(self).spec_entry()) ==> {
                &&& r is None
                &&& *final(self) == *old(self)
            },
            !is_last_value(old(self).spec_entry()) && is_bad_value(old(self).spec_entry()) ==> {
                &&& r matches Some(Err(fe)) && fe@ == old(self).spec_prev()
                &&& is_last_value(final(self).spec_entry())
                &&& final(self).spec_prev() == old(self).spec_prev()
                &&& final(self).spec_cur() == old(self).spec_cur()
            },
            !is_last_value(old(self).spec_entry()) && !is_bad_value(old(self).spec_entry()) ==> {
                &&& r matches Some(Ok(fe)) && fe@ == old(self).spec_cur()
                &&& final(self).spec_prev() == old(self).spec_cur()
                &&& final(self).spec_cur() == old(self).spec_entry()
                &&& final(self).spec_entry() == old(self).spec_fat()[old(self).spec_entry() as int]
            },
    {
        let c = self.e;
        if c.is_last() {
            None
        } else if c.is_bad() {
            self.e = FatEntry::from_val(0xFF_FF_FF_FF);
            Some(Err(FatEntry::from_val(self.prev)))
        } else {
            let cur = self.cur;
            self.prev = cur;
            self.cur = c.val();
            self.e = self.f.entry(c);
            Some(Ok(FatEntry::from_val(cur)))
        }
    }
}

} // verus!
