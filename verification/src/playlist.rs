//! The playlist snapshot: entries, lookup by identifier, and the accumulator
//! that folds fixed-size pages of a fetch into one ordered snapshot.

use vstd::prelude::*;
use crate::extract::TrackReference;

verus! {

/// One entry of a playlist snapshot: the track identifier, where the service
/// reports one (deleted or local tracks carry none), and the entry's
/// zero-based position in the snapshot.
pub struct PlaylistEntry {
    pub id: Option<String>,
    pub position: usize,
}

/// The entry carries an identifier and it equals `rid` exactly.
pub open spec fn entry_matches(e: PlaylistEntry, rid: Seq<char>) -> bool {
    e.id matches Some(s) && s@ == rid
}

/// Positions in a snapshot are dense and contiguous from 0, in snapshot
/// order.
pub open spec fn snapshot_wf(s: Seq<PlaylistEntry>) -> bool {
    forall|k: int| 0 <= k < s.len() ==> (#[trigger] s[k]).position == k
}

/// The position of the first entry at or after `i` whose identifier is
/// `rid`.
pub open spec fn find_from(s: Seq<PlaylistEntry>, rid: Seq<char>, i: int) -> Option<int>
    decreases s.len() - i,
{
    if !(0 <= i < s.len()) {
        None
    } else if entry_matches(s[i], rid) {
        Some(i)
    } else {
        find_from(s, rid, i + 1)
    }
}

/// The position of the first entry of `s` whose identifier is `rid`.
pub open spec fn find_spec(s: Seq<PlaylistEntry>, rid: Seq<char>) -> Option<int> {
    find_from(s, rid, 0)
}

proof fn lemma_find_from_first(s: Seq<PlaylistEntry>, rid: Seq<char>, i: int)
    requires
        0 <= i,
    ensures
        match find_from(s, rid, i) {
            Some(p) => i <= p < s.len() && entry_matches(s[p], rid) && (forall|k: int|
                i <= k < p ==> !entry_matches(#[trigger] s[k], rid)),
            None => forall|k: int| i <= k < s.len() ==> !entry_matches(#[trigger] s[k], rid),
        },
    decreases s.len() - i,
{
    if 0 <= i < s.len() && !entry_matches(s[i], rid) {
        lemma_find_from_first(s, rid, i + 1);
    }
}

/// The lookup finds the first matching entry: a returned position carries a
/// matching identifier and nothing before it matches, and `None` means no
/// entry matches at all. An entry without an identifier never matches.
pub proof fn lemma_find_spec_first(s: Seq<PlaylistEntry>, rid: Seq<char>)
    ensures
        match find_spec(s, rid) {
            Some(p) => 0 <= p < s.len() && entry_matches(s[p], rid) && (forall|k: int|
                0 <= k < p ==> !entry_matches(#[trigger] s[k], rid)),
            None => forall|k: int| 0 <= k < s.len() ==> !entry_matches(#[trigger] s[k], rid),
        },
{
    lemma_find_from_first(s, rid, 0);
}

/// Linear scan for the first entry whose identifier equals the reference's;
/// comparison is exact string equality, and entries with no identifier never
/// match. Under a well-formed snapshot the returned index is the entry's
/// position.
pub fn find(entries: &Vec<PlaylistEntry>, reference: &TrackReference) -> (r: Option<usize>)
    ensures
        match r {
            Some(p) => find_spec(entries@, reference.id@) == Some(p as int),
            None => find_spec(entries@, reference.id@) is None,
        },
        (r matches Some(p) && snapshot_wf(entries@)) ==> entries@[r.unwrap() as int].position == r.unwrap(),
{
    let n = entries.len();
    let mut i: usize = 0;
    while i < n
        invariant
            i <= n,
            n == entries@.len(),
            find_from(entries@, reference.id@, 0) == find_from(entries@, reference.id@, i as int),
        decreases n - i,
    {
        let matched = match &entries[i].id {
            Some(s) => *s == reference.id,
            None => false,
        };
        if matched {
            return Some(i);
        }
        i += 1;
    }
    None
}

/// Page size for the paginated playlist read.
pub const PAGE_LIMIT: usize = 100;

/// Accumulates the pages of one playlist fetch into an ordered snapshot,
/// positions numbered from 0 in fetch order. A failed page request ends the
/// fetch with whatever was accumulated so far.
pub struct FetchAccumulator {
    pub entries: Vec<PlaylistEntry>,
    pub offset: usize,
    pub done: bool,
}

impl FetchAccumulator {
    pub open spec fn wf(&self) -> bool {
        snapshot_wf(self.entries@)
    }

    pub fn new() -> (a: FetchAccumulator)
        ensures
            a.wf(),
            a.entries@.len() == 0,
            a.offset == 0,
            !a.done,
    {
        FetchAccumulator { entries: Vec::new(), offset: 0, done: false }
    }

    /// Folds one successfully fetched page into the snapshot: the items are
    /// appended in page order at the next positions. `total` is the track
    /// count the service reported with the page; the fetch is complete once
    /// `offset + PAGE_LIMIT` covers it, and otherwise the offset advances by
    /// one page.
    pub fn absorb_page(&mut self, items: &Vec<Option<String>>, total: usize)
        requires
            old(self).wf(),
            !old(self).done,
            old(self).entries@.len() + items@.len() <= usize::MAX,
        ensures
            final(self).wf(),
            final(self).entries@.len() == old(self).entries@.len() + items@.len(),
            forall|k: int|
                0 <= k < old(self).entries@.len() ==> final(self).entries@[k] == old(
                    self,
                ).entries@[k],
            forall|k: int|
                0 <= k < items@.len() ==> (#[trigger] final(self).entries@[old(
                    self,
                ).entries@.len() + k]).id == items@[k],
            final(self).done == (total <= old(self).offset + PAGE_LIMIT),
            final(self).offset == if total <= old(self).offset + PAGE_LIMIT {
                old(self).offset as int
            } else {
                old(self).offset + PAGE_LIMIT
            },
    {
        let n = items.len();
        let mut idx: usize = 0;
        while idx < n
            invariant
                idx <= n,
                n == items@.len(),
                old(self).entries@.len() + items@.len() <= usize::MAX,
                self.entries@.len() == old(self).entries@.len() + idx,
                snapshot_wf(self.entries@),
                self.offset == old(self).offset,
                self.done == old(self).done,
                forall|k: int|
                    0 <= k < old(self).entries@.len() ==> self.entries@[k] == old(
                        self,
                    ).entries@[k],
                forall|k: int|
                    0 <= k < idx ==> (#[trigger] self.entries@[old(self).entries@.len() + k]).id
                        == items@[k],
            decreases n - idx,
        {
            let id_copy: Option<String> = match &items[idx] {
                Some(s) => Some(s.clone()),
                None => None,
            };
            let pos = self.entries.len();
            self.entries.push(PlaylistEntry { id: id_copy, position: pos });
            idx += 1;
        }
        let done = if total <= PAGE_LIMIT {
            true
        } else {
            total - PAGE_LIMIT <= self.offset
        };
        if done {
            self.done = true;
        } else {
            self.offset = self.offset + PAGE_LIMIT;
        }
    }

    /// A failed page request ends the fetch: the snapshot accumulated so far
    /// stands, as best-effort partial data.
    pub fn absorb_failure(&mut self)
        ensures
            final(self).entries == old(self).entries,
            final(self).offset == old(self).offset,
            final(self).done,
    {
        self.done = true;
    }
}

} // verus!
