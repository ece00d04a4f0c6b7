//! The deduplicate-or-insert policy: a mentioned track is inserted at the
//! top of the playlist, or moved there if already present, and nothing
//! happens when it already heads the list. The playlist thus stays ordered
//! by most recent mention, with at most one copy per track.

use vstd::prelude::*;
use crate::extract::TrackReference;
use crate::extract::extract;
use crate::extract::extract_spec;
use crate::playlist::PlaylistEntry;
use crate::playlist::entry_matches;
use crate::playlist::find;
use crate::playlist::find_spec;
use crate::playlist::lemma_find_spec_first;
use crate::playlist::snapshot_wf;

verus! {

/// The outcome of one synchronization, consumed by the reply layer.
#[derive(Clone, Copy, Debug, PartialEq, Eq, Structural)]
pub enum SyncOutcome {
    /// The track was already in the playlist, below the top, and was moved
    /// up from `from_position`.
    Moved { from_position: usize },
    /// The track was absent and was inserted at the top.
    Inserted,
    /// The track already heads the playlist; no mutation was issued.
    NoOp,
}

/// The single playlist mutation one synchronization issues, if any: a
/// reorder of a range of existing entries, or an insert of a new track.
#[derive(Debug, PartialEq, Eq)]
pub enum Mutation {
    /// Move `range_length` entries starting at `range_start` so they stand
    /// before the entry currently at `insert_before`.
    Reorder { range_start: usize, range_length: usize, insert_before: usize },
    /// Insert the track `track_id` at `position`.
    Insert { track_id: String, position: usize },
}

/// The outcome the policy owes for reference `rid` against snapshot `s`.
pub open spec fn outcome_spec(s: Seq<PlaylistEntry>, rid: Seq<char>) -> SyncOutcome {
    match find_spec(s, rid) {
        Some(p) => if p == 0 {
            SyncOutcome::NoOp
        } else {
            SyncOutcome::Moved { from_position: p as usize }
        },
        None => SyncOutcome::Inserted,
    }
}

/// The mutation the policy owes: none when the track already heads the
/// playlist; a reorder of exactly the one matching entry to the top when it
/// stands lower; an insert of the referenced track at the top when it is
/// absent.
pub open spec fn expected_mutation(
    s: Seq<PlaylistEntry>,
    rid: Seq<char>,
    m: Option<Mutation>,
) -> bool {
    match find_spec(s, rid) {
        Some(p) => if p == 0 {
            m is None
        } else {
            m matches Some(Mutation::Reorder { range_start, range_length, insert_before })
                && range_start == p && range_length == 1 && insert_before == 0
        },
        None => m matches Some(Mutation::Insert { track_id, position }) && track_id@ == rid
            && position == 0,
    }
}

/// Decides what one mention of `reference` does to the snapshot `entries`:
/// the outcome, and the one mutation to issue — none exactly on `NoOp`.
pub fn apply(entries: &Vec<PlaylistEntry>, reference: &TrackReference) -> (r: (
    SyncOutcome,
    Option<Mutation>,
))
    ensures
        r.0 == outcome_spec(entries@, reference.id@),
        expected_mutation(entries@, reference.id@, r.1),
        (r.1 is Some) <==> !(r.0 is NoOp),
{
    match find(entries, reference) {
        Some(p) => {
            if p == 0 {
                (SyncOutcome::NoOp, None)
            } else {
                (
                    SyncOutcome::Moved { from_position: p },
                    Some(Mutation::Reorder { range_start: p, range_length: 1, insert_before: 0 }),
                )
            }
        },
        None => {
            let id = reference.id.clone();
            (SyncOutcome::Inserted, Some(Mutation::Insert { track_id: id, position: 0 }))
        },
    }
}

pub open spec fn moved_reply() -> Seq<char> {
    "Track already in playlist, moved it to the top."@
}

pub open spec fn inserted_reply() -> Seq<char> {
    "Track added to playlist!"@
}

/// The reply owed to the chat: a text for a move and one for an insert;
/// nothing on `NoOp`, and nothing when the mutation failed — errors the user
/// cannot act on stay silent.
pub open spec fn expected_reply(
    outcome: SyncOutcome,
    mutation_failed: bool,
    r: Option<String>,
) -> bool {
    if mutation_failed {
        r is None
    } else {
        match outcome {
            SyncOutcome::Moved { .. } => r matches Some(s) && s@ == moved_reply(),
            SyncOutcome::Inserted => r matches Some(s) && s@ == inserted_reply(),
            SyncOutcome::NoOp => r is None,
        }
    }
}

pub fn reply_for(outcome: &SyncOutcome, mutation_failed: bool) -> (r: Option<String>)
    ensures
        expected_reply(*outcome, mutation_failed, r),
{
    if mutation_failed {
        return None;
    }
    match outcome {
        SyncOutcome::Moved { .. } => Some(
            "Track already in playlist, moved it to the top.".to_owned(),
        ),
        SyncOutcome::Inserted => Some("Track added to playlist!".to_owned()),
        SyncOutcome::NoOp => None,
    }
}

/// The identifier of each entry, in snapshot order.
pub open spec fn ids_of(s: Seq<PlaylistEntry>) -> Seq<Option<String>> {
    Seq::new(s.len(), |k: int| s[k].id)
}

/// `next` is the snapshot a fresh fetch yields after `m` landed on `prev`:
/// unchanged for no mutation; the moved entry at the top, the rest in their
/// old order, for a reorder; a new entry carrying the inserted identifier at
/// the top for an insert. Positions are dense again in the new snapshot.
pub open spec fn reflects_mutation(
    prev: Seq<PlaylistEntry>,
    m: Option<Mutation>,
    next: Seq<PlaylistEntry>,
) -> bool {
    match m {
        None => next == prev,
        Some(Mutation::Reorder { range_start, range_length, insert_before }) => {
            &&& snapshot_wf(next)
            &&& range_length == 1
            &&& insert_before == 0
            &&& 0 < range_start < prev.len()
            &&& ids_of(next) == seq![prev[range_start as int].id] + ids_of(prev).subrange(
                0,
                range_start as int,
            ) + ids_of(prev).subrange(range_start as int + 1, prev.len() as int)
        },
        Some(Mutation::Insert { track_id, position }) => {
            &&& snapshot_wf(next)
            &&& position == 0
            &&& next.len() == prev.len() + 1
            &&& next[0].id matches Some(s) && s@ == track_id@
            &&& ids_of(next).subrange(1, next.len() as int) == ids_of(prev)
        },
    }
}

/// Idempotence of the policy: once the mutation issued for a mention has
/// landed and a fresh snapshot is taken, a second mention of the same
/// reference is a no-op — the track now heads the playlist, and no further
/// mutation is issued.
pub proof fn lemma_policy_idempotent(
    prev: Seq<PlaylistEntry>,
    rid: Seq<char>,
    m: Option<Mutation>,
    next: Seq<PlaylistEntry>,
)
    requires
        expected_mutation(prev, rid, m),
        reflects_mutation(prev, m, next),
    ensures
        outcome_spec(next, rid) == SyncOutcome::NoOp,
        expected_mutation(next, rid, None),
{
    lemma_find_spec_first(prev, rid);
    match m {
        None => {
            assert(find_spec(prev, rid) == Some(0int));
        },
        Some(Mutation::Reorder { range_start, .. }) => {
            assert(ids_of(next).len() == next.len());
            assert(ids_of(next)[0] == prev[range_start as int].id);
            assert(next[0].id == ids_of(next)[0]);
            assert(entry_matches(prev[range_start as int], rid));
            assert(entry_matches(next[0], rid));
            assert(find_spec(next, rid) == Some(0int));
        },
        Some(Mutation::Insert { track_id, .. }) => {
            assert(track_id@ == rid);
            assert(entry_matches(next[0], rid));
            assert(find_spec(next, rid) == Some(0int));
        },
    }
}

/// Everything one chat message leads to, planned against one snapshot.
pub struct SyncPlan {
    pub reference: TrackReference,
    pub outcome: SyncOutcome,
    pub mutation: Option<Mutation>,
    /// The reply owed to the chat if the mutation (where there is one)
    /// succeeds; a failed mutation sends none.
    pub reply: Option<String>,
}

/// What one chat message does, end to end: `None` when the text carries no
/// recognized reference (the message is silently ignored); otherwise the
/// extracted reference, the outcome against the snapshot, the mutation to
/// issue, and the reply owed on success.
pub fn handle_message(text: &str, entries: &Vec<PlaylistEntry>) -> (r: Option<SyncPlan>)
    ensures
        (r is Some) == (extract_spec(text@) is Some),
        r matches Some(plan) ==> {
            &&& extract_spec(text@) == Some(plan.reference.id@)
            &&& plan.outcome == outcome_spec(entries@, plan.reference.id@)
            &&& expected_mutation(entries@, plan.reference.id@, plan.mutation)
            &&& expected_reply(plan.outcome, false, plan.reply)
        },
{
    match extract(text) {
        Some(reference) => {
            let (outcome, mutation) = apply(entries, &reference);
            let reply = reply_for(&outcome, false);
            Some(SyncPlan { reference, outcome, mutation, reply })
        },
        None => None,
    }
}

} // verus!
