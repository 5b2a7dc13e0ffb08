//! The durable checkpointer: an append-only log of role-tagged swap states,
//! keyed by swap id.
//!
//! The driver persists the state reached after every successful transition,
//! so the log filtered by one swap id is that swap's persisted state
//! sequence.  The invariant [`Database::wf`] pins the protocol's crash
//! safety at the storage layer: every persisted sequence is a valid path
//! through the owning role's state machine, so recovery can only ever
//! observe a state the machine actually reached.
use crate::alice;
use crate::alice::AliceState;
use crate::bob;
use crate::bob::BobState;
use vstd::prelude::*;

verus! {

/// A persisted swap state, tagged with the role that owns the swap.
#[derive(Clone, Copy, Debug, PartialEq, Eq, Structural)]
pub enum Swap {
    Alice(AliceState),
    Bob(BobState),
}

/// The carried setup state, if any, is well-formed.
pub open spec fn record_wf(record: Swap) -> bool {
    match record {
        Swap::Alice(state) => alice::state_wf(state),
        Swap::Bob(state) => bob::state_wf(state),
    }
}

/// One step of the owning role's machine leads from `prev` to `next`: some
/// event takes the machine there.  A record never changes role.
pub open spec fn can_step(prev: Swap, next: Swap) -> bool {
    match (prev, next) {
        (Swap::Alice(s1), Swap::Alice(s2)) => exists|e: alice::AliceEvent|
            #[trigger] alice::next_state_spec(s1, e) == Result::<AliceState, alice::SwapError>::Ok(s2),
        (Swap::Bob(s1), Swap::Bob(s2)) => exists|e: bob::BobEvent|
            #[trigger] bob::next_state_spec(s1, e) == Result::<BobState, alice::SwapError>::Ok(s2),
        _ => false,
    }
}

/// A valid persisted path: every record is well-formed and every adjacent
/// pair is one transition of the owning role's machine.
pub open spec fn path_ok(h: Seq<Swap>) -> bool {
    &&& forall|k: int| 0 <= k < h.len() ==> record_wf(#[trigger] h[k])
    &&& forall|k: int| 0 < k < h.len() ==> can_step(h[k - 1], #[trigger] h[k])
}

/// The states recorded under `id`, oldest first.
pub open spec fn history_rec(log: Seq<(u128, Swap)>, id: u128) -> Seq<Swap>
    decreases log.len(),
{
    if log.len() == 0 {
        Seq::empty()
    } else {
        let rest = history_rec(log.drop_last(), id);
        if log.last().0 == id {
            rest.push(log.last().1)
        } else {
            rest
        }
    }
}

/// Maps each swap id to the sequence of its persisted states.  Writes are
/// modelled as durable on return; a single owner per swap id is assumed, as
/// the driver enforces.
pub struct Database {
    log: Vec<(u128, Swap)>,
}

impl Database {
    /// The persisted state sequence of swap `id`.
    pub closed spec fn history_of(self, id: u128) -> Seq<Swap> {
        history_rec(self.log@, id)
    }

    /// Every persisted state sequence is a valid path of its state machine.
    pub open spec fn wf(self) -> bool {
        forall|id: u128| path_ok(#[trigger] self.history_of(id))
    }

    /// An empty store.
    pub fn new() -> (r: Database)
        ensures
            r.wf(),
            forall|id: u128| #[trigger] r.history_of(id) == Seq::<Swap>::empty(),
    {
        Database { log: Vec::new() }
    }

    /// Persist `state` as the latest state of swap `id`.  The write must
    /// extend the swap's path: its first record, or one transition past the
    /// last persisted state.
    pub fn insert_latest_state(&mut self, id: u128, state: Swap)
        requires
            old(self).wf(),
            record_wf(state),
            old(self).history_of(id).len() == 0 || can_step(
                old(self).history_of(id).last(),
                state,
            ),
        ensures
            final(self).wf(),
            final(self).history_of(id) == old(self).history_of(id).push(state),
            forall|other: u128| other != id ==> final(self).history_of(other) == old(
                self,
            ).history_of(other),
    {
        let ghost old_log = self.log@;
        self.log.push((id, state));
        proof {
            assert(self.log@.drop_last() =~= old_log);
            assert forall|other: u128| other != id implies history_rec(self.log@, other)
                == history_rec(old_log, other) by {}
            let h_old = history_rec(old_log, id);
            let h_new = history_rec(self.log@, id);
            assert(h_new == h_old.push(state));
            assert forall|id2: u128| path_ok(#[trigger] history_rec(self.log@, id2)) by {
                assert(path_ok(old(self).history_of(id2)));
                if id2 == id {
                    assert forall|k: int| 0 <= k < h_new.len() implies record_wf(
                        #[trigger] h_new[k],
                    ) by {
                        if k < h_old.len() {
                            assert(h_new[k] == h_old[k]);
                        } else {
                            assert(h_new[k] == state);
                        }
                    }
                    assert forall|k: int| 0 < k < h_new.len() implies can_step(
                        h_new[k - 1],
                        #[trigger] h_new[k],
                    ) by {
                        if k < h_old.len() {
                            assert(h_new[k] == h_old[k] && h_new[k - 1] == h_old[k - 1]);
                        } else {
                            assert(h_new[k] == state);
                            if k > 0 {
                                assert(h_new[k - 1] == h_old.last());
                            }
                        }
                    }
                }
            }
        }
    }

    /// The latest persisted state of swap `id`, or `None` if the swap was
    /// never persisted.
    pub fn get_state(&self, id: u128) -> (r: Option<Swap>)
        ensures
            match r {
                Some(state) => self.history_of(id).len() > 0 && state == self.history_of(
                    id,
                ).last(),
                None => self.history_of(id).len() == 0,
            },
    {
        let mut i: usize = self.log.len();
        while i > 0
            invariant
                i <= self.log@.len(),
                forall|j: int| i <= j < self.log@.len() ==> (#[trigger] self.log@[j]).0 != id,
            decreases i,
        {
            i = i - 1;
            if self.log[i].0 == id {
                proof {
                    lemma_history_last(self.log@, id, i as int);
                }
                return Some(self.log[i].1);
            }
        }
        proof {
            lemma_history_len_zero(self.log@, id);
        }
        None
    }

    /// The ids of all persisted swaps, without duplicates.
    pub fn swap_ids(&self) -> (r: Vec<u128>)
        ensures
            forall|k: int| 0 <= k < r@.len() ==> self.history_of(#[trigger] r@[k]).len() > 0,
            forall|id: u128| self.history_of(id).len() > 0 ==> r@.contains(id),
            forall|k1: int, k2: int| 0 <= k1 < k2 < r@.len() ==> r@[k1] != r@[k2],
    {
        let mut ids: Vec<u128> = Vec::new();
        let mut i: usize = 0;
        while i < self.log.len()
            invariant
                i <= self.log@.len(),
                forall|k: int| 0 <= k < ids@.len() ==> self.history_of(#[trigger] ids@[k]).len()
                    > 0,
                forall|j: int| 0 <= j < i ==> ids@.contains((#[trigger] self.log@[j]).0),
                forall|k1: int, k2: int| 0 <= k1 < k2 < ids@.len() ==> ids@[k1] != ids@[k2],
            decreases self.log@.len() - i,
        {
            let id = self.log[i].0;
            let seen = contains_id(&ids, id);
            if !seen {
                proof {
                    lemma_history_present(self.log@, id, i as int);
                }
                let ghost old_ids = ids@;
                ids.push(id);
                proof {
                    assert forall|x: u128| old_ids.contains(x) implies ids@.contains(x) by {
                        let k = choose|k: int| 0 <= k < old_ids.len() && old_ids[k] == x;
                        assert(ids@[k] == x);
                    }
                    assert(ids@[ids@.len() - 1] == id);
                }
            }
            i = i + 1;
        }
        proof {
            assert forall|id: u128| self.history_of(id).len() > 0 implies ids@.contains(id) by {
                lemma_history_some_index(self.log@, id);
            }
        }
        ids
    }
}

/// The persisted state sequence of any swap in a well-formed store is a
/// valid path through the owning role's state machine: recovery can only
/// observe states the machine reached, in the order it reached them.
pub proof fn lemma_history_is_valid_path(db: Database, id: u128)
    requires
        db.wf(),
    ensures
        path_ok(db.history_of(id)),
{
}

/// Whether `ids` holds `id`.
fn contains_id(ids: &Vec<u128>, id: u128) -> (r: bool)
    ensures
        r == ids@.contains(id),
{
    let mut j: usize = 0;
    while j < ids.len()
        invariant
            j <= ids@.len(),
            forall|k: int| 0 <= k < j ==> ids@[k] != id,
        decreases ids@.len() - j,
    {
        if ids[j] == id {
            return true;
        }
        j = j + 1;
    }
    assert(!ids@.contains(id));
    false
}

/// If the last occurrence of `id` in the log is at `i`, the history of `id`
/// ends with that record.
proof fn lemma_history_last(log: Seq<(u128, Swap)>, id: u128, i: int)
    requires
        0 <= i < log.len(),
        log[i].0 == id,
        forall|j: int| i < j < log.len() ==> (#[trigger] log[j]).0 != id,
    ensures
        history_rec(log, id).len() > 0,
        history_rec(log, id).last() == log[i].1,
    decreases log.len(),
{
    if i == log.len() - 1 {
    } else {
        lemma_history_last(log.drop_last(), id, i);
    }
}

/// A log with no record under `id` yields an empty history.
proof fn lemma_history_len_zero(log: Seq<(u128, Swap)>, id: u128)
    requires
        forall|j: int| 0 <= j < log.len() ==> (#[trigger] log[j]).0 != id,
    ensures
        history_rec(log, id).len() == 0,
    decreases log.len(),
{
    if log.len() > 0 {
        lemma_history_len_zero(log.drop_last(), id);
    }
}

/// A record under `id` anywhere in the log makes its history non-empty.
proof fn lemma_history_present(log: Seq<(u128, Swap)>, id: u128, i: int)
    requires
        0 <= i < log.len(),
        log[i].0 == id,
    ensures
        history_rec(log, id).len() > 0,
    decreases log.len(),
{
    if i < log.len() - 1 {
        lemma_history_present(log.drop_last(), id, i);
    }
}

/// A non-empty history comes from some record under `id` in the log.
proof fn lemma_history_some_index(log: Seq<(u128, Swap)>, id: u128)
    requires
        history_rec(log, id).len() > 0,
    ensures
        exists|j: int| 0 <= j < log.len() && (#[trigger] log[j]).0 == id,
    decreases log.len(),
{
    if log.len() > 0 {
        if log.last().0 == id {
            assert(log[log.len() - 1].0 == id);
        } else {
            lemma_history_some_index(log.drop_last(), id);
            let j = choose|j: int| 0 <= j < log.drop_last().len() && (#[trigger] log.drop_last()[j]).0
                == id;
            assert(log[j].0 == id);
        }
    }
}

} // verus!
