//! Order-history persistence bookkeeping: the write-through row cache
//! with its dirty set, the flush controller's state, and the 16-byte
//! big-endian keys rows are stored under.
//!
//! Upserts land in the cache and mark their id dirty; a flush pass
//! drains the dirty set, writes those rows, and on failure marks them
//! dirty again so the next pass retries them.

use std::collections::{HashMap, HashSet};
use vstd::prelude::*;
use crate::blotter::{OrderRow, RowView};
use vstd::std_specs::iter::IteratorSpec;

verus! {

broadcast use vstd::std_specs::hash::group_hash_axioms;

/// Why the order-history store failed.
#[derive(Clone, Debug)]
pub enum PersistError {
    Open { path: String, reason: String },
    Write { reason: String },
    Read { reason: String },
}

/// Row count at which retention is reported once.
pub const RETENTION_WARN_THRESHOLD: usize = 10000;

/// The in-memory row cache.
pub struct RowCache {
    rows: HashMap<u128, OrderRow>,
    dirty: HashSet<u128>,
    generation: u64,
    warned_retention: bool,
}

/// Mathematical value of the row cache.
#[verifier::ext_equal]
pub struct RowCacheView {
    pub rows: Map<u128, RowView>,
    pub dirty: Set<u128>,
    pub generation: u64,
    pub warned_retention: bool,
}

impl View for RowCache {
    type V = RowCacheView;

    closed spec fn view(&self) -> RowCacheView {
        RowCacheView {
            rows: self.rows@.map_values(|r: OrderRow| r@),
            dirty: self.dirty@,
            generation: self.generation,
            warned_retention: self.warned_retention,
        }
    }
}

impl RowCache {
    /// An empty cache.
    pub fn new() -> (r: Self)
        ensures
            r@.rows == Map::<u128, RowView>::empty(),
            r@.dirty == Set::<u128>::empty(),
            r@.generation == 0,
            !r@.warned_retention,
    {
        let r = RowCache {
            rows: HashMap::new(),
            dirty: HashSet::new(),
            generation: 0,
            warned_retention: false,
        };
        assert(r@.rows =~= Map::<u128, RowView>::empty());
        r
    }

    /// Number of cached rows.
    pub fn len(&self) -> (r: usize)
        ensures
            r == self@.rows.len(),
    {
        assert(self@.rows.dom() =~= self.rows@.dom());
        self.rows.len()
    }

    /// Insert or replace a row and mark it dirty. Returns whether the
    /// retention threshold was crossed for the first time, which the
    /// caller reports once.
    pub fn upsert(&mut self, id: u128, row: OrderRow) -> (warn: bool)
        ensures
            final(self)@.rows == old(self)@.rows.insert(id, row@),
            final(self)@.dirty == old(self)@.dirty.insert(id),
            final(self)@.generation == (if old(self)@.generation == u64::MAX {
                0
            } else {
                (old(self)@.generation + 1) as u64
            }),
            warn == (final(self)@.rows.len() >= RETENTION_WARN_THRESHOLD
                && !old(self)@.warned_retention),
            final(self)@.warned_retention == (old(self)@.warned_retention
                || final(self)@.rows.len() >= RETENTION_WARN_THRESHOLD),
    {
        let ghost v = row@;
        self.rows.insert(id, row);
        let len = self.rows.len();
        self.dirty.insert(id);
        self.generation = self.generation.wrapping_add(1);
        assert(self@.rows =~= old(self)@.rows.insert(id, v));
        assert(self@.rows.dom() =~= self.rows@.dom());
        let mut warn = false;
        if len >= RETENTION_WARN_THRESHOLD {
            if !self.warned_retention {
                warn = true;
                self.warned_retention = true;
            }
        }
        warn
    }

    /// Add a row read back from storage, without marking it dirty.
    pub fn seed(&mut self, id: u128, row: OrderRow)
        ensures
            final(self)@ == (RowCacheView { rows: old(self)@.rows.insert(id, row@), ..old(self)@ }),
    {
        let ghost v = row@;
        self.rows.insert(id, row);
        assert(self@.rows =~= old(self)@.rows.insert(id, v));
    }

    /// Take the dirty set: every dirty id that names a cached row, once,
    /// with a copy of its row. The dirty set is left empty.
    pub fn drain_dirty(&mut self) -> (r: Vec<(u128, OrderRow)>)
        ensures
            final(self)@.rows == old(self)@.rows,
            final(self)@.dirty == Set::<u128>::empty(),
            final(self)@.generation == old(self)@.generation,
            final(self)@.warned_retention == old(self)@.warned_retention,
            forall|i: int, j: int| 0 <= i < j < r@.len() ==> r@[i].0 != r@[j].0,
            forall|i: int|
                0 <= i < r@.len() ==> old(self)@.dirty.contains(#[trigger] r@[i].0)
                    && old(self)@.rows.contains_key(r@[i].0) && r@[i].1@ == old(self)@.rows[r@[i].0],
            forall|id: u128|
                old(self)@.dirty.contains(id) && old(self)@.rows.contains_key(id) ==> exists|i: int|
                    0 <= i < r@.len() && #[trigger] r@[i].0 == id,
    {
        let mut ids: Vec<u128> = Vec::new();
        let keys = self.dirty.iter();
        let ghost rem = keys.remaining();
        for id in it: keys
            invariant
                it.seq() == rem,
                ids@.len() == it.index(),
                forall|k: int| 0 <= k < ids@.len() ==> ids@[k] == *rem[k],
        {
            ids.push(*id);
        }
        let ghost all_ids = ids@;
        proof {
            assert(all_ids =~= rem.unref());
        }
        self.dirty.clear();
        assert(self@.dirty =~= Set::<u128>::empty());
        let mut out: Vec<(u128, OrderRow)> = Vec::new();
        let mut k: usize = 0;
        while k < ids.len()
            invariant
                self@.rows == old(self)@.rows,
                self@.dirty == Set::<u128>::empty(),
                self@.generation == old(self)@.generation,
                self@.warned_retention == old(self)@.warned_retention,
                ids@ == all_ids,
                all_ids.no_duplicates(),
                forall|id: u128| old(self)@.dirty.contains(id) ==> all_ids.contains(id),
                forall|q: int| 0 <= q < all_ids.len() ==> old(self)@.dirty.contains(#[trigger] all_ids[q]),
                k <= ids@.len(),
                forall|i: int|
                    0 <= i < out@.len() ==> exists|q: int|
                        0 <= q < k && #[trigger] out@[i].0 == all_ids[q],
                forall|i: int, j: int| 0 <= i < j < out@.len() ==> out@[i].0 != out@[j].0,
                forall|i: int|
                    0 <= i < out@.len() ==> old(self)@.dirty.contains(#[trigger] out@[i].0)
                        && old(self)@.rows.contains_key(out@[i].0) && out@[i].1@ == old(
                        self,
                    )@.rows[out@[i].0],
                forall|q: int|
                    0 <= q < k && old(self)@.rows.contains_key(#[trigger] all_ids[q]) ==> exists|
                        i: int,
                    | 0 <= i < out@.len() && out@[i].0 == all_ids[q],
            decreases ids@.len() - k,
        {
            let id = ids[k];
            let ghost out_before = out@;
            match self.rows.get(&id) {
                Some(row) => {
                    let copy = row.duplicate();
                    proof {
                        assert forall|i: int| 0 <= i < out@.len() implies out@[i].0 != id by {
                            let q = choose|q: int| 0 <= q < k && out@[i].0 == all_ids[q];
                            assert(all_ids[q] != all_ids[k as int]);
                        }
                    }
                    out.push((id, copy));
                    proof {
                        assert(out@[out@.len() - 1].0 == all_ids[k as int]);
                    }
                },
                None => {},
            }
            proof {
                assert forall|q: int|
                    0 <= q < k + 1 && old(self)@.rows.contains_key(#[trigger] all_ids[q]) implies exists|
                    i: int,
                | 0 <= i < out@.len() && out@[i].0 == all_ids[q] by {
                    if q < k {
                        let i = choose|i: int| 0 <= i < out_before.len() && out_before[i].0 == all_ids[q];
                        assert(out@[i] == out_before[i]);
                    } else {
                        assert(out@[out@.len() - 1].0 == all_ids[q]);
                    }
                }
                assert forall|i: int|
                    0 <= i < out@.len() implies exists|q: int|
                        0 <= q < k + 1 && #[trigger] out@[i].0 == all_ids[q] by {
                    if i < out_before.len() {
                        let q = choose|q: int| 0 <= q < k && out_before[i].0 == all_ids[q];
                        assert(out@[i] == out_before[i]);
                    } else {
                        assert(out@[i].0 == all_ids[k as int]);
                    }
                }
            }
            k = k + 1;
        }
        proof {
            assert forall|id: u128|
                old(self)@.dirty.contains(id) && old(self)@.rows.contains_key(id) implies exists|
                i: int,
            | 0 <= i < out@.len() && #[trigger] out@[i].0 == id by {
                let q = choose|q: int| 0 <= q < all_ids.len() && all_ids[q] == id;
                assert(old(self)@.rows.contains_key(all_ids[q]));
            }
        }
        out
    }

    /// Mark ids dirty again after a failed write; ids without a cached
    /// row are ignored.
    pub fn re_mark_dirty(&mut self, ids: Vec<u128>)
        ensures
            final(self)@.rows == old(self)@.rows,
            final(self)@.generation == old(self)@.generation,
            final(self)@.warned_retention == old(self)@.warned_retention,
            final(self)@.dirty == old(self)@.dirty.union(
                ids@.to_set().filter(|id: u128| old(self)@.rows.contains_key(id)),
            ),
    {
        let mut k: usize = 0;
        while k < ids.len()
            invariant
                self@.rows == old(self)@.rows,
                self@.generation == old(self)@.generation,
                self@.warned_retention == old(self)@.warned_retention,
                k <= ids@.len(),
                self@.dirty == old(self)@.dirty.union(
                    ids@.take(k as int).to_set().filter(|id: u128| old(self)@.rows.contains_key(id)),
                ),
            decreases ids@.len() - k,
        {
            let id = ids[k];
            let ghost before = self@.dirty;
            if self.rows.contains_key(&id) {
                self.dirty.insert(id);
            }
            proof {
                assert(ids@.take(k + 1) =~= ids@.take(k as int).push(id));
                ids@.take(k as int).lemma_push_to_set_commute(id);
            }
            k = k + 1;
            assert(self@.dirty =~= old(self)@.dirty.union(
                ids@.take(k as int).to_set().filter(|id: u128| old(self)@.rows.contains_key(id)),
            ));
        }
        assert(ids@.take(ids@.len() as int) =~= ids@);
    }

    /// Copies of every cached row, each once, in the map's order.
    pub fn all_rows(&self) -> (r: Vec<OrderRow>)
        ensures
            r@.len() == self@.rows.len(),
            exists|ks: Seq<u128>|
                {
                    &&& ks.len() == r@.len()
                    &&& ks.no_duplicates()
                    &&& ks.to_set() == self@.rows.dom()
                    &&& forall|i: int| 0 <= i < ks.len() ==> #[trigger] r@[i]@ == self@.rows[ks[i]]
                },
    {
        let mut out: Vec<OrderRow> = Vec::new();
        let keys = self.rows.keys();
        let ghost rem = keys.remaining();
        proof {
            assert forall|q: int| 0 <= q < rem.len() implies self.rows@.contains_key(
                #[trigger] *rem[q],
            ) by {
                assert(rem.unref()[q] == *rem[q]);
                assert(rem.unref().to_set().contains(*rem[q]));
            }
        }
        for id in it: keys
            invariant
                it.seq() == rem,
                forall|q: int| 0 <= q < rem.len() ==> self.rows@.contains_key(#[trigger] *rem[q]),
                out@.len() == it.index(),
                forall|q: int| 0 <= q < out@.len() ==> #[trigger] out@[q]@ == self.rows@[*rem[q]]@,
        {
            let key = *id;
            proof {
                assert(key == *rem[it.index() as int]);
            }
            match self.rows.get(&key) {
                Some(row) => {
                    out.push(row.duplicate());
                },
                None => {
                    proof {
                        assert(false);
                    }
                },
            }
        }
        proof {
            let ks = rem.unref();
            assert(ks.len() == out@.len());
            assert forall|i: int| 0 <= i < ks.len() implies #[trigger] out@[i]@ == self@.rows[ks[i]] by {
                assert(ks[i] == *rem[i]);
            }
            assert(self@.rows.dom() =~= self.rows@.dom());
        }
        out
    }
}

/// The flush thread's control state.
#[derive(Copy, Clone, Debug, PartialEq, Eq, Structural)]
pub struct FlushCtl {
    /// Rows were upserted since the last pass.
    pub wake: bool,
    /// Shutdown was requested.
    pub shutdown: bool,
    /// The flush thread finished its last pass.
    pub done: bool,
}

impl FlushCtl {
    /// A controller with nothing pending.
    pub fn new() -> (r: Self)
        ensures
            r == (FlushCtl { wake: false, shutdown: false, done: false }),
    {
        FlushCtl { wake: false, shutdown: false, done: false }
    }

    /// Whether the flush thread has to wait for a wake-up or a timeout
    /// before its next pass.
    pub fn must_wait(&self) -> (r: bool)
        ensures
            r == (!self.shutdown && !self.wake),
    {
        !self.shutdown && !self.wake
    }

    /// Start a pass: clear the wake flag and tell whether this is the
    /// final, shutdown pass.
    pub fn start_pass(&mut self) -> (is_shutdown: bool)
        ensures
            is_shutdown == old(self).shutdown,
            *final(self) == (FlushCtl { wake: false, ..*old(self) }),
    {
        self.wake = false;
        self.shutdown
    }

    /// Request shutdown.
    pub fn request_shutdown(&mut self)
        ensures
            *final(self) == (FlushCtl { shutdown: true, ..*old(self) }),
    {
        self.shutdown = true;
    }

    /// Record that the flush thread has finished.
    pub fn finish(&mut self)
        ensures
            *final(self) == (FlushCtl { done: true, ..*old(self) }),
    {
        self.done = true;
    }
}

/// Wake the flush thread after an upsert.
pub fn wake_flush(ctl: &mut FlushCtl)
    ensures
        *final(ctl) == (FlushCtl { wake: true, ..*old(ctl) }),
{
    ctl.wake = true;
}

/// How durably a flush commits.
#[derive(Copy, Clone, Debug, PartialEq, Eq, Structural)]
pub enum Durability {
    Immediate,
    Eventual,
}

/// Commit immediately on shutdown or once upserts have been idle for the
/// threshold; otherwise eventually.
pub fn flush_durability(is_shutdown: bool, idle_reached: bool) -> (r: Durability)
    ensures
        r == (if is_shutdown || idle_reached {
            Durability::Immediate
        } else {
            Durability::Eventual
        }),
{
    if is_shutdown || idle_reached {
        Durability::Immediate
    } else {
        Durability::Eventual
    }
}

} // verus!
