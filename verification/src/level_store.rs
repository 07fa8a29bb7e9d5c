//! Per-ticker horizontal price levels, with a generation counter per
//! ticker and an id allocator shared by every ticker.
//!
//! The level itself (its price line, label and icon) is what the chart
//! draws; the store reads only its id and lock flag. Every change to a
//! ticker's levels bumps that ticker's generation so views can cheaply
//! tell whether to redraw.

use vstd::prelude::*;
use crate::text::str_eq;

verus! {

/// A level as the store keeps it.
#[derive(Clone, Debug)]
pub struct StoredLevel<L> {
    /// Store-wide unique id.
    pub id: u64,
    /// Locked levels cannot be dragged.
    pub locked: bool,
    /// The level as the chart draws it.
    pub level: L,
}

/// The levels of one ticker and its generation.
pub struct TickerLevels<L> {
    pub ticker: String,
    pub levels: Vec<StoredLevel<L>>,
    pub generation: u64,
}

/// Levels of every ticker.
pub struct LevelStore<L> {
    entries: Vec<TickerLevels<L>>,
    next_id: u64,
}

/// Position of the entry for ticker `t`.
pub open spec fn entry_index<L>(es: Seq<TickerLevels<L>>, t: Seq<char>) -> Option<int>
    decreases es.len(),
{
    if es.len() == 0 {
        None
    } else if es[0].ticker@ == t {
        Some(0)
    } else {
        match entry_index(es.drop_first(), t) {
            Some(i) => Some(i + 1),
            None => None,
        }
    }
}

/// Position of the first level with id `id`.
pub open spec fn level_index<L>(ls: Seq<StoredLevel<L>>, id: u64) -> Option<int>
    decreases ls.len(),
{
    if ls.len() == 0 {
        None
    } else if ls[0].id == id {
        Some(0)
    } else {
        match level_index(ls.drop_first(), id) {
            Some(i) => Some(i + 1),
            None => None,
        }
    }
}

proof fn lemma_entry_index_bounds<L>(es: Seq<TickerLevels<L>>, t: Seq<char>)
    ensures
        entry_index(es, t) matches Some(i) ==> 0 <= i < es.len() && es[i].ticker@ == t,
        entry_index(es, t) is None ==> forall|j: int| 0 <= j < es.len() ==> es[j].ticker@ != t,
    decreases es.len(),
{
    if es.len() > 0 {
        lemma_entry_index_bounds(es.drop_first(), t);
        if es[0].ticker@ != t {
            assert forall|j: int| 0 < j < es.len() implies es[j] == es.drop_first()[j - 1] by {}
        }
    }
}

proof fn lemma_level_index_bounds<L>(ls: Seq<StoredLevel<L>>, id: u64)
    ensures
        level_index(ls, id) matches Some(i) ==> 0 <= i < ls.len() && ls[i].id == id,
        level_index(ls, id) is None ==> forall|j: int| 0 <= j < ls.len() ==> ls[j].id != id,
    decreases ls.len(),
{
    if ls.len() > 0 {
        lemma_level_index_bounds(ls.drop_first(), id);
        if ls[0].id != id {
            assert forall|j: int| 0 < j < ls.len() implies ls[j] == ls.drop_first()[j - 1] by {}
        }
    }
}

impl<L> LevelStore<L> {
    /// The entries, one per ticker that ever held a level.
    pub closed spec fn entries(&self) -> Seq<TickerLevels<L>> {
        self.entries@
    }

    /// The next id to hand out.
    pub closed spec fn next_id_spec(&self) -> u64 {
        self.next_id
    }

    /// Well-formedness: one entry per ticker.
    pub closed spec fn wf(&self) -> bool {
        forall|i: int, j: int|
            0 <= i < j < self.entries@.len() ==> self.entries@[i].ticker@ != self.entries@[j].ticker@
    }

    /// The levels of ticker `t`, empty when it has none.
    pub open spec fn levels_of(&self, t: Seq<char>) -> Seq<StoredLevel<L>> {
        match entry_index(self.entries(), t) {
            Some(i) => self.entries()[i].levels@,
            None => Seq::empty(),
        }
    }

    /// The generation of ticker `t`, zero when it never changed.
    pub open spec fn generation_of(&self, t: Seq<char>) -> u64 {
        match entry_index(self.entries(), t) {
            Some(i) => self.entries()[i].generation,
            None => 0,
        }
    }

    /// An empty store whose first id is 1.
    pub fn new() -> (r: Self)
        ensures
            r.wf(),
            r.entries() == Seq::<TickerLevels<L>>::empty(),
            r.next_id_spec() == 1,
    {
        LevelStore { entries: Vec::new(), next_id: 1 }
    }

    fn find_entry(&self, ticker: &str) -> (r: Option<usize>)
        ensures
            match r {
                Some(i) => entry_index(self.entries(), ticker@) == Some(i as int),
                None => entry_index(self.entries(), ticker@) is None,
            },
    {
        let n = self.entries.len();
        let mut i: usize = 0;
        assert(self.entries@.skip(0) =~= self.entries@);
        while i < n
            invariant
                n == self.entries@.len(),
                i <= n,
                entry_index(self.entries@, ticker@) == match entry_index(
                    self.entries@.skip(i as int),
                    ticker@,
                ) {
                    Some(j) => Some(j + i),
                    None => None,
                },
            decreases n - i,
        {
            assert(self.entries@.skip(i as int).drop_first() =~= self.entries@.skip(i + 1));
            if str_eq(self.entries[i].ticker.as_str(), ticker) {
                return Some(i);
            }
            i = i + 1;
        }
        None
    }

    /// The levels of a ticker, empty when it has none.
    pub fn levels_for(&self, ticker: &str) -> (r: &[StoredLevel<L>])
        ensures
            r@ == self.levels_of(ticker@),
    {
        proof {
            lemma_entry_index_bounds(self.entries@, ticker@);
        }
        match self.find_entry(ticker) {
            Some(i) => self.entries[i].levels.as_slice(),
            None => {
                let empty: &[StoredLevel<L>] = &[];
                assert(empty@ =~= Seq::<StoredLevel<L>>::empty());
                empty
            },
        }
    }

    /// The generation of a ticker, zero when it never changed.
    pub fn generation(&self, ticker: &str) -> (r: u64)
        ensures
            r == self.generation_of(ticker@),
    {
        proof {
            lemma_entry_index_bounds(self.entries@, ticker@);
        }
        match self.find_entry(ticker) {
            Some(i) => self.entries[i].generation,
            None => 0,
        }
    }

    /// Hand out a fresh level id.
    pub fn alloc_id(&mut self) -> (r: u64)
        requires
            old(self).next_id_spec() < u64::MAX,
        ensures
            r == old(self).next_id_spec(),
            final(self).next_id_spec() == r + 1,
            final(self).entries() == old(self).entries(),
            old(self).wf() ==> final(self).wf(),
    {
        let id = self.next_id;
        self.next_id = self.next_id + 1;
        id
    }

    /// The ticker and level holding `id`, scanning tickers in order.
    pub fn find_level(&self, id: u64) -> (r: Option<(&str, &StoredLevel<L>)>)
        ensures
            match r {
                Some((t, l)) => l.id == id && exists|i: int|
                    0 <= i < self.entries().len() && self.entries()[i].ticker@ == t@
                        && #[trigger] self.entries()[i].levels@.contains(*l),
                None => forall|i: int, j: int|
                    0 <= i < self.entries().len() && 0 <= j
                        < self.entries()[i].levels@.len() ==> #[trigger] self.entries()[i].levels@[j].id
                        != id,
            },
    {
        let mut i: usize = 0;
        while i < self.entries.len()
            invariant
                i <= self.entries@.len(),
                forall|a: int, j: int|
                    0 <= a < i && 0 <= j < self.entries@[a].levels@.len()
                        ==> #[trigger] self.entries@[a].levels@[j].id != id,
            decreases self.entries@.len() - i,
        {
            let levels = &self.entries[i].levels;
            let mut j: usize = 0;
            while j < levels.len()
                invariant
                    i < self.entries@.len(),
                    levels@ == self.entries@[i as int].levels@,
                    j <= levels@.len(),
                    forall|k: int| 0 <= k < j ==> #[trigger] levels@[k].id != id,
                decreases levels@.len() - j,
            {
                if levels[j].id == id {
                    assert(self.entries()[i as int].levels@.contains(levels@[j as int]));
                    return Some((self.entries[i].ticker.as_str(), &levels[j]));
                }
                j = j + 1;
            }
            i = i + 1;
        }
        None
    }

    /// Append a level to a ticker's list and bump its generation.
    pub fn add_level(&mut self, ticker: &str, entry: StoredLevel<L>)
        requires
            old(self).wf(),
            old(self).generation_of(ticker@) < u64::MAX,
        ensures
            final(self).wf(),
            final(self).levels_of(ticker@) == old(self).levels_of(ticker@).push(entry),
            final(self).generation_of(ticker@) == old(self).generation_of(ticker@) + 1,
            forall|t: Seq<char>|
                t != ticker@ ==> #[trigger] final(self).levels_of(t) == old(self).levels_of(t),
            forall|t: Seq<char>|
                t != ticker@ ==> #[trigger] final(self).generation_of(t) == old(self).generation_of(t),
            final(self).next_id_spec() == old(self).next_id_spec(),
    {
        proof {
            lemma_entry_index_bounds(self.entries@, ticker@);
        }
        match self.find_entry(ticker) {
            Some(i) => {
                let ghost before = self.entries@;
                let mut e = self.entries.remove(i);
                e.levels.push(entry);
                e.generation = e.generation + 1;
                self.entries.insert(i, e);
                proof {
                    assert forall|k: int| 0 <= k < self.entries@.len() && k != i implies self.entries@[k]
                        == before[k] by {}
                    self.lemma_same_index_after_update(before, i as int, ticker@);
                    assert forall|t: Seq<char>|
                    #![trigger self.levels_of(t)]
                    #![trigger self.generation_of(t)]
                    t != ticker@ implies self.levels_of(t)
                        == old(self).levels_of(t) && self.generation_of(t) == old(self).generation_of(
                        t,
                    ) by {
                        lemma_other_ticker_unchanged(self.entries@, before, ticker@, t);
                    }
                }
            },
            None => {
                let ghost before = self.entries@;
                let mut levels = Vec::new();
                levels.push(entry);
                self.entries.push(TickerLevels { ticker: ticker.to_owned(), levels, generation: 1 });
                proof {
                    self.lemma_index_after_push(before, ticker@);
                    assert forall|t: Seq<char>|
                    #![trigger self.levels_of(t)]
                    #![trigger self.generation_of(t)]
                    t != ticker@ implies self.levels_of(t)
                        == old(self).levels_of(t) && self.generation_of(t) == old(self).generation_of(
                        t,
                    ) by {
                        lemma_other_ticker_unchanged(self.entries@, before, ticker@, t);
                    }
                }
            },
        }
    }

    /// Remove the level `id` from a ticker's list, bumping its generation;
    /// `None` (and no change) when the ticker has no such level.
    pub fn remove_level(&mut self, ticker: &str, id: u64) -> (r: Option<StoredLevel<L>>)
        requires
            old(self).wf(),
            old(self).generation_of(ticker@) < u64::MAX,
        ensures
            final(self).wf(),
            final(self).next_id_spec() == old(self).next_id_spec(),
            match level_index(old(self).levels_of(ticker@), id) {
                Some(k) => r == Some(old(self).levels_of(ticker@)[k]) && final(self).levels_of(
                    ticker@,
                ) == old(self).levels_of(ticker@).remove(k) && final(self).generation_of(ticker@)
                    == old(self).generation_of(ticker@) + 1,
                None => r is None && final(self).entries() == old(self).entries(),
            },
            forall|t: Seq<char>|
                t != ticker@ ==> #[trigger] final(self).levels_of(t) == old(self).levels_of(t),
            forall|t: Seq<char>|
                t != ticker@ ==> #[trigger] final(self).generation_of(t) == old(self).generation_of(t),
    {
        proof {
            lemma_entry_index_bounds(self.entries@, ticker@);
        }
        let i = match self.find_entry(ticker) {
            Some(i) => i,
            None => {
                assert(self.entries() == old(self).entries());
                assert forall|t: Seq<char>|
                    #![trigger self.levels_of(t)]
                    #![trigger self.generation_of(t)]
                    t != ticker@ implies self.levels_of(t)
                    == old(self).levels_of(t) && self.generation_of(t) == old(self).generation_of(t) by {}
                return None;
            },
        };
        let pos = find_level_pos(&self.entries[i].levels, id);
        proof {
            lemma_level_index_bounds(self.entries@[i as int].levels@, id);
        }
        match pos {
            None => {
                assert(self.entries() == old(self).entries());
                assert forall|t: Seq<char>|
                    #![trigger self.levels_of(t)]
                    #![trigger self.generation_of(t)]
                    t != ticker@ implies self.levels_of(t)
                    == old(self).levels_of(t) && self.generation_of(t) == old(self).generation_of(t) by {}
                return None;
            },
            Some(k) => {
                let ghost before = self.entries@;
                let mut e = self.entries.remove(i);
                let removed = e.levels.remove(k);
                e.generation = e.generation + 1;
                self.entries.insert(i, e);
                proof {
                    assert forall|q: int| 0 <= q < self.entries@.len() && q != i implies self.entries@[q]
                        == before[q] by {}
                    self.lemma_same_index_after_update(before, i as int, ticker@);
                    assert forall|t: Seq<char>|
                    #![trigger self.levels_of(t)]
                    #![trigger self.generation_of(t)]
                    t != ticker@ implies self.levels_of(t)
                        == old(self).levels_of(t) && self.generation_of(t) == old(self).generation_of(
                        t,
                    ) by {
                        lemma_other_ticker_unchanged(self.entries@, before, ticker@, t);
                    }
                }
                Some(removed)
            },
        }
    }

    /// Remove every level of a ticker; the generation moves only when
    /// there was something to clear.
    pub fn clear_levels(&mut self, ticker: &str)
        requires
            old(self).wf(),
            old(self).generation_of(ticker@) < u64::MAX,
        ensures
            final(self).wf(),
            final(self).next_id_spec() == old(self).next_id_spec(),
            final(self).levels_of(ticker@) == Seq::<StoredLevel<L>>::empty(),
            final(self).generation_of(ticker@) == if old(self).levels_of(ticker@).len() > 0 {
                old(self).generation_of(ticker@) + 1
            } else {
                old(self).generation_of(ticker@) as int
            },
            forall|t: Seq<char>|
                t != ticker@ ==> #[trigger] final(self).levels_of(t) == old(self).levels_of(t),
            forall|t: Seq<char>|
                t != ticker@ ==> #[trigger] final(self).generation_of(t) == old(self).generation_of(t),
    {
        proof {
            lemma_entry_index_bounds(self.entries@, ticker@);
        }
        match self.find_entry(ticker) {
            None => {
                assert(self.entries() == old(self).entries());
                assert forall|t: Seq<char>|
                    #![trigger self.levels_of(t)]
                    #![trigger self.generation_of(t)]
                    t != ticker@ implies self.levels_of(t)
                    == old(self).levels_of(t) && self.generation_of(t) == old(self).generation_of(t) by {}
            },
            Some(i) => {
                if self.entries[i].levels.len() > 0 {
                    let ghost before = self.entries@;
                    let mut e = self.entries.remove(i);
                    e.levels.clear();
                    e.generation = e.generation + 1;
                    self.entries.insert(i, e);
                    proof {
                        assert forall|q: int| 0 <= q < self.entries@.len() && q != i implies self.entries@[q]
                            == before[q] by {}
                        self.lemma_same_index_after_update(before, i as int, ticker@);
                        assert forall|t: Seq<char>|
                    #![trigger self.levels_of(t)]
                    #![trigger self.generation_of(t)]
                    t != ticker@ implies self.levels_of(t)
                            == old(self).levels_of(t) && self.generation_of(t)
                            == old(self).generation_of(t) by {
                            lemma_other_ticker_unchanged(self.entries@, before, ticker@, t);
                        }
                    }
                } else {
                    assert(self.entries() == old(self).entries());
                    assert(self.entries@[i as int].levels@ =~= Seq::<StoredLevel<L>>::empty());
                    assert forall|t: Seq<char>|
                    #![trigger self.levels_of(t)]
                    #![trigger self.generation_of(t)]
                    t != ticker@ implies self.levels_of(t)
                        == old(self).levels_of(t) && self.generation_of(t) == old(self).generation_of(
                        t,
                    ) by {}
                }
            },
        }
    }

    /// Set a ticker's levels, keeping its generation.
    fn put_levels(&mut self, ticker: &str, levels: Vec<StoredLevel<L>>)
        requires
            old(self).wf(),
        ensures
            final(self).wf(),
            final(self).levels_of(ticker@) == levels@,
            final(self).generation_of(ticker@) == old(self).generation_of(ticker@),
            forall|t: Seq<char>|
                t != ticker@ ==> #[trigger] final(self).levels_of(t) == old(self).levels_of(t),
            forall|t: Seq<char>|
                t != ticker@ ==> #[trigger] final(self).generation_of(t) == old(self).generation_of(t),
            final(self).next_id_spec() == old(self).next_id_spec(),
    {
        proof {
            lemma_entry_index_bounds(self.entries@, ticker@);
        }
        match self.find_entry(ticker) {
            Some(i) => {
                let ghost before = self.entries@;
                let mut e = self.entries.remove(i);
                e.levels = levels;
                self.entries.insert(i, e);
                proof {
                    assert forall|k: int| 0 <= k < self.entries@.len() && k != i implies self.entries@[k]
                        == before[k] by {}
                    self.lemma_same_index_after_update(before, i as int, ticker@);
                    assert forall|t: Seq<char>|
                    #![trigger self.levels_of(t)]
                    #![trigger self.generation_of(t)]
                    t != ticker@ implies self.levels_of(t)
                        == old(self).levels_of(t) && self.generation_of(t) == old(self).generation_of(
                        t,
                    ) by {
                        lemma_other_ticker_unchanged(self.entries@, before, ticker@, t);
                    }
                }
            },
            None => {
                let ghost before = self.entries@;
                self.entries.push(TickerLevels { ticker: ticker.to_owned(), levels, generation: 0 });
                proof {
                    self.lemma_index_after_push(before, ticker@);
                    assert forall|t: Seq<char>|
                    #![trigger self.levels_of(t)]
                    #![trigger self.generation_of(t)]
                    t != ticker@ implies self.levels_of(t)
                        == old(self).levels_of(t) && self.generation_of(t) == old(self).generation_of(
                        t,
                    ) by {
                        lemma_other_ticker_unchanged(self.entries@, before, ticker@, t);
                    }
                }
            },
        }
    }

    proof fn lemma_levels_of_entry(&self, q: int)
        requires
            self.wf(),
            0 <= q < self.entries().len(),
        ensures
            self.levels_of(self.entries()[q].ticker@) == self.entries()[q].levels@,
    {
        lemma_entry_index_bounds(self.entries(), self.entries()[q].ticker@);
    }

    /// Every ticker that ever held a level, with its levels.
    pub fn all_levels(&self) -> (r: Vec<(&str, &[StoredLevel<L>])>)
        requires
            self.wf(),
        ensures
            forall|i: int| 0 <= i < r@.len() ==> (#[trigger] r@[i]).1@ == self.levels_of(r@[i].0@),
            forall|t: Seq<char>|
                #[trigger] self.levels_of(t).len() > 0 ==> exists|i: int|
                    0 <= i < r@.len() && #[trigger] r@[i].0@ == t,
            forall|a: int, b: int| 0 <= a < b < r@.len() ==> r@[a].0@ != r@[b].0@,
    {
        let mut out: Vec<(&str, &[StoredLevel<L>])> = Vec::new();
        let mut k: usize = 0;
        while k < self.entries.len()
            invariant
                self.wf(),
                k <= self.entries@.len(),
                out@.len() == k,
                forall|i: int|
                    0 <= i < k ==> (#[trigger] out@[i]).0@ == self.entries@[i].ticker@
                        && out@[i].1@ == self.entries@[i].levels@,
            decreases self.entries@.len() - k,
        {
            out.push((self.entries[k].ticker.as_str(), self.entries[k].levels.as_slice()));
            k = k + 1;
        }
        proof {
            assert forall|i: int| 0 <= i < out@.len() implies (#[trigger] out@[i]).1@
                == self.levels_of(out@[i].0@) by {
                self.lemma_levels_of_entry(i);
            }
            assert forall|t: Seq<char>| #[trigger] self.levels_of(t).len() > 0 implies exists|i: int|
                0 <= i < out@.len() && #[trigger] out@[i].0@ == t by {
                lemma_entry_index_bounds(self.entries(), t);
                let q = entry_index(self.entries(), t)->Some_0;
                assert(out@[q].0@ == t);
            }
        }
        out
    }

    /// Replacing entry `i` by one for the same ticker keeps every
    /// ticker's position.
    proof fn lemma_same_index_after_update(&self, before: Seq<TickerLevels<L>>, i: int, t: Seq<char>)
        requires
            0 <= i < before.len(),
            self.entries@.len() == before.len(),
            self.entries@[i].ticker@ == before[i].ticker@,
            before[i].ticker@ == t,
            forall|q: int| 0 <= q < before.len() && q != i ==> self.entries@[q] == before[q],
            forall|a: int, b: int| 0 <= a < b < before.len() ==> before[a].ticker@ != before[b].ticker@,
        ensures
            self.wf(),
            forall|u: Seq<char>| #[trigger] entry_index(self.entries@, u) == entry_index(before, u),
    {
        assert forall|a: int, b: int|
            0 <= a < b < self.entries@.len() implies self.entries@[a].ticker@
            != self.entries@[b].ticker@ by {
            assert(self.entries@[a].ticker@ == before[a].ticker@);
            assert(self.entries@[b].ticker@ == before[b].ticker@);
        }
        assert forall|u: Seq<char>| #[trigger] entry_index(self.entries@, u) == entry_index(before, u) by {
            assert forall|q: int| 0 <= q < before.len() implies self.entries@[q].ticker@
                == before[q].ticker@ by {}
            lemma_same_tickers_same_index(self.entries@, before, u);
        }
    }

    /// Pushing an entry for a new ticker leaves other positions alone
    /// and puts the new ticker last.
    proof fn lemma_index_after_push(&self, before: Seq<TickerLevels<L>>, t: Seq<char>)
        requires
            self.entries@.len() == before.len() + 1,
            self.entries@.last().ticker@ == t,
            forall|q: int| 0 <= q < before.len() ==> self.entries@[q] == before[q],
            entry_index(before, t) is None,
            forall|a: int, b: int| 0 <= a < b < before.len() ==> before[a].ticker@ != before[b].ticker@,
        ensures
            self.wf(),
            entry_index(self.entries@, t) == Some(before.len() as int),
            forall|u: Seq<char>| u != t ==> #[trigger] entry_index(self.entries@, u) == entry_index(before, u),
    {
        lemma_entry_index_bounds(before, t);
        assert(self.entries@.drop_last() =~= before);
        assert forall|a: int, b: int|
            0 <= a < b < self.entries@.len() implies self.entries@[a].ticker@
            != self.entries@[b].ticker@ by {
            assert(self.entries@[a] == before[a]);
            if b < before.len() {
                assert(self.entries@[b] == before[b]);
            }
        }
        assert(self.entries@ =~= before.push(self.entries@.last()));
        lemma_index_push(before, self.entries@.last(), t);
        assert forall|u: Seq<char>| u != t implies #[trigger] entry_index(self.entries@, u) == entry_index(
            before,
            u,
        ) by {
            lemma_index_push(before, self.entries@.last(), u);
        }
    }
}

fn find_level_pos<L>(levels: &Vec<StoredLevel<L>>, id: u64) -> (r: Option<usize>)
    ensures
        match r {
            Some(k) => level_index(levels@, id) == Some(k as int),
            None => level_index(levels@, id) is None,
        },
{
    let mut j: usize = 0;
    assert(levels@.skip(0) =~= levels@);
    while j < levels.len()
        invariant
            j <= levels@.len(),
            level_index(levels@, id) == match level_index(levels@.skip(j as int), id) {
                Some(k) => Some(k + j),
                None => None,
            },
        decreases levels@.len() - j,
    {
        assert(levels@.skip(j as int).drop_first() =~= levels@.skip(j + 1));
        if levels[j].id == id {
            return Some(j);
        }
        j = j + 1;
    }
    None
}

/// A ticker other than the one changed keeps its levels and generation
/// when it keeps its position and the entries at other tickers' positions
/// are untouched.
proof fn lemma_other_ticker_unchanged<L>(
    new: Seq<TickerLevels<L>>,
    before: Seq<TickerLevels<L>>,
    ticker: Seq<char>,
    t: Seq<char>,
)
    requires
        t != ticker,
        entry_index(new, t) == entry_index(before, t),
        forall|q: int|
            0 <= q < before.len() && before[q].ticker@ != ticker ==> q < new.len() && new[q]
                == before[q],
    ensures
        match entry_index(new, t) {
            Some(i) => 0 <= i < before.len() && new[i].levels@ == before[i].levels@ && new[i].generation
                == before[i].generation,
            None => true,
        },
{
    lemma_entry_index_bounds(before, t);
}

/// Two entry lists with the same tickers position every ticker alike.
proof fn lemma_same_tickers_same_index<L>(a: Seq<TickerLevels<L>>, b: Seq<TickerLevels<L>>, u: Seq<char>)
    requires
        a.len() == b.len(),
        forall|q: int| 0 <= q < a.len() ==> a[q].ticker@ == b[q].ticker@,
    ensures
        entry_index(a, u) == entry_index(b, u),
    decreases a.len(),
{
    if a.len() > 0 {
        assert forall|q: int| 0 <= q < a.drop_first().len() implies a.drop_first()[q].ticker@
            == b.drop_first()[q].ticker@ by {
            assert(a.drop_first()[q] == a[q + 1]);
            assert(b.drop_first()[q] == b[q + 1]);
        }
        lemma_same_tickers_same_index(a.drop_first(), b.drop_first(), u);
    }
}

/// Where a ticker sits after pushing one more entry.
proof fn lemma_index_push<L>(es: Seq<TickerLevels<L>>, e: TickerLevels<L>, u: Seq<char>)
    ensures
        entry_index(es.push(e), u) == match entry_index(es, u) {
            Some(i) => Some(i),
            None => if e.ticker@ == u {
                Some(es.len() as int)
            } else {
                None
            },
        },
    decreases es.len(),
{
    if es.len() > 0 {
        let p = es.push(e);
        assert(p[0] == es[0]);
        if es[0].ticker@ != u {
            assert(p.drop_first() =~= es.drop_first().push(e));
            lemma_index_push(es.drop_first(), e, u);
            assert(entry_index(p, u) == match entry_index(p.drop_first(), u) {
                Some(i) => Some(i + 1),
                None => None,
            });
            assert(entry_index(es, u) == match entry_index(es.drop_first(), u) {
                Some(i) => Some(i + 1),
                None => None,
            });
            assert(es.drop_first().len() + 1 == es.len());
            match entry_index(es.drop_first(), u) {
                Some(i) => {
                    assert(entry_index(p, u) == Some(i + 1));
                },
                None => {
                    if e.ticker@ == u {
                        assert(entry_index(es.drop_first().push(e), u) == Some(
                            es.drop_first().len() as int,
                        ));
                        assert(entry_index(p, u) == Some(es.len() as int));
                    } else {
                        assert(entry_index(p, u) is None);
                    }
                },
            }
        } else {
            assert(entry_index(p, u) == Some(0int));
            assert(entry_index(es, u) == Some(0int));
        }
    } else {
        let p = es.push(e);
        assert(p[0] == e);
        assert(p.drop_first() =~= Seq::<TickerLevels<L>>::empty());
        assert(entry_index(es, u) is None);
        assert(entry_index(p.drop_first(), u) is None);
        if e.ticker@ == u {
            assert(entry_index(p, u) == Some(0int));
        } else {
            assert(entry_index(p, u) is None);
        }
    }
}

/// A level as saved in the workspace config: everything but its id.
#[derive(Clone, Debug)]
pub struct LevelConfig<L> {
    pub locked: bool,
    pub level: L,
}

/// Saved levels, per ticker.
pub type SavedLevels<L> = Seq<(String, Vec<LevelConfig<L>>)>;

/// How many levels a saved config holds.
pub open spec fn config_total<L>(cfgs: SavedLevels<L>) -> nat
    decreases cfgs.len(),
{
    if cfgs.len() == 0 {
        0
    } else {
        config_total(cfgs.drop_last()) + cfgs.last().1@.len()
    }
}

/// The position of the last entry saved for ticker `t`.
pub open spec fn last_entry<L>(cfgs: SavedLevels<L>, t: Seq<char>) -> Option<int>
    decreases cfgs.len(),
{
    if cfgs.len() == 0 {
        None
    } else if cfgs.last().0@ == t {
        Some(cfgs.len() - 1)
    } else {
        last_entry(cfgs.drop_last(), t)
    }
}

/// Whether `ls` holds the saved levels `cfg`, with ids counting up from
/// `first_id`.
pub open spec fn holds_config<L: Clone>(
    ls: Seq<StoredLevel<L>>,
    cfg: Seq<LevelConfig<L>>,
    first_id: int,
) -> bool {
    &&& ls.len() == cfg.len()
    &&& forall|j: int|
        0 <= j < ls.len() ==> {
            &&& (#[trigger] ls[j]).id == first_id + j
            &&& ls[j].locked == cfg[j].locked
            &&& cloned(cfg[j].level, ls[j].level)
        }
}

/// Whether `cfg` saves the levels `ls`.
pub open spec fn saves<L: Clone>(cfg: Seq<LevelConfig<L>>, ls: Seq<StoredLevel<L>>) -> bool {
    &&& cfg.len() == ls.len()
    &&& forall|j: int|
        0 <= j < ls.len() ==> {
            &&& (#[trigger] cfg[j]).locked == ls[j].locked
            &&& cloned(ls[j].level, cfg[j].level)
        }
}

proof fn lemma_config_total_prefix<L>(cfgs: SavedLevels<L>, i: int, k: int)
    requires
        0 <= i < k <= cfgs.len(),
    ensures
        config_total(cfgs.take(i)) + cfgs[i].1@.len() <= config_total(cfgs.take(k)),
        config_total(cfgs.take(k)) <= config_total(cfgs),
    decreases cfgs.len(),
{
    if k == cfgs.len() {
        assert(cfgs.take(k) =~= cfgs);
        if i == k - 1 {
            assert(cfgs.drop_last() =~= cfgs.take(i));
        } else {
            lemma_config_total_prefix(cfgs.drop_last(), i, k - 1);
            assert(cfgs.drop_last().take(i) =~= cfgs.take(i));
            assert(cfgs.drop_last().take(k - 1) =~= cfgs.drop_last());
        }
    } else {
        lemma_config_total_prefix(cfgs.drop_last(), i, k);
        assert(cfgs.drop_last().take(i) =~= cfgs.take(i));
        assert(cfgs.drop_last().take(k) =~= cfgs.take(k));
    }
}

proof fn lemma_last_entry_bounds<L>(cfgs: SavedLevels<L>, t: Seq<char>)
    ensures
        last_entry(cfgs, t) matches Some(i) ==> 0 <= i < cfgs.len() && cfgs[i].0@ == t && forall|
            k: int,
        |
            i < k < cfgs.len() ==> cfgs[k].0@ != t,
        last_entry(cfgs, t) is None ==> forall|k: int| 0 <= k < cfgs.len() ==> cfgs[k].0@ != t,
    decreases cfgs.len(),
{
    if cfgs.len() > 0 {
        lemma_last_entry_bounds(cfgs.drop_last(), t);
        assert forall|k: int| 0 <= k < cfgs.len() - 1 implies cfgs.drop_last()[k] == cfgs[k] by {}
    }
}

impl<L: Clone> LevelStore<L> {
    /// Whether this store holds exactly the levels saved in `cfgs`: for
    /// each ticker, the last entry saved for it, with ids counting up
    /// from 1 in the order the config lists its levels.
    pub open spec fn restores(&self, cfgs: SavedLevels<L>) -> bool {
        forall|t: Seq<char>|
            match last_entry(cfgs, t) {
                None => #[trigger] self.levels_of(t).len() == 0,
                Some(i) => holds_config(
                    self.levels_of(t),
                    cfgs[i].1@,
                    1 + config_total(cfgs.take(i)) as int,
                ),
            }
    }

    /// Rebuild a store from saved levels. Ids are handed out afresh,
    /// counting from 1 across every ticker; every generation is zero.
    pub fn from_config(levels: &Vec<(String, Vec<LevelConfig<L>>)>) -> (r: Self)
        requires
            config_total(levels@) < u64::MAX,
        ensures
            r.wf(),
            r.restores(levels@),
            r.next_id_spec() == 1 + config_total(levels@),
            forall|t: Seq<char>| #[trigger] r.generation_of(t) == 0,
    {
        let mut store = Self::new();
        let mut i: usize = 0;
        proof {
            assert(levels@.take(0) =~= Seq::<(String, Vec<LevelConfig<L>>)>::empty());
            assert forall|t: Seq<char>| #[trigger] store.levels_of(t).len() == 0 by {}
        }
        while i < levels.len()
            invariant
                i <= levels@.len(),
                store.wf(),
                config_total(levels@) < u64::MAX,
                store.next_id_spec() == 1 + config_total(levels@.take(i as int)),
                store.restores(levels@.take(i as int)),
                forall|t: Seq<char>| #[trigger] store.generation_of(t) == 0,
            decreases levels@.len() - i,
        {
            let ghost base = 1 + config_total(levels@.take(i as int));
            let cfgs = &levels[i].1;
            proof {
                lemma_config_total_prefix(levels@, i as int, i + 1);
            }
            let ghost s0 = store;
            let mut built: Vec<StoredLevel<L>> = Vec::new();
            let mut j: usize = 0;
            while j < cfgs.len()
                invariant
                    j <= cfgs@.len(),
                    cfgs@ == levels@[i as int].1@,
                    base + cfgs@.len() <= 1 + config_total(levels@.take(i + 1)),
                    config_total(levels@.take(i + 1)) <= config_total(levels@),
                    config_total(levels@) < u64::MAX,
                    store.wf(),
                    store.next_id_spec() == base + j,
                    store.entries() == s0.entries(),
                    built@.len() == j,
                    forall|q: int|
                        0 <= q < j ==> {
                            &&& #[trigger] built@[q].id == base + q
                            &&& built@[q].locked == cfgs@[q].locked
                            &&& cloned(cfgs@[q].level, built@[q].level)
                        },
                decreases cfgs@.len() - j,
            {
                let id = store.alloc_id();
                let level = cfgs[j].level.clone();
                built.push(StoredLevel { id, locked: cfgs[j].locked, level });
                j = j + 1;
            }
            let ghost prev = store;
            proof {
                assert forall|t: Seq<char>|
                    #![trigger prev.levels_of(t)]
                    #![trigger prev.generation_of(t)]
                    prev.levels_of(t) == s0.levels_of(t) && prev.generation_of(t)
                        == s0.generation_of(t) by {}
            }
            store.put_levels(levels[i].0.as_str(), built);
            proof {
                let pre = levels@.take(i as int);
                let cur = levels@.take(i + 1);
                assert(cur.drop_last() =~= pre);
                assert(cur.last() == levels@[i as int]);
                assert forall|t: Seq<char>| #[trigger] store.generation_of(t) == 0 by {
                    if t != levels@[i as int].0@ {
                        assert(store.generation_of(t) == prev.generation_of(t));
                    }
                }
                assert forall|t: Seq<char>|
                    match last_entry(cur, t) {
                        None => #[trigger] store.levels_of(t).len() == 0,
                        Some(k) => holds_config(
                            store.levels_of(t),
                            cur[k].1@,
                            1 + config_total(cur.take(k)) as int,
                        ),
                    } by {
                    if t == levels@[i as int].0@ {
                        assert(cur.take(i as int) =~= pre);
                        assert(last_entry(cur, t) == Some(i as int));
                    } else {
                        assert(last_entry(cur, t) == last_entry(pre, t));
                        assert(store.levels_of(t) == prev.levels_of(t));
                        match last_entry(pre, t) {
                            None => {},
                            Some(k) => {
                                lemma_last_entry_bounds(pre, t);
                                assert(cur.take(k) =~= pre.take(k));
                                assert(cur[k] == pre[k]);
                            },
                        }
                    }
                }
            }
            i = i + 1;
        }
        proof {
            assert(levels@.take(levels@.len() as int) =~= levels@);
        }
        store
    }
}

impl<L: Clone> LevelStore<L> {
    /// Whether `cfgs` saves this store: one entry per ticker that holds
    /// levels, each listing that ticker's levels in order.
    pub open spec fn saved_as(&self, cfgs: SavedLevels<L>) -> bool {
        &&& forall|i: int|
            0 <= i < cfgs.len() ==> self.levels_of(#[trigger] cfgs[i].0@).len() > 0 && saves(
                cfgs[i].1@,
                self.levels_of(cfgs[i].0@),
            )
        &&& forall|t: Seq<char>|
            #[trigger] self.levels_of(t).len() > 0 ==> exists|i: int|
                0 <= i < cfgs.len() && #[trigger] cfgs[i].0@ == t
        &&& forall|a: int, b: int| 0 <= a < b < cfgs.len() ==> cfgs[a].0@ != cfgs[b].0@
    }

    /// The config that saves this store; tickers without levels are left
    /// out.
    pub fn to_config(&self) -> (r: Vec<(String, Vec<LevelConfig<L>>)>)
        requires
            self.wf(),
        ensures
            self.saved_as(r@),
    {
        let mut out: Vec<(String, Vec<LevelConfig<L>>)> = Vec::new();
        let ghost mut idx: Seq<int> = Seq::empty();
        let mut k: usize = 0;
        while k < self.entries.len()
            invariant
                self.wf(),
                k <= self.entries@.len(),
                idx.len() == out@.len(),
                forall|i: int| 0 <= i < idx.len() ==> 0 <= #[trigger] idx[i] < k,
                forall|a: int, b: int| 0 <= a < b < idx.len() ==> idx[a] < idx[b],
                forall|i: int|
                    0 <= i < idx.len() ==> {
                        &&& #[trigger] out@[i].0@ == self.entries@[idx[i]].ticker@
                        &&& self.entries@[idx[i]].levels@.len() > 0
                        &&& saves(out@[i].1@, self.entries@[idx[i]].levels@)
                    },
                forall|q: int|
                    0 <= q < k && #[trigger] self.entries@[q].levels@.len() > 0 ==> exists|i: int|
                        0 <= i < idx.len() && idx[i] == q,
            decreases self.entries@.len() - k,
        {
            let levels = &self.entries[k].levels;
            if levels.len() > 0 {
                let mut cfg: Vec<LevelConfig<L>> = Vec::new();
                let mut j: usize = 0;
                while j < levels.len()
                    invariant
                        j <= levels@.len(),
                        cfg@.len() == j,
                        forall|q: int|
                            0 <= q < j ==> {
                                &&& #[trigger] cfg@[q].locked == levels@[q].locked
                                &&& cloned(levels@[q].level, cfg@[q].level)
                            },
                    decreases levels@.len() - j,
                {
                    let level = levels[j].level.clone();
                    cfg.push(LevelConfig { locked: levels[j].locked, level });
                    j = j + 1;
                }
                let ghost before = out@;
                let ghost old_idx = idx;
                out.push((self.entries[k].ticker.clone(), cfg));
                proof {
                    idx = idx.push(k as int);
                    assert forall|i: int| 0 <= i < before.len() implies out@[i] == before[i] by {}
                    assert forall|q: int|
                        0 <= q < k + 1 && #[trigger] self.entries@[q].levels@.len() > 0 implies exists|
                        i: int,
                    | 0 <= i < idx.len() && idx[i] == q by {
                        if q == k {
                            assert(idx[idx.len() - 1] == q);
                        } else {
                            let w = choose|i: int| 0 <= i < old_idx.len() && old_idx[i] == q;
                            assert(idx[w] == q);
                        }
                    }
                }
            }
            k = k + 1;
        }
        proof {
            assert forall|i: int| 0 <= i < out@.len() implies self.levels_of(
                #[trigger] out@[i].0@,
            ).len() > 0 && saves(out@[i].1@, self.levels_of(out@[i].0@)) by {
                self.lemma_levels_of_entry(idx[i]);
            }
            assert forall|t: Seq<char>| #[trigger] self.levels_of(t).len() > 0 implies exists|i: int|
                0 <= i < out@.len() && #[trigger] out@[i].0@ == t by {
                lemma_entry_index_bounds(self.entries(), t);
                let q = entry_index(self.entries(), t)->Some_0;
                assert(self.entries@[q].levels@.len() > 0);
                let i = choose|i: int| 0 <= i < idx.len() && idx[i] == q;
                assert(out@[i].0@ == t);
            }
            assert forall|a: int, b: int| 0 <= a < b < out@.len() implies out@[a].0@
                != out@[b].0@ by {
                assert(idx[a] < idx[b]);
                assert(out@[a].0@ == self.entries@[idx[a]].ticker@);
                assert(out@[b].0@ == self.entries@[idx[b]].ticker@);
            }
        }
        out
    }
}

/// Ids handed out when restoring saved levels are all distinct, across
/// tickers as within one.
pub proof fn lemma_restored_ids_distinct<L: Clone>(
    cfgs: SavedLevels<L>,
    r: LevelStore<L>,
    t1: Seq<char>,
    j1: int,
    t2: Seq<char>,
    j2: int,
)
    requires
        r.restores(cfgs),
        0 <= j1 < r.levels_of(t1).len(),
        0 <= j2 < r.levels_of(t2).len(),
        t1 != t2 || j1 != j2,
    ensures
        r.levels_of(t1)[j1].id != r.levels_of(t2)[j2].id,
{
    lemma_last_entry_bounds(cfgs, t1);
    lemma_last_entry_bounds(cfgs, t2);
    let a = last_entry(cfgs, t1);
    let b = last_entry(cfgs, t2);
    assert(a is Some);
    assert(b is Some);
    let i1 = a->Some_0;
    let i2 = b->Some_0;
    assert(r.levels_of(t1)[j1].id == 1 + config_total(cfgs.take(i1)) + j1);
    assert(r.levels_of(t2)[j2].id == 1 + config_total(cfgs.take(i2)) + j2);
    if i1 < i2 {
        lemma_config_total_prefix(cfgs, i1, i2);
    } else if i2 < i1 {
        lemma_config_total_prefix(cfgs, i2, i1);
    }
}

/// Saving a store and restoring it gives back, for every ticker, as
/// many levels in the same order with the same locks; each restored
/// level is a clone of the saved one, itself a clone of the original.
pub proof fn lemma_level_config_round_trip<L: Clone>(
    s: LevelStore<L>,
    cfgs: SavedLevels<L>,
    r: LevelStore<L>,
    t: Seq<char>,
)
    requires
        s.saved_as(cfgs),
        r.restores(cfgs),
    ensures
        r.levels_of(t).len() == s.levels_of(t).len(),
        s.levels_of(t).len() > 0 ==> (last_entry(cfgs, t) matches Some(i) && forall|j: int|
            0 <= j < s.levels_of(t).len() ==> {
                &&& #[trigger] r.levels_of(t)[j].locked == s.levels_of(t)[j].locked
                &&& cloned(s.levels_of(t)[j].level, cfgs[i].1@[j].level)
                &&& cloned(cfgs[i].1@[j].level, r.levels_of(t)[j].level)
            }),
{
    lemma_last_entry_bounds(cfgs, t);
    match last_entry(cfgs, t) {
        Some(i) => {
            assert(s.levels_of(cfgs[i].0@).len() > 0);
            assert(saves(cfgs[i].1@, s.levels_of(t)));
            assert(holds_config(r.levels_of(t), cfgs[i].1@, 1 + config_total(cfgs.take(i)) as int));
        },
        None => {
            if s.levels_of(t).len() > 0 {
                let i = choose|i: int| 0 <= i < cfgs.len() && #[trigger] cfgs[i].0@ == t;
                assert(cfgs[i].0@ == t);
            }
        },
    }
}

/// Restoring saved levels and saving the store again gives the saved
/// levels back: exactly the tickers whose (last) saved list is not
/// empty, each with as many levels in the same order with the same
/// locks; each level saved again is a clone of the restored one, itself
/// a clone of the level first saved.
pub proof fn lemma_level_config_restore_then_save<L: Clone>(
    cfgs: SavedLevels<L>,
    r: LevelStore<L>,
    out: SavedLevels<L>,
    t: Seq<char>,
)
    requires
        r.restores(cfgs),
        r.saved_as(out),
    ensures
        (exists|j: int| 0 <= j < out.len() && #[trigger] out[j].0@ == t) <==> (last_entry(
            cfgs,
            t,
        ) matches Some(i) && cfgs[i].1@.len() > 0),
        forall|j: int|
            0 <= j < out.len() && #[trigger] out[j].0@ == t ==> (last_entry(cfgs, t) matches Some(i)
                && out[j].1@.len() == cfgs[i].1@.len() && forall|k: int|
                0 <= k < out[j].1@.len() ==> {
                    &&& (#[trigger] out[j].1@[k]).locked == cfgs[i].1@[k].locked
                    &&& cloned(cfgs[i].1@[k].level, r.levels_of(t)[k].level)
                    &&& cloned(r.levels_of(t)[k].level, out[j].1@[k].level)
                }),
{
    lemma_last_entry_bounds(cfgs, t);
    assert(r.levels_of(t).len() == 0 || last_entry(cfgs, t) is Some);
    match last_entry(cfgs, t) {
        Some(i) => {
            assert(holds_config(r.levels_of(t), cfgs[i].1@, 1 + config_total(cfgs.take(i)) as int));
            assert forall|j: int| 0 <= j < out.len() && #[trigger] out[j].0@ == t implies out[j].1@.len()
                == cfgs[i].1@.len() && forall|k: int|
                0 <= k < out[j].1@.len() ==> {
                    &&& (#[trigger] out[j].1@[k]).locked == cfgs[i].1@[k].locked
                    &&& cloned(cfgs[i].1@[k].level, r.levels_of(t)[k].level)
                    &&& cloned(r.levels_of(t)[k].level, out[j].1@[k].level)
                } by {
                assert(saves(out[j].1@, r.levels_of(out[j].0@)));
                assert forall|k: int| 0 <= k < out[j].1@.len() implies {
                    &&& (#[trigger] out[j].1@[k]).locked == cfgs[i].1@[k].locked
                    &&& cloned(cfgs[i].1@[k].level, r.levels_of(t)[k].level)
                    &&& cloned(r.levels_of(t)[k].level, out[j].1@[k].level)
                } by {
                    assert(r.levels_of(t)[k] == r.levels_of(t)[k]);
                    assert(out[j].1@[k] == out[j].1@[k]);
                }
            }
            if cfgs[i].1@.len() > 0 {
                assert(r.levels_of(t).len() > 0);
            }
        },
        None => {
            assert(r.levels_of(t).len() == 0);
            assert forall|j: int| 0 <= j < out.len() implies #[trigger] out[j].0@ != t by {
                assert(r.levels_of(out[j].0@).len() > 0);
            }
        },
    }
}

} // verus!
