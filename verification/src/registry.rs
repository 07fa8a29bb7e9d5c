//! Registry of historical-data providers and which one is active.
//!
//! Providers are held with the name they report; the active provider is
//! an index into the registration order.

use vstd::prelude::*;
use crate::text::str_eq;

verus! {

/// Historical-data providers in registration order, with the index of
/// the active one.
pub struct HistoricalDataRegistry<P> {
    data_providers: Vec<(String, P)>,
    pub active_data_idx: usize,
}

/// The first position in `names` holding `name`.
pub open spec fn position_of(names: Seq<Seq<char>>, name: Seq<char>) -> Option<int>
    decreases names.len(),
{
    if names.len() == 0 {
        None
    } else if names[0] == name {
        Some(0)
    } else {
        match position_of(names.drop_first(), name) {
            Some(i) => Some(i + 1),
            None => None,
        }
    }
}

impl<P> HistoricalDataRegistry<P> {
    /// Names of the registered providers, in registration order.
    pub closed spec fn names(&self) -> Seq<Seq<char>> {
        self.data_providers@.map_values(|e: (String, P)| e.0@)
    }

    /// The active index.
    pub closed spec fn active(&self) -> usize {
        self.active_data_idx
    }

    /// The registered providers, in registration order.
    pub closed spec fn providers(&self) -> Seq<P> {
        self.data_providers@.map_values(|e: (String, P)| e.1)
    }

    /// An empty registry whose active index is zero.
    pub fn new() -> (r: Self)
        ensures
            r.names() == Seq::<Seq<char>>::empty(),
            r.providers() == Seq::<P>::empty(),
            r.active() == 0,
    {
        let r = HistoricalDataRegistry { data_providers: Vec::new(), active_data_idx: 0 };
        assert(r.names() =~= Seq::<Seq<char>>::empty());
        assert(r.providers() =~= Seq::<P>::empty());
        r
    }

    /// Register a provider under the name it reports.
    pub fn register_data_provider(&mut self, name: String, provider: P)
        ensures
            final(self).names() == old(self).names().push(name@),
            final(self).providers() == old(self).providers().push(provider),
            final(self).active() == old(self).active(),
    {
        let ghost n = name@;
        self.data_providers.push((name, provider));
        assert(self.names() =~= old(self).names().push(n));
        assert(self.providers() =~= old(self).providers().push(provider));
    }

    /// Names of the registered providers, in registration order.
    pub fn data_provider_names(&self) -> (r: Vec<String>)
        ensures
            r@.len() == self.names().len(),
            forall|i: int| 0 <= i < r@.len() ==> #[trigger] r@[i]@ == self.names()[i],
    {
        let mut out: Vec<String> = Vec::new();
        let mut i: usize = 0;
        while i < self.data_providers.len()
            invariant
                i <= self.data_providers@.len(),
                out@.len() == i,
                forall|j: int| 0 <= j < i ==> #[trigger] out@[j]@ == self.names()[j],
            decreases self.data_providers@.len() - i,
        {
            out.push(self.data_providers[i].0.clone());
            i = i + 1;
        }
        out
    }

    /// The active provider, if the active index names one.
    pub fn active_data_provider(&self) -> (r: Option<&P>)
        ensures
            match r {
                Some(p) => self.active() < self.providers().len() && *p
                    == self.providers()[self.active() as int],
                None => self.active() >= self.providers().len(),
            },
    {
        if self.active_data_idx < self.data_providers.len() {
            Some(&self.data_providers[self.active_data_idx].1)
        } else {
            None
        }
    }

    /// Name of the active provider, or `None` when there is none.
    pub fn active_data_provider_name(&self) -> (r: String)
        ensures
            r@ == if self.active() < self.names().len() {
                self.names()[self.active() as int]
            } else {
                "None"@
            },
    {
        if self.active_data_idx < self.data_providers.len() {
            self.data_providers[self.active_data_idx].0.clone()
        } else {
            let none = "None";
            proof {
                reveal_strlit("None");
            }
            none.to_owned()
        }
    }

    /// Make provider `idx` active. Returns whether the active provider
    /// changed: an index out of range, or the one already active, leaves
    /// everything as it was.
    pub fn set_active_data(&mut self, idx: usize) -> (changed: bool)
        ensures
            changed == (idx < old(self).providers().len() && idx != old(self).active()),
            final(self).active() == if changed {
                idx
            } else {
                old(self).active()
            },
            final(self).names() == old(self).names(),
            final(self).providers() == old(self).providers(),
    {
        if idx >= self.data_providers.len() || idx == self.active_data_idx {
            return false;
        }
        self.active_data_idx = idx;
        true
    }

    /// Position of the first provider named `name`.
    pub fn find_data_provider_index(&self, name: &str) -> (r: Option<usize>)
        ensures
            match r {
                Some(i) => position_of(self.names(), name@) == Some(i as int),
                None => position_of(self.names(), name@) is None,
            },
    {
        let n = self.data_providers.len();
        let mut i: usize = 0;
        assert(self.names().skip(0) =~= self.names());
        while i < n
            invariant
                n == self.names().len(),
                i <= n,
                position_of(self.names(), name@) == match position_of(
                    self.names().skip(i as int),
                    name@,
                ) {
                    Some(j) => Some(j + i),
                    None => None,
                },
            decreases n - i,
        {
            assert(self.names().skip(i as int).drop_first() =~= self.names().skip(i + 1));
            if str_eq(self.data_providers[i].0.as_str(), name) {
                return Some(i);
            }
            i = i + 1;
        }
        None
    }
}

} // verus!
