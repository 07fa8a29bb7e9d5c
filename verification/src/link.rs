//! Chart linking: the propagation order a linked receiver follows and
//! the matching of receivers to a broadcasting source.
//!
//! When a source chart's symbol propagates to a linked receiver, the
//! receiver executes four steps in exactly this order: clear the
//! version-keyed caches, drop the old subscription, acquire the new one,
//! then reset interaction and auto-scale.

use vstd::prelude::*;

verus! {

/// One step a linked receiver executes when its source propagates a
/// symbol change.
#[derive(Copy, Clone, Debug, PartialEq, Eq, Structural, Hash)]
pub enum LinkPropagationStep {
    /// Clear version-keyed caches (indicators, volume profile, thumbnail).
    ClearCaches,
    /// Release the outgoing subscription so the router refcount drops.
    DropSubscription,
    /// Acquire the subscription for the incoming symbol.
    AcquireSubscription,
    /// Clear interaction state and queue an auto-scale once data lands.
    ResetAndAutoScale,
}

/// The canonical propagation order.
pub const LINK_PROPAGATION_ORDER: [LinkPropagationStep; 4] = [
    LinkPropagationStep::ClearCaches,
    LinkPropagationStep::DropSubscription,
    LinkPropagationStep::AcquireSubscription,
    LinkPropagationStep::ResetAndAutoScale,
];

/// The canonical propagation order, as a sequence.
pub open spec fn propagation_order() -> Seq<LinkPropagationStep> {
    seq![
        LinkPropagationStep::ClearCaches,
        LinkPropagationStep::DropSubscription,
        LinkPropagationStep::AcquireSubscription,
        LinkPropagationStep::ResetAndAutoScale,
    ]
}

/// The canonical propagation order.
pub fn link_propagation_order() -> (r: Vec<LinkPropagationStep>)
    ensures
        r@ == propagation_order(),
{
    let r = vec![
        LinkPropagationStep::ClearCaches,
        LinkPropagationStep::DropSubscription,
        LinkPropagationStep::AcquireSubscription,
        LinkPropagationStep::ResetAndAutoScale,
    ];
    assert(r@ =~= propagation_order());
    r
}

/// Every step appears exactly once in the propagation order.
pub proof fn lemma_each_step_once(s: LinkPropagationStep)
    ensures
        propagation_order().contains(s),
        propagation_order().no_duplicates(),
{
    let o = propagation_order();
    match s {
        LinkPropagationStep::ClearCaches => assert(o[0] == s),
        LinkPropagationStep::DropSubscription => assert(o[1] == s),
        LinkPropagationStep::AcquireSubscription => assert(o[2] == s),
        LinkPropagationStep::ResetAndAutoScale => assert(o[3] == s),
    }
}

/// Which link dimension is being configured.
#[derive(Copy, Clone, Debug, PartialEq, Eq, Structural)]
pub enum LinkDimension {
    Symbol,
    Timeframe,
}

/// A link group colour.
#[derive(Copy, Clone, Debug, PartialEq, Eq, Structural, Hash)]
pub enum LinkColor {
    Blue,
    Red,
    Orange,
    Green,
    Purple,
    Violet,
    Teal,
    Brown,
}

/// How a panel takes part in linking: not at all, receiving every
/// broadcast, or broadcasting and receiving within one colour group.
#[derive(Copy, Clone, Debug, PartialEq, Eq, Structural, Hash)]
pub enum LinkMode {
    Unlinked,
    ListenAll,
    Color(LinkColor),
}

/// Whether a panel in `mode` receives what a source in `source` sends:
/// only a colour source broadcasts, to its own colour and to listeners
/// of every group.
pub open spec fn receives(source: LinkMode, mode: LinkMode) -> bool {
    match source {
        LinkMode::Color(c) => match mode {
            LinkMode::Color(d) => c == d,
            LinkMode::ListenAll => true,
            LinkMode::Unlinked => false,
        },
        _ => false,
    }
}

/// The keys, in order, of the panels that receive from `source`.
pub open spec fn link_targets<K>(source: LinkMode, panels: Seq<(K, LinkMode)>) -> Seq<K>
    decreases panels.len(),
{
    if panels.len() == 0 {
        Seq::empty()
    } else {
        let rest = link_targets(source, panels.drop_last());
        if receives(source, panels.last().1) {
            rest.push(panels.last().0)
        } else {
            rest
        }
    }
}

fn receives_exec(source: LinkMode, mode: LinkMode) -> (r: bool)
    ensures
        r == receives(source, mode),
{
    match source {
        LinkMode::Color(c) => match mode {
            LinkMode::Color(d) => c == d,
            LinkMode::ListenAll => true,
            LinkMode::Unlinked => false,
        },
        _ => false,
    }
}

/// Given a source's link mode, the keys of the candidate panels that
/// receive the propagated change, in their order. Empty when the source
/// does not broadcast.
pub fn find_link_targets<K: Copy>(source_link: LinkMode, panels: Vec<(K, LinkMode)>) -> (r: Vec<K>)
    ensures
        r@ == link_targets(source_link, panels@),
{
    let mut out: Vec<K> = Vec::new();
    let mut i: usize = 0;
    while i < panels.len()
        invariant
            i <= panels@.len(),
            out@ == link_targets(source_link, panels@.take(i as int)),
        decreases panels@.len() - i,
    {
        let (key, mode) = panels[i];
        assert(panels@.take(i + 1).drop_last() =~= panels@.take(i as int));
        if receives_exec(source_link, mode) {
            out.push(key);
        }
        i = i + 1;
    }
    assert(panels@.take(panels@.len() as int) =~= panels@);
    out
}

/// Only a colour source broadcasts: a source that is unlinked or only
/// listens has no targets, whatever the panels.
pub proof fn lemma_non_colour_source_has_no_targets<K>(source: LinkMode, panels: Seq<(K, LinkMode)>)
    requires
        !(source is Color),
    ensures
        link_targets(source, panels) == Seq::<K>::empty(),
    decreases panels.len(),
{
    if panels.len() > 0 {
        lemma_non_colour_source_has_no_targets(source, panels.drop_last());
    }
}

/// Every listen-all panel receives a colour broadcast, and no unlinked
/// panel ever does: a panel is a target exactly when it receives.
pub proof fn lemma_targets_are_receivers<K>(source: LinkMode, panels: Seq<(K, LinkMode)>, i: int)
    requires
        0 <= i < panels.len(),
        forall|a: int, b: int| 0 <= a < b < panels.len() ==> panels[a].0 != panels[b].0,
    ensures
        link_targets(source, panels).contains(panels[i].0) <==> receives(source, panels[i].1),
    decreases panels.len(),
{
    let rest = panels.drop_last();
    if i < panels.len() - 1 {
        lemma_targets_are_receivers(source, rest, i);
        assert(rest[i] == panels[i]);
        let x = panels[i].0;
        let rt = link_targets(source, rest);
        if receives(source, panels.last().1) {
            let t = rt.push(panels.last().0);
            assert(link_targets(source, panels) == t);
            assert(panels.last().0 != x);
            if rt.contains(x) {
                let j = choose|j: int| 0 <= j < rt.len() && rt[j] == x;
                assert(t[j] == x);
            }
            if t.contains(x) {
                let j = choose|j: int| 0 <= j < t.len() && t[j] == x;
                if j < rt.len() {
                    assert(rt[j] == x);
                }
            }
        }
    } else {
        lemma_targets_subset(source, rest);
        if receives(source, panels.last().1) {
            let t = link_targets(source, panels);
            assert(t[t.len() - 1] == panels[i].0);
        } else {
            if link_targets(source, rest).contains(panels[i].0) {
                let j = choose|j: int|
                    0 <= j < rest.len() && rest[j].0 == panels[i].0;
                assert(panels[j].0 == panels[i].0);
            }
        }
    }
}

/// Every target key is the key of some candidate panel.
proof fn lemma_targets_subset<K>(source: LinkMode, panels: Seq<(K, LinkMode)>)
    ensures
        forall|k: K|
            link_targets(source, panels).contains(k) ==> exists|j: int|
                0 <= j < panels.len() && panels[j].0 == k,
    decreases panels.len(),
{
    if panels.len() > 0 {
        let rest = panels.drop_last();
        lemma_targets_subset(source, rest);
        assert forall|k: K| link_targets(source, panels).contains(k) implies exists|j: int|
            0 <= j < panels.len() && panels[j].0 == k by {
            if link_targets(source, rest).contains(k) {
                let j = choose|j: int| 0 <= j < rest.len() && rest[j].0 == k;
                assert(panels[j] == rest[j]);
            } else {
                assert(panels[panels.len() - 1].0 == k);
            }
        }
    }
}

} // verus!
