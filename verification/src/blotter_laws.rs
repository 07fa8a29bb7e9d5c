//! Properties of the blotter that span events: what every event keeps,
//! what a replay does, and when the generation moves.

use vstd::prelude::*;
use crate::blotter::{
    action_of, apply_event, blotter_wf, f64_bits_positive, hydrated, index_after, rows_after,
    status_from_broker, BlotterView, LegRole, OrderStatus, RowView, UtcTime,
};
use crate::broker::BrokerEvent;

verus! {

/// The shape of a first `BracketCreated`: the touched ids are the new
/// legs, each keyed by its own id under the new parent, and every other
/// row is left as it was.
proof fn lemma_bracket_shape(v: BlotterView, e: BrokerEvent, now: UtcTime)
    requires
        e is BracketCreated,
        !v.by_parent.contains_key(e->parent_id),
    ensures
        ({
            let w = apply_event(v, e, now).0;
            let t = apply_event(v, e, now).1;
            &&& w.by_parent == v.by_parent.insert(e->parent_id, t)
            &&& forall|k: u128| #[trigger]
                w.rows.contains_key(k) <==> (v.rows.contains_key(k) || t.contains(k))
            &&& forall|k: u128| #[trigger]
                t.contains(k) ==> w.rows[k].order_id == k && w.rows[k].parent_id == e->parent_id
            &&& forall|k: u128|
                !t.contains(k) && v.rows.contains_key(k) ==> #[trigger] w.rows[k] == v.rows[k]
        }),
{
    match e {
        BrokerEvent::BracketCreated { parent_id, take_profit_id, stop_loss_id, tp_price, sl_price, .. } => {
            let w = apply_event(v, e, now).0;
            let t = apply_event(v, e, now).1;
            let tp = take_profit_id is Some && tp_price is Some;
            let sl = stop_loss_id is Some && sl_price is Some;
            let a = parent_id;
            let b = take_profit_id->0;
            let c = stop_loss_id->0;
            if tp && sl {
                assert(t =~= seq![a, b, c]);
                assert(w.rows.dom() =~= v.rows.dom().insert(a).insert(b).insert(c));
                assert forall|k: u128| #[trigger] t.contains(k) <==> (k == a || k == b || k == c) by {
                    if k == a { assert(t[0] == k); }
                    if k == b { assert(t[1] == k); }
                    if k == c { assert(t[2] == k); }
                }
            } else if tp {
                assert(t =~= seq![a, b]);
                assert(w.rows.dom() =~= v.rows.dom().insert(a).insert(b));
                assert forall|k: u128| #[trigger] t.contains(k) <==> (k == a || k == b) by {
                    if k == a { assert(t[0] == k); }
                    if k == b { assert(t[1] == k); }
                }
            } else if sl {
                assert(t =~= seq![a, c]);
                assert(w.rows.dom() =~= v.rows.dom().insert(a).insert(c));
                assert forall|k: u128| #[trigger] t.contains(k) <==> (k == a || k == c) by {
                    if k == a { assert(t[0] == k); }
                    if k == c { assert(t[1] == k); }
                }
            } else {
                assert(t =~= seq![a]);
                assert(w.rows.dom() =~= v.rows.dom().insert(a));
                assert forall|k: u128| #[trigger] t.contains(k) <==> k == a by {
                    if k == a { assert(t[0] == k); }
                }
            }
        },
        _ => {},
    }
}

/// Every event keeps the blotter well-formed: rows stay keyed by their
/// own leg id and the parent index keeps naming exactly live rows.
pub proof fn lemma_apply_preserves_wf(v: BlotterView, e: BrokerEvent, now: UtcTime)
    requires
        blotter_wf(v),
    ensures
        blotter_wf(apply_event(v, e, now).0),
{
    let w = apply_event(v, e, now).0;
    match e {
        BrokerEvent::BracketCreated { parent_id, .. } => {
            if !v.by_parent.contains_key(parent_id) {
                lemma_bracket_shape(v, e, now);
                let t = apply_event(v, e, now).1;
                assert forall|k: u128| #[trigger] w.rows.contains_key(k) implies w.rows[k].order_id
                    == k && w.by_parent.contains_key(w.rows[k].parent_id)
                    && w.by_parent[w.rows[k].parent_id].contains(k) by {
                    if !t.contains(k) {
                        assert(w.rows[k] == v.rows[k]);
                        assert(v.rows[k].parent_id != parent_id);
                    }
                }
                assert forall|p: u128, i: int|
                    w.by_parent.contains_key(p) && 0 <= i < w.by_parent[p].len() implies w.rows.contains_key(
                    #[trigger] w.by_parent[p][i],
                ) by {
                    if p != parent_id {
                        assert(v.rows.contains_key(v.by_parent[p][i]));
                    }
                }
            }
        },
        _ => {},
    }
}

/// Replaying a `BracketCreated` is a no-op: after the first application
/// the parent is indexed, so the second touches nothing and keeps the
/// generation, the rows and their creation times.
pub proof fn lemma_bracket_replay_is_noop(v: BlotterView, e: BrokerEvent, now1: UtcTime, now2: UtcTime)
    requires
        e is BracketCreated,
    ensures
        apply_event(apply_event(v, e, now1).0, e, now2).0 == apply_event(v, e, now1).0,
        apply_event(apply_event(v, e, now1).0, e, now2).1 == Seq::<u128>::empty(),
{
    let w = apply_event(v, e, now1).0;
    assert(w.by_parent.contains_key(e->parent_id));
    assert(apply_event(w, e, now2).0 =~= w);
}

/// The generation moves exactly when the event touched some row.
pub proof fn lemma_generation_moves_iff_touched(v: BlotterView, e: BrokerEvent, now: UtcTime)
    ensures
        (apply_event(v, e, now).0.generation != v.generation) <==> (apply_event(v, e, now).1.len()
            > 0),
{
}

/// Every id an event reports as touched names a row afterwards.
pub proof fn lemma_touched_rows_exist(v: BlotterView, e: BrokerEvent, now: UtcTime)
    ensures
        forall|i: int|
            0 <= i < apply_event(v, e, now).1.len() ==> apply_event(v, e, now).0.rows.contains_key(
                #[trigger] apply_event(v, e, now).1[i],
            ),
{
}

/// The leg a per-leg event names, if the event is one.
pub open spec fn leg_event_id(e: BrokerEvent) -> Option<u128> {
    match e {
        BrokerEvent::OrderSubmitted { order_id, .. } => Some(order_id),
        BrokerEvent::OrderStatusChanged { order_id, .. } => Some(order_id),
        BrokerEvent::OrderFilled { order_id, .. } => Some(order_id),
        BrokerEvent::OrderCancelled { order_id, .. } => Some(order_id),
        BrokerEvent::OrderRejected { order_id, .. } => Some(order_id),
        _ => None,
    }
}

/// A per-leg event naming a leg the blotter does not hold changes
/// nothing and touches nothing.
pub proof fn lemma_unknown_leg_is_noop(v: BlotterView, e: BrokerEvent, now: UtcTime)
    requires
        leg_event_id(e) is Some,
        !v.rows.contains_key(leg_event_id(e)->0),
    ensures
        apply_event(v, e, now).0 == v,
        apply_event(v, e, now).1 == Seq::<u128>::empty(),
{
    assert(apply_event(v, e, now).0 =~= v);
}

/// Events that neither create a bracket nor name a leg change nothing
/// and touch nothing.
pub proof fn lemma_unrelated_event_is_noop(v: BlotterView, e: BrokerEvent, now: UtcTime)
    requires
        leg_event_id(e) is None,
        !(e is BracketCreated),
    ensures
        apply_event(v, e, now).0 == v,
        apply_event(v, e, now).1 == Seq::<u128>::empty(),
{
    assert(apply_event(v, e, now).0 =~= v);
}

/// `OrderFilled` only stamps the update time of its leg: quantities,
/// average fill price and status are left to `OrderStatusChanged`.
pub proof fn lemma_fill_only_stamps(v: BlotterView, e: BrokerEvent, now: UtcTime)
    requires
        e is OrderFilled,
        v.rows.contains_key(e->OrderFilled_order_id),
    ensures
        ({
            let id = e->OrderFilled_order_id;
            let r = apply_event(v, e, now).0.rows[id];
            &&& r == RowView { last_update_at: now, ..v.rows[id] }
            &&& r.filled_qty == v.rows[id].filled_qty
            &&& r.remaining_qty == v.rows[id].remaining_qty
            &&& r.avg_fill_price == v.rows[id].avg_fill_price
            &&& r.status == v.rows[id].status
        }),
{
}

/// `OrderStatusChanged` is authoritative for the cumulative quantities
/// and the status; the average fill price is taken when positive.
pub proof fn lemma_status_change_is_authoritative(v: BlotterView, e: BrokerEvent, now: UtcTime)
    requires
        e is OrderStatusChanged,
        v.rows.contains_key(e->OrderStatusChanged_order_id),
    ensures
        ({
            let id = e->OrderStatusChanged_order_id;
            let r = apply_event(v, e, now).0.rows[id];
            &&& r.filled_qty == e->OrderStatusChanged_filled_qty
            &&& r.remaining_qty == e->OrderStatusChanged_remaining_qty
            &&& r.status == status_from_broker(e->OrderStatusChanged_new_status@)
            &&& r.avg_fill_price == if f64_bits_positive(e->OrderStatusChanged_avg_fill_price) {
                Some(e->OrderStatusChanged_avg_fill_price)
            } else {
                v.rows[id].avg_fill_price
            }
            &&& r.last_update_at == now
        }),
{
}

/// `OrderCancelled` and `OrderRejected` move their leg to the matching
/// terminal status.
pub proof fn lemma_terminal_events(v: BlotterView, e: BrokerEvent, now: UtcTime)
    requires
        e is OrderCancelled || e is OrderRejected,
        v.rows.contains_key(leg_event_id(e)->0),
    ensures
        apply_event(v, e, now).0.rows[leg_event_id(e)->0].status == if e is OrderCancelled {
            OrderStatus::Cancelled
        } else {
            OrderStatus::Rejected
        },
{
}

/// Rows restored from storage always form a well-formed blotter: each
/// row is keyed by its own id and listed under its parent.
pub proof fn lemma_restored_rows_wf(rs: Seq<RowView>, generation: u64)
    ensures
        blotter_wf(BlotterView { rows: rows_after(rs), by_parent: index_after(rs), generation }),
    decreases rs.len(),
{
    if rs.len() > 0 {
        let prev_rs = rs.drop_last();
        lemma_restored_rows_wf(prev_rs, generation);
        let r = rs.last();
        let m = index_after(prev_rs);
        let rows = rows_after(rs);
        let idx = index_after(rs);
        assert forall|k: u128| #[trigger] rows.contains_key(k) implies rows[k].order_id == k
            && idx.contains_key(rows[k].parent_id) && idx[rows[k].parent_id].contains(k) by {
            if k == r.order_id {
                let l = idx[r.parent_id];
                assert(l[l.len() - 1] == k);
            } else {
                let p = rows[k].parent_id;
                let l = m[p];
                let i = choose|i: int| 0 <= i < l.len() && l[i] == k;
                if p == r.parent_id {
                    assert(idx[p][i] == k);
                }
            }
        }
        assert forall|p: u128, i: int|
            idx.contains_key(p) && 0 <= i < idx[p].len() implies rows.contains_key(
            #[trigger] idx[p][i],
        ) by {
            let old_rows = rows_after(prev_rs);
            let old_v = BlotterView { rows: old_rows, by_parent: m, generation };
            assert(blotter_wf(old_v));
            if p == r.parent_id {
                if i == idx[p].len() - 1 {
                    assert(idx[p][i] == r.order_id);
                } else {
                    assert(m.contains_key(p));
                    assert(idx[p][i] == m[p][i]);
                    assert(old_v.rows.contains_key(old_v.by_parent[p][i]));
                }
            } else {
                assert(idx[p] == m[p]);
                assert(old_v.rows.contains_key(old_v.by_parent[p][i]));
            }
        }
    }
}

/// The leg ids of `rs`, in order.
pub open spec fn row_ids(rs: Seq<RowView>) -> Seq<u128> {
    rs.map_values(|r: RowView| r.order_id)
}

/// `rs[i]` is the last row of `rs` that carries its leg id.
pub open spec fn is_last_with_id(rs: Seq<RowView>, i: int) -> bool {
    &&& 0 <= i < rs.len()
    &&& forall|j: int| i < j < rs.len() ==> #[trigger] rs[j].order_id != rs[i].order_id
}

/// Restoring rows keeps one row per distinct leg id, and for each id the
/// last row that carries it: earlier rows with a repeated id are
/// discarded, so the row count is the number of distinct ids.
pub proof fn lemma_restored_rows_last_wins(rs: Seq<RowView>)
    ensures
        forall|k: u128| #[trigger] rows_after(rs).contains_key(k) <==> row_ids(rs).contains(k),
        rows_after(rs).dom() == row_ids(rs).to_set(),
        rows_after(rs).len() == row_ids(rs).to_set().len(),
        forall|i: int| #[trigger]
            is_last_with_id(rs, i) ==> rows_after(rs)[rs[i].order_id] == rs[i],
    decreases rs.len(),
{
    if rs.len() > 0 {
        let p = rs.drop_last();
        lemma_restored_rows_last_wins(p);
        let n = rs.len() - 1;
        let last = rs[n];
        assert(row_ids(rs) =~= row_ids(p).push(last.order_id));
        assert forall|k: u128| #[trigger]
            rows_after(rs).contains_key(k) <==> row_ids(rs).contains(k) by {
            if row_ids(p).contains(k) {
                let i = choose|i: int| 0 <= i < row_ids(p).len() && row_ids(p)[i] == k;
                assert(row_ids(rs)[i] == k);
            }
            if row_ids(rs).contains(k) && k != last.order_id {
                let i = choose|i: int| 0 <= i < row_ids(rs).len() && row_ids(rs)[i] == k;
                assert(i < n);
                assert(row_ids(p)[i] == k);
            }
            if k == last.order_id {
                assert(row_ids(rs)[n] == k);
            }
        }
        assert forall|i: int| #[trigger] is_last_with_id(rs, i) implies rows_after(rs)[rs[i].order_id]
            == rs[i] by {
            if i < n {
                assert(rs[n].order_id != rs[i].order_id);
                assert forall|j: int| i < j < p.len() implies #[trigger] p[j].order_id
                    != p[i].order_id by {
                    assert(p[j] == rs[j]);
                }
                assert(is_last_with_id(p, i));
                assert(row_ids(p)[i] == p[i].order_id);
                assert(rows_after(p).contains_key(p[i].order_id));
            }
        }
    }
    assert(rows_after(rs).dom() =~= row_ids(rs).to_set());
}

/// Restoring rows indexes the parent of every row, also of a row whose
/// id a later row took over.
proof fn lemma_restored_parents_indexed(rs: Seq<RowView>)
    ensures
        forall|i: int|
            0 <= i < rs.len() ==> index_after(rs).contains_key(#[trigger] rs[i].parent_id),
    decreases rs.len(),
{
    if rs.len() > 0 {
        let p = rs.drop_last();
        lemma_restored_parents_indexed(p);
        assert forall|i: int| 0 <= i < rs.len() implies index_after(rs).contains_key(
            #[trigger] rs[i].parent_id,
        ) by {
            if i < rs.len() - 1 {
                assert(rs[i] == p[i]);
            }
        }
    }
}

/// After restoring rows, a `BracketCreated` for the parent of any
/// restored row is a no-op: it touches nothing and keeps the rows, the
/// index and the generation.
pub proof fn lemma_hydrated_bracket_replay_is_noop(
    rs: Seq<RowView>,
    old_generation: u64,
    i: int,
    e: BrokerEvent,
    now: UtcTime,
)
    requires
        0 <= i < rs.len(),
        e is BracketCreated,
        e->parent_id == rs[i].parent_id,
    ensures
        apply_event(hydrated(rs, old_generation), e, now).0 == hydrated(rs, old_generation),
        apply_event(hydrated(rs, old_generation), e, now).1 == Seq::<u128>::empty(),
{
    lemma_restored_parents_indexed(rs);
    let v = hydrated(rs, old_generation);
    assert(v.by_parent.contains_key(e->parent_id));
    assert(apply_event(v, e, now).0 =~= v);
}

/// The legs of a first `BracketCreated` close the position the entry
/// opens: every created row trades in the event's direction exactly when
/// it is the entry leg, so a created stop-loss row and a created
/// take-profit row (one that no stop-loss leg with the same id replaced)
/// trade the opposite way.
pub proof fn lemma_bracket_children_close_position(v: BlotterView, e: BrokerEvent, now: UtcTime)
    requires
        e is BracketCreated,
        !v.by_parent.contains_key(e->parent_id),
    ensures
        ({
            let w = apply_event(v, e, now).0;
            let t = apply_event(v, e, now).1;
            let side = action_of(e->action);
            let has_tp = e->take_profit_id is Some && e->tp_price is Some;
            let has_sl = e->stop_loss_id is Some && e->sl_price is Some;
            &&& forall|k: u128| #[trigger]
                t.contains(k) ==> (w.rows[k].leg_role == LegRole::Entry <==> w.rows[k].side
                    == side)
            &&& has_sl ==> {
                &&& w.rows.contains_key(e->stop_loss_id->0)
                &&& w.rows[e->stop_loss_id->0].leg_role == LegRole::StopLoss
                &&& w.rows[e->stop_loss_id->0].side != side
            }
            &&& has_tp && !(has_sl && e->stop_loss_id == e->take_profit_id) ==> {
                &&& w.rows.contains_key(e->take_profit_id->0)
                &&& w.rows[e->take_profit_id->0].leg_role == LegRole::TakeProfit
                &&& w.rows[e->take_profit_id->0].side != side
            }
        }),
{
    match e {
        BrokerEvent::BracketCreated { parent_id, take_profit_id, stop_loss_id, tp_price, sl_price, .. } => {
            let w = apply_event(v, e, now).0;
            let t = apply_event(v, e, now).1;
            let tp = take_profit_id is Some && tp_price is Some;
            let sl = stop_loss_id is Some && sl_price is Some;
            let a = parent_id;
            let b = take_profit_id->0;
            let c = stop_loss_id->0;
            if tp && sl {
                assert(t =~= seq![a, b, c]);
                assert forall|k: u128| #[trigger] t.contains(k) implies (k == a || k == b || k == c) by {
                    let i = choose|i: int| 0 <= i < t.len() && t[i] == k;
                }
            } else if tp {
                assert(t =~= seq![a, b]);
                assert forall|k: u128| #[trigger] t.contains(k) implies (k == a || k == b) by {
                    let i = choose|i: int| 0 <= i < t.len() && t[i] == k;
                }
            } else if sl {
                assert(t =~= seq![a, c]);
                assert forall|k: u128| #[trigger] t.contains(k) implies (k == a || k == c) by {
                    let i = choose|i: int| 0 <= i < t.len() && t[i] == k;
                }
            } else {
                assert(t =~= seq![a]);
                assert forall|k: u128| #[trigger] t.contains(k) implies k == a by {
                    let i = choose|i: int| 0 <= i < t.len() && t[i] == k;
                }
            }
        },
        _ => {},
    }
}

} // verus!
