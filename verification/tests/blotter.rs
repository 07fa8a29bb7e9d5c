use midas_app::blotter::{
    EntryKind, LegRole, OrderAction, OrderBlotter, OrderRow, OrderStatus, TimeInForce, UtcTime,
};
use midas_app::broker::{self, BrokerEvent};

fn bits(x: f64) -> u64 {
    x.to_bits()
}

fn bracket_created(parent: u128, tp: Option<u128>, sl: Option<u128>) -> BrokerEvent {
    BrokerEvent::BracketCreated {
        parent_id: parent,
        take_profit_id: tp,
        stop_loss_id: sl,
        symbol: "AAPL".to_owned(),
        action: broker::OrderAction::Buy,
        quantity: bits(100.0),
        tp_price: tp.map(|_| bits(195.0)),
        sl_price: sl.map(|_| bits(178.0)),
        reference_price: Some(bits(184.5)),
        entry_kind: broker::OrderKind::Limit,
        entry_limit_price: Some(bits(184.5)),
        entry_stop_price: None,
        sl_limit_price: None,
        tp_tif: Some(broker::TimeInForce::Day),
        sl_tif: Some(broker::TimeInForce::Gtc),
    }
}

const PARENT: u128 = 0x42_0000_0000_0000_0000_0000_0101;
const TP: u128 = 0x42_0000_0000_0000_0000_0000_0102;
const SL: u128 = 0x42_0000_0000_0000_0000_0000_0103;

#[test]
fn bracket_created_inserts_three_rows() {
    let mut b = OrderBlotter::new();
    assert!(!b.apply(&bracket_created(PARENT, Some(TP), Some(SL))).is_empty());
    assert_eq!(b.len(), 3);

    let entry = b.row(PARENT).unwrap();
    assert_eq!(entry.leg_role, LegRole::Entry);
    assert_eq!(entry.kind, EntryKind::Limit);
    assert_eq!(entry.side, OrderAction::Buy);
    assert_eq!(entry.limit_price, Some(bits(184.5)));
    assert_eq!(entry.tp_price, Some(bits(195.0)));
    assert_eq!(entry.sl_price, Some(bits(178.0)));

    let tp_row = b.row(TP).unwrap();
    assert_eq!(tp_row.leg_role, LegRole::TakeProfit);
    assert_eq!(tp_row.kind, EntryKind::Limit);
    assert_eq!(tp_row.side, OrderAction::Sell);
    assert_eq!(tp_row.limit_price, Some(bits(195.0)));
    assert_eq!(tp_row.time_in_force, Some(TimeInForce::Day));

    let sl_row = b.row(SL).unwrap();
    assert_eq!(sl_row.leg_role, LegRole::StopLoss);
    assert_eq!(sl_row.kind, EntryKind::Stop);
    assert_eq!(sl_row.stop_price, Some(bits(178.0)));
    assert_eq!(sl_row.time_in_force, Some(TimeInForce::Gtc));
}

#[test]
fn bracket_created_is_idempotent_on_replay() {
    let mut b = OrderBlotter::new();
    let t1 = UtcTime { secs: 1_700_000_000, nanos: 0 };
    let t2 = UtcTime { secs: 1_700_000_100, nanos: 5 };
    b.apply_at(&bracket_created(PARENT, Some(TP), Some(SL)), t1);
    let gen1 = b.generation();
    let dirty = b.apply_at(&bracket_created(PARENT, Some(TP), Some(SL)), t2);
    assert!(dirty.is_empty(), "replay must be a no-op");
    assert_eq!(b.generation(), gen1, "no generation bump on replay");
    assert_eq!(b.len(), 3, "no duplicate rows");
    assert_eq!(b.row(PARENT).unwrap().created_at, t1, "created_at preserved on replay");
}

fn status_changed(order_id: u128, new_status: &str, filled: f64, remaining: f64, avg: f64) -> BrokerEvent {
    BrokerEvent::OrderStatusChanged {
        order_id,
        old_status: "Submitted".to_owned(),
        new_status: new_status.to_owned(),
        filled_qty: bits(filled),
        remaining_qty: bits(remaining),
        avg_fill_price: bits(avg),
    }
}

#[test]
fn order_status_changed_is_authoritative_for_cumulative() {
    let mut b = OrderBlotter::new();
    b.apply(&bracket_created(PARENT, None, None));
    let dirty = b.apply(&status_changed(PARENT, "Filled", 100.0, 0.0, 184.53));
    assert_eq!(dirty, vec![PARENT]);
    let row = b.row(PARENT).unwrap();
    assert_eq!(row.filled_qty, bits(100.0));
    assert_eq!(row.remaining_qty, bits(0.0));
    assert_eq!(row.avg_fill_price, Some(bits(184.53)));
    assert_eq!(row.status, OrderStatus::Filled);
}

#[test]
fn zero_average_price_keeps_previous_one() {
    let mut b = OrderBlotter::new();
    b.apply(&bracket_created(PARENT, None, None));
    b.apply(&status_changed(PARENT, "PartiallyFilled", 30.0, 70.0, 184.5));
    b.apply(&status_changed(PARENT, "Submitted", 30.0, 70.0, 0.0));
    let row = b.row(PARENT).unwrap();
    assert_eq!(row.avg_fill_price, Some(bits(184.5)));
    assert_eq!(row.status, OrderStatus::Working);
}

#[test]
fn order_filled_does_not_change_qty_or_avg_fill() {
    let mut b = OrderBlotter::new();
    b.apply(&bracket_created(PARENT, None, None));
    b.apply(&status_changed(PARENT, "PartiallyFilled", 30.0, 70.0, 184.50));
    let qty_before = b.row(PARENT).unwrap().filled_qty;
    let avg_before = b.row(PARENT).unwrap().avg_fill_price;
    let stamp = UtcTime { secs: 1_800_000_000, nanos: 7 };
    b.apply_at(
        &BrokerEvent::OrderFilled {
            order_id: PARENT,
            ib_exec_id: "exec-1".to_owned(),
            shares: bits(30.0),
            price: bits(184.50),
            commission: None,
        },
        stamp,
    );
    let row = b.row(PARENT).unwrap();
    assert_eq!(row.filled_qty, qty_before, "OrderFilled must not touch filled_qty");
    assert_eq!(row.avg_fill_price, avg_before, "OrderFilled must not touch avg_fill_price");
    assert_eq!(row.status, OrderStatus::PartiallyFilled);
    assert_eq!(row.last_update_at, stamp);
}

#[test]
fn cancelled_and_rejected_set_terminal_status() {
    let mut b = OrderBlotter::new();
    b.apply(&bracket_created(PARENT, Some(TP), None));
    b.apply(&BrokerEvent::OrderCancelled { order_id: PARENT, reason: "user".to_owned() });
    assert_eq!(b.row(PARENT).unwrap().status, OrderStatus::Cancelled);
    b.apply(&BrokerEvent::OrderRejected { order_id: TP, reason: "invalid".to_owned() });
    assert_eq!(b.row(TP).unwrap().status, OrderStatus::Rejected);
}

#[test]
fn order_submitted_records_broker_ids() {
    let mut b = OrderBlotter::new();
    b.apply(&bracket_created(PARENT, None, None));
    b.apply(&BrokerEvent::OrderSubmitted { order_id: PARENT, ib_order_id: 17, ib_perm_id: 0 });
    let row = b.row(PARENT).unwrap();
    assert_eq!(row.ib_order_id, Some(17));
    assert_eq!(row.ib_perm_id, None, "a zero perm id is ignored");
    b.apply(&BrokerEvent::OrderSubmitted { order_id: PARENT, ib_order_id: 18, ib_perm_id: 99 });
    assert_eq!(b.row(PARENT).unwrap().ib_perm_id, Some(99));
}

#[test]
fn unknown_order_id_is_no_op() {
    let mut b = OrderBlotter::new();
    let dirty = b.apply(&status_changed(0x42_0000_0000_0000_0000_0000_0999, "Filled", 100.0, 0.0, 184.53));
    assert!(dirty.is_empty());
    assert_eq!(b.len(), 0);
    assert_eq!(b.generation(), 0);
}

#[test]
fn unrelated_events_are_no_op() {
    let mut b = OrderBlotter::new();
    let dirty = b.apply(&BrokerEvent::Connected { server_version: 12 });
    assert!(dirty.is_empty());
    assert_eq!(b.generation(), 0);
}

#[test]
fn generation_moves_once_per_touching_event() {
    let mut b = OrderBlotter::new();
    b.apply(&bracket_created(PARENT, Some(TP), None));
    assert_eq!(b.generation(), 1);
    b.apply(&status_changed(TP, "Cancelled", 0.0, 100.0, 0.0));
    assert_eq!(b.generation(), 2);
    assert_eq!(b.row(TP).unwrap().status, OrderStatus::Cancelled);
}

#[test]
fn rows_come_in_leg_id_order() {
    let mut b = OrderBlotter::new();
    b.apply(&bracket_created(SL, None, None));
    b.apply(&bracket_created(PARENT, Some(TP), None));
    let ids: Vec<u128> = b.rows().iter().map(|r| r.order_id).collect();
    assert_eq!(ids, vec![PARENT, TP, SL]);
}

fn stored_row(id: u128, parent: u128) -> OrderRow {
    let now = UtcTime { secs: 1_700_000_000, nanos: 0 };
    OrderRow {
        order_id: id,
        parent_id: parent,
        leg_role: LegRole::Entry,
        symbol: "AAPL".to_owned(),
        side: OrderAction::Buy,
        kind: EntryKind::Limit,
        quantity: bits(100.0),
        filled_qty: bits(0.0),
        remaining_qty: bits(100.0),
        avg_fill_price: None,
        limit_price: Some(bits(184.5)),
        stop_price: None,
        tp_price: None,
        sl_price: None,
        status: OrderStatus::Working,
        time_in_force: None,
        ib_order_id: None,
        ib_perm_id: None,
        created_at: now,
        last_update_at: now,
    }
}

#[test]
fn hydrate_rebuilds_rows_and_index() {
    let mut b = OrderBlotter::new();
    b.hydrate(vec![stored_row(PARENT, PARENT)]);
    assert_eq!(b.len(), 1);
    assert_eq!(b.generation(), 1);
    // The index now knows the parent, so a replayed creation is a no-op.
    assert!(b.apply(&bracket_created(PARENT, Some(TP), None)).is_empty());
    assert_eq!(b.len(), 1);
}

#[test]
fn hydrate_replaces_previous_contents() {
    let mut b = OrderBlotter::new();
    b.apply(&bracket_created(SL, None, None));
    b.hydrate(vec![stored_row(PARENT, PARENT), stored_row(TP, PARENT)]);
    assert_eq!(b.len(), 2);
    assert!(b.row(SL).is_none());
    assert!(b.row(TP).is_some());
}

#[test]
fn hydrate_keeps_last_row_per_id_and_ignores_replays() {
    let mut b = OrderBlotter::new();
    let mut first = stored_row(TP, PARENT);
    first.symbol = "MSFT".to_owned();
    let mut second = stored_row(TP, SL);
    second.symbol = "NVDA".to_owned();
    b.hydrate(vec![first, stored_row(PARENT, PARENT), second]);
    assert_eq!(b.len(), 2, "one row per distinct id");
    let kept = b.row(TP).unwrap();
    assert_eq!(kept.symbol, "NVDA", "the last row with an id wins");
    assert_eq!(kept.parent_id, SL);
    let gen = b.generation();
    assert_eq!(gen, 1);
    // Both the parent of the discarded row and that of the kept one are indexed.
    assert!(b.apply(&bracket_created(PARENT, Some(TP), Some(SL))).is_empty());
    assert!(b.apply(&bracket_created(SL, None, None)).is_empty());
    assert_eq!(b.generation(), gen);
    assert_eq!(b.len(), 2);
}

#[test]
fn status_strings_map_to_ui_projection() {
    assert_eq!(OrderStatus::from_broker_str("Filled"), OrderStatus::Filled);
    assert_eq!(OrderStatus::from_broker_str("PartialFilled"), OrderStatus::PartiallyFilled);
    assert_eq!(OrderStatus::from_broker_str("ApiCancelled"), OrderStatus::Cancelled);
    assert_eq!(OrderStatus::from_broker_str("Inactive"), OrderStatus::Rejected);
    assert_eq!(OrderStatus::from_broker_str("PreSubmitted"), OrderStatus::Working);
    assert_eq!(OrderStatus::Filled.as_str(), "Filled");
    assert_eq!(OrderStatus::PartiallyFilled.as_str(), "Partial");
}
