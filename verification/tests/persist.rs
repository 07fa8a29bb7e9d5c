use midas_app::blotter::{EntryKind, LegRole, OrderAction, OrderRow, OrderStatus, UtcTime};
use midas_app::persist::{flush_durability, wake_flush, Durability, FlushCtl, RowCache};

fn row(id: u128) -> OrderRow {
    let now = UtcTime { secs: 1_700_000_000, nanos: 0 };
    OrderRow {
        order_id: id,
        parent_id: id,
        leg_role: LegRole::Entry,
        symbol: "AAPL".to_owned(),
        side: OrderAction::Buy,
        kind: EntryKind::Market,
        quantity: 100f64.to_bits(),
        filled_qty: 0,
        remaining_qty: 100f64.to_bits(),
        avg_fill_price: None,
        limit_price: None,
        stop_price: None,
        tp_price: None,
        sl_price: None,
        status: OrderStatus::Working,
        time_in_force: None,
        ib_order_id: None,
        ib_perm_id: None,
        created_at: now,
        last_update_at: now,
    }
}

#[test]
fn upsert_marks_dirty_and_drain_takes_each_once() {
    let mut c = RowCache::new();
    assert!(!c.upsert(1, row(1)));
    assert!(!c.upsert(2, row(2)));
    assert!(!c.upsert(1, row(1)));
    assert_eq!(c.len(), 2);
    let mut drained: Vec<u128> = c.drain_dirty().into_iter().map(|(id, r)| {
        assert_eq!(r.order_id, id);
        id
    }).collect();
    drained.sort();
    assert_eq!(drained, vec![1, 2]);
    assert!(c.drain_dirty().is_empty());
}

#[test]
fn re_mark_only_cached_ids() {
    let mut c = RowCache::new();
    c.upsert(5, row(5));
    c.drain_dirty();
    c.re_mark_dirty(vec![5, 6]);
    let drained: Vec<u128> = c.drain_dirty().into_iter().map(|(id, _)| id).collect();
    assert_eq!(drained, vec![5]);
}

#[test]
fn seeded_rows_are_not_dirty() {
    let mut c = RowCache::new();
    c.seed(9, row(9));
    assert!(c.drain_dirty().is_empty());
    let all = c.all_rows();
    assert_eq!(all.len(), 1);
    assert_eq!(all[0].order_id, 9);
}

#[test]
fn retention_warning_fires_once() {
    let mut c = RowCache::new();
    let mut warnings = 0;
    for id in 0..10_001u128 {
        if c.upsert(id, row(id)) {
            warnings += 1;
        }
    }
    assert_eq!(warnings, 1);
}

#[test]
fn flush_control() {
    let mut ctl = FlushCtl::new();
    assert!(ctl.must_wait());
    wake_flush(&mut ctl);
    assert!(!ctl.must_wait());
    assert!(!ctl.start_pass());
    assert!(ctl.must_wait());
    ctl.request_shutdown();
    assert!(ctl.start_pass());
    ctl.finish();
    assert!(ctl.done);
    assert_eq!(flush_durability(true, false), Durability::Immediate);
    assert_eq!(flush_durability(false, true), Durability::Immediate);
    assert_eq!(flush_durability(false, false), Durability::Eventual);
}
