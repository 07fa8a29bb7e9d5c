use midas_app::blotter::OrderBlotter;
use midas_app::devloop::{
    is_tick_rate, parse_account_tab, ticker_effect_variant, ticker_msg_variant, walk_path,
    AccountTab, BrokerProjection, EventRing, OrderBlotterProjection, TickerEffect, TickerMsg,
    RING_CAPACITY,
};
use midas_app::json::{JsonNumber, JsonValue};

fn num(x: i64) -> JsonValue {
    JsonValue::Number(JsonNumber {
        as_i64: Some(x),
        as_u64: u64::try_from(x).ok(),
        as_f64_bits: Some((x as f64).to_bits()) })
}

fn obj(members: Vec<(&str, JsonValue)>) -> JsonValue {
    JsonValue::Object(members.into_iter().map(|(k, v)| (k.to_owned(), v)).collect())
}

fn as_int(v: Option<&JsonValue>) -> Option<i64> {
    match v {
        Some(JsonValue::Number(n)) => n.as_i64,
        _ => None,
    }
}

#[test]
fn walk_path_nested_object() {
    let v = obj(vec![("a", obj(vec![("b", obj(vec![("c", num(42))]))]))]);
    assert_eq!(as_int(walk_path(&v, "a.b.c")), Some(42));
}

#[test]
fn walk_path_array_index() {
    let v = obj(vec![("items", JsonValue::Array(vec![num(10), num(20), num(30)]))]);
    assert_eq!(as_int(walk_path(&v, "items.1")), Some(20));
    assert!(walk_path(&v, "items.3").is_none());
    assert!(walk_path(&v, "items.x").is_none());
}

#[test]
fn walk_path_missing_segment() {
    let v = obj(vec![("a", obj(vec![("b", num(1))]))]);
    assert!(walk_path(&v, "a.c").is_none());
    assert!(walk_path(&v, "a.b.c").is_none());
}

#[test]
fn walk_path_empty_returns_root() {
    let v = obj(vec![("a", num(1))]);
    assert!(std::ptr::eq(walk_path(&v, "").unwrap(), &v));
    assert_eq!(as_int(walk_path(&v, "..a.")), Some(1));
}

#[test]
fn tick_rate_and_variant_names() {
    assert!(is_tick_rate(&TickerMsg::UpdateMarketData));
    assert!(!is_tick_rate(&TickerMsg::SetLegPrice));
    assert_eq!(ticker_msg_variant(&TickerMsg::SetLegPrice), "SetLegPrice");
    assert_eq!(ticker_msg_variant(&TickerMsg::ClearGatrUndo), "ClearGatrUndo");
    assert_eq!(ticker_effect_variant(&TickerEffect::PersistDirty), "PersistDirty");
    assert_eq!(ticker_effect_variant(&TickerEffect::SubmitToBroker), "SubmitToBroker");
}

#[test]
fn account_tabs_parse() {
    assert_eq!(parse_account_tab("positions"), Some(AccountTab::Positions));
    assert_eq!(parse_account_tab("trade-history"), Some(AccountTab::TradeHistory));
    assert_eq!(parse_account_tab("Positions"), None);
}

#[test]
fn projections() {
    let b = OrderBlotter::new();
    let p = OrderBlotterProjection::of(&b);
    assert_eq!(p.generation, 0);
    assert_eq!(p.len, 0);
    assert!(p.rows.is_empty());
    let bp = BrokerProjection::new("Connected", Some(7498));
    assert!(bp.sim_child_running);
    assert_eq!(bp.sim_tws_port, Some(7498));
    assert!(!BrokerProjection::new("Disconnected", None).sim_child_running);
}

#[test]
fn event_ring_records_and_scans() {
    let mut ring = EventRing::new();
    let c1 = ring.next_cursor();
    assert!(!ring.record(c1, "SetLegPrice", 100));
    let c2 = ring.next_cursor();
    ring.record(c2, "CancelBracket", 100);
    assert_eq!(ring.cursor(), 2);
    assert_eq!(ring.scan_ring("SetLegPrice", 0), Some(1));
    assert_eq!(ring.scan_ring("SetLegPrice", 1), None);
    assert_eq!(ring.scan_ring("CancelBracket", 1), Some(2));
    assert_eq!(ring.scan_ring("Nope", 0), None);
}

#[test]
fn event_ring_drops_oldest_when_full() {
    let mut ring = EventRing::new();
    for _ in 0..RING_CAPACITY + 1 {
        let c = ring.next_cursor();
        ring.record(c, "Tick", 1);
    }
    assert_eq!(ring.scan_ring("Tick", 0), Some(2));
}

#[test]
fn event_ring_asks_for_rotation() {
    let mut ring = EventRing::new();
    let c = ring.next_cursor();
    assert!(ring.record(c, "Big", 100 * 1024 * 1024));
    ring.rotated();
    let c = ring.next_cursor();
    assert!(!ring.record(c, "Small", 10));
}

#[test]
fn walk_path_composes_over_dots() {
    let v = obj(vec![(
        "a",
        obj(vec![("items", JsonValue::Array(vec![num(1), obj(vec![("z", num(7))])]))]),
    )]);
    let mid = walk_path(&v, "a.items").unwrap();
    assert_eq!(as_int(walk_path(mid, "1.z")), Some(7));
    assert_eq!(as_int(walk_path(&v, "a.items.1.z")), Some(7));
    assert!(walk_path(&v, "a.nope.1.z").is_none());
    assert!(walk_path(mid, "0.z").is_none());
    assert!(walk_path(&v, "a.items.0.z").is_none());
}

#[test]
fn ticker_msg_names_are_distinct() {
    let all = [
        TickerMsg::SetBracketMode, TickerMsg::EnsureDraftBracket, TickerMsg::CancelBracket,
        TickerMsg::SaveBracket, TickerMsg::DeleteBracket, TickerMsg::RecallBracket,
        TickerMsg::SetLegPrice, TickerMsg::SetTpEnabled, TickerMsg::SetSlEnabled,
        TickerMsg::SetQuantity, TickerMsg::SetSide, TickerMsg::SetEntryType, TickerMsg::DragLeg,
        TickerMsg::BeginEdit, TickerMsg::UpdateEditValue, TickerMsg::CommitEdit,
        TickerMsg::CancelEdit, TickerMsg::MaybeSnap, TickerMsg::TogglePin, TickerMsg::UndoSnap,
        TickerMsg::UpdateMarketData, TickerMsg::AddLevel, TickerMsg::RemoveLevel,
        TickerMsg::UpdateLevel, TickerMsg::ToggleLevelLock, TickerMsg::SubmitOrder,
        TickerMsg::OrderPending, TickerMsg::OrderFilled, TickerMsg::OrderPartialFill,
        TickerMsg::OrderRejected, TickerMsg::OrderCancelled, TickerMsg::SaveCameraState,
        TickerMsg::Hydrated, TickerMsg::MarkSnappedThisSession,
        TickerMsg::MarkAnchorSeedToastShown, TickerMsg::StoreGatrUndo, TickerMsg::ClearGatrUndo,
    ];
    let names: std::collections::HashSet<&str> = all.iter().map(ticker_msg_variant).collect();
    assert_eq!(names.len(), all.len());
}

#[test]
fn appended_event_is_found_from_previous_cursor() {
    let mut ring = EventRing::new();
    for _ in 0..3 {
        let c = ring.next_cursor();
        ring.record(c, "SetLegPrice", 10);
    }
    let before = ring.cursor();
    let c = ring.next_cursor();
    ring.record(c, "SetLegPrice", 10);
    assert_eq!(c, before + 1);
    assert_eq!(ring.scan_ring("SetLegPrice", before), Some(c));
}
