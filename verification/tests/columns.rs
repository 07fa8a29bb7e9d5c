use midas_app::blotter::{EntryKind, LegRole, OrderAction, OrderStatus, TimeInForce};
use midas_app::columns::{
    format_tif, kind_text, short_uuid, side_rank, status_rank, Alignment, OrderBlotterColumn,
};

#[test]
fn column_ids_are_wire_stable() {
    assert_eq!(
        OrderBlotterColumn::ids(),
        vec![
            "symbol", "side", "type", "qty", "avg_fill", "limit", "stop", "tp", "sl", "status",
            "last_update", "instruction", "order_id"
        ]
    );
    assert_eq!(OrderBlotterColumn::all().len(), 13);
}

#[test]
fn headers_and_flags() {
    assert_eq!(OrderBlotterColumn::AvgFill.header_label(), "Avg Fill Price");
    assert_eq!(OrderBlotterColumn::LastUpdate.header_label(), "Last Update Time");
    assert!(!OrderBlotterColumn::Side.resizable());
    assert!(!OrderBlotterColumn::Status.resizable());
    assert!(OrderBlotterColumn::Qty.resizable());
    assert!(!OrderBlotterColumn::Symbol.sortable());
    assert!(OrderBlotterColumn::OrderId.sortable());
    assert!(OrderBlotterColumn::Type.reorderable());
    assert_eq!(OrderBlotterColumn::Instruction.align(), Alignment::Start);
    assert_eq!(OrderBlotterColumn::LastUpdate.align(), Alignment::End);
}

#[test]
fn ranks_follow_lifecycle() {
    assert!(side_rank(OrderAction::Buy) < side_rank(OrderAction::Sell));
    let order = [
        OrderStatus::Working,
        OrderStatus::PartiallyFilled,
        OrderStatus::Filled,
        OrderStatus::Cancelled,
        OrderStatus::Rejected,
    ];
    for w in order.windows(2) {
        assert!(status_rank(w[0]) < status_rank(w[1]));
    }
}

#[test]
fn instruction_text() {
    assert_eq!(format_tif(Some(TimeInForce::Gtc)), "Good Till Cancel");
    assert_eq!(format_tif(Some(TimeInForce::Opg)), "At Open");
    assert_eq!(format_tif(None), "");
}

#[test]
fn type_text_reads_stop_as_stop_loss() {
    assert_eq!(kind_text(EntryKind::Stop, LegRole::StopLoss), "Stop Loss");
    assert_eq!(kind_text(EntryKind::StopLimit, LegRole::Entry), "Stop Limit");
    assert_eq!(kind_text(EntryKind::Limit, LegRole::TakeProfit), "Limit");
}

#[test]
fn short_uuid_is_the_last_ten_hex_digits() {
    assert_eq!(short_uuid(0x550e8400_e29b_41d4_a716_446655440000), "6655440000");
    assert_eq!(short_uuid(0xab), "00000000ab");
    assert_eq!(short_uuid(u128::MAX), "ffffffffff");
}

#[test]
fn columns_are_found_by_wire_id() {
    for c in OrderBlotterColumn::all() {
        assert_eq!(OrderBlotterColumn::from_id(c.id()), Some(c));
    }
    assert_eq!(OrderBlotterColumn::from_id("tp"), Some(OrderBlotterColumn::TakeProfit));
    assert_eq!(OrderBlotterColumn::from_id("future_column"), None);
}
