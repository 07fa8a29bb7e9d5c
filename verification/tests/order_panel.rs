use midas_app::order_panel::{
    map_lifecycle_to_chart_status, validate_bracket_checks, validate_panel_checks, BracketChecks,
    BracketSide, BracketStatus, EntryType, LegChecks, OrderSide, PanelChecks, QuantityCheck,
    StopLossChecks, StopTriggerChecks,
};

fn pairs(v: &[(String, String)]) -> Vec<(&str, &str)> {
    v.iter().map(|(a, b)| (a.as_str(), b.as_str())).collect()
}

const GOOD_LEG: LegChecks = LegChecks {
    parsed: true,
    price_not_positive: false,
    at_or_below_last: false,
    at_or_above_last: true,
};

#[test]
fn clean_panel_has_no_errors() {
    let c = PanelChecks {
        symbol_empty: false,
        quantity: QuantityCheck::Positive,
        market_price_known: true,
        side: OrderSide::Buy,
        tp: Some(GOOD_LEG),
        sl: Some(LegChecks { at_or_below_last: true, at_or_above_last: false, ..GOOD_LEG }),
    };
    assert!(validate_panel_checks(c).is_empty());
}

#[test]
fn panel_errors_in_order() {
    let c = PanelChecks {
        symbol_empty: true,
        quantity: QuantityCheck::Invalid,
        market_price_known: true,
        side: OrderSide::Buy,
        tp: Some(LegChecks { parsed: false, ..GOOD_LEG }),
        sl: Some(LegChecks { price_not_positive: true, at_or_below_last: true, at_or_above_last: false, parsed: true }),
    };
    assert_eq!(
        pairs(&validate_panel_checks(c)),
        vec![
            ("symbol", "No symbol selected"),
            ("quantity", "Invalid quantity (not a number)"),
            ("tp", "Invalid TP value (not a number)"),
            ("sl", "Invalid SL price"),
        ]
    );
}

#[test]
fn wrong_side_legs_for_sell() {
    let c = PanelChecks {
        symbol_empty: false,
        quantity: QuantityCheck::NotPositive,
        market_price_known: true,
        side: OrderSide::Sell,
        tp: Some(GOOD_LEG),
        sl: Some(LegChecks { at_or_below_last: true, at_or_above_last: false, ..GOOD_LEG }),
    };
    assert_eq!(
        pairs(&validate_panel_checks(c)),
        vec![
            ("quantity", "Quantity must be positive"),
            ("tp", "TP must be below current price for SELL"),
            ("sl", "SL must be above current price for SELL"),
        ]
    );
}

#[test]
fn no_market_price() {
    let c = PanelChecks {
        symbol_empty: false,
        quantity: QuantityCheck::Positive,
        market_price_known: false,
        side: OrderSide::Buy,
        tp: Some(LegChecks { parsed: false, ..GOOD_LEG }),
        sl: None,
    };
    assert_eq!(pairs(&validate_panel_checks(c)), vec![("price", "No market price available")]);
}

#[test]
fn bracket_stop_limit_rules() {
    let c = BracketChecks {
        quantity_not_positive: true,
        entry_type: EntryType::StopLimit,
        side: BracketSide::Long,
        entry_price_not_positive: false,
        stop_trigger: Some(StopTriggerChecks { not_positive: false, limit_above_stop: true, limit_below_stop: false }),
        stop_loss: Some(StopLossChecks { at_or_above_entry: true, at_or_below_entry: false }),
    };
    assert_eq!(
        pairs(&validate_bracket_checks(c)),
        vec![
            ("quantity", "Quantity must be positive"),
            ("entry", "Limit price must be at or below stop for BUY"),
            ("sl", "Stop loss must be below entry for BUY"),
        ]
    );
    let missing = BracketChecks { quantity_not_positive: false, stop_trigger: None, stop_loss: None, ..c };
    assert_eq!(
        pairs(&validate_bracket_checks(missing)),
        vec![("entry", "Stop-Limit requires a stop trigger price")]
    );
}

#[test]
fn bracket_market_without_price() {
    let c = BracketChecks {
        quantity_not_positive: false,
        entry_type: EntryType::Market,
        side: BracketSide::Short,
        entry_price_not_positive: true,
        stop_trigger: None,
        stop_loss: Some(StopLossChecks { at_or_above_entry: false, at_or_below_entry: true }),
    };
    assert_eq!(
        pairs(&validate_bracket_checks(c)),
        vec![
            ("entry", "No market price available"),
            ("sl", "Stop loss must be above entry for SELL"),
        ]
    );
}

#[test]
fn lifecycle_status_mapping() {
    assert_eq!(map_lifecycle_to_chart_status("Submitted"), BracketStatus::Pending);
    assert_eq!(map_lifecycle_to_chart_status("PartiallyFilled"), BracketStatus::PartialFill);
    assert_eq!(map_lifecycle_to_chart_status("EntryFilled"), BracketStatus::Active);
    assert_eq!(map_lifecycle_to_chart_status("StopLossHit"), BracketStatus::Closed);
    assert_eq!(map_lifecycle_to_chart_status("Error"), BracketStatus::Cancelled);
    assert_eq!(map_lifecycle_to_chart_status("whatever"), BracketStatus::Pending);
}

#[test]
fn order_panel_lifecycle_submitted_maps_to_pending() {
    assert_eq!(map_lifecycle_to_chart_status("Submitted"), BracketStatus::Pending);
}

#[test]
fn order_panel_lifecycle_entry_filled_maps_to_active() {
    assert_eq!(map_lifecycle_to_chart_status("EntryFilled"), BracketStatus::Active);
}

#[test]
fn order_panel_lifecycle_take_profit_hit_maps_to_closed() {
    assert_eq!(map_lifecycle_to_chart_status("TakeProfitHit"), BracketStatus::Closed);
}

#[test]
fn order_panel_lifecycle_stop_loss_hit_maps_to_closed() {
    assert_eq!(map_lifecycle_to_chart_status("StopLossHit"), BracketStatus::Closed);
}

#[test]
fn order_panel_lifecycle_cancelled_maps_to_cancelled() {
    assert_eq!(map_lifecycle_to_chart_status("Cancelled"), BracketStatus::Cancelled);
}

#[test]
fn order_panel_lifecycle_rejected_maps_to_cancelled() {
    assert_eq!(map_lifecycle_to_chart_status("Rejected"), BracketStatus::Cancelled);
}

#[test]
fn order_panel_lifecycle_unknown_defaults_to_pending() {
    assert_eq!(map_lifecycle_to_chart_status("SomethingNew"), BracketStatus::Pending);
}

#[test]
fn tests_lifecycle_submitted_maps_to_pending() {
    assert_eq!(map_lifecycle_to_chart_status("Submitted"), BracketStatus::Pending);
}

#[test]
fn tests_lifecycle_entry_filled_maps_to_active() {
    assert_eq!(map_lifecycle_to_chart_status("EntryFilled"), BracketStatus::Active);
}

#[test]
fn tests_lifecycle_take_profit_hit_maps_to_closed() {
    assert_eq!(map_lifecycle_to_chart_status("TakeProfitHit"), BracketStatus::Closed);
}

#[test]
fn tests_lifecycle_stop_loss_hit_maps_to_closed() {
    assert_eq!(map_lifecycle_to_chart_status("StopLossHit"), BracketStatus::Closed);
}

#[test]
fn tests_lifecycle_cancelled_maps_to_cancelled() {
    assert_eq!(map_lifecycle_to_chart_status("Cancelled"), BracketStatus::Cancelled);
}

#[test]
fn tests_lifecycle_rejected_maps_to_cancelled() {
    assert_eq!(map_lifecycle_to_chart_status("Rejected"), BracketStatus::Cancelled);
}

#[test]
fn tests_lifecycle_unknown_defaults_to_pending() {
    assert_eq!(map_lifecycle_to_chart_status("SomethingNew"), BracketStatus::Pending);
}
