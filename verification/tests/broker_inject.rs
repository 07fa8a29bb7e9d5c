use midas_app::broker::{BrokerEvent, OrderAction, OrderKind, TimeInForce};
use midas_app::broker_inject::{parse, InjectBrokerError};
use midas_app::json::{JsonNumber, JsonValue};

fn s(x: &str) -> JsonValue {
    JsonValue::String(x.to_owned())
}

/// A number written with a fraction part: it has no `i64` reading.
fn f(x: f64) -> JsonValue {
    JsonValue::Number(JsonNumber { as_i64: None, as_u64: None, as_f64_bits: Some(x.to_bits()) })
}

fn num(x: i64) -> JsonValue {
    JsonValue::Number(JsonNumber {
        as_i64: Some(x),
        as_u64: u64::try_from(x).ok(),
        as_f64_bits: Some((x as f64).to_bits()) })
}

fn obj(members: Vec<(&str, JsonValue)>) -> JsonValue {
    JsonValue::Object(members.into_iter().map(|(k, v)| (k.to_owned(), v)).collect())
}

const UUID0: &str = "550e8400-e29b-41d4-a716-446655440000";
const UUID1: &str = "550e8400-e29b-41d4-a716-446655440001";

#[test]
fn parses_bracket_created() {
    let v = obj(vec![
        ("type", s("BracketCreated")),
        ("parent_id", s(UUID0)),
        ("take_profit_id", s(UUID1)),
        ("stop_loss_id", JsonValue::Null),
        ("symbol", s("AAPL")),
        ("action", s("Buy")),
        ("quantity", f(100.0)),
        ("tp_price", f(195.0)),
        ("sl_price", JsonValue::Null),
        ("reference_price", f(184.5)),
        ("entry_kind", s("Market")),
        ("entry_limit_price", JsonValue::Null),
        ("entry_stop_price", JsonValue::Null),
        ("sl_limit_price", JsonValue::Null),
        ("tp_tif", s("Day")),
        ("sl_tif", JsonValue::Null),
    ]);
    match parse(&v).unwrap() {
        BrokerEvent::BracketCreated {
            parent_id,
            symbol,
            quantity,
            take_profit_id,
            stop_loss_id,
            action,
            entry_kind,
            tp_price,
            sl_price,
            tp_tif,
            sl_tif,
            ..
        } => {
            assert_eq!(parent_id, 0x550e8400_e29b_41d4_a716_446655440000);
            assert_eq!(symbol, "AAPL");
            assert_eq!(f64::from_bits(quantity), 100.0);
            assert_eq!(take_profit_id, Some(0x550e8400_e29b_41d4_a716_446655440001));
            assert!(stop_loss_id.is_none());
            assert_eq!(action, OrderAction::Buy);
            assert_eq!(entry_kind, OrderKind::Market);
            assert_eq!(tp_price.map(f64::from_bits), Some(195.0));
            assert_eq!(sl_price, None);
            assert_eq!(tp_tif, Some(TimeInForce::Day));
            assert_eq!(sl_tif, None);
        }
        _ => panic!("wrong variant"),
    }
}

#[test]
fn parses_order_filled() {
    let v = obj(vec![
        ("type", s("OrderFilled")),
        ("order_id", s(UUID0)),
        ("ib_exec_id", s("exec-1")),
        ("shares", f(100.0)),
        ("price", f(184.53)),
        ("commission", f(0.25)),
    ]);
    match parse(&v).unwrap() {
        BrokerEvent::OrderFilled { shares, price, commission, ib_exec_id, .. } => {
            assert_eq!(f64::from_bits(shares), 100.0);
            assert!((f64::from_bits(price) - 184.53).abs() < 1e-9);
            assert_eq!(commission.map(f64::from_bits), Some(0.25));
            assert_eq!(ib_exec_id, "exec-1");
        }
        _ => panic!("wrong variant"),
    }
}

#[test]
fn broker_inject_unknown_variant_rejected() {
    let v = obj(vec![("type", s("Totally Made Up"))]);
    match parse(&v) {
        Err(InjectBrokerError::UnknownVariant(name)) => assert_eq!(name, "Totally Made Up"),
        other => panic!("unexpected {other:?}"),
    }
}

#[test]
fn market_data_rejected() {
    let v = obj(vec![("type", s("Tick"))]);
    assert!(matches!(parse(&v), Err(InjectBrokerError::NotSupported(_))));
}

#[test]
fn complex_variants_rejected() {
    let v = obj(vec![("type", s("OrderCreated"))]);
    match parse(&v) {
        Err(InjectBrokerError::NotSupported(m)) => assert!(m.contains("complex types")),
        other => panic!("unexpected {other:?}"),
    }
}

#[test]
fn parses_position_update() {
    let v = obj(vec![
        ("type", s("PositionUpdate")),
        ("account", s("DU123456")),
        ("symbol", s("GME")),
        ("con_id", num(208813720)),
        ("quantity", f(100.0)),
        ("avg_cost", f(18.5)),
    ]);
    match parse(&v).unwrap() {
        BrokerEvent::PositionUpdate { account, symbol, con_id, quantity, avg_cost } => {
            assert_eq!(account, "DU123456");
            assert_eq!(symbol, "GME");
            assert_eq!(con_id, 208813720);
            assert_eq!(f64::from_bits(quantity), 100.0);
            assert!((f64::from_bits(avg_cost) - 18.5).abs() < 1e-9);
        }
        _ => panic!("wrong variant"),
    }
}

#[test]
fn position_update_supports_short_quantity() {
    let v = obj(vec![
        ("type", s("PositionUpdate")),
        ("account", s("DU123456")),
        ("symbol", s("AAPL")),
        ("con_id", num(265598)),
        ("quantity", f(-50.0)),
        ("avg_cost", f(175.25)),
    ]);
    match parse(&v).unwrap() {
        BrokerEvent::PositionUpdate { quantity, .. } => assert_eq!(f64::from_bits(quantity), -50.0),
        _ => panic!("wrong variant"),
    }
}

#[test]
fn position_update_rejects_missing_symbol() {
    let v = obj(vec![
        ("type", s("PositionUpdate")),
        ("account", s("DU123456")),
        ("con_id", num(1)),
        ("quantity", f(100.0)),
        ("avg_cost", f(10.0)),
    ]);
    assert!(matches!(parse(&v), Err(InjectBrokerError::MissingField("symbol"))));
}

#[test]
fn position_update_rejects_missing_con_id() {
    let v = obj(vec![
        ("type", s("PositionUpdate")),
        ("account", s("DU123456")),
        ("symbol", s("AAPL")),
        ("quantity", f(100.0)),
        ("avg_cost", f(10.0)),
    ]);
    assert!(matches!(parse(&v), Err(InjectBrokerError::MissingField("con_id"))));
}

#[test]
fn position_update_rejects_missing_quantity() {
    let v = obj(vec![
        ("type", s("PositionUpdate")),
        ("account", s("DU123456")),
        ("symbol", s("AAPL")),
        ("con_id", num(1)),
        ("avg_cost", f(10.0)),
    ]);
    assert!(matches!(parse(&v), Err(InjectBrokerError::MissingField("quantity"))));
}

#[test]
fn missing_type_rejected() {
    assert!(matches!(parse(&obj(vec![("symbol", s("AAPL"))])), Err(InjectBrokerError::MissingType)));
    assert!(matches!(parse(&s("BracketCreated")), Err(InjectBrokerError::MissingType)));
    assert!(matches!(parse(&obj(vec![("type", num(3))])), Err(InjectBrokerError::MissingType)));
}

#[test]
fn bad_uuid_is_an_invalid_field() {
    let v = obj(vec![
        ("type", s("OrderCancelled")),
        ("order_id", s("not-a-uuid")),
        ("reason", s("user")),
    ]);
    match parse(&v) {
        Err(InjectBrokerError::InvalidField(field, msg)) => {
            assert_eq!(field, "order_id");
            assert!(!msg.is_empty());
        }
        other => panic!("unexpected {other:?}"),
    }
}

#[test]
fn optional_uuid_must_be_a_string() {
    let v = obj(vec![
        ("type", s("BracketCreated")),
        ("parent_id", s(UUID0)),
        ("take_profit_id", num(5)),
    ]);
    match parse(&v) {
        Err(InjectBrokerError::InvalidField(field, msg)) => {
            assert_eq!(field, "take_profit_id");
            assert_eq!(msg, "expected string");
        }
        other => panic!("unexpected {other:?}"),
    }
}

#[test]
fn bad_action_and_tif_are_invalid_fields() {
    let base = |action: &str, tif: JsonValue| {
        obj(vec![
            ("type", s("BracketCreated")),
            ("parent_id", s(UUID0)),
            ("symbol", s("AAPL")),
            ("action", s(action)),
            ("quantity", f(1.0)),
            ("entry_kind", s("LMT")),
            ("tp_tif", tif),
        ])
    };
    match parse(&base("hold", JsonValue::Null)) {
        Err(InjectBrokerError::InvalidField(field, msg)) => {
            assert_eq!(field, "action");
            assert_eq!(msg, "hold");
        }
        other => panic!("unexpected {other:?}"),
    }
    match parse(&base("SELL", num(1))) {
        Err(InjectBrokerError::InvalidField(field, msg)) => {
            assert_eq!(field, "tp_tif");
            assert_eq!(msg, "");
        }
        other => panic!("unexpected {other:?}"),
    }
    match parse(&base("sell", s("GTC"))).unwrap() {
        BrokerEvent::BracketCreated { action, entry_kind, tp_tif, .. } => {
            assert_eq!(action, OrderAction::Sell);
            assert_eq!(entry_kind, OrderKind::Limit);
            assert_eq!(tp_tif, Some(TimeInForce::Gtc));
        }
        _ => panic!("wrong variant"),
    }
}

#[test]
fn connected_defaults_server_version() {
    match parse(&obj(vec![("type", s("Connected"))])).unwrap() {
        BrokerEvent::Connected { server_version } => assert_eq!(server_version, 0),
        _ => panic!("wrong variant"),
    }
    match parse(&obj(vec![("type", s("Connected")), ("server_version", num(176))])).unwrap() {
        BrokerEvent::Connected { server_version } => assert_eq!(server_version, 176),
        _ => panic!("wrong variant"),
    }
}

#[test]
fn submitted_and_status_changed_parse() {
    let v = obj(vec![
        ("type", s("OrderSubmitted")),
        ("order_id", s(UUID0)),
        ("ib_order_id", num(7)),
        ("ib_perm_id", num(123456789)),
    ]);
    match parse(&v).unwrap() {
        BrokerEvent::OrderSubmitted { ib_order_id, ib_perm_id, .. } => {
            assert_eq!(ib_order_id, 7);
            assert_eq!(ib_perm_id, 123456789);
        }
        _ => panic!("wrong variant"),
    }
    let v = obj(vec![
        ("type", s("OrderStatusChanged")),
        ("order_id", s(UUID0)),
        ("old_status", s("Submitted")),
        ("new_status", s("Filled")),
        ("filled_qty", f(10.0)),
        ("remaining_qty", f(0.0)),
    ]);
    assert!(matches!(parse(&v), Err(InjectBrokerError::MissingField("avg_fill_price"))));
}
