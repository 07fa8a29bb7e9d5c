use midas_app::devloop::{ticker_msg_variant, TickerMsg};
use midas_app::json::{JsonNumber, JsonValue};
use midas_app::order_panel::{EntryType, OrderSide};
use midas_app::blotter::LegRole;
use midas_app::ticker_inject::{parse, InjectedTickerMsg, TickerInjectError};

fn s(x: &str) -> JsonValue {
    JsonValue::String(x.to_owned())
}

fn f(x: f64) -> JsonValue {
    JsonValue::Number(JsonNumber { as_i64: None, as_u64: None, as_f64_bits: Some(x.to_bits()) })
}

fn uint(x: u64) -> JsonValue {
    JsonValue::Number(JsonNumber {
        as_i64: i64::try_from(x).ok(),
        as_u64: Some(x),
        as_f64_bits: Some((x as f64).to_bits()),
    })
}

fn obj(members: Vec<(&str, JsonValue)>) -> JsonValue {
    JsonValue::Object(members.into_iter().map(|(k, v)| (k.to_owned(), v)).collect())
}

#[test]
fn parse_cancel_bracket_unit_variant() {
    let v = obj(vec![("type", s("CancelBracket"))]);
    let msg = parse(&v).unwrap();
    assert!(matches!(msg, InjectedTickerMsg::CancelBracket));
}

#[test]
fn parse_set_leg_price() {
    let v = obj(vec![("type", s("SetLegPrice")), ("role", s("Entry")), ("price", f(184.5))]);
    let msg = parse(&v).unwrap();
    match msg {
        InjectedTickerMsg::SetLegPrice { role, price } => {
            assert_eq!(role, LegRole::Entry);
            assert!((f64::from_bits(price) - 184.5).abs() < 1e-9);
        }
        _ => panic!("wrong variant"),
    }
}

#[test]
fn parse_set_bracket_mode_some() {
    let v = obj(vec![("type", s("SetBracketMode")), ("side", s("Buy"))]);
    let msg = parse(&v).unwrap();
    match msg {
        InjectedTickerMsg::SetBracketMode(Some(OrderSide::Buy)) => {}
        _ => panic!("wrong variant"),
    }
}

#[test]
fn parse_set_bracket_mode_null_clears() {
    let v = obj(vec![("type", s("SetBracketMode")), ("side", JsonValue::Null)]);
    let msg = parse(&v).unwrap();
    assert!(matches!(msg, InjectedTickerMsg::SetBracketMode(None)));
}

#[test]
fn parse_set_bracket_mode_missing_side_clears() {
    let v = obj(vec![("type", s("SetBracketMode"))]);
    let msg = parse(&v).unwrap();
    assert!(matches!(msg, InjectedTickerMsg::SetBracketMode(None)));
}

#[test]
fn inject_unknown_variant_rejected() {
    let v = obj(vec![("type", s("NotAVariant"))]);
    match parse(&v) {
        Err(TickerInjectError::UnknownVariant(s)) => assert_eq!(s, "NotAVariant"),
        _ => panic!("expected UnknownVariant"),
    }
}

#[test]
fn level_variants_rejected_with_clear_message() {
    let v = obj(vec![("type", s("AddLevel"))]);
    assert!(matches!(parse(&v), Err(TickerInjectError::NotSupported(_))));
}

#[test]
fn missing_type_field_rejected() {
    let v = obj(vec![("role", s("Entry"))]);
    assert!(matches!(parse(&v), Err(TickerInjectError::MissingType)));
}

#[test]
fn order_pending_parses_uuid() {
    let v = obj(vec![
        ("type", s("OrderPending")),
        ("order_id", s("550e8400-e29b-41d4-a716-446655440000")),
    ]);
    let msg = parse(&v).unwrap();
    match msg {
        InjectedTickerMsg::OrderPending { order_id } => {
            assert_eq!(order_id, 0x550e8400_e29b_41d4_a716_446655440000u128)
        }
        _ => panic!("wrong variant"),
    }
}

#[test]
fn order_pending_bad_uuid_is_a_shape_mismatch() {
    let v = obj(vec![("type", s("OrderPending")), ("order_id", s("not-a-uuid"))]);
    match parse(&v) {
        Err(e @ TickerInjectError::Serde(_)) => {
            assert!(e.message().starts_with("payload shape mismatch: uuid: "))
        }
        other => panic!("unexpected {other:?}"),
    }
}

#[test]
fn record_fields_report_missing_then_invalid() {
    let v = obj(vec![("type", s("SetLegPrice")), ("price", f(1.0))]);
    match parse(&v) {
        Err(e) => assert_eq!(e.message(), "payload shape mismatch: missing field `role`"),
        Ok(m) => panic!("unexpected {m:?}"),
    }
    let v = obj(vec![("type", s("DragLeg")), ("role", s("Middle")), ("new_price", f(1.0))]);
    match parse(&v) {
        Err(e) => {
            assert_eq!(e.message(), "payload shape mismatch: unknown variant `Middle` for `role`")
        }
        Ok(m) => panic!("unexpected {m:?}"),
    }
    let v = obj(vec![("type", s("DragLeg")), ("role", s("StopLoss")), ("new_price", s("1"))]);
    match parse(&v) {
        Err(e) => assert_eq!(e.message(), "payload shape mismatch: invalid type for `new_price`"),
        Ok(m) => panic!("unexpected {m:?}"),
    }
}

#[test]
fn scalar_fields_report_missing_field() {
    let v = obj(vec![("type", s("SetTpEnabled")), ("enabled", s("yes"))]);
    match parse(&v) {
        Err(e) => assert_eq!(e.message(), "missing required field: enabled"),
        Ok(m) => panic!("unexpected {m:?}"),
    }
    let v = obj(vec![("type", s("RemoveLevel")), ("index", f(-1.0))]);
    assert!(matches!(parse(&v), Err(TickerInjectError::MissingField("index"))));
    let v = obj(vec![("type", s("ToggleLevelLock")), ("index", uint(3))]);
    assert!(matches!(parse(&v), Ok(InjectedTickerMsg::ToggleLevelLock(3))));
}

#[test]
fn market_data_and_camera_payloads() {
    let v = obj(vec![("type", s("UpdateMarketData")), ("last_price", f(10.5))]);
    match parse(&v).unwrap() {
        InjectedTickerMsg::UpdateMarketData { last_price, gatr_abs } => {
            assert_eq!(f64::from_bits(last_price), 10.5);
            assert_eq!(gatr_abs, None);
        }
        m => panic!("unexpected {m:?}"),
    }
    let v = obj(vec![
        ("type", s("SaveCameraState")),
        ("time_start", f(1.0)),
        ("time_end", f(2.0)),
        ("price_low", f(3.0)),
        ("price_high", f(4.0)),
        ("was_at_live_edge", JsonValue::Bool(true)),
    ]);
    match parse(&v).unwrap() {
        InjectedTickerMsg::SaveCameraState { price_high, was_at_live_edge, .. } => {
            assert_eq!(f64::from_bits(price_high), 4.0);
            assert!(was_at_live_edge);
        }
        m => panic!("unexpected {m:?}"),
    }
}

#[test]
fn entry_type_and_kind_names() {
    let v = obj(vec![("type", s("SetEntryType")), ("entry_type", s("StopLimit"))]);
    let m = parse(&v).unwrap();
    assert!(matches!(m, InjectedTickerMsg::SetEntryType(EntryType::StopLimit)));
    assert_eq!(m.kind(), TickerMsg::SetEntryType);
    assert_eq!(ticker_msg_variant(&m.kind()), "SetEntryType");
    let v = obj(vec![("type", s("SetEntryType"))]);
    assert!(matches!(parse(&v), Err(TickerInjectError::MissingField("entry_type"))));
    let v = obj(vec![("type", s("Hydrated"))]);
    match parse(&v) {
        Err(e) => assert_eq!(
            e.message(),
            "variant not supported for injection: Hydrated — use load_fixture to replace state \
             (use click/drag or load_fixture)"
        ),
        Ok(m) => panic!("unexpected {m:?}"),
    }
}
