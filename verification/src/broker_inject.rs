//! Parser for `inject_broker_event` payloads.
//!
//! The wire format is internally tagged JSON: an object whose `type`
//! member names the broker-event variant, beside that variant's fields.
//!
//! ```json
//! {"type": "BracketCreated", "parent_id": "...", "symbol": "AAPL", ...}
//! {"type": "OrderStatusChanged", "order_id": "...", "new_status": "Filled", ...}
//! ```
//!
//! Only the variants that drive the blotter and the annotation wiring
//! are accepted; market-data variants and those carrying complex types
//! are refused as not supported. Fields are read in declaration order
//! and the first one that is missing or malformed decides the error.

use vstd::prelude::*;
use crate::broker::{BrokerEvent, BrokerEventView, OrderAction, OrderKind, TimeInForce};
use crate::json::{
    as_f64_bits, as_i64, as_str, f64_of, get_member, i64_of, is_present, member, opt_value,
    present, str_of, JsonValue,
};
use crate::text::{push_str, str_eq};

verus! {

/// Why a payload could not be turned into a broker event.
#[derive(Debug)]
pub enum InjectBrokerError {
    /// The `type` member names no broker-event variant.
    UnknownVariant(String),
    /// The variant exists but cannot be injected.
    NotSupported(&'static str),
    /// The payload could not be read as JSON.
    Serde(String),
    /// The payload is not an object with a string `type` member.
    MissingType,
    /// A required member is absent or has the wrong JSON type.
    MissingField(&'static str),
    /// A member is present but its value is not acceptable.
    InvalidField(&'static str, String),
}

/// Mathematical value of an injection error.
pub enum InjectErrorView {
    UnknownVariant(Seq<char>),
    NotSupported(Seq<char>),
    Serde(Seq<char>),
    MissingType,
    MissingField(Seq<char>),
    InvalidField(Seq<char>, Seq<char>),
}

impl View for InjectBrokerError {
    type V = InjectErrorView;

    open spec fn view(&self) -> InjectErrorView {
        match self {
            InjectBrokerError::UnknownVariant(s) => InjectErrorView::UnknownVariant(s@),
            InjectBrokerError::NotSupported(s) => InjectErrorView::NotSupported(s@),
            InjectBrokerError::Serde(s) => InjectErrorView::Serde(s@),
            InjectBrokerError::MissingType => InjectErrorView::MissingType,
            InjectBrokerError::MissingField(f) => InjectErrorView::MissingField(f@),
            InjectBrokerError::InvalidField(f, s) => InjectErrorView::InvalidField(f@, s@),
        }
    }
}

/// The text an injection error displays.
pub open spec fn inject_error_text(e: InjectErrorView) -> Seq<char> {
    match e {
        InjectErrorView::UnknownVariant(s) => "unknown BrokerEvent variant: "@ + s,
        InjectErrorView::NotSupported(s) => "variant not supported for injection: "@ + s,
        InjectErrorView::Serde(s) => "payload shape mismatch: "@ + s,
        InjectErrorView::MissingType => "missing `type` field on inject_broker_event payload"@,
        InjectErrorView::MissingField(f) => "missing required field: "@ + f,
        InjectErrorView::InvalidField(f, s) => "invalid field "@ + f + ": "@ + s,
    }
}

impl InjectBrokerError {
    /// The text the error displays.
    pub fn message(&self) -> (r: String)
        ensures
            r@ == inject_error_text(self@),
    {
        match self {
            InjectBrokerError::UnknownVariant(s) => {
                let mut m = "unknown BrokerEvent variant: ".to_owned();
                push_str(&mut m, s.as_str());
                m
            },
            InjectBrokerError::NotSupported(s) => {
                let mut m = "variant not supported for injection: ".to_owned();
                push_str(&mut m, s);
                m
            },
            InjectBrokerError::Serde(s) => {
                let mut m = "payload shape mismatch: ".to_owned();
                push_str(&mut m, s.as_str());
                m
            },
            InjectBrokerError::MissingType => {
                "missing `type` field on inject_broker_event payload".to_owned()
            },
            InjectBrokerError::MissingField(f) => {
                let mut m = "missing required field: ".to_owned();
                push_str(&mut m, f);
                m
            },
            InjectBrokerError::InvalidField(f, s) => {
                let mut m = "invalid field ".to_owned();
                push_str(&mut m, f);
                push_str(&mut m, ": ");
                push_str(&mut m, s.as_str());
                m
            },
        }
    }
}

/// What `uuid::Uuid::parse_str` gives for a text: the UUID's 128-bit
/// value, or the text of its parse error.
pub uninterp spec fn uuid_parse(s: Seq<char>) -> Result<u128, Seq<char>>;

/// Parses a UUID with `uuid::Uuid::parse_str` (simple, hyphenated,
/// braced and URN forms). The contract claims only that the result is
/// the uuid crate's answer for this text: the value as `as_u128` on
/// success, the error's display text on failure.
#[verifier::external_body]
pub(crate) fn parse_uuid(s: &str) -> (r: Result<u128, String>)
    ensures
        match r {
            Ok(id) => uuid_parse(s@) == Ok::<u128, Seq<char>>(id),
            Err(m) => uuid_parse(s@) == Err::<u128, Seq<char>>(m@),
        },
{
    match uuid::Uuid::parse_str(s) {
        Ok(u) => Ok(u.as_u128()),
        Err(e) => Err(e.to_string()),
    }
}

type Members = Seq<(String, JsonValue)>;

/// A required string member.
pub open spec fn req_string(o: Members, f: Seq<char>) -> Result<Seq<char>, InjectErrorView> {
    match str_of(member(o, f)) {
        Some(s) => Ok(s),
        None => Err(InjectErrorView::MissingField(f)),
    }
}

/// A required number member, read as `f64`.
pub open spec fn req_f64(o: Members, f: Seq<char>) -> Result<u64, InjectErrorView> {
    match f64_of(member(o, f)) {
        Some(x) => Ok(x),
        None => Err(InjectErrorView::MissingField(f)),
    }
}

/// A required number member, read as `i64`.
pub open spec fn req_i64(o: Members, f: Seq<char>) -> Result<i64, InjectErrorView> {
    match i64_of(member(o, f)) {
        Some(x) => Ok(x),
        None => Err(InjectErrorView::MissingField(f)),
    }
}

/// A required UUID member.
pub open spec fn req_uuid(o: Members, f: Seq<char>) -> Result<u128, InjectErrorView> {
    match req_string(o, f) {
        Err(e) => Err(e),
        Ok(s) => match uuid_parse(s) {
            Ok(id) => Ok(id),
            Err(m) => Err(InjectErrorView::InvalidField(f, m)),
        },
    }
}

/// An optional UUID member: absent or `null` is `None`.
pub open spec fn opt_uuid(o: Members, f: Seq<char>) -> Result<Option<u128>, InjectErrorView> {
    if present(member(o, f)) {
        match str_of(member(o, f)) {
            None => Err(InjectErrorView::InvalidField(f, "expected string"@)),
            Some(s) => match uuid_parse(s) {
                Ok(id) => Ok(Some(id)),
                Err(m) => Err(InjectErrorView::InvalidField(f, m)),
            },
        }
    } else {
        Ok(None)
    }
}

/// The order side a text names.
pub open spec fn action_named(s: Seq<char>) -> Option<OrderAction> {
    if s == "Buy"@ || s == "BUY"@ || s == "buy"@ {
        Some(OrderAction::Buy)
    } else if s == "Sell"@ || s == "SELL"@ || s == "sell"@ {
        Some(OrderAction::Sell)
    } else {
        None
    }
}

/// The order type a text names.
pub open spec fn kind_named(s: Seq<char>) -> Option<OrderKind> {
    if s == "Market"@ || s == "MKT"@ {
        Some(OrderKind::Market)
    } else if s == "Limit"@ || s == "LMT"@ {
        Some(OrderKind::Limit)
    } else if s == "Stop"@ || s == "STP"@ {
        Some(OrderKind::Stop)
    } else if s == "StopLimit"@ || s == "STP_LMT"@ {
        Some(OrderKind::StopLimit)
    } else if s == "TrailingStop"@ || s == "TRAIL"@ {
        Some(OrderKind::TrailingStop)
    } else {
        None
    }
}

/// The time in force a text names.
pub open spec fn tif_named(s: Seq<char>) -> Option<TimeInForce> {
    if s == "Day"@ || s == "DAY"@ {
        Some(TimeInForce::Day)
    } else if s == "Gtc"@ || s == "GTC"@ {
        Some(TimeInForce::Gtc)
    } else if s == "Ioc"@ || s == "IOC"@ {
        Some(TimeInForce::Ioc)
    } else if s == "Gtd"@ || s == "GTD"@ {
        Some(TimeInForce::Gtd)
    } else if s == "Opg"@ || s == "OPG"@ {
        Some(TimeInForce::Opg)
    } else {
        None
    }
}

/// A required order-side member.
pub open spec fn action_field(o: Members, f: Seq<char>) -> Result<OrderAction, InjectErrorView> {
    match req_string(o, f) {
        Err(e) => Err(e),
        Ok(s) => match action_named(s) {
            Some(a) => Ok(a),
            None => Err(InjectErrorView::InvalidField(f, s)),
        },
    }
}

/// A required order-type member.
pub open spec fn kind_field(o: Members, f: Seq<char>) -> Result<OrderKind, InjectErrorView> {
    match req_string(o, f) {
        Err(e) => Err(e),
        Ok(s) => match kind_named(s) {
            Some(k) => Ok(k),
            None => Err(InjectErrorView::InvalidField(f, s)),
        },
    }
}

/// An optional time-in-force member: absent or `null` is `None`; a
/// value that is not a string reads as the empty text and is refused.
pub open spec fn opt_tif(o: Members, f: Seq<char>) -> Result<Option<TimeInForce>, InjectErrorView> {
    if present(member(o, f)) {
        let s = match str_of(member(o, f)) {
            Some(s) => s,
            None => Seq::<char>::empty(),
        };
        match tif_named(s) {
            Some(t) => Ok(Some(t)),
            None => Err(InjectErrorView::InvalidField(f, s)),
        }
    } else {
        Ok(None)
    }
}

/// Whether an executable result agrees with its specification.
pub open spec fn agrees<T>(r: Result<T, InjectBrokerError>, s: Result<T, InjectErrorView>) -> bool {
    match r {
        Ok(x) => s == Ok::<T, InjectErrorView>(x),
        Err(e) => s == Err::<T, InjectErrorView>(e@),
    }
}

fn required_string(obj: &Vec<(String, JsonValue)>, field: &'static str) -> (r: Result<
    String,
    InjectBrokerError,
>)
    ensures
        match r {
            Ok(s) => req_string(obj@, field@) == Ok::<Seq<char>, InjectErrorView>(s@),
            Err(e) => req_string(obj@, field@) == Err::<Seq<char>, InjectErrorView>(e@),
        },
{
    match as_str(get_member(obj, field)) {
        Some(s) => Ok(s.to_owned()),
        None => Err(InjectBrokerError::MissingField(field)),
    }
}

fn required_f64(obj: &Vec<(String, JsonValue)>, field: &'static str) -> (r: Result<
    u64,
    InjectBrokerError,
>)
    ensures
        agrees(r, req_f64(obj@, field@)),
{
    match as_f64_bits(get_member(obj, field)) {
        Some(x) => Ok(x),
        None => Err(InjectBrokerError::MissingField(field)),
    }
}

fn optional_f64(obj: &Vec<(String, JsonValue)>, field: &str) -> (r: Option<u64>)
    ensures
        r == f64_of(member(obj@, field@)),
{
    as_f64_bits(get_member(obj, field))
}

fn required_i64(obj: &Vec<(String, JsonValue)>, field: &'static str) -> (r: Result<
    i64,
    InjectBrokerError,
>)
    ensures
        agrees(r, req_i64(obj@, field@)),
{
    match as_i64(get_member(obj, field)) {
        Some(x) => Ok(x),
        None => Err(InjectBrokerError::MissingField(field)),
    }
}

fn required_uuid(obj: &Vec<(String, JsonValue)>, field: &'static str) -> (r: Result<
    u128,
    InjectBrokerError,
>)
    ensures
        agrees(r, req_uuid(obj@, field@)),
{
    let s = match required_string(obj, field) {
        Ok(s) => s,
        Err(e) => return Err(e),
    };
    match parse_uuid(s.as_str()) {
        Ok(id) => Ok(id),
        Err(m) => Err(InjectBrokerError::InvalidField(field, m)),
    }
}

fn optional_uuid(obj: &Vec<(String, JsonValue)>, field: &'static str) -> (r: Result<
    Option<u128>,
    InjectBrokerError,
>)
    ensures
        agrees(r, opt_uuid(obj@, field@)),
{
    let v = get_member(obj, field);
    if !is_present(v) {
        return Ok(None);
    }
    match as_str(v) {
        None => {
            let msg = "expected string";
            proof {
                reveal_strlit("expected string");
            }
            Err(InjectBrokerError::InvalidField(field, msg.to_owned()))
        },
        Some(s) => match parse_uuid(s) {
            Ok(id) => Ok(Some(id)),
            Err(m) => Err(InjectBrokerError::InvalidField(field, m)),
        },
    }
}

fn action_from(s: &str) -> (r: Option<OrderAction>)
    ensures
        r == action_named(s@),
{
    if str_eq(s, "Buy") || str_eq(s, "BUY") || str_eq(s, "buy") {
        Some(OrderAction::Buy)
    } else if str_eq(s, "Sell") || str_eq(s, "SELL") || str_eq(s, "sell") {
        Some(OrderAction::Sell)
    } else {
        None
    }
}

fn kind_from(s: &str) -> (r: Option<OrderKind>)
    ensures
        r == kind_named(s@),
{
    if str_eq(s, "Market") || str_eq(s, "MKT") {
        Some(OrderKind::Market)
    } else if str_eq(s, "Limit") || str_eq(s, "LMT") {
        Some(OrderKind::Limit)
    } else if str_eq(s, "Stop") || str_eq(s, "STP") {
        Some(OrderKind::Stop)
    } else if str_eq(s, "StopLimit") || str_eq(s, "STP_LMT") {
        Some(OrderKind::StopLimit)
    } else if str_eq(s, "TrailingStop") || str_eq(s, "TRAIL") {
        Some(OrderKind::TrailingStop)
    } else {
        None
    }
}

fn tif_from(s: &str) -> (r: Option<TimeInForce>)
    ensures
        r == tif_named(s@),
{
    if str_eq(s, "Day") || str_eq(s, "DAY") {
        Some(TimeInForce::Day)
    } else if str_eq(s, "Gtc") || str_eq(s, "GTC") {
        Some(TimeInForce::Gtc)
    } else if str_eq(s, "Ioc") || str_eq(s, "IOC") {
        Some(TimeInForce::Ioc)
    } else if str_eq(s, "Gtd") || str_eq(s, "GTD") {
        Some(TimeInForce::Gtd)
    } else if str_eq(s, "Opg") || str_eq(s, "OPG") {
        Some(TimeInForce::Opg)
    } else {
        None
    }
}

fn parse_action(obj: &Vec<(String, JsonValue)>, field: &'static str) -> (r: Result<
    OrderAction,
    InjectBrokerError,
>)
    ensures
        agrees(r, action_field(obj@, field@)),
{
    let s = match required_string(obj, field) {
        Ok(s) => s,
        Err(e) => return Err(e),
    };
    match action_from(s.as_str()) {
        Some(a) => Ok(a),
        None => Err(InjectBrokerError::InvalidField(field, s)),
    }
}

fn parse_kind(obj: &Vec<(String, JsonValue)>, field: &'static str) -> (r: Result<
    OrderKind,
    InjectBrokerError,
>)
    ensures
        agrees(r, kind_field(obj@, field@)),
{
    let s = match required_string(obj, field) {
        Ok(s) => s,
        Err(e) => return Err(e),
    };
    match kind_from(s.as_str()) {
        Some(k) => Ok(k),
        None => Err(InjectBrokerError::InvalidField(field, s)),
    }
}

fn parse_optional_tif(obj: &Vec<(String, JsonValue)>, field: &'static str) -> (r: Result<
    Option<TimeInForce>,
    InjectBrokerError,
>)
    ensures
        agrees(r, opt_tif(obj@, field@)),
{
    let v = get_member(obj, field);
    if !is_present(v) {
        return Ok(None);
    }
    let s: &str = match as_str(v) {
        Some(s) => s,
        None => {
            let e = "";
            proof {
                reveal_strlit("");
            }
            assert(e@ =~= Seq::<char>::empty());
            e
        },
    };
    match tif_from(s) {
        Some(t) => Ok(Some(t)),
        None => Err(InjectBrokerError::InvalidField(field, s.to_owned())),
    }
}

/// The `BracketCreated` event an object describes.
pub open spec fn bracket_spec(o: Members) -> Result<BrokerEventView, InjectErrorView> {
    if req_uuid(o, "parent_id"@) is Err {
        Err(req_uuid(o, "parent_id"@)->Err_0)
    } else if opt_uuid(o, "take_profit_id"@) is Err {
        Err(opt_uuid(o, "take_profit_id"@)->Err_0)
    } else if opt_uuid(o, "stop_loss_id"@) is Err {
        Err(opt_uuid(o, "stop_loss_id"@)->Err_0)
    } else if req_string(o, "symbol"@) is Err {
        Err(req_string(o, "symbol"@)->Err_0)
    } else if action_field(o, "action"@) is Err {
        Err(action_field(o, "action"@)->Err_0)
    } else if req_f64(o, "quantity"@) is Err {
        Err(req_f64(o, "quantity"@)->Err_0)
    } else if kind_field(o, "entry_kind"@) is Err {
        Err(kind_field(o, "entry_kind"@)->Err_0)
    } else if opt_tif(o, "tp_tif"@) is Err {
        Err(opt_tif(o, "tp_tif"@)->Err_0)
    } else if opt_tif(o, "sl_tif"@) is Err {
        Err(opt_tif(o, "sl_tif"@)->Err_0)
    } else {
        Ok(
            BrokerEventView::BracketCreated {
                parent_id: req_uuid(o, "parent_id"@)->Ok_0,
                take_profit_id: opt_uuid(o, "take_profit_id"@)->Ok_0,
                stop_loss_id: opt_uuid(o, "stop_loss_id"@)->Ok_0,
                symbol: req_string(o, "symbol"@)->Ok_0,
                action: action_field(o, "action"@)->Ok_0,
                quantity: req_f64(o, "quantity"@)->Ok_0,
                tp_price: f64_of(member(o, "tp_price"@)),
                sl_price: f64_of(member(o, "sl_price"@)),
                reference_price: f64_of(member(o, "reference_price"@)),
                entry_kind: kind_field(o, "entry_kind"@)->Ok_0,
                entry_limit_price: f64_of(member(o, "entry_limit_price"@)),
                entry_stop_price: f64_of(member(o, "entry_stop_price"@)),
                sl_limit_price: f64_of(member(o, "sl_limit_price"@)),
                tp_tif: opt_tif(o, "tp_tif"@)->Ok_0,
                sl_tif: opt_tif(o, "sl_tif"@)->Ok_0,
            },
        )
    }
}

/// The `OrderSubmitted` event an object describes; broker order ids
/// keep the low 32 bits.
pub open spec fn submitted_spec(o: Members) -> Result<BrokerEventView, InjectErrorView> {
    if req_uuid(o, "order_id"@) is Err {
        Err(req_uuid(o, "order_id"@)->Err_0)
    } else if req_i64(o, "ib_order_id"@) is Err {
        Err(req_i64(o, "ib_order_id"@)->Err_0)
    } else if req_i64(o, "ib_perm_id"@) is Err {
        Err(req_i64(o, "ib_perm_id"@)->Err_0)
    } else {
        Ok(
            BrokerEventView::OrderSubmitted {
                order_id: req_uuid(o, "order_id"@)->Ok_0,
                ib_order_id: req_i64(o, "ib_order_id"@)->Ok_0 as i32,
                ib_perm_id: req_i64(o, "ib_perm_id"@)->Ok_0,
            },
        )
    }
}

/// The `OrderStatusChanged` event an object describes.
pub open spec fn status_changed_spec(o: Members) -> Result<BrokerEventView, InjectErrorView> {
    if req_uuid(o, "order_id"@) is Err {
        Err(req_uuid(o, "order_id"@)->Err_0)
    } else if req_string(o, "old_status"@) is Err {
        Err(req_string(o, "old_status"@)->Err_0)
    } else if req_string(o, "new_status"@) is Err {
        Err(req_string(o, "new_status"@)->Err_0)
    } else if req_f64(o, "filled_qty"@) is Err {
        Err(req_f64(o, "filled_qty"@)->Err_0)
    } else if req_f64(o, "remaining_qty"@) is Err {
        Err(req_f64(o, "remaining_qty"@)->Err_0)
    } else if req_f64(o, "avg_fill_price"@) is Err {
        Err(req_f64(o, "avg_fill_price"@)->Err_0)
    } else {
        Ok(
            BrokerEventView::OrderStatusChanged {
                order_id: req_uuid(o, "order_id"@)->Ok_0,
                old_status: req_string(o, "old_status"@)->Ok_0,
                new_status: req_string(o, "new_status"@)->Ok_0,
                filled_qty: req_f64(o, "filled_qty"@)->Ok_0,
                remaining_qty: req_f64(o, "remaining_qty"@)->Ok_0,
                avg_fill_price: req_f64(o, "avg_fill_price"@)->Ok_0,
            },
        )
    }
}

/// The `OrderFilled` event an object describes.
pub open spec fn filled_spec(o: Members) -> Result<BrokerEventView, InjectErrorView> {
    if req_uuid(o, "order_id"@) is Err {
        Err(req_uuid(o, "order_id"@)->Err_0)
    } else if req_string(o, "ib_exec_id"@) is Err {
        Err(req_string(o, "ib_exec_id"@)->Err_0)
    } else if req_f64(o, "shares"@) is Err {
        Err(req_f64(o, "shares"@)->Err_0)
    } else if req_f64(o, "price"@) is Err {
        Err(req_f64(o, "price"@)->Err_0)
    } else {
        Ok(
            BrokerEventView::OrderFilled {
                order_id: req_uuid(o, "order_id"@)->Ok_0,
                ib_exec_id: req_string(o, "ib_exec_id"@)->Ok_0,
                shares: req_f64(o, "shares"@)->Ok_0,
                price: req_f64(o, "price"@)->Ok_0,
                commission: f64_of(member(o, "commission"@)),
            },
        )
    }
}

/// An `OrderCancelled` (`cancelled`) or `OrderRejected` event an object
/// describes.
pub open spec fn terminal_spec(o: Members, cancelled: bool) -> Result<
    BrokerEventView,
    InjectErrorView,
> {
    if req_uuid(o, "order_id"@) is Err {
        Err(req_uuid(o, "order_id"@)->Err_0)
    } else if req_string(o, "reason"@) is Err {
        Err(req_string(o, "reason"@)->Err_0)
    } else if cancelled {
        Ok(
            BrokerEventView::OrderCancelled {
                order_id: req_uuid(o, "order_id"@)->Ok_0,
                reason: req_string(o, "reason"@)->Ok_0,
            },
        )
    } else {
        Ok(
            BrokerEventView::OrderRejected {
                order_id: req_uuid(o, "order_id"@)->Ok_0,
                reason: req_string(o, "reason"@)->Ok_0,
            },
        )
    }
}

/// The `PositionUpdate` event an object describes; the contract id
/// keeps the low 32 bits.
pub open spec fn position_spec(o: Members) -> Result<BrokerEventView, InjectErrorView> {
    if req_string(o, "account"@) is Err {
        Err(req_string(o, "account"@)->Err_0)
    } else if req_string(o, "symbol"@) is Err {
        Err(req_string(o, "symbol"@)->Err_0)
    } else if req_i64(o, "con_id"@) is Err {
        Err(req_i64(o, "con_id"@)->Err_0)
    } else if req_f64(o, "quantity"@) is Err {
        Err(req_f64(o, "quantity"@)->Err_0)
    } else if req_f64(o, "avg_cost"@) is Err {
        Err(req_f64(o, "avg_cost"@)->Err_0)
    } else {
        Ok(
            BrokerEventView::PositionUpdate {
                account: req_string(o, "account"@)->Ok_0,
                symbol: req_string(o, "symbol"@)->Ok_0,
                con_id: req_i64(o, "con_id"@)->Ok_0 as i32,
                quantity: req_f64(o, "quantity"@)->Ok_0,
                avg_cost: req_f64(o, "avg_cost"@)->Ok_0,
            },
        )
    }
}

/// Refusal text for variants that carry complex types.
pub open spec fn complex_refusal() -> Seq<char> {
    "variant carries complex types; extend broker_inject.rs if needed"@
}

/// Refusal text for market-data variants.
pub open spec fn market_data_refusal() -> Seq<char> {
    "market-data events do not drive the blotter or annotation wiring"@
}

/// The event (or error) for an object whose `type` member is `ty`.
pub open spec fn typed_spec(o: Members, ty: Seq<char>) -> Result<BrokerEventView, InjectErrorView> {
    if ty == "Connected"@ {
        Ok(
            BrokerEventView::Connected {
                server_version: match i64_of(member(o, "server_version"@)) {
                    Some(x) => x as i32,
                    None => 0,
                },
            },
        )
    } else if ty == "Disconnected"@ {
        match req_string(o, "reason"@) {
            Ok(r) => Ok(BrokerEventView::Disconnected { reason: r }),
            Err(e) => Err(e),
        }
    } else if ty == "Reconnected"@ {
        Ok(BrokerEventView::Reconnected)
    } else if ty == "BracketCreated"@ {
        bracket_spec(o)
    } else if ty == "OrderSubmitted"@ {
        submitted_spec(o)
    } else if ty == "OrderStatusChanged"@ {
        status_changed_spec(o)
    } else if ty == "OrderFilled"@ {
        filled_spec(o)
    } else if ty == "OrderCancelled"@ {
        terminal_spec(o, true)
    } else if ty == "OrderRejected"@ {
        terminal_spec(o, false)
    } else if ty == "PositionUpdate"@ {
        position_spec(o)
    } else if ty == "BracketStatusChanged"@ || ty == "OrderError"@ || ty
        == "OrderValidationFailed"@ || ty == "OrderCreated"@ {
        Err(InjectErrorView::NotSupported(complex_refusal()))
    } else if ty == "Tick"@ || ty == "RealtimeBar"@ || ty == "BarClosed"@ || ty == "BarUpdated"@
        || ty == "HistoricalDataComplete"@ || ty == "DepthUpdate"@ {
        Err(InjectErrorView::NotSupported(market_data_refusal()))
    } else {
        Err(InjectErrorView::UnknownVariant(ty))
    }
}

/// The event (or error) a payload describes.
pub open spec fn parse_spec(v: JsonValue) -> Result<BrokerEventView, InjectErrorView> {
    match v {
        JsonValue::Object(m) => match str_of(member(m@, "type"@)) {
            Some(ty) => typed_spec(m@, ty),
            None => Err(InjectErrorView::MissingType),
        },
        _ => Err(InjectErrorView::MissingType),
    }
}

/// Whether an executable parse result agrees with its specification.
pub open spec fn event_agrees(
    r: Result<BrokerEvent, InjectBrokerError>,
    s: Result<BrokerEventView, InjectErrorView>,
) -> bool {
    match r {
        Ok(ev) => s == Ok::<BrokerEventView, InjectErrorView>(ev@),
        Err(e) => s == Err::<BrokerEventView, InjectErrorView>(e@),
    }
}

fn parse_bracket(obj: &Vec<(String, JsonValue)>) -> (r: Result<BrokerEvent, InjectBrokerError>)
    ensures
        event_agrees(r, bracket_spec(obj@)),
{
    let parent_id = match required_uuid(obj, "parent_id") {
        Ok(x) => x,
        Err(e) => return Err(e),
    };
    let take_profit_id = match optional_uuid(obj, "take_profit_id") {
        Ok(x) => x,
        Err(e) => return Err(e),
    };
    let stop_loss_id = match optional_uuid(obj, "stop_loss_id") {
        Ok(x) => x,
        Err(e) => return Err(e),
    };
    let symbol = match required_string(obj, "symbol") {
        Ok(x) => x,
        Err(e) => return Err(e),
    };
    let action = match parse_action(obj, "action") {
        Ok(x) => x,
        Err(e) => return Err(e),
    };
    let quantity = match required_f64(obj, "quantity") {
        Ok(x) => x,
        Err(e) => return Err(e),
    };
    let tp_price = optional_f64(obj, "tp_price");
    let sl_price = optional_f64(obj, "sl_price");
    let reference_price = optional_f64(obj, "reference_price");
    let entry_kind = match parse_kind(obj, "entry_kind") {
        Ok(x) => x,
        Err(e) => return Err(e),
    };
    let entry_limit_price = optional_f64(obj, "entry_limit_price");
    let entry_stop_price = optional_f64(obj, "entry_stop_price");
    let sl_limit_price = optional_f64(obj, "sl_limit_price");
    let tp_tif = match parse_optional_tif(obj, "tp_tif") {
        Ok(x) => x,
        Err(e) => return Err(e),
    };
    let sl_tif = match parse_optional_tif(obj, "sl_tif") {
        Ok(x) => x,
        Err(e) => return Err(e),
    };
    Ok(
        BrokerEvent::BracketCreated {
            parent_id,
            take_profit_id,
            stop_loss_id,
            symbol,
            action,
            quantity,
            tp_price,
            sl_price,
            reference_price,
            entry_kind,
            entry_limit_price,
            entry_stop_price,
            sl_limit_price,
            tp_tif,
            sl_tif,
        },
    )
}

fn parse_submitted(obj: &Vec<(String, JsonValue)>) -> (r: Result<BrokerEvent, InjectBrokerError>)
    ensures
        event_agrees(r, submitted_spec(obj@)),
{
    let order_id = match required_uuid(obj, "order_id") {
        Ok(x) => x,
        Err(e) => return Err(e),
    };
    let ib_order_id = match required_i64(obj, "ib_order_id") {
        Ok(x) => x,
        Err(e) => return Err(e),
    };
    let ib_perm_id = match required_i64(obj, "ib_perm_id") {
        Ok(x) => x,
        Err(e) => return Err(e),
    };
    Ok(BrokerEvent::OrderSubmitted { order_id, ib_order_id: ib_order_id as i32, ib_perm_id })
}

fn parse_status_changed(obj: &Vec<(String, JsonValue)>) -> (r: Result<
    BrokerEvent,
    InjectBrokerError,
>)
    ensures
        event_agrees(r, status_changed_spec(obj@)),
{
    let order_id = match required_uuid(obj, "order_id") {
        Ok(x) => x,
        Err(e) => return Err(e),
    };
    let old_status = match required_string(obj, "old_status") {
        Ok(x) => x,
        Err(e) => return Err(e),
    };
    let new_status = match required_string(obj, "new_status") {
        Ok(x) => x,
        Err(e) => return Err(e),
    };
    let filled_qty = match required_f64(obj, "filled_qty") {
        Ok(x) => x,
        Err(e) => return Err(e),
    };
    let remaining_qty = match required_f64(obj, "remaining_qty") {
        Ok(x) => x,
        Err(e) => return Err(e),
    };
    let avg_fill_price = match required_f64(obj, "avg_fill_price") {
        Ok(x) => x,
        Err(e) => return Err(e),
    };
    Ok(
        BrokerEvent::OrderStatusChanged {
            order_id,
            old_status,
            new_status,
            filled_qty,
            remaining_qty,
            avg_fill_price,
        },
    )
}

fn parse_filled(obj: &Vec<(String, JsonValue)>) -> (r: Result<BrokerEvent, InjectBrokerError>)
    ensures
        event_agrees(r, filled_spec(obj@)),
{
    let order_id = match required_uuid(obj, "order_id") {
        Ok(x) => x,
        Err(e) => return Err(e),
    };
    let ib_exec_id = match required_string(obj, "ib_exec_id") {
        Ok(x) => x,
        Err(e) => return Err(e),
    };
    let shares = match required_f64(obj, "shares") {
        Ok(x) => x,
        Err(e) => return Err(e),
    };
    let price = match required_f64(obj, "price") {
        Ok(x) => x,
        Err(e) => return Err(e),
    };
    let commission = optional_f64(obj, "commission");
    Ok(BrokerEvent::OrderFilled { order_id, ib_exec_id, shares, price, commission })
}

fn parse_terminal(obj: &Vec<(String, JsonValue)>, cancelled: bool) -> (r: Result<
    BrokerEvent,
    InjectBrokerError,
>)
    ensures
        event_agrees(r, terminal_spec(obj@, cancelled)),
{
    let order_id = match required_uuid(obj, "order_id") {
        Ok(x) => x,
        Err(e) => return Err(e),
    };
    let reason = match required_string(obj, "reason") {
        Ok(x) => x,
        Err(e) => return Err(e),
    };
    if cancelled {
        Ok(BrokerEvent::OrderCancelled { order_id, reason })
    } else {
        Ok(BrokerEvent::OrderRejected { order_id, reason })
    }
}

fn parse_position(obj: &Vec<(String, JsonValue)>) -> (r: Result<BrokerEvent, InjectBrokerError>)
    ensures
        event_agrees(r, position_spec(obj@)),
{
    let account = match required_string(obj, "account") {
        Ok(x) => x,
        Err(e) => return Err(e),
    };
    let symbol = match required_string(obj, "symbol") {
        Ok(x) => x,
        Err(e) => return Err(e),
    };
    let con_id = match required_i64(obj, "con_id") {
        Ok(x) => x,
        Err(e) => return Err(e),
    };
    let quantity = match required_f64(obj, "quantity") {
        Ok(x) => x,
        Err(e) => return Err(e),
    };
    let avg_cost = match required_f64(obj, "avg_cost") {
        Ok(x) => x,
        Err(e) => return Err(e),
    };
    Ok(
        BrokerEvent::PositionUpdate {
            account,
            symbol,
            con_id: con_id as i32,
            quantity,
            avg_cost,
        },
    )
}

/// Parse an `inject_broker_event` payload into a broker event.
pub fn parse(value: &JsonValue) -> (r: Result<BrokerEvent, InjectBrokerError>)
    ensures
        event_agrees(r, parse_spec(*value)),
{
    let obj = match value {
        JsonValue::Object(m) => m,
        _ => return Err(InjectBrokerError::MissingType),
    };
    let ty = match as_str(get_member(obj, "type")) {
        Some(t) => t,
        None => return Err(InjectBrokerError::MissingType),
    };
    if str_eq(ty, "Connected") {
        let server_version = match as_i64(get_member(obj, "server_version")) {
            Some(x) => x as i32,
            None => 0,
        };
        Ok(BrokerEvent::Connected { server_version })
    } else if str_eq(ty, "Disconnected") {
        match required_string(obj, "reason") {
            Ok(reason) => Ok(BrokerEvent::Disconnected { reason }),
            Err(e) => Err(e),
        }
    } else if str_eq(ty, "Reconnected") {
        Ok(BrokerEvent::Reconnected)
    } else if str_eq(ty, "BracketCreated") {
        parse_bracket(obj)
    } else if str_eq(ty, "OrderSubmitted") {
        parse_submitted(obj)
    } else if str_eq(ty, "OrderStatusChanged") {
        parse_status_changed(obj)
    } else if str_eq(ty, "OrderFilled") {
        parse_filled(obj)
    } else if str_eq(ty, "OrderCancelled") {
        parse_terminal(obj, true)
    } else if str_eq(ty, "OrderRejected") {
        parse_terminal(obj, false)
    } else if str_eq(ty, "PositionUpdate") {
        parse_position(obj)
    } else if str_eq(ty, "BracketStatusChanged") || str_eq(ty, "OrderError") || str_eq(
        ty,
        "OrderValidationFailed",
    ) || str_eq(ty, "OrderCreated") {
        let msg = "variant carries complex types; extend broker_inject.rs if needed";
        proof {
            reveal_strlit("variant carries complex types; extend broker_inject.rs if needed");
        }
        Err(InjectBrokerError::NotSupported(msg))
    } else if str_eq(ty, "Tick") || str_eq(ty, "RealtimeBar") || str_eq(ty, "BarClosed") || str_eq(
        ty,
        "BarUpdated",
    ) || str_eq(ty, "HistoricalDataComplete") || str_eq(ty, "DepthUpdate") {
        let msg = "market-data events do not drive the blotter or annotation wiring";
        proof {
            reveal_strlit("market-data events do not drive the blotter or annotation wiring");
        }
        Err(InjectBrokerError::NotSupported(msg))
    } else {
        Err(InjectBrokerError::UnknownVariant(ty.to_owned()))
    }
}

/// The name of an order type: its variant name.
pub open spec fn kind_name(k: OrderKind) -> Seq<char> {
    match k {
        OrderKind::Market => "Market"@,
        OrderKind::Limit => "Limit"@,
        OrderKind::Stop => "Stop"@,
        OrderKind::StopLimit => "StopLimit"@,
        OrderKind::TrailingStop => "TrailingStop"@,
    }
}

/// The broker's short code of an order type.
pub open spec fn kind_code(k: OrderKind) -> Seq<char> {
    match k {
        OrderKind::Market => "MKT"@,
        OrderKind::Limit => "LMT"@,
        OrderKind::Stop => "STP"@,
        OrderKind::StopLimit => "STP_LMT"@,
        OrderKind::TrailingStop => "TRAIL"@,
    }
}

/// An order-type text is read as the type it names: each type is read
/// from its own name and from its broker code, and no other text reads
/// as that type.
pub proof fn lemma_kind_read_by_name(k: OrderKind, s: Seq<char>)
    ensures
        kind_named(kind_name(k)) == Some(k),
        kind_named(kind_code(k)) == Some(k),
        kind_named(s) == Some(k) ==> s == kind_name(k) || s == kind_code(k),
{
    match k {
        OrderKind::Market => {
            assert(kind_named("Market"@) == Some(OrderKind::Market)) by {
                reveal_strlit("Market");
            }
            assert(kind_named("MKT"@) == Some(OrderKind::Market)) by {
                reveal_strlit("MKT");
                reveal_strlit("Market");
                assert("MKT"@.len() != "Market"@.len());
            }
        },
        OrderKind::Limit => {
            assert(kind_named("Limit"@) == Some(OrderKind::Limit)) by {
                reveal_strlit("Limit");
                reveal_strlit("Market");
                reveal_strlit("MKT");
                assert("Limit"@.len() != "Market"@.len());
                assert("Limit"@.len() != "MKT"@.len());
            }
            assert(kind_named("LMT"@) == Some(OrderKind::Limit)) by {
                reveal_strlit("LMT");
                reveal_strlit("Market");
                reveal_strlit("MKT");
                reveal_strlit("Limit");
                assert("LMT"@.len() != "Market"@.len());
                assert("LMT"@[0] != "MKT"@[0]);
                assert("LMT"@.len() != "Limit"@.len());
            }
        },
        OrderKind::Stop => {
            assert(kind_named("Stop"@) == Some(OrderKind::Stop)) by {
                reveal_strlit("Stop");
                reveal_strlit("Market");
                reveal_strlit("MKT");
                reveal_strlit("Limit");
                reveal_strlit("LMT");
                assert("Stop"@.len() != "Market"@.len());
                assert("Stop"@.len() != "MKT"@.len());
                assert("Stop"@.len() != "Limit"@.len());
                assert("Stop"@.len() != "LMT"@.len());
            }
            assert(kind_named("STP"@) == Some(OrderKind::Stop)) by {
                reveal_strlit("STP");
                reveal_strlit("Market");
                reveal_strlit("MKT");
                reveal_strlit("Limit");
                reveal_strlit("LMT");
                reveal_strlit("Stop");
                assert("STP"@.len() != "Market"@.len());
                assert("STP"@[0] != "MKT"@[0]);
                assert("STP"@.len() != "Limit"@.len());
                assert("STP"@[0] != "LMT"@[0]);
                assert("STP"@.len() != "Stop"@.len());
            }
        },
        OrderKind::StopLimit => {
            assert(kind_named("StopLimit"@) == Some(OrderKind::StopLimit)) by {
                reveal_strlit("StopLimit");
                reveal_strlit("Market");
                reveal_strlit("MKT");
                reveal_strlit("Limit");
                reveal_strlit("LMT");
                reveal_strlit("Stop");
                reveal_strlit("STP");
                assert("StopLimit"@.len() != "Market"@.len());
                assert("StopLimit"@.len() != "MKT"@.len());
                assert("StopLimit"@.len() != "Limit"@.len());
                assert("StopLimit"@.len() != "LMT"@.len());
                assert("StopLimit"@.len() != "Stop"@.len());
                assert("StopLimit"@.len() != "STP"@.len());
            }
            assert(kind_named("STP_LMT"@) == Some(OrderKind::StopLimit)) by {
                reveal_strlit("STP_LMT");
                reveal_strlit("Market");
                reveal_strlit("MKT");
                reveal_strlit("Limit");
                reveal_strlit("LMT");
                reveal_strlit("Stop");
                reveal_strlit("STP");
                reveal_strlit("StopLimit");
                assert("STP_LMT"@.len() != "Market"@.len());
                assert("STP_LMT"@.len() != "MKT"@.len());
                assert("STP_LMT"@.len() != "Limit"@.len());
                assert("STP_LMT"@.len() != "LMT"@.len());
                assert("STP_LMT"@.len() != "Stop"@.len());
                assert("STP_LMT"@.len() != "STP"@.len());
                assert("STP_LMT"@.len() != "StopLimit"@.len());
            }
        },
        OrderKind::TrailingStop => {
            assert(kind_named("TrailingStop"@) == Some(OrderKind::TrailingStop)) by {
                reveal_strlit("TrailingStop");
                reveal_strlit("Market");
                reveal_strlit("MKT");
                reveal_strlit("Limit");
                reveal_strlit("LMT");
                reveal_strlit("Stop");
                reveal_strlit("STP");
                reveal_strlit("StopLimit");
                reveal_strlit("STP_LMT");
                assert("TrailingStop"@.len() != "Market"@.len());
                assert("TrailingStop"@.len() != "MKT"@.len());
                assert("TrailingStop"@.len() != "Limit"@.len());
                assert("TrailingStop"@.len() != "LMT"@.len());
                assert("TrailingStop"@.len() != "Stop"@.len());
                assert("TrailingStop"@.len() != "STP"@.len());
                assert("TrailingStop"@.len() != "StopLimit"@.len());
                assert("TrailingStop"@.len() != "STP_LMT"@.len());
            }
            assert(kind_named("TRAIL"@) == Some(OrderKind::TrailingStop)) by {
                reveal_strlit("TRAIL");
                reveal_strlit("Market");
                reveal_strlit("MKT");
                reveal_strlit("Limit");
                reveal_strlit("LMT");
                reveal_strlit("Stop");
                reveal_strlit("STP");
                reveal_strlit("StopLimit");
                reveal_strlit("STP_LMT");
                reveal_strlit("TrailingStop");
                assert("TRAIL"@.len() != "Market"@.len());
                assert("TRAIL"@.len() != "MKT"@.len());
                assert("TRAIL"@[0] != "Limit"@[0]);
                assert("TRAIL"@.len() != "LMT"@.len());
                assert("TRAIL"@.len() != "Stop"@.len());
                assert("TRAIL"@.len() != "STP"@.len());
                assert("TRAIL"@.len() != "StopLimit"@.len());
                assert("TRAIL"@.len() != "STP_LMT"@.len());
                assert("TRAIL"@.len() != "TrailingStop"@.len());
            }
        },
    }
}

/// The texts that name an order side: its name, upper-cased and lower-cased.
pub open spec fn action_names(v: OrderAction) -> Seq<Seq<char>> {
    match v {
        OrderAction::Buy => seq!["Buy"@, "BUY"@, "buy"@],
        OrderAction::Sell => seq!["Sell"@, "SELL"@, "sell"@],
    }
}

/// An order-side text is read as the side it names, and only the side's own
/// names read as that side.
pub proof fn lemma_action_read_by_name(v: OrderAction, s: Seq<char>)
    ensures
        forall|i: int| 0 <= i < action_names(v).len() ==> action_named(#[trigger] action_names(v)[i]) == Some(v),
        action_named(s) == Some(v) ==> action_names(v).contains(s),
{
    match v {
        OrderAction::Buy => {
            assert(action_named("Buy"@) == Some(OrderAction::Buy)) by {
                reveal_strlit("Buy");
            }
            assert(action_names(OrderAction::Buy)[0] == "Buy"@);
            assert(action_named("BUY"@) == Some(OrderAction::Buy)) by {
                reveal_strlit("BUY");
                reveal_strlit("Buy");
            }
            assert(action_names(OrderAction::Buy)[1] == "BUY"@);
            assert(action_named("buy"@) == Some(OrderAction::Buy)) by {
                reveal_strlit("buy");
                reveal_strlit("Buy");
            }
            assert(action_names(OrderAction::Buy)[2] == "buy"@);
            if action_named(s) == Some(OrderAction::Buy) {
                if s == "Buy"@ {
                    assert(action_names(OrderAction::Buy)[0] == s);
                }
                if s == "BUY"@ {
                    assert(action_names(OrderAction::Buy)[1] == s);
                }
                if s == "buy"@ {
                    assert(action_names(OrderAction::Buy)[2] == s);
                }
            }
        },
        OrderAction::Sell => {
            assert(action_named("Sell"@) == Some(OrderAction::Sell)) by {
                reveal_strlit("Sell");
                reveal_strlit("Buy");
                reveal_strlit("BUY");
                reveal_strlit("buy");
                assert("Sell"@.len() != "Buy"@.len());
                assert("Sell"@.len() != "BUY"@.len());
                assert("Sell"@.len() != "buy"@.len());
            }
            assert(action_names(OrderAction::Sell)[0] == "Sell"@);
            assert(action_named("SELL"@) == Some(OrderAction::Sell)) by {
                reveal_strlit("SELL");
                reveal_strlit("Buy");
                reveal_strlit("BUY");
                reveal_strlit("buy");
                reveal_strlit("Sell");
                assert("SELL"@.len() != "Buy"@.len());
                assert("SELL"@.len() != "BUY"@.len());
                assert("SELL"@.len() != "buy"@.len());
            }
            assert(action_names(OrderAction::Sell)[1] == "SELL"@);
            assert(action_named("sell"@) == Some(OrderAction::Sell)) by {
                reveal_strlit("sell");
                reveal_strlit("Buy");
                reveal_strlit("BUY");
                reveal_strlit("buy");
                reveal_strlit("Sell");
                assert("sell"@.len() != "Buy"@.len());
                assert("sell"@.len() != "BUY"@.len());
                assert("sell"@.len() != "buy"@.len());
            }
            assert(action_names(OrderAction::Sell)[2] == "sell"@);
            if action_named(s) == Some(OrderAction::Sell) {
                if s == "Sell"@ {
                    assert(action_names(OrderAction::Sell)[0] == s);
                }
                if s == "SELL"@ {
                    assert(action_names(OrderAction::Sell)[1] == s);
                }
                if s == "sell"@ {
                    assert(action_names(OrderAction::Sell)[2] == s);
                }
            }
        },
    }
}

/// The texts that name a time in force: its variant name and the broker's
/// upper-case code.
pub open spec fn tif_names(v: TimeInForce) -> Seq<Seq<char>> {
    match v {
        TimeInForce::Day => seq!["Day"@, "DAY"@],
        TimeInForce::Gtc => seq!["Gtc"@, "GTC"@],
        TimeInForce::Ioc => seq!["Ioc"@, "IOC"@],
        TimeInForce::Gtd => seq!["Gtd"@, "GTD"@],
        TimeInForce::Opg => seq!["Opg"@, "OPG"@],
    }
}

/// A time-in-force text is read as the one it names, and only its own names
/// read as it.
pub proof fn lemma_tif_read_by_name(v: TimeInForce, s: Seq<char>)
    ensures
        forall|i: int| 0 <= i < tif_names(v).len() ==> tif_named(#[trigger] tif_names(v)[i]) == Some(v),
        tif_named(s) == Some(v) ==> tif_names(v).contains(s),
{
    match v {
        TimeInForce::Day => {
            assert(tif_named("Day"@) == Some(TimeInForce::Day)) by {
                reveal_strlit("Day");
            }
            assert(tif_names(TimeInForce::Day)[0] == "Day"@);
            assert(tif_named("DAY"@) == Some(TimeInForce::Day)) by {
                reveal_strlit("DAY");
                reveal_strlit("Day");
            }
            assert(tif_names(TimeInForce::Day)[1] == "DAY"@);
            if tif_named(s) == Some(TimeInForce::Day) {
                if s == "Day"@ {
                    assert(tif_names(TimeInForce::Day)[0] == s);
                }
                if s == "DAY"@ {
                    assert(tif_names(TimeInForce::Day)[1] == s);
                }
            }
        },
        TimeInForce::Gtc => {
            assert(tif_named("Gtc"@) == Some(TimeInForce::Gtc)) by {
                reveal_strlit("Gtc");
                reveal_strlit("Day");
                reveal_strlit("DAY");
                assert("Gtc"@[0] != "Day"@[0]);
                assert("Gtc"@[0] != "DAY"@[0]);
            }
            assert(tif_names(TimeInForce::Gtc)[0] == "Gtc"@);
            assert(tif_named("GTC"@) == Some(TimeInForce::Gtc)) by {
                reveal_strlit("GTC");
                reveal_strlit("Day");
                reveal_strlit("DAY");
                reveal_strlit("Gtc");
                assert("GTC"@[0] != "Day"@[0]);
                assert("GTC"@[0] != "DAY"@[0]);
            }
            assert(tif_names(TimeInForce::Gtc)[1] == "GTC"@);
            if tif_named(s) == Some(TimeInForce::Gtc) {
                if s == "Gtc"@ {
                    assert(tif_names(TimeInForce::Gtc)[0] == s);
                }
                if s == "GTC"@ {
                    assert(tif_names(TimeInForce::Gtc)[1] == s);
                }
            }
        },
        TimeInForce::Ioc => {
            assert(tif_named("Ioc"@) == Some(TimeInForce::Ioc)) by {
                reveal_strlit("Ioc");
                reveal_strlit("Day");
                reveal_strlit("DAY");
                reveal_strlit("Gtc");
                reveal_strlit("GTC");
                assert("Ioc"@[0] != "Day"@[0]);
                assert("Ioc"@[0] != "DAY"@[0]);
                assert("Ioc"@[0] != "Gtc"@[0]);
                assert("Ioc"@[0] != "GTC"@[0]);
            }
            assert(tif_names(TimeInForce::Ioc)[0] == "Ioc"@);
            assert(tif_named("IOC"@) == Some(TimeInForce::Ioc)) by {
                reveal_strlit("IOC");
                reveal_strlit("Day");
                reveal_strlit("DAY");
                reveal_strlit("Gtc");
                reveal_strlit("GTC");
                reveal_strlit("Ioc");
                assert("IOC"@[0] != "Day"@[0]);
                assert("IOC"@[0] != "DAY"@[0]);
                assert("IOC"@[0] != "Gtc"@[0]);
                assert("IOC"@[0] != "GTC"@[0]);
            }
            assert(tif_names(TimeInForce::Ioc)[1] == "IOC"@);
            if tif_named(s) == Some(TimeInForce::Ioc) {
                if s == "Ioc"@ {
                    assert(tif_names(TimeInForce::Ioc)[0] == s);
                }
                if s == "IOC"@ {
                    assert(tif_names(TimeInForce::Ioc)[1] == s);
                }
            }
        },
        TimeInForce::Gtd => {
            assert(tif_named("Gtd"@) == Some(TimeInForce::Gtd)) by {
                reveal_strlit("Gtd");
                reveal_strlit("Day");
                reveal_strlit("DAY");
                reveal_strlit("Gtc");
                reveal_strlit("GTC");
                reveal_strlit("Ioc");
                reveal_strlit("IOC");
                assert("Gtd"@[0] != "Day"@[0]);
                assert("Gtd"@[0] != "DAY"@[0]);
                assert("Gtd"@[2] != "Gtc"@[2]);
                assert("Gtd"@[1] != "GTC"@[1]);
                assert("Gtd"@[0] != "Ioc"@[0]);
                assert("Gtd"@[0] != "IOC"@[0]);
            }
            assert(tif_names(TimeInForce::Gtd)[0] == "Gtd"@);
            assert(tif_named("GTD"@) == Some(TimeInForce::Gtd)) by {
                reveal_strlit("GTD");
                reveal_strlit("Day");
                reveal_strlit("DAY");
                reveal_strlit("Gtc");
                reveal_strlit("GTC");
                reveal_strlit("Ioc");
                reveal_strlit("IOC");
                reveal_strlit("Gtd");
                assert("GTD"@[0] != "Day"@[0]);
                assert("GTD"@[0] != "DAY"@[0]);
                assert("GTD"@[1] != "Gtc"@[1]);
                assert("GTD"@[2] != "GTC"@[2]);
                assert("GTD"@[0] != "Ioc"@[0]);
                assert("GTD"@[0] != "IOC"@[0]);
            }
            assert(tif_names(TimeInForce::Gtd)[1] == "GTD"@);
            if tif_named(s) == Some(TimeInForce::Gtd) {
                if s == "Gtd"@ {
                    assert(tif_names(TimeInForce::Gtd)[0] == s);
                }
                if s == "GTD"@ {
                    assert(tif_names(TimeInForce::Gtd)[1] == s);
                }
            }
        },
        TimeInForce::Opg => {
            assert(tif_named("Opg"@) == Some(TimeInForce::Opg)) by {
                reveal_strlit("Opg");
                reveal_strlit("Day");
                reveal_strlit("DAY");
                reveal_strlit("Gtc");
                reveal_strlit("GTC");
                reveal_strlit("Ioc");
                reveal_strlit("IOC");
                reveal_strlit("Gtd");
                reveal_strlit("GTD");
                assert("Opg"@[0] != "Day"@[0]);
                assert("Opg"@[0] != "DAY"@[0]);
                assert("Opg"@[0] != "Gtc"@[0]);
                assert("Opg"@[0] != "GTC"@[0]);
                assert("Opg"@[0] != "Ioc"@[0]);
                assert("Opg"@[0] != "IOC"@[0]);
                assert("Opg"@[0] != "Gtd"@[0]);
                assert("Opg"@[0] != "GTD"@[0]);
            }
            assert(tif_names(TimeInForce::Opg)[0] == "Opg"@);
            assert(tif_named("OPG"@) == Some(TimeInForce::Opg)) by {
                reveal_strlit("OPG");
                reveal_strlit("Day");
                reveal_strlit("DAY");
                reveal_strlit("Gtc");
                reveal_strlit("GTC");
                reveal_strlit("Ioc");
                reveal_strlit("IOC");
                reveal_strlit("Gtd");
                reveal_strlit("GTD");
                reveal_strlit("Opg");
                assert("OPG"@[0] != "Day"@[0]);
                assert("OPG"@[0] != "DAY"@[0]);
                assert("OPG"@[0] != "Gtc"@[0]);
                assert("OPG"@[0] != "GTC"@[0]);
                assert("OPG"@[0] != "Ioc"@[0]);
                assert("OPG"@[0] != "IOC"@[0]);
                assert("OPG"@[0] != "Gtd"@[0]);
                assert("OPG"@[0] != "GTD"@[0]);
            }
            assert(tif_names(TimeInForce::Opg)[1] == "OPG"@);
            if tif_named(s) == Some(TimeInForce::Opg) {
                if s == "Opg"@ {
                    assert(tif_names(TimeInForce::Opg)[0] == s);
                }
                if s == "OPG"@ {
                    assert(tif_names(TimeInForce::Opg)[1] == s);
                }
            }
        },
    }
}

} // verus!
