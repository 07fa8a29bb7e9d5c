//! Parser for `inject_ticker_msg` payloads.
//!
//! The wire format is internally tagged JSON: an object whose `type`
//! member names the ticker-message variant, beside that variant's
//! fields.
//!
//! ```json
//! {"type": "SetLegPrice", "role": "Entry", "price": 184.5}
//! {"type": "SetBracketMode", "side": "Buy"}
//! {"type": "CancelBracket"}
//! ```
//!
//! Variants whose payload is a record are read field by field in
//! declaration order; the first field that is absent or of the wrong
//! shape is reported as a shape mismatch. The wording of those reports
//! and that declaration order are this library's own: they are not the
//! messages, nor the order of checks, of a serde-derived deserializer. Scalar variants read one member and report it as a
//! missing field when it is absent or of the wrong JSON type. Variants
//! whose payload has no wire form (levels, hydration) are refused.
//! Prices and quantities travel as `f64` bit patterns.

use vstd::prelude::*;
use crate::blotter::LegRole;
use crate::broker_inject::{parse_uuid, uuid_parse};
use crate::devloop::TickerMsg;
use crate::json::{
    as_bool, as_f64_bits, as_str, as_u64, bool_of, f64_of, get_member, is_present, member,
    opt_value, present, str_of, u64_of, JsonValue,
};
use crate::order_panel::{EntryType, OrderSide};
use crate::text::{push_str, str_eq};

verus! {

/// A ticker message read from a payload. Prices, quantities and camera
/// bounds are `f64` bit patterns; the editing field is kept by the name
/// the payload gives it.
#[derive(Debug)]
pub enum InjectedTickerMsg {
    SetBracketMode(Option<OrderSide>),
    EnsureDraftBracket { side: OrderSide, entry_type: EntryType },
    CancelBracket,
    SaveBracket,
    DeleteBracket,
    RecallBracket,
    SetLegPrice { role: LegRole, price: u64 },
    SetTpEnabled(bool),
    SetSlEnabled(bool),
    SetQuantity(u64),
    SetSide(OrderSide),
    SetEntryType(EntryType),
    DragLeg { role: LegRole, new_price: u64 },
    BeginEdit(String),
    UpdateEditValue(String),
    CommitEdit { field: String, value: String },
    CancelEdit,
    MaybeSnap { current_price: u64, gatr_abs: Option<u64> },
    TogglePin,
    UndoSnap,
    UpdateMarketData { last_price: u64, gatr_abs: Option<u64> },
    RemoveLevel(usize),
    ToggleLevelLock(usize),
    SubmitOrder,
    OrderPending { order_id: u128 },
    OrderFilled { filled_qty: u64, avg_price: u64 },
    OrderPartialFill { filled_qty: u64 },
    OrderRejected { reason: String },
    OrderCancelled,
    SaveCameraState {
        time_start: u64,
        time_end: u64,
        price_low: u64,
        price_high: u64,
        was_at_live_edge: bool,
    },
}

/// Mathematical value of an injected ticker message.
pub enum InjectedTickerMsgView {
    SetBracketMode(Option<OrderSide>),
    EnsureDraftBracket { side: OrderSide, entry_type: EntryType },
    CancelBracket,
    SaveBracket,
    DeleteBracket,
    RecallBracket,
    SetLegPrice { role: LegRole, price: u64 },
    SetTpEnabled(bool),
    SetSlEnabled(bool),
    SetQuantity(u64),
    SetSide(OrderSide),
    SetEntryType(EntryType),
    DragLeg { role: LegRole, new_price: u64 },
    BeginEdit(Seq<char>),
    UpdateEditValue(Seq<char>),
    CommitEdit { field: Seq<char>, value: Seq<char> },
    CancelEdit,
    MaybeSnap { current_price: u64, gatr_abs: Option<u64> },
    TogglePin,
    UndoSnap,
    UpdateMarketData { last_price: u64, gatr_abs: Option<u64> },
    RemoveLevel(usize),
    ToggleLevelLock(usize),
    SubmitOrder,
    OrderPending { order_id: u128 },
    OrderFilled { filled_qty: u64, avg_price: u64 },
    OrderPartialFill { filled_qty: u64 },
    OrderRejected { reason: Seq<char> },
    OrderCancelled,
    SaveCameraState {
        time_start: u64,
        time_end: u64,
        price_low: u64,
        price_high: u64,
        was_at_live_edge: bool,
    },
}

impl View for InjectedTickerMsg {
    type V = InjectedTickerMsgView;

    open spec fn view(&self) -> InjectedTickerMsgView {
        match self {
            InjectedTickerMsg::SetBracketMode(s) => InjectedTickerMsgView::SetBracketMode(*s),
            InjectedTickerMsg::EnsureDraftBracket { side, entry_type } => {
                InjectedTickerMsgView::EnsureDraftBracket { side: *side, entry_type: *entry_type }
            },
            InjectedTickerMsg::CancelBracket => InjectedTickerMsgView::CancelBracket,
            InjectedTickerMsg::SaveBracket => InjectedTickerMsgView::SaveBracket,
            InjectedTickerMsg::DeleteBracket => InjectedTickerMsgView::DeleteBracket,
            InjectedTickerMsg::RecallBracket => InjectedTickerMsgView::RecallBracket,
            InjectedTickerMsg::SetLegPrice { role, price } => {
                InjectedTickerMsgView::SetLegPrice { role: *role, price: *price }
            },
            InjectedTickerMsg::SetTpEnabled(b) => InjectedTickerMsgView::SetTpEnabled(*b),
            InjectedTickerMsg::SetSlEnabled(b) => InjectedTickerMsgView::SetSlEnabled(*b),
            InjectedTickerMsg::SetQuantity(q) => InjectedTickerMsgView::SetQuantity(*q),
            InjectedTickerMsg::SetSide(s) => InjectedTickerMsgView::SetSide(*s),
            InjectedTickerMsg::SetEntryType(e) => InjectedTickerMsgView::SetEntryType(*e),
            InjectedTickerMsg::DragLeg { role, new_price } => {
                InjectedTickerMsgView::DragLeg { role: *role, new_price: *new_price }
            },
            InjectedTickerMsg::BeginEdit(f) => InjectedTickerMsgView::BeginEdit(f@),
            InjectedTickerMsg::UpdateEditValue(v) => InjectedTickerMsgView::UpdateEditValue(v@),
            InjectedTickerMsg::CommitEdit { field, value } => {
                InjectedTickerMsgView::CommitEdit { field: field@, value: value@ }
            },
            InjectedTickerMsg::CancelEdit => InjectedTickerMsgView::CancelEdit,
            InjectedTickerMsg::MaybeSnap { current_price, gatr_abs } => {
                InjectedTickerMsgView::MaybeSnap {
                    current_price: *current_price,
                    gatr_abs: *gatr_abs,
                }
            },
            InjectedTickerMsg::TogglePin => InjectedTickerMsgView::TogglePin,
            InjectedTickerMsg::UndoSnap => InjectedTickerMsgView::UndoSnap,
            InjectedTickerMsg::UpdateMarketData { last_price, gatr_abs } => {
                InjectedTickerMsgView::UpdateMarketData {
                    last_price: *last_price,
                    gatr_abs: *gatr_abs,
                }
            },
            InjectedTickerMsg::RemoveLevel(i) => InjectedTickerMsgView::RemoveLevel(*i),
            InjectedTickerMsg::ToggleLevelLock(i) => InjectedTickerMsgView::ToggleLevelLock(*i),
            InjectedTickerMsg::SubmitOrder => InjectedTickerMsgView::SubmitOrder,
            InjectedTickerMsg::OrderPending { order_id } => {
                InjectedTickerMsgView::OrderPending { order_id: *order_id }
            },
            InjectedTickerMsg::OrderFilled { filled_qty, avg_price } => {
                InjectedTickerMsgView::OrderFilled { filled_qty: *filled_qty, avg_price: *avg_price }
            },
            InjectedTickerMsg::OrderPartialFill { filled_qty } => {
                InjectedTickerMsgView::OrderPartialFill { filled_qty: *filled_qty }
            },
            InjectedTickerMsg::OrderRejected { reason } => {
                InjectedTickerMsgView::OrderRejected { reason: reason@ }
            },
            InjectedTickerMsg::OrderCancelled => InjectedTickerMsgView::OrderCancelled,
            InjectedTickerMsg::SaveCameraState {
                time_start,
                time_end,
                price_low,
                price_high,
                was_at_live_edge,
            } => InjectedTickerMsgView::SaveCameraState {
                time_start: *time_start,
                time_end: *time_end,
                price_low: *price_low,
                price_high: *price_high,
                was_at_live_edge: *was_at_live_edge,
            },
        }
    }
}

/// Why a payload could not be turned into a ticker message.
#[derive(Debug)]
pub enum TickerInjectError {
    /// The `type` member names no ticker-message variant.
    UnknownVariant(String),
    /// The variant exists but has no wire form.
    NotSupported(&'static str),
    /// The payload's fields do not have the variant's shape. The text is
    /// one of `missing_field_text`, `invalid_type_text` and
    /// `unknown_name_text`, worded by this library.
    Serde(String),
    /// The payload is not an object with a string `type` member.
    MissingType,
    /// A required member is absent or has the wrong JSON type.
    MissingField(&'static str),
}

/// Mathematical value of a ticker injection error.
pub enum TickerInjectErrorView {
    UnknownVariant(Seq<char>),
    NotSupported(Seq<char>),
    Serde(Seq<char>),
    MissingType,
    MissingField(Seq<char>),
}

impl View for TickerInjectError {
    type V = TickerInjectErrorView;

    open spec fn view(&self) -> TickerInjectErrorView {
        match self {
            TickerInjectError::UnknownVariant(s) => TickerInjectErrorView::UnknownVariant(s@),
            TickerInjectError::NotSupported(s) => TickerInjectErrorView::NotSupported(s@),
            TickerInjectError::Serde(s) => TickerInjectErrorView::Serde(s@),
            TickerInjectError::MissingType => TickerInjectErrorView::MissingType,
            TickerInjectError::MissingField(f) => TickerInjectErrorView::MissingField(f@),
        }
    }
}

/// The text a ticker injection error displays.
pub open spec fn ticker_inject_error_text(e: TickerInjectErrorView) -> Seq<char> {
    match e {
        TickerInjectErrorView::UnknownVariant(s) => "unknown TickerMsg variant: "@ + s,
        TickerInjectErrorView::NotSupported(s) => "variant not supported for injection: "@ + s
            + " (use click/drag or load_fixture)"@,
        TickerInjectErrorView::Serde(s) => "payload shape mismatch: "@ + s,
        TickerInjectErrorView::MissingType => "missing `type` field on inject_ticker_msg payload"@,
        TickerInjectErrorView::MissingField(f) => "missing required field: "@ + f,
    }
}

impl TickerInjectError {
    /// The text the error displays.
    pub fn message(&self) -> (r: String)
        ensures
            r@ == ticker_inject_error_text(self@),
    {
        match self {
            TickerInjectError::UnknownVariant(s) => {
                let mut m = "unknown TickerMsg variant: ".to_owned();
                push_str(&mut m, s.as_str());
                m
            },
            TickerInjectError::NotSupported(s) => {
                let mut m = "variant not supported for injection: ".to_owned();
                push_str(&mut m, s);
                push_str(&mut m, " (use click/drag or load_fixture)");
                m
            },
            TickerInjectError::Serde(s) => {
                let mut m = "payload shape mismatch: ".to_owned();
                push_str(&mut m, s.as_str());
                m
            },
            TickerInjectError::MissingType => {
                "missing `type` field on inject_ticker_msg payload".to_owned()
            },
            TickerInjectError::MissingField(f) => {
                let mut m = "missing required field: ".to_owned();
                push_str(&mut m, f);
                m
            },
        }
    }
}

type Members = Seq<(String, JsonValue)>;

type TErr = TickerInjectErrorView;

/// Shape-mismatch text for a record field that is absent. Like the two
/// texts below, its wording is this library's own.
pub open spec fn missing_field_text(f: Seq<char>) -> Seq<char> {
    "missing field `"@ + f + "`"@
}

/// Shape-mismatch text for a field whose JSON type is wrong.
pub open spec fn invalid_type_text(f: Seq<char>) -> Seq<char> {
    "invalid type for `"@ + f + "`"@
}

/// Shape-mismatch text for a field naming no variant of its enum.
pub open spec fn unknown_name_text(f: Seq<char>, s: Seq<char>) -> Seq<char> {
    "unknown variant `"@ + s + "` for `"@ + f + "`"@
}

/// The order side a name denotes.
pub open spec fn side_named(s: Seq<char>) -> Option<OrderSide> {
    if s == "Buy"@ {
        Some(OrderSide::Buy)
    } else if s == "Sell"@ {
        Some(OrderSide::Sell)
    } else {
        None
    }
}

/// The bracket leg a name denotes.
pub open spec fn role_named(s: Seq<char>) -> Option<LegRole> {
    if s == "Entry"@ {
        Some(LegRole::Entry)
    } else if s == "StopLoss"@ {
        Some(LegRole::StopLoss)
    } else if s == "TakeProfit"@ {
        Some(LegRole::TakeProfit)
    } else {
        None
    }
}

/// The entry type a name denotes.
pub open spec fn entry_type_named(s: Seq<char>) -> Option<EntryType> {
    if s == "Market"@ {
        Some(EntryType::Market)
    } else if s == "Limit"@ {
        Some(EntryType::Limit)
    } else if s == "Stop"@ {
        Some(EntryType::Stop)
    } else if s == "StopLimit"@ {
        Some(EntryType::StopLimit)
    } else {
        None
    }
}

/// A present value read as an order side: a string naming a side.
pub open spec fn side_value(f: Seq<char>, v: Option<JsonValue>) -> Result<OrderSide, TErr> {
    match str_of(v) {
        None => Err(TErr::Serde(invalid_type_text(f))),
        Some(s) => match side_named(s) {
            Some(x) => Ok(x),
            None => Err(TErr::Serde(unknown_name_text(f, s))),
        },
    }
}

/// A present value read as an entry type.
pub open spec fn entry_type_value(f: Seq<char>, v: Option<JsonValue>) -> Result<EntryType, TErr> {
    match str_of(v) {
        None => Err(TErr::Serde(invalid_type_text(f))),
        Some(s) => match entry_type_named(s) {
            Some(x) => Ok(x),
            None => Err(TErr::Serde(unknown_name_text(f, s))),
        },
    }
}

/// A present value read as an editing-field name.
pub open spec fn field_name_value(f: Seq<char>, v: Option<JsonValue>) -> Result<Seq<char>, TErr> {
    match str_of(v) {
        None => Err(TErr::Serde(invalid_type_text(f))),
        Some(s) => Ok(s),
    }
}

/// Record field `f` read as an order side.
pub open spec fn rec_side(o: Members, f: Seq<char>) -> Result<OrderSide, TErr> {
    if member(o, f) is None {
        Err(TErr::Serde(missing_field_text(f)))
    } else {
        side_value(f, member(o, f))
    }
}

/// Record field `f` read as a bracket leg.
pub open spec fn rec_role(o: Members, f: Seq<char>) -> Result<LegRole, TErr> {
    if member(o, f) is None {
        Err(TErr::Serde(missing_field_text(f)))
    } else {
        match str_of(member(o, f)) {
            None => Err(TErr::Serde(invalid_type_text(f))),
            Some(s) => match role_named(s) {
                Some(x) => Ok(x),
                None => Err(TErr::Serde(unknown_name_text(f, s))),
            },
        }
    }
}

/// Record field `f` read as an entry type.
pub open spec fn rec_entry_type(o: Members, f: Seq<char>) -> Result<EntryType, TErr> {
    if member(o, f) is None {
        Err(TErr::Serde(missing_field_text(f)))
    } else {
        entry_type_value(f, member(o, f))
    }
}

/// Record field `f` read as an editing-field name.
pub open spec fn rec_name(o: Members, f: Seq<char>) -> Result<Seq<char>, TErr> {
    if member(o, f) is None {
        Err(TErr::Serde(missing_field_text(f)))
    } else {
        field_name_value(f, member(o, f))
    }
}

/// Record field `f` read as a string.
pub open spec fn rec_string(o: Members, f: Seq<char>) -> Result<Seq<char>, TErr> {
    if member(o, f) is None {
        Err(TErr::Serde(missing_field_text(f)))
    } else {
        match str_of(member(o, f)) {
            None => Err(TErr::Serde(invalid_type_text(f))),
            Some(s) => Ok(s),
        }
    }
}

/// Record field `f` read as an `f64`.
pub open spec fn rec_f64(o: Members, f: Seq<char>) -> Result<u64, TErr> {
    if member(o, f) is None {
        Err(TErr::Serde(missing_field_text(f)))
    } else {
        match f64_of(member(o, f)) {
            None => Err(TErr::Serde(invalid_type_text(f))),
            Some(x) => Ok(x),
        }
    }
}

/// Optional record field `f` read as an `f64`: absent or `null` is `None`.
pub open spec fn rec_opt_f64(o: Members, f: Seq<char>) -> Result<Option<u64>, TErr> {
    if !present(member(o, f)) {
        Ok(None)
    } else {
        match f64_of(member(o, f)) {
            None => Err(TErr::Serde(invalid_type_text(f))),
            Some(x) => Ok(Some(x)),
        }
    }
}

/// Record field `f` read as a boolean.
pub open spec fn rec_bool(o: Members, f: Seq<char>) -> Result<bool, TErr> {
    if member(o, f) is None {
        Err(TErr::Serde(missing_field_text(f)))
    } else {
        match bool_of(member(o, f)) {
            None => Err(TErr::Serde(invalid_type_text(f))),
            Some(b) => Ok(b),
        }
    }
}

/// A required boolean member.
pub open spec fn req_bool(o: Members, f: Seq<char>) -> Result<bool, TErr> {
    match bool_of(member(o, f)) {
        Some(b) => Ok(b),
        None => Err(TErr::MissingField(f)),
    }
}

/// A required number member, read as `f64`.
pub open spec fn req_f64(o: Members, f: Seq<char>) -> Result<u64, TErr> {
    match f64_of(member(o, f)) {
        Some(x) => Ok(x),
        None => Err(TErr::MissingField(f)),
    }
}

/// A required non-negative integer member, as a `usize`.
pub open spec fn req_usize(o: Members, f: Seq<char>) -> Result<usize, TErr> {
    match u64_of(member(o, f)) {
        Some(x) => Ok(x as usize),
        None => Err(TErr::MissingField(f)),
    }
}

/// A required string member.
pub open spec fn req_string(o: Members, f: Seq<char>) -> Result<Seq<char>, TErr> {
    match str_of(member(o, f)) {
        Some(s) => Ok(s),
        None => Err(TErr::MissingField(f)),
    }
}

/// A required member read as an order side.
pub open spec fn req_side(o: Members, f: Seq<char>) -> Result<OrderSide, TErr> {
    if member(o, f) is None {
        Err(TErr::MissingField(f))
    } else {
        side_value(f, member(o, f))
    }
}

/// A required member read as an entry type.
pub open spec fn req_entry_type(o: Members, f: Seq<char>) -> Result<EntryType, TErr> {
    if member(o, f) is None {
        Err(TErr::MissingField(f))
    } else {
        entry_type_value(f, member(o, f))
    }
}

/// A required member read as an editing-field name.
pub open spec fn req_name(o: Members, f: Seq<char>) -> Result<Seq<char>, TErr> {
    if member(o, f) is None {
        Err(TErr::MissingField(f))
    } else {
        field_name_value(f, member(o, f))
    }
}

/// The bracket side set by `SetBracketMode`: absent or `null` clears it.
pub open spec fn bracket_mode_side(o: Members) -> Result<Option<OrderSide>, TErr> {
    if present(member(o, "side"@)) {
        match side_value("side"@, member(o, "side"@)) {
            Ok(s) => Ok(Some(s)),
            Err(e) => Err(e),
        }
    } else {
        Ok(None)
    }
}

/// The order id of `OrderPending`.
pub open spec fn pending_order_id(o: Members) -> Result<u128, TErr> {
    match req_string(o, "order_id"@) {
        Err(e) => Err(e),
        Ok(s) => match uuid_parse(s) {
            Ok(id) => Ok(id),
            Err(m) => Err(TErr::Serde("uuid: "@ + m)),
        },
    }
}

/// Whether an executable result agrees with its specification.
pub open spec fn tagrees<T>(r: Result<T, TickerInjectError>, s: Result<T, TErr>) -> bool {
    match r {
        Ok(x) => s == Ok::<T, TErr>(x),
        Err(e) => s == Err::<T, TErr>(e@),
    }
}

/// Whether an executable text result agrees with its specification.
pub open spec fn tagrees_text(r: Result<String, TickerInjectError>, s: Result<Seq<char>, TErr>) -> bool {
    match r {
        Ok(x) => s == Ok::<Seq<char>, TErr>(x@),
        Err(e) => s == Err::<Seq<char>, TErr>(e@),
    }
}

fn missing_field(f: &str) -> (r: TickerInjectError)
    ensures
        r@ == TErr::Serde(missing_field_text(f@)),
{
    let mut m = "missing field `".to_owned();
    push_str(&mut m, f);
    push_str(&mut m, "`");
    TickerInjectError::Serde(m)
}

fn invalid_type(f: &str) -> (r: TickerInjectError)
    ensures
        r@ == TErr::Serde(invalid_type_text(f@)),
{
    let mut m = "invalid type for `".to_owned();
    push_str(&mut m, f);
    push_str(&mut m, "`");
    TickerInjectError::Serde(m)
}

fn unknown_name(f: &str, s: &str) -> (r: TickerInjectError)
    ensures
        r@ == TErr::Serde(unknown_name_text(f@, s@)),
{
    let mut m = "unknown variant `".to_owned();
    push_str(&mut m, s);
    push_str(&mut m, "` for `");
    push_str(&mut m, f);
    push_str(&mut m, "`");
    TickerInjectError::Serde(m)
}

fn side_from(s: &str) -> (r: Option<OrderSide>)
    ensures
        r == side_named(s@),
{
    if str_eq(s, "Buy") {
        Some(OrderSide::Buy)
    } else if str_eq(s, "Sell") {
        Some(OrderSide::Sell)
    } else {
        None
    }
}

fn role_from(s: &str) -> (r: Option<LegRole>)
    ensures
        r == role_named(s@),
{
    if str_eq(s, "Entry") {
        Some(LegRole::Entry)
    } else if str_eq(s, "StopLoss") {
        Some(LegRole::StopLoss)
    } else if str_eq(s, "TakeProfit") {
        Some(LegRole::TakeProfit)
    } else {
        None
    }
}

fn entry_type_from(s: &str) -> (r: Option<EntryType>)
    ensures
        r == entry_type_named(s@),
{
    if str_eq(s, "Market") {
        Some(EntryType::Market)
    } else if str_eq(s, "Limit") {
        Some(EntryType::Limit)
    } else if str_eq(s, "Stop") {
        Some(EntryType::Stop)
    } else if str_eq(s, "StopLimit") {
        Some(EntryType::StopLimit)
    } else {
        None
    }
}

fn read_side(f: &str, v: Option<&JsonValue>) -> (r: Result<OrderSide, TickerInjectError>)
    ensures
        tagrees(r, side_value(f@, opt_value(v))),
{
    match as_str(v) {
        None => Err(invalid_type(f)),
        Some(s) => match side_from(s) {
            Some(x) => Ok(x),
            None => Err(unknown_name(f, s)),
        },
    }
}

fn read_entry_type(f: &str, v: Option<&JsonValue>) -> (r: Result<EntryType, TickerInjectError>)
    ensures
        tagrees(r, entry_type_value(f@, opt_value(v))),
{
    match as_str(v) {
        None => Err(invalid_type(f)),
        Some(s) => match entry_type_from(s) {
            Some(x) => Ok(x),
            None => Err(unknown_name(f, s)),
        },
    }
}

fn read_name(f: &str, v: Option<&JsonValue>) -> (r: Result<String, TickerInjectError>)
    ensures
        tagrees_text(r, field_name_value(f@, opt_value(v))),
{
    match as_str(v) {
        None => Err(invalid_type(f)),
        Some(s) => Ok(s.to_owned()),
    }
}

fn record_side(obj: &Vec<(String, JsonValue)>, f: &str) -> (r: Result<OrderSide, TickerInjectError>)
    ensures
        tagrees(r, rec_side(obj@, f@)),
{
    let v = get_member(obj, f);
    if v.is_none() {
        return Err(missing_field(f));
    }
    read_side(f, v)
}

fn record_role(obj: &Vec<(String, JsonValue)>, f: &str) -> (r: Result<LegRole, TickerInjectError>)
    ensures
        tagrees(r, rec_role(obj@, f@)),
{
    let v = get_member(obj, f);
    if v.is_none() {
        return Err(missing_field(f));
    }
    match as_str(v) {
        None => Err(invalid_type(f)),
        Some(s) => match role_from(s) {
            Some(x) => Ok(x),
            None => Err(unknown_name(f, s)),
        },
    }
}

fn record_entry_type(obj: &Vec<(String, JsonValue)>, f: &str) -> (r: Result<
    EntryType,
    TickerInjectError,
>)
    ensures
        tagrees(r, rec_entry_type(obj@, f@)),
{
    let v = get_member(obj, f);
    if v.is_none() {
        return Err(missing_field(f));
    }
    read_entry_type(f, v)
}

fn record_name(obj: &Vec<(String, JsonValue)>, f: &str) -> (r: Result<String, TickerInjectError>)
    ensures
        tagrees_text(r, rec_name(obj@, f@)),
{
    let v = get_member(obj, f);
    if v.is_none() {
        return Err(missing_field(f));
    }
    read_name(f, v)
}

fn record_string(obj: &Vec<(String, JsonValue)>, f: &str) -> (r: Result<String, TickerInjectError>)
    ensures
        tagrees_text(r, rec_string(obj@, f@)),
{
    let v = get_member(obj, f);
    if v.is_none() {
        return Err(missing_field(f));
    }
    match as_str(v) {
        None => Err(invalid_type(f)),
        Some(s) => Ok(s.to_owned()),
    }
}

fn record_f64(obj: &Vec<(String, JsonValue)>, f: &str) -> (r: Result<u64, TickerInjectError>)
    ensures
        tagrees(r, rec_f64(obj@, f@)),
{
    let v = get_member(obj, f);
    if v.is_none() {
        return Err(missing_field(f));
    }
    match as_f64_bits(v) {
        None => Err(invalid_type(f)),
        Some(x) => Ok(x),
    }
}

fn record_opt_f64(obj: &Vec<(String, JsonValue)>, f: &str) -> (r: Result<
    Option<u64>,
    TickerInjectError,
>)
    ensures
        tagrees(r, rec_opt_f64(obj@, f@)),
{
    let v = get_member(obj, f);
    if !is_present(v) {
        return Ok(None);
    }
    match as_f64_bits(v) {
        None => Err(invalid_type(f)),
        Some(x) => Ok(Some(x)),
    }
}

fn record_bool(obj: &Vec<(String, JsonValue)>, f: &str) -> (r: Result<bool, TickerInjectError>)
    ensures
        tagrees(r, rec_bool(obj@, f@)),
{
    let v = get_member(obj, f);
    if v.is_none() {
        return Err(missing_field(f));
    }
    match as_bool(v) {
        None => Err(invalid_type(f)),
        Some(b) => Ok(b),
    }
}

fn required_bool(obj: &Vec<(String, JsonValue)>, f: &'static str) -> (r: Result<
    bool,
    TickerInjectError,
>)
    ensures
        tagrees(r, req_bool(obj@, f@)),
{
    match as_bool(get_member(obj, f)) {
        Some(b) => Ok(b),
        None => Err(TickerInjectError::MissingField(f)),
    }
}

fn required_f64(obj: &Vec<(String, JsonValue)>, f: &'static str) -> (r: Result<
    u64,
    TickerInjectError,
>)
    ensures
        tagrees(r, req_f64(obj@, f@)),
{
    match as_f64_bits(get_member(obj, f)) {
        Some(x) => Ok(x),
        None => Err(TickerInjectError::MissingField(f)),
    }
}

fn required_usize(obj: &Vec<(String, JsonValue)>, f: &'static str) -> (r: Result<
    usize,
    TickerInjectError,
>)
    ensures
        tagrees(r, req_usize(obj@, f@)),
{
    match as_u64(get_member(obj, f)) {
        Some(x) => Ok(x as usize),
        None => Err(TickerInjectError::MissingField(f)),
    }
}

fn required_string(obj: &Vec<(String, JsonValue)>, f: &'static str) -> (r: Result<
    String,
    TickerInjectError,
>)
    ensures
        tagrees_text(r, req_string(obj@, f@)),
{
    match as_str(get_member(obj, f)) {
        Some(s) => Ok(s.to_owned()),
        None => Err(TickerInjectError::MissingField(f)),
    }
}

fn required_side(obj: &Vec<(String, JsonValue)>, f: &'static str) -> (r: Result<
    OrderSide,
    TickerInjectError,
>)
    ensures
        tagrees(r, req_side(obj@, f@)),
{
    let v = get_member(obj, f);
    if v.is_none() {
        return Err(TickerInjectError::MissingField(f));
    }
    read_side(f, v)
}

fn required_entry_type(obj: &Vec<(String, JsonValue)>, f: &'static str) -> (r: Result<
    EntryType,
    TickerInjectError,
>)
    ensures
        tagrees(r, req_entry_type(obj@, f@)),
{
    let v = get_member(obj, f);
    if v.is_none() {
        return Err(TickerInjectError::MissingField(f));
    }
    read_entry_type(f, v)
}

fn required_name(obj: &Vec<(String, JsonValue)>, f: &'static str) -> (r: Result<
    String,
    TickerInjectError,
>)
    ensures
        tagrees_text(r, req_name(obj@, f@)),
{
    let v = get_member(obj, f);
    if v.is_none() {
        return Err(TickerInjectError::MissingField(f));
    }
    read_name(f, v)
}

fn bracket_mode(obj: &Vec<(String, JsonValue)>) -> (r: Result<
    Option<OrderSide>,
    TickerInjectError,
>)
    ensures
        tagrees(r, bracket_mode_side(obj@)),
{
    let v = get_member(obj, "side");
    if !is_present(v) {
        return Ok(None);
    }
    match read_side("side", v) {
        Ok(s) => Ok(Some(s)),
        Err(e) => Err(e),
    }
}

fn pending_id(obj: &Vec<(String, JsonValue)>) -> (r: Result<u128, TickerInjectError>)
    ensures
        tagrees(r, pending_order_id(obj@)),
{
    let s = match required_string(obj, "order_id") {
        Ok(s) => s,
        Err(e) => return Err(e),
    };
    match parse_uuid(s.as_str()) {
        Ok(id) => Ok(id),
        Err(m) => {
            let mut t = "uuid: ".to_owned();
            push_str(&mut t, m.as_str());
            Err(TickerInjectError::Serde(t))
        },
    }
}

type V = InjectedTickerMsgView;

/// Refusal text for the level variants.
pub open spec fn level_refusal() -> Seq<char> {
    "AddLevel / UpdateLevel — StoredLevel lacks Deserialize"@
}

/// Refusal text for `Hydrated`.
pub open spec fn hydrated_refusal() -> Seq<char> {
    "Hydrated — use load_fixture to replace state"@
}

/// The message of a variant without payload, by its name.
pub open spec fn unit_variant(ty: Seq<char>) -> Option<V> {
    if ty == "CancelBracket"@ {
        Some(V::CancelBracket)
    } else if ty == "SaveBracket"@ {
        Some(V::SaveBracket)
    } else if ty == "DeleteBracket"@ {
        Some(V::DeleteBracket)
    } else if ty == "RecallBracket"@ {
        Some(V::RecallBracket)
    } else if ty == "CancelEdit"@ {
        Some(V::CancelEdit)
    } else if ty == "TogglePin"@ {
        Some(V::TogglePin)
    } else if ty == "UndoSnap"@ {
        Some(V::UndoSnap)
    } else if ty == "SubmitOrder"@ {
        Some(V::SubmitOrder)
    } else if ty == "OrderCancelled"@ {
        Some(V::OrderCancelled)
    } else {
        None
    }
}

/// The message (or error) of a bracket-editing variant, by its name;
/// `None` when `ty` names none of them.
pub open spec fn bracket_variant(o: Members, ty: Seq<char>) -> Option<Result<V, TErr>> {
    if ty == "SetBracketMode"@ {
        Some(
            match bracket_mode_side(o) {
                Ok(s) => Ok(V::SetBracketMode(s)),
                Err(e) => Err(e),
            },
        )
    } else if ty == "EnsureDraftBracket"@ {
        Some(
            if rec_side(o, "side"@) is Err {
                Err(rec_side(o, "side"@)->Err_0)
            } else if rec_entry_type(o, "entry_type"@) is Err {
                Err(rec_entry_type(o, "entry_type"@)->Err_0)
            } else {
                Ok(
                    V::EnsureDraftBracket {
                        side: rec_side(o, "side"@)->Ok_0,
                        entry_type: rec_entry_type(o, "entry_type"@)->Ok_0,
                    },
                )
            },
        )
    } else if ty == "SetLegPrice"@ || ty == "DragLeg"@ {
        let pf = if ty == "SetLegPrice"@ {
            "price"@
        } else {
            "new_price"@
        };
        Some(
            if rec_role(o, "role"@) is Err {
                Err(rec_role(o, "role"@)->Err_0)
            } else if rec_f64(o, pf) is Err {
                Err(rec_f64(o, pf)->Err_0)
            } else if ty == "SetLegPrice"@ {
                Ok(V::SetLegPrice { role: rec_role(o, "role"@)->Ok_0, price: rec_f64(o, pf)->Ok_0 })
            } else {
                Ok(V::DragLeg { role: rec_role(o, "role"@)->Ok_0, new_price: rec_f64(o, pf)->Ok_0 })
            },
        )
    } else if ty == "SetTpEnabled"@ || ty == "SetSlEnabled"@ {
        Some(
            match req_bool(o, "enabled"@) {
                Ok(b) => if ty == "SetTpEnabled"@ {
                    Ok(V::SetTpEnabled(b))
                } else {
                    Ok(V::SetSlEnabled(b))
                },
                Err(e) => Err(e),
            },
        )
    } else if ty == "SetQuantity"@ {
        Some(
            match req_f64(o, "quantity"@) {
                Ok(q) => Ok(V::SetQuantity(q)),
                Err(e) => Err(e),
            },
        )
    } else if ty == "SetSide"@ {
        Some(
            match req_side(o, "side"@) {
                Ok(x) => Ok(V::SetSide(x)),
                Err(e) => Err(e),
            },
        )
    } else if ty == "SetEntryType"@ {
        Some(
            match req_entry_type(o, "entry_type"@) {
                Ok(x) => Ok(V::SetEntryType(x)),
                Err(e) => Err(e),
            },
        )
    } else {
        None
    }
}

/// The message (or error) of an editing or market variant, by its
/// name; `None` when `ty` names none of them.
pub open spec fn edit_variant(o: Members, ty: Seq<char>) -> Option<Result<V, TErr>> {
    if ty == "BeginEdit"@ {
        Some(
            match req_name(o, "field"@) {
                Ok(f) => Ok(V::BeginEdit(f)),
                Err(e) => Err(e),
            },
        )
    } else if ty == "UpdateEditValue"@ {
        Some(
            match req_string(o, "value"@) {
                Ok(v) => Ok(V::UpdateEditValue(v)),
                Err(e) => Err(e),
            },
        )
    } else if ty == "CommitEdit"@ {
        Some(
            if rec_name(o, "field"@) is Err {
                Err(rec_name(o, "field"@)->Err_0)
            } else if rec_string(o, "value"@) is Err {
                Err(rec_string(o, "value"@)->Err_0)
            } else {
                Ok(
                    V::CommitEdit {
                        field: rec_name(o, "field"@)->Ok_0,
                        value: rec_string(o, "value"@)->Ok_0,
                    },
                )
            },
        )
    } else if ty == "MaybeSnap"@ || ty == "UpdateMarketData"@ {
        let pf = if ty == "MaybeSnap"@ {
            "current_price"@
        } else {
            "last_price"@
        };
        Some(
            if rec_f64(o, pf) is Err {
                Err(rec_f64(o, pf)->Err_0)
            } else if rec_opt_f64(o, "gatr_abs"@) is Err {
                Err(rec_opt_f64(o, "gatr_abs"@)->Err_0)
            } else if ty == "MaybeSnap"@ {
                Ok(
                    V::MaybeSnap {
                        current_price: rec_f64(o, pf)->Ok_0,
                        gatr_abs: rec_opt_f64(o, "gatr_abs"@)->Ok_0,
                    },
                )
            } else {
                Ok(
                    V::UpdateMarketData {
                        last_price: rec_f64(o, pf)->Ok_0,
                        gatr_abs: rec_opt_f64(o, "gatr_abs"@)->Ok_0,
                    },
                )
            },
        )
    } else {
        None
    }
}

/// The message (or error) of an order-lifecycle or camera variant, by
/// its name; `None` when `ty` names none of them.
pub open spec fn order_variant(o: Members, ty: Seq<char>) -> Option<Result<V, TErr>> {
    if ty == "OrderPending"@ {
        Some(
            match pending_order_id(o) {
                Ok(id) => Ok(V::OrderPending { order_id: id }),
                Err(e) => Err(e),
            },
        )
    } else if ty == "OrderFilled"@ {
        Some(
            if rec_f64(o, "filled_qty"@) is Err {
                Err(rec_f64(o, "filled_qty"@)->Err_0)
            } else if rec_f64(o, "avg_price"@) is Err {
                Err(rec_f64(o, "avg_price"@)->Err_0)
            } else {
                Ok(
                    V::OrderFilled {
                        filled_qty: rec_f64(o, "filled_qty"@)->Ok_0,
                        avg_price: rec_f64(o, "avg_price"@)->Ok_0,
                    },
                )
            },
        )
    } else if ty == "OrderPartialFill"@ {
        Some(
            match req_f64(o, "filled_qty"@) {
                Ok(q) => Ok(V::OrderPartialFill { filled_qty: q }),
                Err(e) => Err(e),
            },
        )
    } else if ty == "OrderRejected"@ {
        Some(
            match req_string(o, "reason"@) {
                Ok(r) => Ok(V::OrderRejected { reason: r }),
                Err(e) => Err(e),
            },
        )
    } else if ty == "SaveCameraState"@ {
        Some(
            if rec_f64(o, "time_start"@) is Err {
                Err(rec_f64(o, "time_start"@)->Err_0)
            } else if rec_f64(o, "time_end"@) is Err {
                Err(rec_f64(o, "time_end"@)->Err_0)
            } else if rec_f64(o, "price_low"@) is Err {
                Err(rec_f64(o, "price_low"@)->Err_0)
            } else if rec_f64(o, "price_high"@) is Err {
                Err(rec_f64(o, "price_high"@)->Err_0)
            } else if rec_bool(o, "was_at_live_edge"@) is Err {
                Err(rec_bool(o, "was_at_live_edge"@)->Err_0)
            } else {
                Ok(
                    V::SaveCameraState {
                        time_start: rec_f64(o, "time_start"@)->Ok_0,
                        time_end: rec_f64(o, "time_end"@)->Ok_0,
                        price_low: rec_f64(o, "price_low"@)->Ok_0,
                        price_high: rec_f64(o, "price_high"@)->Ok_0,
                        was_at_live_edge: rec_bool(o, "was_at_live_edge"@)->Ok_0,
                    },
                )
            },
        )
    } else if ty == "AddLevel"@ || ty == "UpdateLevel"@ {
        Some(Err(TErr::NotSupported(level_refusal())))
    } else if ty == "Hydrated"@ {
        Some(Err(TErr::NotSupported(hydrated_refusal())))
    } else if ty == "RemoveLevel"@ || ty == "ToggleLevelLock"@ {
        Some(
            match req_usize(o, "index"@) {
                Ok(i) => if ty == "RemoveLevel"@ {
                    Ok(V::RemoveLevel(i))
                } else {
                    Ok(V::ToggleLevelLock(i))
                },
                Err(e) => Err(e),
            },
        )
    } else {
        None
    }
}

/// The message (or error) for an object whose `type` member is `ty`.
pub open spec fn ticker_typed_spec(o: Members, ty: Seq<char>) -> Result<V, TErr> {
    if unit_variant(ty) is Some {
        Ok(unit_variant(ty)->Some_0)
    } else if bracket_variant(o, ty) is Some {
        bracket_variant(o, ty)->Some_0
    } else if edit_variant(o, ty) is Some {
        edit_variant(o, ty)->Some_0
    } else if order_variant(o, ty) is Some {
        order_variant(o, ty)->Some_0
    } else {
        Err(TErr::UnknownVariant(ty))
    }
}

/// The message (or error) a payload describes.
pub open spec fn ticker_parse_spec(v: JsonValue) -> Result<V, TErr> {
    match v {
        JsonValue::Object(m) => match str_of(member(m@, "type"@)) {
            Some(ty) => ticker_typed_spec(m@, ty),
            None => Err(TErr::MissingType),
        },
        _ => Err(TErr::MissingType),
    }
}

/// Whether an executable parse result agrees with its specification.
pub open spec fn msg_agrees(r: Result<InjectedTickerMsg, TickerInjectError>, s: Result<V, TErr>) -> bool {
    match r {
        Ok(m) => s == Ok::<V, TErr>(m@),
        Err(e) => s == Err::<V, TErr>(e@),
    }
}

/// Whether an optional executable parse result agrees with its
/// specification.
pub open spec fn opt_msg_agrees(
    r: Option<Result<InjectedTickerMsg, TickerInjectError>>,
    s: Option<Result<V, TErr>>,
) -> bool {
    match r {
        None => s is None,
        Some(x) => s is Some && msg_agrees(x, s->Some_0),
    }
}

fn unit_from(ty: &str) -> (r: Option<InjectedTickerMsg>)
    ensures
        match r {
            None => unit_variant(ty@) is None,
            Some(m) => unit_variant(ty@) == Some(m@),
        },
{
    if str_eq(ty, "CancelBracket") {
        Some(InjectedTickerMsg::CancelBracket)
    } else if str_eq(ty, "SaveBracket") {
        Some(InjectedTickerMsg::SaveBracket)
    } else if str_eq(ty, "DeleteBracket") {
        Some(InjectedTickerMsg::DeleteBracket)
    } else if str_eq(ty, "RecallBracket") {
        Some(InjectedTickerMsg::RecallBracket)
    } else if str_eq(ty, "CancelEdit") {
        Some(InjectedTickerMsg::CancelEdit)
    } else if str_eq(ty, "TogglePin") {
        Some(InjectedTickerMsg::TogglePin)
    } else if str_eq(ty, "UndoSnap") {
        Some(InjectedTickerMsg::UndoSnap)
    } else if str_eq(ty, "SubmitOrder") {
        Some(InjectedTickerMsg::SubmitOrder)
    } else if str_eq(ty, "OrderCancelled") {
        Some(InjectedTickerMsg::OrderCancelled)
    } else {
        None
    }
}

fn parse_bracket_variant(obj: &Vec<(String, JsonValue)>, ty: &str) -> (r: Option<
    Result<InjectedTickerMsg, TickerInjectError>,
>)
    ensures
        opt_msg_agrees(r, bracket_variant(obj@, ty@)),
{
    if str_eq(ty, "SetBracketMode") {
        Some(
            match bracket_mode(obj) {
                Ok(s) => Ok(InjectedTickerMsg::SetBracketMode(s)),
                Err(e) => Err(e),
            },
        )
    } else if str_eq(ty, "EnsureDraftBracket") {
        let side = match record_side(obj, "side") {
            Ok(x) => x,
            Err(e) => return Some(Err(e)),
        };
        let entry_type = match record_entry_type(obj, "entry_type") {
            Ok(x) => x,
            Err(e) => return Some(Err(e)),
        };
        Some(Ok(InjectedTickerMsg::EnsureDraftBracket { side, entry_type }))
    } else if str_eq(ty, "SetLegPrice") || str_eq(ty, "DragLeg") {
        let leg_price = str_eq(ty, "SetLegPrice");
        let pf = if leg_price {
            "price"
        } else {
            "new_price"
        };
        let role = match record_role(obj, "role") {
            Ok(x) => x,
            Err(e) => return Some(Err(e)),
        };
        let price = match record_f64(obj, pf) {
            Ok(x) => x,
            Err(e) => return Some(Err(e)),
        };
        if leg_price {
            Some(Ok(InjectedTickerMsg::SetLegPrice { role, price }))
        } else {
            Some(Ok(InjectedTickerMsg::DragLeg { role, new_price: price }))
        }
    } else if str_eq(ty, "SetTpEnabled") || str_eq(ty, "SetSlEnabled") {
        Some(
            match required_bool(obj, "enabled") {
                Ok(b) => if str_eq(ty, "SetTpEnabled") {
                    Ok(InjectedTickerMsg::SetTpEnabled(b))
                } else {
                    Ok(InjectedTickerMsg::SetSlEnabled(b))
                },
                Err(e) => Err(e),
            },
        )
    } else if str_eq(ty, "SetQuantity") {
        Some(
            match required_f64(obj, "quantity") {
                Ok(q) => Ok(InjectedTickerMsg::SetQuantity(q)),
                Err(e) => Err(e),
            },
        )
    } else if str_eq(ty, "SetSide") {
        Some(
            match required_side(obj, "side") {
                Ok(x) => Ok(InjectedTickerMsg::SetSide(x)),
                Err(e) => Err(e),
            },
        )
    } else if str_eq(ty, "SetEntryType") {
        Some(
            match required_entry_type(obj, "entry_type") {
                Ok(x) => Ok(InjectedTickerMsg::SetEntryType(x)),
                Err(e) => Err(e),
            },
        )
    } else {
        None
    }
}

fn parse_edit_variant(obj: &Vec<(String, JsonValue)>, ty: &str) -> (r: Option<
    Result<InjectedTickerMsg, TickerInjectError>,
>)
    ensures
        opt_msg_agrees(r, edit_variant(obj@, ty@)),
{
    if str_eq(ty, "BeginEdit") {
        Some(
            match required_name(obj, "field") {
                Ok(f) => Ok(InjectedTickerMsg::BeginEdit(f)),
                Err(e) => Err(e),
            },
        )
    } else if str_eq(ty, "UpdateEditValue") {
        Some(
            match required_string(obj, "value") {
                Ok(v) => Ok(InjectedTickerMsg::UpdateEditValue(v)),
                Err(e) => Err(e),
            },
        )
    } else if str_eq(ty, "CommitEdit") {
        let field = match record_name(obj, "field") {
            Ok(x) => x,
            Err(e) => return Some(Err(e)),
        };
        let value = match record_string(obj, "value") {
            Ok(x) => x,
            Err(e) => return Some(Err(e)),
        };
        Some(Ok(InjectedTickerMsg::CommitEdit { field, value }))
    } else if str_eq(ty, "MaybeSnap") || str_eq(ty, "UpdateMarketData") {
        let snap = str_eq(ty, "MaybeSnap");
        let pf = if snap {
            "current_price"
        } else {
            "last_price"
        };
        let price = match record_f64(obj, pf) {
            Ok(x) => x,
            Err(e) => return Some(Err(e)),
        };
        let gatr_abs = match record_opt_f64(obj, "gatr_abs") {
            Ok(x) => x,
            Err(e) => return Some(Err(e)),
        };
        if snap {
            Some(Ok(InjectedTickerMsg::MaybeSnap { current_price: price, gatr_abs }))
        } else {
            Some(Ok(InjectedTickerMsg::UpdateMarketData { last_price: price, gatr_abs }))
        }
    } else {
        None
    }
}

fn parse_order_variant(obj: &Vec<(String, JsonValue)>, ty: &str) -> (r: Option<
    Result<InjectedTickerMsg, TickerInjectError>,
>)
    ensures
        opt_msg_agrees(r, order_variant(obj@, ty@)),
{
    if str_eq(ty, "OrderPending") {
        Some(
            match pending_id(obj) {
                Ok(id) => Ok(InjectedTickerMsg::OrderPending { order_id: id }),
                Err(e) => Err(e),
            },
        )
    } else if str_eq(ty, "OrderFilled") {
        let filled_qty = match record_f64(obj, "filled_qty") {
            Ok(x) => x,
            Err(e) => return Some(Err(e)),
        };
        let avg_price = match record_f64(obj, "avg_price") {
            Ok(x) => x,
            Err(e) => return Some(Err(e)),
        };
        Some(Ok(InjectedTickerMsg::OrderFilled { filled_qty, avg_price }))
    } else if str_eq(ty, "OrderPartialFill") {
        Some(
            match required_f64(obj, "filled_qty") {
                Ok(q) => Ok(InjectedTickerMsg::OrderPartialFill { filled_qty: q }),
                Err(e) => Err(e),
            },
        )
    } else if str_eq(ty, "OrderRejected") {
        Some(
            match required_string(obj, "reason") {
                Ok(r) => Ok(InjectedTickerMsg::OrderRejected { reason: r }),
                Err(e) => Err(e),
            },
        )
    } else if str_eq(ty, "SaveCameraState") {
        let time_start = match record_f64(obj, "time_start") {
            Ok(x) => x,
            Err(e) => return Some(Err(e)),
        };
        let time_end = match record_f64(obj, "time_end") {
            Ok(x) => x,
            Err(e) => return Some(Err(e)),
        };
        let price_low = match record_f64(obj, "price_low") {
            Ok(x) => x,
            Err(e) => return Some(Err(e)),
        };
        let price_high = match record_f64(obj, "price_high") {
            Ok(x) => x,
            Err(e) => return Some(Err(e)),
        };
        let was_at_live_edge = match record_bool(obj, "was_at_live_edge") {
            Ok(x) => x,
            Err(e) => return Some(Err(e)),
        };
        Some(
            Ok(
                InjectedTickerMsg::SaveCameraState {
                    time_start,
                    time_end,
                    price_low,
                    price_high,
                    was_at_live_edge,
                },
            ),
        )
    } else if str_eq(ty, "AddLevel") || str_eq(ty, "UpdateLevel") {
        Some(
            Err(
                TickerInjectError::NotSupported(
                    "AddLevel / UpdateLevel — StoredLevel lacks Deserialize",
                ),
            ),
        )
    } else if str_eq(ty, "Hydrated") {
        Some(
            Err(TickerInjectError::NotSupported("Hydrated — use load_fixture to replace state")),
        )
    } else if str_eq(ty, "RemoveLevel") || str_eq(ty, "ToggleLevelLock") {
        Some(
            match required_usize(obj, "index") {
                Ok(i) => if str_eq(ty, "RemoveLevel") {
                    Ok(InjectedTickerMsg::RemoveLevel(i))
                } else {
                    Ok(InjectedTickerMsg::ToggleLevelLock(i))
                },
                Err(e) => Err(e),
            },
        )
    } else {
        None
    }
}

/// Parse an `inject_ticker_msg` payload into a ticker message.
pub fn parse(value: &JsonValue) -> (r: Result<InjectedTickerMsg, TickerInjectError>)
    ensures
        msg_agrees(r, ticker_parse_spec(*value)),
{
    let obj = match value {
        JsonValue::Object(m) => m,
        _ => return Err(TickerInjectError::MissingType),
    };
    let ty = match as_str(get_member(obj, "type")) {
        Some(t) => t,
        None => return Err(TickerInjectError::MissingType),
    };
    if let Some(m) = unit_from(ty) {
        return Ok(m);
    }
    if let Some(r) = parse_bracket_variant(obj, ty) {
        return r;
    }
    if let Some(r) = parse_edit_variant(obj, ty) {
        return r;
    }
    if let Some(r) = parse_order_variant(obj, ty) {
        return r;
    }
    Err(TickerInjectError::UnknownVariant(ty.to_owned()))
}

/// The variant of the ticker state machine's message a parsed message is.
pub open spec fn injected_kind(m: V) -> TickerMsg {
    match m {
        V::SetBracketMode(..) => TickerMsg::SetBracketMode,
        V::EnsureDraftBracket { .. } => TickerMsg::EnsureDraftBracket,
        V::CancelBracket => TickerMsg::CancelBracket,
        V::SaveBracket => TickerMsg::SaveBracket,
        V::DeleteBracket => TickerMsg::DeleteBracket,
        V::RecallBracket => TickerMsg::RecallBracket,
        V::SetLegPrice { .. } => TickerMsg::SetLegPrice,
        V::SetTpEnabled(..) => TickerMsg::SetTpEnabled,
        V::SetSlEnabled(..) => TickerMsg::SetSlEnabled,
        V::SetQuantity(..) => TickerMsg::SetQuantity,
        V::SetSide(..) => TickerMsg::SetSide,
        V::SetEntryType(..) => TickerMsg::SetEntryType,
        V::DragLeg { .. } => TickerMsg::DragLeg,
        V::BeginEdit(..) => TickerMsg::BeginEdit,
        V::UpdateEditValue(..) => TickerMsg::UpdateEditValue,
        V::CommitEdit { .. } => TickerMsg::CommitEdit,
        V::CancelEdit => TickerMsg::CancelEdit,
        V::MaybeSnap { .. } => TickerMsg::MaybeSnap,
        V::TogglePin => TickerMsg::TogglePin,
        V::UndoSnap => TickerMsg::UndoSnap,
        V::UpdateMarketData { .. } => TickerMsg::UpdateMarketData,
        V::RemoveLevel(..) => TickerMsg::RemoveLevel,
        V::ToggleLevelLock(..) => TickerMsg::ToggleLevelLock,
        V::SubmitOrder => TickerMsg::SubmitOrder,
        V::OrderPending { .. } => TickerMsg::OrderPending,
        V::OrderFilled { .. } => TickerMsg::OrderFilled,
        V::OrderPartialFill { .. } => TickerMsg::OrderPartialFill,
        V::OrderRejected { .. } => TickerMsg::OrderRejected,
        V::OrderCancelled => TickerMsg::OrderCancelled,
        V::SaveCameraState { .. } => TickerMsg::SaveCameraState,
    }
}

impl InjectedTickerMsg {
    /// Which variant of the ticker state machine's message this is.
    pub fn kind(&self) -> (r: TickerMsg)
        ensures
            r == injected_kind(self@),
    {
        match self {
            InjectedTickerMsg::SetBracketMode(..) => TickerMsg::SetBracketMode,
            InjectedTickerMsg::EnsureDraftBracket { .. } => TickerMsg::EnsureDraftBracket,
            InjectedTickerMsg::CancelBracket => TickerMsg::CancelBracket,
            InjectedTickerMsg::SaveBracket => TickerMsg::SaveBracket,
            InjectedTickerMsg::DeleteBracket => TickerMsg::DeleteBracket,
            InjectedTickerMsg::RecallBracket => TickerMsg::RecallBracket,
            InjectedTickerMsg::SetLegPrice { .. } => TickerMsg::SetLegPrice,
            InjectedTickerMsg::SetTpEnabled(..) => TickerMsg::SetTpEnabled,
            InjectedTickerMsg::SetSlEnabled(..) => TickerMsg::SetSlEnabled,
            InjectedTickerMsg::SetQuantity(..) => TickerMsg::SetQuantity,
            InjectedTickerMsg::SetSide(..) => TickerMsg::SetSide,
            InjectedTickerMsg::SetEntryType(..) => TickerMsg::SetEntryType,
            InjectedTickerMsg::DragLeg { .. } => TickerMsg::DragLeg,
            InjectedTickerMsg::BeginEdit(..) => TickerMsg::BeginEdit,
            InjectedTickerMsg::UpdateEditValue(..) => TickerMsg::UpdateEditValue,
            InjectedTickerMsg::CommitEdit { .. } => TickerMsg::CommitEdit,
            InjectedTickerMsg::CancelEdit => TickerMsg::CancelEdit,
            InjectedTickerMsg::MaybeSnap { .. } => TickerMsg::MaybeSnap,
            InjectedTickerMsg::TogglePin => TickerMsg::TogglePin,
            InjectedTickerMsg::UndoSnap => TickerMsg::UndoSnap,
            InjectedTickerMsg::UpdateMarketData { .. } => TickerMsg::UpdateMarketData,
            InjectedTickerMsg::RemoveLevel(..) => TickerMsg::RemoveLevel,
            InjectedTickerMsg::ToggleLevelLock(..) => TickerMsg::ToggleLevelLock,
            InjectedTickerMsg::SubmitOrder => TickerMsg::SubmitOrder,
            InjectedTickerMsg::OrderPending { .. } => TickerMsg::OrderPending,
            InjectedTickerMsg::OrderFilled { .. } => TickerMsg::OrderFilled,
            InjectedTickerMsg::OrderPartialFill { .. } => TickerMsg::OrderPartialFill,
            InjectedTickerMsg::OrderRejected { .. } => TickerMsg::OrderRejected,
            InjectedTickerMsg::OrderCancelled => TickerMsg::OrderCancelled,
            InjectedTickerMsg::SaveCameraState { .. } => TickerMsg::SaveCameraState,
        }
    }
}

/// The name of a leg role: its variant name.
pub open spec fn role_name(r: LegRole) -> Seq<char> {
    match r {
        LegRole::Entry => "Entry"@,
        LegRole::TakeProfit => "TakeProfit"@,
        LegRole::StopLoss => "StopLoss"@,
    }
}

/// A role text is read as the role it names: each role is read from its
/// own name, and no other text reads as that role.
pub proof fn lemma_role_read_by_name(r: LegRole, s: Seq<char>)
    ensures
        role_named(role_name(r)) == Some(r),
        role_named(s) == Some(r) ==> s == role_name(r),
{
    match r {
        LegRole::Entry => {
            assert(role_named("Entry"@) == Some(LegRole::Entry)) by {
                reveal_strlit("Entry");
            }
        },
        LegRole::TakeProfit => {
            assert(role_named("TakeProfit"@) == Some(LegRole::TakeProfit)) by {
                reveal_strlit("TakeProfit");
                reveal_strlit("Entry");
                reveal_strlit("StopLoss");
                assert("TakeProfit"@.len() != "Entry"@.len());
                assert("TakeProfit"@.len() != "StopLoss"@.len());
            }
        },
        LegRole::StopLoss => {
            assert(role_named("StopLoss"@) == Some(LegRole::StopLoss)) by {
                reveal_strlit("StopLoss");
                reveal_strlit("Entry");
                assert("StopLoss"@.len() != "Entry"@.len());
            }
        },
    }
}

/// The text that names an order side: its variant name.
pub open spec fn side_names(v: OrderSide) -> Seq<Seq<char>> {
    match v {
        OrderSide::Buy => seq!["Buy"@],
        OrderSide::Sell => seq!["Sell"@],
    }
}

/// A side text is read as the side it names, and only that side's name
/// reads as it.
pub proof fn lemma_side_read_by_name(v: OrderSide, s: Seq<char>)
    ensures
        forall|i: int| 0 <= i < side_names(v).len() ==> side_named(#[trigger] side_names(v)[i]) == Some(v),
        side_named(s) == Some(v) ==> side_names(v).contains(s),
{
    match v {
        OrderSide::Buy => {
            assert(side_named("Buy"@) == Some(OrderSide::Buy)) by {
                reveal_strlit("Buy");
            }
            assert(side_names(OrderSide::Buy)[0] == "Buy"@);
            if side_named(s) == Some(OrderSide::Buy) {
                if s == "Buy"@ {
                    assert(side_names(OrderSide::Buy)[0] == s);
                }
            }
        },
        OrderSide::Sell => {
            assert(side_named("Sell"@) == Some(OrderSide::Sell)) by {
                reveal_strlit("Sell");
                reveal_strlit("Buy");
                assert("Sell"@.len() != "Buy"@.len());
            }
            assert(side_names(OrderSide::Sell)[0] == "Sell"@);
            if side_named(s) == Some(OrderSide::Sell) {
                if s == "Sell"@ {
                    assert(side_names(OrderSide::Sell)[0] == s);
                }
            }
        },
    }
}

/// The text that names an entry type: its variant name.
pub open spec fn entry_type_names(v: EntryType) -> Seq<Seq<char>> {
    match v {
        EntryType::Market => seq!["Market"@],
        EntryType::Limit => seq!["Limit"@],
        EntryType::Stop => seq!["Stop"@],
        EntryType::StopLimit => seq!["StopLimit"@],
    }
}

/// An entry-type text is read as the type it names, and only that type's
/// name reads as it.
pub proof fn lemma_entry_type_read_by_name(v: EntryType, s: Seq<char>)
    ensures
        forall|i: int| 0 <= i < entry_type_names(v).len() ==> entry_type_named(#[trigger] entry_type_names(v)[i]) == Some(v),
        entry_type_named(s) == Some(v) ==> entry_type_names(v).contains(s),
{
    match v {
        EntryType::Market => {
            assert(entry_type_named("Market"@) == Some(EntryType::Market)) by {
                reveal_strlit("Market");
            }
            assert(entry_type_names(EntryType::Market)[0] == "Market"@);
            if entry_type_named(s) == Some(EntryType::Market) {
                if s == "Market"@ {
                    assert(entry_type_names(EntryType::Market)[0] == s);
                }
            }
        },
        EntryType::Limit => {
            assert(entry_type_named("Limit"@) == Some(EntryType::Limit)) by {
                reveal_strlit("Limit");
                reveal_strlit("Market");
                assert("Limit"@.len() != "Market"@.len());
            }
            assert(entry_type_names(EntryType::Limit)[0] == "Limit"@);
            if entry_type_named(s) == Some(EntryType::Limit) {
                if s == "Limit"@ {
                    assert(entry_type_names(EntryType::Limit)[0] == s);
                }
            }
        },
        EntryType::Stop => {
            assert(entry_type_named("Stop"@) == Some(EntryType::Stop)) by {
                reveal_strlit("Stop");
                reveal_strlit("Market");
                reveal_strlit("Limit");
                assert("Stop"@.len() != "Market"@.len());
                assert("Stop"@.len() != "Limit"@.len());
            }
            assert(entry_type_names(EntryType::Stop)[0] == "Stop"@);
            if entry_type_named(s) == Some(EntryType::Stop) {
                if s == "Stop"@ {
                    assert(entry_type_names(EntryType::Stop)[0] == s);
                }
            }
        },
        EntryType::StopLimit => {
            assert(entry_type_named("StopLimit"@) == Some(EntryType::StopLimit)) by {
                reveal_strlit("StopLimit");
                reveal_strlit("Market");
                reveal_strlit("Limit");
                reveal_strlit("Stop");
                assert("StopLimit"@.len() != "Market"@.len());
                assert("StopLimit"@.len() != "Limit"@.len());
                assert("StopLimit"@.len() != "Stop"@.len());
            }
            assert(entry_type_names(EntryType::StopLimit)[0] == "StopLimit"@);
            if entry_type_named(s) == Some(EntryType::StopLimit) {
                if s == "StopLimit"@ {
                    assert(entry_type_names(EntryType::StopLimit)[0] == s);
                }
            }
        },
    }
}

} // verus!
