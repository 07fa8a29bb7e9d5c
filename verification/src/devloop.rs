//! Devloop harness logic: stable variant names for the ticker state
//! machine's messages and effects, the `dump_state` projections and
//! path walk, and the in-memory event ring that `wait_for_event`
//! matches against.

use vstd::prelude::*;
use crate::blotter::{OrderBlotter, OrderRow, RowView};
use crate::json::{get_member, member, JsonValue};
use crate::sim_child::{all_digits, digits_value, is_digit, unsigned_digits};
use crate::text::{chars_of, str_eq};

verus! {

/// The messages of the per-ticker state machine, by variant. Payloads
/// stay with the ticker state; the event log and `wait_for_event` only
/// read which variant a message is.
#[derive(Copy, Clone, Debug, PartialEq, Eq, Structural)]
pub enum TickerMsg {
    SetBracketMode,
    EnsureDraftBracket,
    CancelBracket,
    SaveBracket,
    DeleteBracket,
    RecallBracket,
    SetLegPrice,
    SetTpEnabled,
    SetSlEnabled,
    SetQuantity,
    SetSide,
    SetEntryType,
    DragLeg,
    BeginEdit,
    UpdateEditValue,
    CommitEdit,
    CancelEdit,
    MaybeSnap,
    TogglePin,
    UndoSnap,
    UpdateMarketData,
    AddLevel,
    RemoveLevel,
    UpdateLevel,
    ToggleLevelLock,
    SubmitOrder,
    OrderPending,
    OrderFilled,
    OrderPartialFill,
    OrderRejected,
    OrderCancelled,
    SaveCameraState,
    Hydrated,
    MarkSnappedThisSession,
    MarkAnchorSeedToastShown,
    StoreGatrUndo,
    ClearGatrUndo,
}

/// The effects the ticker state machine emits, by variant.
#[derive(Copy, Clone, Debug, PartialEq, Eq, Structural)]
pub enum TickerEffect {
    ProjectBracket,
    RemoveBracket,
    ProjectLevel,
    RemoveLevel,
    Toast,
    PersistDirty,
    SubmitToBroker,
}

/// Variants that fire at market-data tick rate and are kept out of the
/// event log by default.
pub open spec fn tick_rate_msg(msg: TickerMsg) -> bool {
    msg is UpdateMarketData
}

/// Whether a message fires at market-data tick rate.
pub fn is_tick_rate(msg: &TickerMsg) -> (r: bool)
    ensures
        r == tick_rate_msg(*msg),
{
    matches!(msg, TickerMsg::UpdateMarketData)
}

/// Stable wire name of a ticker message's variant.
pub open spec fn ticker_msg_name(msg: TickerMsg) -> Seq<char> {
    match msg {
        TickerMsg::SetBracketMode => "SetBracketMode"@,
        TickerMsg::EnsureDraftBracket => "EnsureDraftBracket"@,
        TickerMsg::CancelBracket => "CancelBracket"@,
        TickerMsg::SaveBracket => "SaveBracket"@,
        TickerMsg::DeleteBracket => "DeleteBracket"@,
        TickerMsg::RecallBracket => "RecallBracket"@,
        TickerMsg::SetLegPrice => "SetLegPrice"@,
        TickerMsg::SetTpEnabled => "SetTpEnabled"@,
        TickerMsg::SetSlEnabled => "SetSlEnabled"@,
        TickerMsg::SetQuantity => "SetQuantity"@,
        TickerMsg::SetSide => "SetSide"@,
        TickerMsg::SetEntryType => "SetEntryType"@,
        TickerMsg::DragLeg => "DragLeg"@,
        TickerMsg::BeginEdit => "BeginEdit"@,
        TickerMsg::UpdateEditValue => "UpdateEditValue"@,
        TickerMsg::CommitEdit => "CommitEdit"@,
        TickerMsg::CancelEdit => "CancelEdit"@,
        TickerMsg::MaybeSnap => "MaybeSnap"@,
        TickerMsg::TogglePin => "TogglePin"@,
        TickerMsg::UndoSnap => "UndoSnap"@,
        TickerMsg::UpdateMarketData => "UpdateMarketData"@,
        TickerMsg::AddLevel => "AddLevel"@,
        TickerMsg::RemoveLevel => "RemoveLevel"@,
        TickerMsg::UpdateLevel => "UpdateLevel"@,
        TickerMsg::ToggleLevelLock => "ToggleLevelLock"@,
        TickerMsg::SubmitOrder => "SubmitOrder"@,
        TickerMsg::OrderPending => "OrderPending"@,
        TickerMsg::OrderFilled => "OrderFilled"@,
        TickerMsg::OrderPartialFill => "OrderPartialFill"@,
        TickerMsg::OrderRejected => "OrderRejected"@,
        TickerMsg::OrderCancelled => "OrderCancelled"@,
        TickerMsg::SaveCameraState => "SaveCameraState"@,
        TickerMsg::Hydrated => "Hydrated"@,
        TickerMsg::MarkSnappedThisSession => "MarkSnappedThisSession"@,
        TickerMsg::MarkAnchorSeedToastShown => "MarkAnchorSeedToastShown"@,
        TickerMsg::StoreGatrUndo => "StoreGatrUndo"@,
        TickerMsg::ClearGatrUndo => "ClearGatrUndo"@,
    }
}

/// Distinct variants have distinct wire names, so `wait_for_event`
/// matching on a name matches exactly one variant.
pub proof fn lemma_ticker_msg_names_distinct(a: TickerMsg, b: TickerMsg)
    ensures
        ticker_msg_name(a) == ticker_msg_name(b) ==> a == b,
{
    reveal_strlit("SetBracketMode");
    reveal_strlit("EnsureDraftBracket");
    reveal_strlit("CancelBracket");
    reveal_strlit("SaveBracket");
    reveal_strlit("DeleteBracket");
    reveal_strlit("RecallBracket");
    reveal_strlit("SetLegPrice");
    reveal_strlit("SetTpEnabled");
    reveal_strlit("SetSlEnabled");
    reveal_strlit("SetQuantity");
    reveal_strlit("SetSide");
    reveal_strlit("SetEntryType");
    reveal_strlit("DragLeg");
    reveal_strlit("BeginEdit");
    reveal_strlit("UpdateEditValue");
    reveal_strlit("CommitEdit");
    reveal_strlit("CancelEdit");
    reveal_strlit("MaybeSnap");
    reveal_strlit("TogglePin");
    reveal_strlit("UndoSnap");
    reveal_strlit("UpdateMarketData");
    reveal_strlit("AddLevel");
    reveal_strlit("RemoveLevel");
    reveal_strlit("UpdateLevel");
    reveal_strlit("ToggleLevelLock");
    reveal_strlit("SubmitOrder");
    reveal_strlit("OrderPending");
    reveal_strlit("OrderFilled");
    reveal_strlit("OrderPartialFill");
    reveal_strlit("OrderRejected");
    reveal_strlit("OrderCancelled");
    reveal_strlit("SaveCameraState");
    reveal_strlit("Hydrated");
    reveal_strlit("MarkSnappedThisSession");
    reveal_strlit("MarkAnchorSeedToastShown");
    reveal_strlit("StoreGatrUndo");
    reveal_strlit("ClearGatrUndo");
    if ticker_msg_name(a) == ticker_msg_name(b) {
        assert(ticker_msg_name(a).len() == ticker_msg_name(b).len());
        assert(ticker_msg_name(a)[0] == ticker_msg_name(b)[0]);
        assert(ticker_msg_name(a)[3] == ticker_msg_name(b)[3]);
    }
}

/// Stable wire name of a ticker message's variant.
pub fn ticker_msg_variant(msg: &TickerMsg) -> (r: &'static str)
    ensures
        r@ == ticker_msg_name(*msg),
{
    match msg {
        TickerMsg::SetBracketMode => "SetBracketMode",
        TickerMsg::EnsureDraftBracket => "EnsureDraftBracket",
        TickerMsg::CancelBracket => "CancelBracket",
        TickerMsg::SaveBracket => "SaveBracket",
        TickerMsg::DeleteBracket => "DeleteBracket",
        TickerMsg::RecallBracket => "RecallBracket",
        TickerMsg::SetLegPrice => "SetLegPrice",
        TickerMsg::SetTpEnabled => "SetTpEnabled",
        TickerMsg::SetSlEnabled => "SetSlEnabled",
        TickerMsg::SetQuantity => "SetQuantity",
        TickerMsg::SetSide => "SetSide",
        TickerMsg::SetEntryType => "SetEntryType",
        TickerMsg::DragLeg => "DragLeg",
        TickerMsg::BeginEdit => "BeginEdit",
        TickerMsg::UpdateEditValue => "UpdateEditValue",
        TickerMsg::CommitEdit => "CommitEdit",
        TickerMsg::CancelEdit => "CancelEdit",
        TickerMsg::MaybeSnap => "MaybeSnap",
        TickerMsg::TogglePin => "TogglePin",
        TickerMsg::UndoSnap => "UndoSnap",
        TickerMsg::UpdateMarketData => "UpdateMarketData",
        TickerMsg::AddLevel => "AddLevel",
        TickerMsg::RemoveLevel => "RemoveLevel",
        TickerMsg::UpdateLevel => "UpdateLevel",
        TickerMsg::ToggleLevelLock => "ToggleLevelLock",
        TickerMsg::SubmitOrder => "SubmitOrder",
        TickerMsg::OrderPending => "OrderPending",
        TickerMsg::OrderFilled => "OrderFilled",
        TickerMsg::OrderPartialFill => "OrderPartialFill",
        TickerMsg::OrderRejected => "OrderRejected",
        TickerMsg::OrderCancelled => "OrderCancelled",
        TickerMsg::SaveCameraState => "SaveCameraState",
        TickerMsg::Hydrated => "Hydrated",
        TickerMsg::MarkSnappedThisSession => "MarkSnappedThisSession",
        TickerMsg::MarkAnchorSeedToastShown => "MarkAnchorSeedToastShown",
        TickerMsg::StoreGatrUndo => "StoreGatrUndo",
        TickerMsg::ClearGatrUndo => "ClearGatrUndo",
    }
}

/// Stable wire name of a ticker effect's variant.
pub open spec fn ticker_effect_name(effect: TickerEffect) -> Seq<char> {
    match effect {
        TickerEffect::ProjectBracket => "ProjectBracket"@,
        TickerEffect::RemoveBracket => "RemoveBracket"@,
        TickerEffect::ProjectLevel => "ProjectLevel"@,
        TickerEffect::RemoveLevel => "RemoveLevel"@,
        TickerEffect::Toast => "Toast"@,
        TickerEffect::PersistDirty => "PersistDirty"@,
        TickerEffect::SubmitToBroker => "SubmitToBroker"@,
    }
}

/// Stable wire name of a ticker effect's variant.
pub fn ticker_effect_variant(effect: &TickerEffect) -> (r: &'static str)
    ensures
        r@ == ticker_effect_name(*effect),
{
    match effect {
        TickerEffect::ProjectBracket => "ProjectBracket",
        TickerEffect::RemoveBracket => "RemoveBracket",
        TickerEffect::ProjectLevel => "ProjectLevel",
        TickerEffect::RemoveLevel => "RemoveLevel",
        TickerEffect::Toast => "Toast",
        TickerEffect::PersistDirty => "PersistDirty",
        TickerEffect::SubmitToBroker => "SubmitToBroker",
    }
}

/// A `usize` written in decimal with an optional `+`, as `str::parse`
/// reads it.
pub open spec fn parse_usize_spec(s: Seq<char>) -> Option<usize> {
    let d = unsigned_digits(s);
    if d.len() > 0 && all_digits(d) && digits_value(d) <= usize::MAX {
        Some(digits_value(d) as usize)
    } else {
        None
    }
}

/// End of the path segment that starts at `i`: the next `.` or the end.
pub open spec fn seg_end(p: Seq<char>, i: int) -> int
    decreases p.len() - i,
{
    if i < 0 || i >= p.len() || p[i] == '.' {
        i
    } else {
        seg_end(p, i + 1)
    }
}

/// A segment ends within the path, at a `.` unless at the end.
pub proof fn lemma_seg_end_bounds(p: Seq<char>, i: int)
    requires
        0 <= i <= p.len(),
    ensures
        i <= seg_end(p, i) <= p.len(),
        seg_end(p, i) < p.len() ==> p[seg_end(p, i)] == '.',
    decreases p.len() - i,
{
    if i < p.len() && p[i] != '.' {
        lemma_seg_end_bounds(p, i + 1);
    }
}

/// One step of a path walk: an object member, or an array element by
/// decimal index.
pub open spec fn walk_step(v: JsonValue, seg: Seq<char>) -> Option<JsonValue> {
    match v {
        JsonValue::Object(m) => member(m@, seg),
        JsonValue::Array(a) => match parse_usize_spec(seg) {
            Some(idx) => if idx < a@.len() {
                Some(a@[idx as int])
            } else {
                None
            },
            None => None,
        },
        _ => None,
    }
}

/// The value reached by walking the dotted path `p` from position `i`;
/// empty segments are skipped.
pub open spec fn walk_at(v: JsonValue, p: Seq<char>, i: int) -> Option<JsonValue>
    decreases p.len() + 1 - i,
{
    if i < 0 || i > p.len() {
        None
    } else {
        let e = seg_end(p, i);
        let seg = p.subrange(i, e);
        let next = if seg.len() == 0 {
            Some(v)
        } else {
            walk_step(v, seg)
        };
        match next {
            None => None,
            Some(w) => if e >= p.len() {
                Some(w)
            } else {
                proof {
                    lemma_seg_end_bounds(p, i);
                }
                walk_at(w, p, e + 1)
            },
        }
    }
}

/// The path `p.q`: `p`, a dot, then `q`.
pub open spec fn join_path(p: Seq<char>, q: Seq<char>) -> Seq<char> {
    p + seq!['.'] + q
}

proof fn lemma_seg_end_prefix(p: Seq<char>, q: Seq<char>, i: int)
    requires
        0 <= i <= p.len(),
    ensures
        seg_end(join_path(p, q), i) == seg_end(p, i),
    decreases p.len() - i,
{
    let s = join_path(p, q);
    if i < p.len() {
        assert(s[i] == p[i]);
        if p[i] != '.' {
            lemma_seg_end_prefix(p, q, i + 1);
        }
    } else {
        assert(s[i] == '.');
    }
}

proof fn lemma_seg_end_shift(s: Seq<char>, q: Seq<char>, off: int, j: int)
    requires
        0 <= off,
        s.len() == off + q.len(),
        forall|k: int| 0 <= k < q.len() ==> s[off + k] == q[k],
        0 <= j <= q.len(),
    ensures
        seg_end(s, off + j) == off + seg_end(q, j),
    decreases q.len() - j,
{
    if j < q.len() {
        assert(s[off + j] == q[j]);
        if q[j] != '.' {
            lemma_seg_end_shift(s, q, off, j + 1);
        }
    }
}

proof fn lemma_walk_shift(w: JsonValue, s: Seq<char>, q: Seq<char>, off: int, j: int)
    requires
        0 <= off,
        s.len() == off + q.len(),
        forall|k: int| 0 <= k < q.len() ==> s[off + k] == q[k],
        0 <= j <= q.len(),
    ensures
        walk_at(w, s, off + j) == walk_at(w, q, j),
    decreases q.len() - j,
{
    lemma_seg_end_shift(s, q, off, j);
    lemma_seg_end_bounds(q, j);
    let e = seg_end(q, j);
    assert(s.subrange(off + j, off + e) =~= q.subrange(j, e)) by {
        assert forall|k: int| 0 <= k < e - j implies s.subrange(off + j, off + e)[k] == q.subrange(
            j,
            e,
        )[k] by {
            assert(s[off + (j + k)] == q[j + k]);
        }
    }
    let seg = q.subrange(j, e);
    let next = if seg.len() == 0 {
        Some(w)
    } else {
        walk_step(w, seg)
    };
    if e < q.len() {
        match next {
            Some(x) => {
                lemma_walk_shift(x, s, q, off, e + 1);
            },
            None => {},
        }
    }
}

proof fn lemma_walk_concat_from(v: JsonValue, p: Seq<char>, q: Seq<char>, i: int)
    requires
        0 <= i <= p.len(),
    ensures
        walk_at(v, join_path(p, q), i) == match walk_at(v, p, i) {
            None => None,
            Some(w) => walk_at(w, q, 0),
        },
    decreases p.len() - i,
{
    let s = join_path(p, q);
    lemma_seg_end_prefix(p, q, i);
    lemma_seg_end_bounds(p, i);
    let e = seg_end(p, i);
    assert(s.subrange(i, e) =~= p.subrange(i, e)) by {
        assert forall|k: int| 0 <= k < e - i implies s.subrange(i, e)[k] == p.subrange(i, e)[k] by {
            assert(s[i + k] == p[i + k]);
        }
    }
    let seg = p.subrange(i, e);
    let next = if seg.len() == 0 {
        Some(v)
    } else {
        walk_step(v, seg)
    };
    match next {
        None => {},
        Some(w) => {
            if e < p.len() {
                lemma_walk_concat_from(w, p, q, e + 1);
            } else {
                assert forall|k: int| 0 <= k < q.len() implies s[p.len() + 1 + k] == q[k] by {}
                lemma_walk_shift(w, s, q, (p.len() + 1) as int, 0int);
            }
        },
    }
}

/// Walking `p.q` is walking `p`, then `q` from where `p` led; and the
/// empty path leads to the value itself.
pub proof fn lemma_walk_path_concat(v: JsonValue, p: Seq<char>, q: Seq<char>)
    ensures
        walk_at(v, Seq::<char>::empty(), 0) == Some(v),
        walk_at(v, join_path(p, q), 0) == match walk_at(v, p, 0) {
            None => None,
            Some(w) => walk_at(w, q, 0),
        },
{
    assert(Seq::<char>::empty().subrange(0, 0) =~= Seq::<char>::empty());
    lemma_walk_concat_from(v, p, q, 0);
}

fn parse_index(t: &Vec<char>, a: usize, b: usize) -> (r: Option<usize>)
    requires
        a <= b <= t@.len(),
    ensures
        r == parse_usize_spec(t@.subrange(a as int, b as int)),
{
    let ghost s = t@.subrange(a as int, b as int);
    let mut k = a;
    if k < b && t[k] == '+' {
        k = k + 1;
    }
    let ghost d = t@.subrange(k as int, b as int);
    assert(d =~= unsigned_digits(s));
    if k == b {
        return None;
    }
    let start = k;
    let mut acc: usize = 0;
    while k < b
        invariant
            a <= start < b <= t@.len(),
            start <= k <= b,
            s == t@.subrange(a as int, b as int),
            d == unsigned_digits(s),
            d == t@.subrange(start as int, b as int),
            forall|i: int| start <= i < k ==> #[trigger] is_digit(t@[i]),
            acc == digits_value(t@.subrange(start as int, k as int)),
        decreases b - k,
    {
        let c = t[k];
        if !('0' <= c && c <= '9') {
            assert(d[k - start] == t@[k as int]);
            assert(!is_digit(d[k - start]));
            assert(!all_digits(d));
            return None;
        }
        let dv = (c as u32 - '0' as u32) as usize;
        assert(t@.subrange(start as int, k + 1).drop_last() =~= t@.subrange(start as int, k as int));
        let next = match acc.checked_mul(10) {
            Some(m) => m.checked_add(dv),
            None => None,
        };
        match next {
            Some(n) => {
                acc = n;
            },
            None => {
                proof {
                    let p = t@.subrange(start as int, k + 1);
                    assert(p.last() == c);
                    assert(digits_value(p) == acc * 10 + dv);
                    if all_digits(d) {
                        crate::sim_child::lemma_digits_grow(d, k + 1 - start);
                        assert(d.take(k + 1 - start) =~= p);
                    }
                }
                return None;
            },
        }
        k = k + 1;
    }
    assert(d =~= t@.subrange(start as int, k as int));
    Some(acc)
}

fn seg_end_exec(p: &Vec<char>, i: usize) -> (r: usize)
    requires
        i <= p@.len(),
    ensures
        r == seg_end(p@, i as int),
        i <= r <= p@.len(),
{
    let mut k = i;
    while k < p.len() && p[k] != '.'
        invariant
            i <= k <= p@.len(),
            seg_end(p@, i as int) == seg_end(p@, k as int),
        decreases p@.len() - k,
    {
        k = k + 1;
    }
    k
}

/// Walk a dotted path such as `tickers.AAPL.live_bracket` into a JSON
/// value: object members by name, array elements by decimal index,
/// empty segments skipped. `None` when a segment is missing.
pub fn walk_path<'a>(value: &'a JsonValue, path: &str) -> (r: Option<&'a JsonValue>)
    ensures
        match r {
            Some(v) => walk_at(*value, path@, 0) == Some(*v),
            None => walk_at(*value, path@, 0) is None,
        },
{
    let p = chars_of(path);
    let mut cursor: &'a JsonValue = value;
    let mut i: usize = 0;
    loop
        invariant
            p@ == path@,
            i <= p@.len(),
            walk_at(*value, path@, 0) == walk_at(*cursor, path@, i as int),
        decreases p@.len() + 1 - i,
    {
        let e = seg_end_exec(&p, i);
        let ghost seg = p@.subrange(i as int, e as int);
        if e > i {
            let next: Option<&'a JsonValue> = match cursor {
                JsonValue::Object(m) => {
                    let mut key = String::new();
                    let mut k = i;
                    while k < e
                        invariant
                            i <= k <= e <= p@.len(),
                            key@ == p@.subrange(i as int, k as int),
                        decreases e - k,
                    {
                        crate::text::push_char(&mut key, p[k]);
                        k = k + 1;
                        assert(key@ =~= p@.subrange(i as int, k as int));
                    }
                    get_member(m, key.as_str())
                },
                JsonValue::Array(a) => match parse_index(&p, i, e) {
                    Some(idx) => {
                        if idx < a.len() {
                            Some(&a[idx])
                        } else {
                            None
                        }
                    },
                    None => None,
                },
                _ => None,
            };
            match next {
                None => return None,
                Some(w) => {
                    cursor = w;
                },
            }
        } else {
            assert(seg.len() == 0);
        }
        if e >= p.len() {
            return Some(cursor);
        }
        i = e + 1;
    }
}

/// Source of the harness subscription: the port it listens on.
#[derive(Clone, Debug, PartialEq, Eq, Structural, Hash)]
pub struct DevHarnessSource {
    pub port: u16,
}

/// Router state as `dump_state` reports it.
#[derive(Clone, Debug)]
pub struct RouterStateProjection {
    /// Whether the router has been constructed yet.
    pub ready: bool,
    /// Symbols with at least one live subscription.
    pub subscribed_symbols: Vec<String>,
    /// Number of live symbol hubs.
    pub active_symbol_count: usize,
}

/// Broker connection state as `dump_state` reports it.
#[derive(Clone, Debug)]
pub struct BrokerProjection<'a> {
    pub connection_display: &'a str,
    pub sim_child_running: bool,
    pub sim_tws_port: Option<u16>,
}

impl<'a> BrokerProjection<'a> {
    /// The projection for a connection shown as `connection_display`,
    /// with a simulator child on `sim_tws_port` when one runs.
    pub fn new(connection_display: &'a str, sim_tws_port: Option<u16>) -> (r: Self)
        ensures
            r.connection_display@ == connection_display@,
            r.sim_child_running == sim_tws_port is Some,
            r.sim_tws_port == sim_tws_port,
    {
        BrokerProjection {
            connection_display,
            sim_child_running: sim_tws_port.is_some(),
            sim_tws_port,
        }
    }
}

/// An account panel as `dump_state` reports it.
#[derive(Clone, Debug)]
pub struct AccountPanelProjection<'a> {
    pub id: u32,
    pub name: &'a str,
    pub active_tab: String,
    pub disconnect_banner_ack: bool,
    pub history_cached_rows: usize,
}

/// The order blotter as `dump_state` reports it.
#[derive(Debug)]
pub struct OrderBlotterProjection<'a> {
    pub generation: u64,
    pub len: usize,
    pub rows: Vec<&'a OrderRow>,
}

impl<'a> OrderBlotterProjection<'a> {
    /// Project a blotter: its generation, its size and its rows in
    /// increasing leg-id order.
    pub fn of(blotter: &'a OrderBlotter) -> (r: Self)
        requires
            blotter.wf(),
        ensures
            r.generation == blotter@.generation,
            r.len == blotter@.rows.len(),
            r.rows@.len() == blotter@.rows.len(),
            forall|i: int|
                0 <= i < r.rows@.len() ==> #[trigger] blotter@.rows.contains_key(r.rows@[i].order_id)
                    && blotter@.rows[r.rows@[i].order_id] == r.rows@[i]@,
            forall|i: int, j: int|
                0 <= i < j < r.rows@.len() ==> r.rows@[i].order_id < r.rows@[j].order_id,
    {
        OrderBlotterProjection {
            generation: blotter.generation(),
            len: blotter.len(),
            rows: blotter.rows(),
        }
    }
}

/// A tab of the account panel.
#[derive(Copy, Clone, Debug, PartialEq, Eq, Structural)]
pub enum AccountTab {
    Positions,
    Orders,
    TradeHistory,
    Recents,
}

/// The account tab a `SetAccountTab` command names.
pub open spec fn account_tab_named(tab: Seq<char>) -> Option<AccountTab> {
    if tab == "positions"@ {
        Some(AccountTab::Positions)
    } else if tab == "orders"@ {
        Some(AccountTab::Orders)
    } else if tab == "trade-history"@ {
        Some(AccountTab::TradeHistory)
    } else if tab == "recents"@ {
        Some(AccountTab::Recents)
    } else {
        None
    }
}

/// Parse the tab name of a `SetAccountTab` command.
pub fn parse_account_tab(tab: &str) -> (r: Option<AccountTab>)
    ensures
        r == account_tab_named(tab@),
{
    if str_eq(tab, "positions") {
        Some(AccountTab::Positions)
    } else if str_eq(tab, "orders") {
        Some(AccountTab::Orders)
    } else if str_eq(tab, "trade-history") {
        Some(AccountTab::TradeHistory)
    } else if str_eq(tab, "recents") {
        Some(AccountTab::Recents)
    } else {
        None
    }
}

/// Size of the live event log at which it is rotated.
pub const ROTATE_AT_BYTES: u64 = 104857600;

/// How many recent entries `wait_for_event` can match against.
pub const RING_CAPACITY: usize = 1024;

/// Bookkeeping of the devloop event log: the cursor (events appended
/// since start), the recent entries `wait_for_event` matches against,
/// and the size of the live file with the count of rotations.
pub struct EventRing {
    cursor: u64,
    recent: Vec<(u64, &'static str)>,
    current_size: u64,
    rotation_count: u32,
}

/// Mathematical value of the event ring.
pub struct EventRingView {
    pub cursor: u64,
    pub recent: Seq<(u64, Seq<char>)>,
    pub current_size: u64,
    pub rotation_count: u32,
}

impl View for EventRing {
    type V = EventRingView;

    closed spec fn view(&self) -> EventRingView {
        EventRingView {
            cursor: self.cursor,
            recent: self.recent@.map_values(|e: (u64, &'static str)| (e.0, e.1@)),
            current_size: self.current_size,
            rotation_count: self.rotation_count,
        }
    }
}

/// The recent entries after recording one more: the oldest is dropped
/// when the ring is full.
pub open spec fn ring_after(recent: Seq<(u64, Seq<char>)>, cursor: u64, variant: Seq<char>) -> Seq<
    (u64, Seq<char>),
> {
    if recent.len() >= RING_CAPACITY {
        recent.drop_first().push((cursor, variant))
    } else {
        recent.push((cursor, variant))
    }
}

/// Position of the first recent entry with a cursor after `since` and
/// the variant `target`, scanning from `i`.
pub open spec fn first_match(recent: Seq<(u64, Seq<char>)>, target: Seq<char>, since: u64, i: int) -> Option<
    int,
>
    decreases recent.len() - i,
{
    if i < 0 || i >= recent.len() {
        None
    } else if recent[i].0 > since && recent[i].1 == target {
        Some(i)
    } else {
        first_match(recent, target, since, i + 1)
    }
}

/// The cursor `wait_for_event` matches: that of the first recent entry
/// after `since` with variant `target`.
pub open spec fn scan_spec(recent: Seq<(u64, Seq<char>)>, target: Seq<char>, since: u64) -> Option<u64> {
    match first_match(recent, target, since, 0) {
        Some(i) => Some(recent[i].0),
        None => None,
    }
}

/// Every retained entry was logged at or before the current cursor.
pub open spec fn cursors_bounded(v: EventRingView) -> bool {
    forall|i: int| 0 <= i < v.recent.len() ==> #[trigger] v.recent[i].0 <= v.cursor
}

impl EventRing {
    /// Well-formedness: the ring holds at most `RING_CAPACITY` entries.
    pub closed spec fn wf(&self) -> bool {
        self.recent@.len() <= RING_CAPACITY
    }

    /// An empty ring at cursor zero.
    pub fn new() -> (r: Self)
        ensures
            r.wf(),
            r@.cursor == 0,
            r@.recent == Seq::<(u64, Seq<char>)>::empty(),
            r@.current_size == 0,
            r@.rotation_count == 0,
            cursors_bounded(r@),
    {
        let r = EventRing { cursor: 0, recent: Vec::new(), current_size: 0, rotation_count: 0 };
        assert(r@.recent =~= Seq::<(u64, Seq<char>)>::empty());
        r
    }

    /// Current cursor (events appended since start).
    pub fn cursor(&self) -> (r: u64)
        ensures
            r == self@.cursor,
    {
        self.cursor
    }

    /// Bytes written to the live file since it was opened or rotated.
    pub fn current_size(&self) -> (r: u64)
        ensures
            r == self@.current_size,
    {
        self.current_size
    }

    /// How many times the file was rotated.
    pub fn rotation_count(&self) -> (r: u32)
        ensures
            r == self@.rotation_count,
    {
        self.rotation_count
    }

    /// Take the next cursor for an event about to be appended; the
    /// counter wraps like the atomic it stands for.
    pub fn next_cursor(&mut self) -> (r: u64)
        ensures
            r == (if old(self)@.cursor == u64::MAX {
                0
            } else {
                (old(self)@.cursor + 1) as u64
            }),
            final(self)@ == (EventRingView { cursor: r, ..old(self)@ }),
            old(self).wf() ==> final(self).wf(),
            cursors_bounded(old(self)@) && old(self)@.cursor < u64::MAX ==> cursors_bounded(
                final(self)@,
            ),
    {
        self.cursor = self.cursor.wrapping_add(1);
        self.cursor
    }

    /// Record an entry whose line of `line_len` bytes (plus newline) was
    /// written. Returns whether the live file has reached the rotation
    /// size.
    pub fn record(&mut self, cursor: u64, variant: &'static str, line_len: u64) -> (rotate: bool)
        requires
            old(self).wf(),
            old(self)@.current_size + line_len + 1 <= u64::MAX,
        ensures
            final(self).wf(),
            final(self)@.cursor == old(self)@.cursor,
            final(self)@.recent == ring_after(old(self)@.recent, cursor, variant@),
            final(self)@.current_size == old(self)@.current_size + line_len + 1,
            final(self)@.rotation_count == old(self)@.rotation_count,
            rotate == (final(self)@.current_size >= ROTATE_AT_BYTES),
            cursors_bounded(old(self)@) && cursor <= old(self)@.cursor ==> cursors_bounded(
                final(self)@,
            ),
    {
        self.current_size = self.current_size + line_len + 1;
        let ghost before = self.recent@;
        if self.recent.len() >= RING_CAPACITY {
            self.recent.remove(0);
            assert(self.recent@ =~= before.drop_first());
        }
        self.recent.push((cursor, variant));
        assert(self@.recent =~= ring_after(old(self)@.recent, cursor, variant@));
        self.current_size >= ROTATE_AT_BYTES
    }

    /// Note that the live file was rotated: it starts empty again.
    pub fn rotated(&mut self)
        requires
            old(self)@.rotation_count < u32::MAX,
        ensures
            final(self)@ == (EventRingView {
                current_size: 0,
                rotation_count: (old(self)@.rotation_count + 1) as u32,
                ..old(self)@
            }),
            old(self).wf() ==> final(self).wf(),
    {
        self.current_size = 0;
        self.rotation_count = self.rotation_count + 1;
    }

    /// The cursor of the first recent entry after `since_cursor` whose
    /// variant is `target_variant`.
    pub fn scan_ring(&self, target_variant: &str, since_cursor: u64) -> (r: Option<u64>)
        ensures
            r == scan_spec(self@.recent, target_variant@, since_cursor),
    {
        let n = self.recent.len();
        let mut i: usize = 0;
        while i < n
            invariant
                n == self.recent@.len(),
                i <= n,
                first_match(self@.recent, target_variant@, since_cursor, 0) == first_match(
                    self@.recent,
                    target_variant@,
                    since_cursor,
                    i as int,
                ),
            decreases n - i,
        {
            let (c, v) = self.recent[i];
            if c > since_cursor && str_eq(v, target_variant) {
                return Some(c);
            }
            i = i + 1;
        }
        None
    }
}

/// What a recorded entry gives back: scanning right after recording an
/// entry for a cursor past `since` finds it, unless an older retained
/// entry already matched.
pub proof fn lemma_recorded_entry_is_found(
    recent: Seq<(u64, Seq<char>)>,
    cursor: u64,
    variant: Seq<char>,
    since: u64,
)
    requires
        cursor > since,
        scan_spec(recent, variant, since) is None,
    ensures
        scan_spec(ring_after(recent, cursor, variant), variant, since) == Some(cursor),
{
    let r = ring_after(recent, cursor, variant);
    let base = if recent.len() >= RING_CAPACITY {
        recent.drop_first()
    } else {
        recent
    };
    lemma_no_match_suffix(recent, variant, since, 0);
    if recent.len() >= RING_CAPACITY {
        lemma_no_match_suffix(recent, variant, since, 1);
        lemma_shift_no_match(recent, variant, since);
    }
    lemma_no_match_push(base, cursor, variant, since, 0);
}

/// Appending an event (advancing the cursor, then recording the entry
/// at the new cursor) keeps every retained cursor within the current
/// one, and a scan for the event's variant from the previous cursor
/// then finds exactly the new entry.
pub proof fn lemma_append_is_found(v: EventRingView, variant: Seq<char>)
    requires
        cursors_bounded(v),
        v.cursor < u64::MAX,
    ensures
        ({
            let c = (v.cursor + 1) as u64;
            let after = EventRingView { cursor: c, recent: ring_after(v.recent, c, variant), ..v };
            &&& cursors_bounded(after)
            &&& scan_spec(after.recent, variant, v.cursor) == Some(c)
        }),
{
    let c = (v.cursor + 1) as u64;
    let r = ring_after(v.recent, c, variant);
    lemma_no_entry_means_none(v.recent, variant, v.cursor, 0);
    lemma_recorded_entry_is_found(v.recent, c, variant, v.cursor);
    assert forall|i: int| 0 <= i < r.len() implies #[trigger] r[i].0 <= c by {
        if v.recent.len() >= RING_CAPACITY {
            if i < r.len() - 1 {
                assert(r[i] == v.recent[i + 1]);
            }
        } else {
            if i < r.len() - 1 {
                assert(r[i] == v.recent[i]);
            }
        }
    }
}

proof fn lemma_no_match_suffix(recent: Seq<(u64, Seq<char>)>, target: Seq<char>, since: u64, i: int)
    requires
        0 <= i,
        first_match(recent, target, since, 0) is None,
    ensures
        first_match(recent, target, since, i) is None,
        forall|j: int| 0 <= j < recent.len() ==> !(recent[j].0 > since && recent[j].1 == target),
    decreases recent.len() - i,
{
    lemma_none_means_no_entry(recent, target, since, 0);
    lemma_no_entry_means_none(recent, target, since, i);
}

proof fn lemma_none_means_no_entry(recent: Seq<(u64, Seq<char>)>, target: Seq<char>, since: u64, i: int)
    requires
        0 <= i,
        first_match(recent, target, since, i) is None,
    ensures
        forall|j: int| i <= j < recent.len() ==> !(recent[j].0 > since && recent[j].1 == target),
    decreases recent.len() - i,
{
    if i < recent.len() {
        lemma_none_means_no_entry(recent, target, since, i + 1);
    }
}

proof fn lemma_no_entry_means_none(recent: Seq<(u64, Seq<char>)>, target: Seq<char>, since: u64, i: int)
    requires
        0 <= i,
        forall|j: int| i <= j < recent.len() ==> !(recent[j].0 > since && recent[j].1 == target),
    ensures
        first_match(recent, target, since, i) is None,
    decreases recent.len() - i,
{
    if i < recent.len() {
        lemma_no_entry_means_none(recent, target, since, i + 1);
    }
}

proof fn lemma_shift_no_match(recent: Seq<(u64, Seq<char>)>, target: Seq<char>, since: u64)
    requires
        recent.len() > 0,
        forall|j: int| 0 <= j < recent.len() ==> !(recent[j].0 > since && recent[j].1 == target),
    ensures
        first_match(recent.drop_first(), target, since, 0) is None,
{
    let d = recent.drop_first();
    assert forall|j: int| 0 <= j < d.len() implies !(d[j].0 > since && d[j].1 == target) by {
        assert(d[j] == recent[j + 1]);
    }
    lemma_no_entry_means_none(d, target, since, 0);
}

proof fn lemma_no_match_push(
    base: Seq<(u64, Seq<char>)>,
    cursor: u64,
    variant: Seq<char>,
    since: u64,
    i: int,
)
    requires
        0 <= i <= base.len(),
        cursor > since,
        first_match(base, variant, since, 0) is None,
    ensures
        first_match(base.push((cursor, variant)), variant, since, i) == Some(base.len() as int),
    decreases base.len() - i,
{
    lemma_none_means_no_entry(base, variant, since, 0);
    let r = base.push((cursor, variant));
    if i < base.len() {
        assert(r[i] == base[i]);
        lemma_no_match_push(base, cursor, variant, since, i + 1);
    } else {
        assert(r[i] == (cursor, variant));
    }
}

/// The text that names an account tab.
pub open spec fn account_tab_names(v: AccountTab) -> Seq<Seq<char>> {
    match v {
        AccountTab::Positions => seq!["positions"@],
        AccountTab::Orders => seq!["orders"@],
        AccountTab::TradeHistory => seq!["trade-history"@],
        AccountTab::Recents => seq!["recents"@],
    }
}

/// A tab text is read as the tab it names, and only that tab's name reads
/// as it.
pub proof fn lemma_account_tab_read_by_name(v: AccountTab, s: Seq<char>)
    ensures
        forall|i: int| 0 <= i < account_tab_names(v).len() ==> account_tab_named(#[trigger] account_tab_names(v)[i]) == Some(v),
        account_tab_named(s) == Some(v) ==> account_tab_names(v).contains(s),
{
    match v {
        AccountTab::Positions => {
            assert(account_tab_named("positions"@) == Some(AccountTab::Positions)) by {
                reveal_strlit("positions");
            }
            assert(account_tab_names(AccountTab::Positions)[0] == "positions"@);
            if account_tab_named(s) == Some(AccountTab::Positions) {
                if s == "positions"@ {
                    assert(account_tab_names(AccountTab::Positions)[0] == s);
                }
            }
        },
        AccountTab::Orders => {
            assert(account_tab_named("orders"@) == Some(AccountTab::Orders)) by {
                reveal_strlit("orders");
                reveal_strlit("positions");
                assert("orders"@.len() != "positions"@.len());
            }
            assert(account_tab_names(AccountTab::Orders)[0] == "orders"@);
            if account_tab_named(s) == Some(AccountTab::Orders) {
                if s == "orders"@ {
                    assert(account_tab_names(AccountTab::Orders)[0] == s);
                }
            }
        },
        AccountTab::TradeHistory => {
            assert(account_tab_named("trade-history"@) == Some(AccountTab::TradeHistory)) by {
                reveal_strlit("trade-history");
                reveal_strlit("positions");
                reveal_strlit("orders");
                assert("trade-history"@.len() != "positions"@.len());
                assert("trade-history"@.len() != "orders"@.len());
            }
            assert(account_tab_names(AccountTab::TradeHistory)[0] == "trade-history"@);
            if account_tab_named(s) == Some(AccountTab::TradeHistory) {
                if s == "trade-history"@ {
                    assert(account_tab_names(AccountTab::TradeHistory)[0] == s);
                }
            }
        },
        AccountTab::Recents => {
            assert(account_tab_named("recents"@) == Some(AccountTab::Recents)) by {
                reveal_strlit("recents");
                reveal_strlit("positions");
                reveal_strlit("orders");
                reveal_strlit("trade-history");
                assert("recents"@.len() != "positions"@.len());
                assert("recents"@.len() != "orders"@.len());
                assert("recents"@.len() != "trade-history"@.len());
            }
            assert(account_tab_names(AccountTab::Recents)[0] == "recents"@);
            if account_tab_named(s) == Some(AccountTab::Recents) {
                if s == "recents"@ {
                    assert(account_tab_names(AccountTab::Recents)[0] == s);
                }
            }
        },
    }
}

} // verus!
