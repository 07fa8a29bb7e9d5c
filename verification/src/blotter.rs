//! Per-leg order blotter: one row per broker-assigned leg id, built up
//! from broker events.
//!
//! - `BracketCreated` creates one to three rows sharing a parent id and
//!   is idempotent: a parent already indexed makes the event a no-op.
//! - `OrderStatusChanged` is authoritative for the cumulative fill
//!   quantities, the average fill price and the status.
//! - `OrderFilled` only stamps the update time.
//! - `OrderCancelled` / `OrderRejected` set the terminal status.
//!
//! Every event that touches a row bumps the generation counter.

use std::collections::{BTreeMap, HashMap};
use vstd::prelude::*;
use crate::broker::{self, BrokerEvent};
use crate::text::str_eq;
use vstd::std_specs::iter::IteratorSpec;
use vstd::std_specs::cmp::OrdSpec;

verus! {

broadcast use {
    vstd::std_specs::btree::group_btree_axioms,
    vstd::std_specs::hash::group_hash_axioms,
    vstd::laws_cmp::group_laws_cmp,
};

/// What role a leg plays inside its bracket.
#[derive(Copy, Clone, Debug, PartialEq, Eq, Structural)]
pub enum LegRole {
    /// The parent / entry order.
    Entry,
    /// Take-profit child.
    TakeProfit,
    /// Stop-loss child.
    StopLoss,
}

/// UI projection of an order's lifecycle.
#[derive(Copy, Clone, Debug, PartialEq, Eq, Structural)]
pub enum OrderStatus {
    Working,
    PartiallyFilled,
    Filled,
    Cancelled,
    Rejected,
}

/// Side of a blotter row.
#[derive(Copy, Clone, Debug, PartialEq, Eq, Structural)]
pub enum OrderAction {
    Buy,
    Sell,
}

/// Order type of a blotter row.
#[derive(Copy, Clone, Debug, PartialEq, Eq, Structural)]
pub enum EntryKind {
    Market,
    Limit,
    Stop,
    StopLimit,
}

/// Time in force of a blotter row.
#[derive(Copy, Clone, Debug, PartialEq, Eq, Structural)]
pub enum TimeInForce {
    Day,
    Gtc,
    Ioc,
    Gtd,
    Opg,
}

/// A UTC instant: seconds since the Unix epoch and the nanoseconds past
/// that second.
#[derive(Copy, Clone, Debug, PartialEq, Eq, Structural)]
pub struct UtcTime {
    pub secs: i64,
    pub nanos: u32,
}

/// Reads the wall clock through `chrono::Utc::now`. The result depends on
/// the time of the call, so nothing is promised of it.
#[verifier::external_body]
pub(crate) fn utc_now() -> (r: UtcTime) {
    let now = chrono::Utc::now();
    UtcTime { secs: now.timestamp(), nanos: now.timestamp_subsec_nanos() }
}

/// Display text of a status.
pub open spec fn status_name(s: OrderStatus) -> Seq<char> {
    match s {
        OrderStatus::Working => "Working"@,
        OrderStatus::PartiallyFilled => "Partial"@,
        OrderStatus::Filled => "Filled"@,
        OrderStatus::Cancelled => "Cancelled"@,
        OrderStatus::Rejected => "Rejected"@,
    }
}

/// The UI status a broker-reported status string maps to; unknown
/// strings map to `Working` so rows never silently vanish.
pub open spec fn status_from_broker(s: Seq<char>) -> OrderStatus {
    if s == "Filled"@ {
        OrderStatus::Filled
    } else if s == "PartiallyFilled"@ || s == "PartialFilled"@ || s == "Partial"@ {
        OrderStatus::PartiallyFilled
    } else if s == "Cancelled"@ || s == "ApiCancelled"@ || s == "PendingCancel"@ {
        OrderStatus::Cancelled
    } else if s == "Rejected"@ || s == "Inactive"@ {
        OrderStatus::Rejected
    } else {
        OrderStatus::Working
    }
}

impl OrderStatus {
    /// Display text of the status.
    pub fn as_str(&self) -> (r: &'static str)
        ensures
            r@ == status_name(*self),
    {
        match self {
            OrderStatus::Working => "Working",
            OrderStatus::PartiallyFilled => "Partial",
            OrderStatus::Filled => "Filled",
            OrderStatus::Cancelled => "Cancelled",
            OrderStatus::Rejected => "Rejected",
        }
    }

    /// Map a broker-reported (IB-style) status string to the UI projection.
    pub fn from_broker_str(s: &str) -> (r: Self)
        ensures
            r == status_from_broker(s@),
    {
        if str_eq(s, "Filled") {
            OrderStatus::Filled
        } else if str_eq(s, "PartiallyFilled") || str_eq(s, "PartialFilled") || str_eq(
            s,
            "Partial",
        ) {
            OrderStatus::PartiallyFilled
        } else if str_eq(s, "Cancelled") || str_eq(s, "ApiCancelled") || str_eq(
            s,
            "PendingCancel",
        ) {
            OrderStatus::Cancelled
        } else if str_eq(s, "Rejected") || str_eq(s, "Inactive") {
            OrderStatus::Rejected
        } else {
            OrderStatus::Working
        }
    }
}

/// A single blotter row. Quantities and prices are `f64` bit patterns.
#[derive(Clone, Debug)]
pub struct OrderRow {
    pub order_id: u128,
    pub parent_id: u128,
    pub leg_role: LegRole,
    pub symbol: String,
    pub side: OrderAction,
    pub kind: EntryKind,
    pub quantity: u64,
    pub filled_qty: u64,
    pub remaining_qty: u64,
    pub avg_fill_price: Option<u64>,
    pub limit_price: Option<u64>,
    pub stop_price: Option<u64>,
    /// Sibling take-profit price, denormalised for the TP column.
    pub tp_price: Option<u64>,
    /// Sibling stop-loss price, denormalised for the SL column.
    pub sl_price: Option<u64>,
    pub status: OrderStatus,
    pub time_in_force: Option<TimeInForce>,
    pub ib_order_id: Option<i32>,
    pub ib_perm_id: Option<i64>,
    pub created_at: UtcTime,
    pub last_update_at: UtcTime,
}

/// Mathematical value of a row: the symbol as characters.
pub struct RowView {
    pub order_id: u128,
    pub parent_id: u128,
    pub leg_role: LegRole,
    pub symbol: Seq<char>,
    pub side: OrderAction,
    pub kind: EntryKind,
    pub quantity: u64,
    pub filled_qty: u64,
    pub remaining_qty: u64,
    pub avg_fill_price: Option<u64>,
    pub limit_price: Option<u64>,
    pub stop_price: Option<u64>,
    pub tp_price: Option<u64>,
    pub sl_price: Option<u64>,
    pub status: OrderStatus,
    pub time_in_force: Option<TimeInForce>,
    pub ib_order_id: Option<i32>,
    pub ib_perm_id: Option<i64>,
    pub created_at: UtcTime,
    pub last_update_at: UtcTime,
}

impl View for OrderRow {
    type V = RowView;

    open spec fn view(&self) -> RowView {
        RowView {
            order_id: self.order_id,
            parent_id: self.parent_id,
            leg_role: self.leg_role,
            symbol: self.symbol@,
            side: self.side,
            kind: self.kind,
            quantity: self.quantity,
            filled_qty: self.filled_qty,
            remaining_qty: self.remaining_qty,
            avg_fill_price: self.avg_fill_price,
            limit_price: self.limit_price,
            stop_price: self.stop_price,
            tp_price: self.tp_price,
            sl_price: self.sl_price,
            status: self.status,
            time_in_force: self.time_in_force,
            ib_order_id: self.ib_order_id,
            ib_perm_id: self.ib_perm_id,
            created_at: self.created_at,
            last_update_at: self.last_update_at,
        }
    }
}

impl OrderRow {
    /// A field-by-field copy of the row.
    pub fn duplicate(&self) -> (r: OrderRow)
        ensures
            r@ == self@,
    {
        OrderRow {
            order_id: self.order_id,
            parent_id: self.parent_id,
            leg_role: self.leg_role,
            symbol: self.symbol.clone(),
            side: self.side,
            kind: self.kind,
            quantity: self.quantity,
            filled_qty: self.filled_qty,
            remaining_qty: self.remaining_qty,
            avg_fill_price: self.avg_fill_price,
            limit_price: self.limit_price,
            stop_price: self.stop_price,
            tp_price: self.tp_price,
            sl_price: self.sl_price,
            status: self.status,
            time_in_force: self.time_in_force,
            ib_order_id: self.ib_order_id,
            ib_perm_id: self.ib_perm_id,
            created_at: self.created_at,
            last_update_at: self.last_update_at,
        }
    }
}

/// Whether the IEEE-754 double with bit pattern `bits` is greater than
/// zero: sign bit clear, not zero, and not a NaN (positive infinity,
/// `0x7FF0_0000_0000_0000`, is included).
pub open spec fn f64_bits_positive(bits: u64) -> bool {
    0 < bits && bits <= 0x7FF0_0000_0000_0000
}

/// Whether the double with bit pattern `bits` is greater than zero.
pub fn f64_bits_is_positive(bits: u64) -> (r: bool)
    ensures
        r == f64_bits_positive(bits),
{
    0 < bits && bits <= 0x7FF0_0000_0000_0000
}

pub open spec fn action_of(a: broker::OrderAction) -> OrderAction {
    match a {
        broker::OrderAction::Buy => OrderAction::Buy,
        broker::OrderAction::Sell => OrderAction::Sell,
    }
}

pub open spec fn kind_of(k: broker::OrderKind) -> EntryKind {
    match k {
        broker::OrderKind::Market => EntryKind::Market,
        broker::OrderKind::Limit => EntryKind::Limit,
        broker::OrderKind::Stop => EntryKind::Stop,
        broker::OrderKind::StopLimit => EntryKind::StopLimit,
        broker::OrderKind::TrailingStop => EntryKind::Stop,
    }
}

pub open spec fn tif_of(t: broker::TimeInForce) -> TimeInForce {
    match t {
        broker::TimeInForce::Day => TimeInForce::Day,
        broker::TimeInForce::Gtc => TimeInForce::Gtc,
        broker::TimeInForce::Ioc => TimeInForce::Ioc,
        broker::TimeInForce::Gtd => TimeInForce::Gtd,
        broker::TimeInForce::Opg => TimeInForce::Opg,
    }
}

pub open spec fn opt_tif_of(t: Option<broker::TimeInForce>) -> Option<TimeInForce> {
    match t {
        Some(x) => Some(tif_of(x)),
        None => None,
    }
}

/// The side that closes a position opened on `side`.
pub open spec fn opposite(side: OrderAction) -> OrderAction {
    match side {
        OrderAction::Buy => OrderAction::Sell,
        OrderAction::Sell => OrderAction::Buy,
    }
}

fn translate_action(a: broker::OrderAction) -> (r: OrderAction)
    ensures
        r == action_of(a),
{
    match a {
        broker::OrderAction::Buy => OrderAction::Buy,
        broker::OrderAction::Sell => OrderAction::Sell,
    }
}

/// `TrailingStop` has no blotter counterpart and displays as `Stop`.
fn translate_kind(k: broker::OrderKind) -> (r: EntryKind)
    ensures
        r == kind_of(k),
{
    match k {
        broker::OrderKind::Market => EntryKind::Market,
        broker::OrderKind::Limit => EntryKind::Limit,
        broker::OrderKind::Stop => EntryKind::Stop,
        broker::OrderKind::StopLimit => EntryKind::StopLimit,
        broker::OrderKind::TrailingStop => EntryKind::Stop,
    }
}

fn translate_tif(t: broker::TimeInForce) -> (r: TimeInForce)
    ensures
        r == tif_of(t),
{
    match t {
        broker::TimeInForce::Day => TimeInForce::Day,
        broker::TimeInForce::Gtc => TimeInForce::Gtc,
        broker::TimeInForce::Ioc => TimeInForce::Ioc,
        broker::TimeInForce::Gtd => TimeInForce::Gtd,
        broker::TimeInForce::Opg => TimeInForce::Opg,
    }
}

fn translate_opt_tif(t: Option<broker::TimeInForce>) -> (r: Option<TimeInForce>)
    ensures
        r == opt_tif_of(t),
{
    match t {
        Some(x) => Some(translate_tif(x)),
        None => None,
    }
}


/// The live set of rows, keyed by broker-assigned leg id, with a
/// parent-id index that groups the legs of each bracket.
pub struct OrderBlotter {
    rows: BTreeMap<u128, OrderRow>,
    by_parent: HashMap<u128, Vec<u128>>,
    generation: u64,
}

/// Mathematical value of the blotter.
#[verifier::ext_equal]
pub struct BlotterView {
    pub rows: Map<u128, RowView>,
    pub by_parent: Map<u128, Seq<u128>>,
    pub generation: u64,
}

impl View for OrderBlotter {
    type V = BlotterView;

    closed spec fn view(&self) -> BlotterView {
        BlotterView {
            rows: self.rows@.map_values(|r: OrderRow| r@),
            by_parent: self.by_parent@.map_values(|v: Vec<u128>| v@),
            generation: self.generation,
        }
    }
}

/// The generation after a mutation: `generation + 1`, wrapping at `u64::MAX`.
pub open spec fn next_generation(g: u64) -> u64 {
    if g == u64::MAX {
        0
    } else {
        (g + 1) as u64
    }
}

/// Entry leg of a newly created bracket.
pub open spec fn entry_row(
    parent_id: u128,
    symbol: Seq<char>,
    action: broker::OrderAction,
    quantity: u64,
    tp_price: Option<u64>,
    sl_price: Option<u64>,
    entry_kind: broker::OrderKind,
    entry_limit_price: Option<u64>,
    entry_stop_price: Option<u64>,
    now: UtcTime,
) -> RowView {
    RowView {
        order_id: parent_id,
        parent_id: parent_id,
        leg_role: LegRole::Entry,
        symbol: symbol,
        side: action_of(action),
        kind: kind_of(entry_kind),
        quantity: quantity,
        filled_qty: 0,
        remaining_qty: quantity,
        avg_fill_price: None,
        limit_price: entry_limit_price,
        stop_price: entry_stop_price,
        tp_price: tp_price,
        sl_price: sl_price,
        status: OrderStatus::Working,
        time_in_force: None,
        ib_order_id: None,
        ib_perm_id: None,
        created_at: now,
        last_update_at: now,
    }
}

/// Take-profit leg: a limit order at `price` on the closing side.
pub open spec fn take_profit_row(
    id: u128,
    parent_id: u128,
    symbol: Seq<char>,
    action: broker::OrderAction,
    quantity: u64,
    price: u64,
    tp_price: Option<u64>,
    sl_price: Option<u64>,
    tp_tif: Option<broker::TimeInForce>,
    now: UtcTime,
) -> RowView {
    RowView {
        order_id: id,
        parent_id: parent_id,
        leg_role: LegRole::TakeProfit,
        symbol: symbol,
        side: opposite(action_of(action)),
        kind: EntryKind::Limit,
        quantity: quantity,
        filled_qty: 0,
        remaining_qty: quantity,
        avg_fill_price: None,
        limit_price: Some(price),
        stop_price: None,
        tp_price: tp_price,
        sl_price: sl_price,
        status: OrderStatus::Working,
        time_in_force: opt_tif_of(tp_tif),
        ib_order_id: None,
        ib_perm_id: None,
        created_at: now,
        last_update_at: now,
    }
}

/// Stop-loss leg: a stop (or stop-limit, when a limit is given) at
/// `price` on the closing side.
pub open spec fn stop_loss_row(
    id: u128,
    parent_id: u128,
    symbol: Seq<char>,
    action: broker::OrderAction,
    quantity: u64,
    price: u64,
    tp_price: Option<u64>,
    sl_price: Option<u64>,
    sl_limit_price: Option<u64>,
    sl_tif: Option<broker::TimeInForce>,
    now: UtcTime,
) -> RowView {
    RowView {
        order_id: id,
        parent_id: parent_id,
        leg_role: LegRole::StopLoss,
        symbol: symbol,
        side: opposite(action_of(action)),
        kind: if sl_limit_price is Some {
            EntryKind::StopLimit
        } else {
            EntryKind::Stop
        },
        quantity: quantity,
        filled_qty: 0,
        remaining_qty: quantity,
        avg_fill_price: None,
        limit_price: sl_limit_price,
        stop_price: Some(price),
        tp_price: tp_price,
        sl_price: sl_price,
        status: OrderStatus::Working,
        time_in_force: opt_tif_of(sl_tif),
        ib_order_id: None,
        ib_perm_id: None,
        created_at: now,
        last_update_at: now,
    }
}

/// A row after `OrderSubmitted`: broker ids recorded (a zero perm id is
/// ignored) and the update time stamped.
pub open spec fn submitted_row(r: RowView, ib_order_id: i32, ib_perm_id: i64, now: UtcTime) -> RowView {
    RowView {
        ib_order_id: Some(ib_order_id),
        ib_perm_id: if ib_perm_id != 0 {
            Some(ib_perm_id)
        } else {
            r.ib_perm_id
        },
        last_update_at: now,
        ..r
    }
}

/// A row after `OrderStatusChanged`: cumulative quantities and status
/// replaced, the average fill price replaced only when positive.
pub open spec fn status_changed_row(
    r: RowView,
    new_status: Seq<char>,
    filled_qty: u64,
    remaining_qty: u64,
    avg_fill_price: u64,
    now: UtcTime,
) -> RowView {
    RowView {
        filled_qty: filled_qty,
        remaining_qty: remaining_qty,
        avg_fill_price: if f64_bits_positive(avg_fill_price) {
            Some(avg_fill_price)
        } else {
            r.avg_fill_price
        },
        status: status_from_broker(new_status),
        last_update_at: now,
        ..r
    }
}

/// An in-place change to an existing row.
#[derive(Copy, Clone, Debug)]
pub enum RowUpdate {
    Submitted { ib_order_id: i32, ib_perm_id: i64 },
    StatusChanged { status: OrderStatus, filled_qty: u64, remaining_qty: u64, avg_fill_price: u64 },
    Stamp,
    Terminal(OrderStatus),
}

/// A row after an in-place update stamped at `now`.
pub open spec fn updated_row(r: RowView, u: RowUpdate, now: UtcTime) -> RowView {
    match u {
        RowUpdate::Submitted { ib_order_id, ib_perm_id } => submitted_row(
            r,
            ib_order_id,
            ib_perm_id,
            now,
        ),
        RowUpdate::StatusChanged { status, filled_qty, remaining_qty, avg_fill_price } => RowView {
            filled_qty: filled_qty,
            remaining_qty: remaining_qty,
            avg_fill_price: if f64_bits_positive(avg_fill_price) {
                Some(avg_fill_price)
            } else {
                r.avg_fill_price
            },
            status: status,
            last_update_at: now,
            ..r
        },
        RowUpdate::Stamp => stamped_row(r, now),
        RowUpdate::Terminal(status) => terminal_row(r, status, now),
    }
}

/// A row with only its update time stamped.
pub open spec fn stamped_row(r: RowView, now: UtcTime) -> RowView {
    RowView { last_update_at: now, ..r }
}

/// A row moved to a terminal status.
pub open spec fn terminal_row(r: RowView, status: OrderStatus, now: UtcTime) -> RowView {
    RowView { status: status, last_update_at: now, ..r }
}

/// Rows, index and touched ids after one event, before the generation
/// bump.
pub open spec fn event_effect(v: BlotterView, e: BrokerEvent, now: UtcTime) -> (
    Map<u128, RowView>,
    Map<u128, Seq<u128>>,
    Seq<u128>,
) {
    match e {
        BrokerEvent::BracketCreated {
            parent_id,
            take_profit_id,
            stop_loss_id,
            symbol,
            action,
            quantity,
            tp_price,
            sl_price,
            entry_kind,
            entry_limit_price,
            entry_stop_price,
            sl_limit_price,
            tp_tif,
            sl_tif,
            ..
        } => {
            if v.by_parent.contains_key(parent_id) {
                (v.rows, v.by_parent, Seq::empty())
            } else {
                let r1 = v.rows.insert(
                    parent_id,
                    entry_row(
                        parent_id,
                        symbol@,
                        action,
                        quantity,
                        tp_price,
                        sl_price,
                        entry_kind,
                        entry_limit_price,
                        entry_stop_price,
                        now,
                    ),
                );
                let t1 = seq![parent_id];
                let (r2, t2) = if take_profit_id is Some && tp_price is Some {
                    (
                        r1.insert(
                            take_profit_id->0,
                            take_profit_row(
                                take_profit_id->0,
                                parent_id,
                                symbol@,
                                action,
                                quantity,
                                tp_price->0,
                                tp_price,
                                sl_price,
                                tp_tif,
                                now,
                            ),
                        ),
                        t1.push(take_profit_id->0),
                    )
                } else {
                    (r1, t1)
                };
                let (r3, t3) = if stop_loss_id is Some && sl_price is Some {
                    (
                        r2.insert(
                            stop_loss_id->0,
                            stop_loss_row(
                                stop_loss_id->0,
                                parent_id,
                                symbol@,
                                action,
                                quantity,
                                sl_price->0,
                                tp_price,
                                sl_price,
                                sl_limit_price,
                                sl_tif,
                                now,
                            ),
                        ),
                        t2.push(stop_loss_id->0),
                    )
                } else {
                    (r2, t2)
                };
                (r3, v.by_parent.insert(parent_id, t3), t3)
            }
        },
        BrokerEvent::OrderSubmitted { order_id, ib_order_id, ib_perm_id } => {
            if v.rows.contains_key(order_id) {
                (
                    v.rows.insert(
                        order_id,
                        submitted_row(v.rows[order_id], ib_order_id, ib_perm_id, now),
                    ),
                    v.by_parent,
                    seq![order_id],
                )
            } else {
                (v.rows, v.by_parent, Seq::empty())
            }
        },
        BrokerEvent::OrderStatusChanged {
            order_id,
            new_status,
            filled_qty,
            remaining_qty,
            avg_fill_price,
            ..
        } => {
            if v.rows.contains_key(order_id) {
                (
                    v.rows.insert(
                        order_id,
                        status_changed_row(
                            v.rows[order_id],
                            new_status@,
                            filled_qty,
                            remaining_qty,
                            avg_fill_price,
                            now,
                        ),
                    ),
                    v.by_parent,
                    seq![order_id],
                )
            } else {
                (v.rows, v.by_parent, Seq::empty())
            }
        },
        BrokerEvent::OrderFilled { order_id, .. } => {
            if v.rows.contains_key(order_id) {
                (
                    v.rows.insert(order_id, stamped_row(v.rows[order_id], now)),
                    v.by_parent,
                    seq![order_id],
                )
            } else {
                (v.rows, v.by_parent, Seq::empty())
            }
        },
        BrokerEvent::OrderCancelled { order_id, .. } => {
            if v.rows.contains_key(order_id) {
                (
                    v.rows.insert(
                        order_id,
                        terminal_row(v.rows[order_id], OrderStatus::Cancelled, now),
                    ),
                    v.by_parent,
                    seq![order_id],
                )
            } else {
                (v.rows, v.by_parent, Seq::empty())
            }
        },
        BrokerEvent::OrderRejected { order_id, .. } => {
            if v.rows.contains_key(order_id) {
                (
                    v.rows.insert(
                        order_id,
                        terminal_row(v.rows[order_id], OrderStatus::Rejected, now),
                    ),
                    v.by_parent,
                    seq![order_id],
                )
            } else {
                (v.rows, v.by_parent, Seq::empty())
            }
        },
        _ => (v.rows, v.by_parent, Seq::empty()),
    }
}

/// Rows after inserting `rs` in order, later ids replacing earlier ones.
pub open spec fn rows_after(rs: Seq<RowView>) -> Map<u128, RowView>
    decreases rs.len(),
{
    if rs.len() == 0 {
        Map::empty()
    } else {
        rows_after(rs.drop_last()).insert(rs.last().order_id, rs.last())
    }
}

/// Parent index after listing each of `rs`, in order, under its parent.
pub open spec fn index_after(rs: Seq<RowView>) -> Map<u128, Seq<u128>>
    decreases rs.len(),
{
    if rs.len() == 0 {
        Map::empty()
    } else {
        let m = index_after(rs.drop_last());
        let r = rs.last();
        let prev = if m.contains_key(r.parent_id) {
            m[r.parent_id]
        } else {
            Seq::empty()
        };
        m.insert(r.parent_id, prev.push(r.order_id))
    }
}

/// The blotter after one event stamped at `now`, and the ids of the rows
/// the event touched. The generation moves on exactly when some row was
/// touched.
pub open spec fn apply_event(v: BlotterView, e: BrokerEvent, now: UtcTime) -> (BlotterView, Seq<u128>) {
    let (rows, by_parent, touched) = event_effect(v, e, now);
    (
        BlotterView {
            rows: rows,
            by_parent: by_parent,
            generation: if touched.len() > 0 {
                next_generation(v.generation)
            } else {
                v.generation
            },
        },
        touched,
    )
}

/// The blotter restored from the rows `rs`, replacing one at generation
/// `old_generation`.
pub open spec fn hydrated(rs: Seq<RowView>, old_generation: u64) -> BlotterView {
    BlotterView {
        rows: rows_after(rs),
        by_parent: index_after(rs),
        generation: next_generation(old_generation),
    }
}

/// Well-formedness of a blotter: every row is keyed by its own leg id,
/// every row is listed under its parent in the index, and every id the
/// index lists names a row.
pub open spec fn blotter_wf(v: BlotterView) -> bool {
    &&& forall|k: u128| #[trigger] v.rows.contains_key(k) ==> v.rows[k].order_id == k
    &&& forall|k: u128| #[trigger]
        v.rows.contains_key(k) ==> v.by_parent.contains_key(v.rows[k].parent_id)
            && v.by_parent[v.rows[k].parent_id].contains(k)
    &&& forall|p: u128, i: int|
        v.by_parent.contains_key(p) && 0 <= i < v.by_parent[p].len() ==> v.rows.contains_key(
            #[trigger] v.by_parent[p][i],
        )
}

impl OrderBlotter {
    /// Well-formedness of this blotter.
    pub open spec fn wf(&self) -> bool {
        blotter_wf(self@)
    }

    /// An empty blotter at generation zero.
    pub fn new() -> (r: Self)
        ensures
            r@.rows == Map::<u128, RowView>::empty(),
            r@.by_parent == Map::<u128, Seq<u128>>::empty(),
            r@.generation == 0,
            r.wf(),
    {
        let r = OrderBlotter { rows: BTreeMap::new(), by_parent: HashMap::new(), generation: 0 };
        assert(r@.rows =~= Map::<u128, RowView>::empty());
        assert(r@.by_parent =~= Map::<u128, Seq<u128>>::empty());
        r
    }

    /// Current mutation generation.
    pub fn generation(&self) -> (r: u64)
        ensures
            r == self@.generation,
    {
        self.generation
    }

    /// Number of rows.
    pub fn len(&self) -> (r: usize)
        ensures
            r == self@.rows.len(),
    {
        assert(self@.rows.dom() =~= self.rows@.dom());
        self.rows.len()
    }

    /// Whether the blotter holds no row.
    pub fn is_empty(&self) -> (r: bool)
        ensures
            r == (self@.rows.len() == 0),
    {
        assert(self@.rows.dom() =~= self.rows@.dom());
        self.rows.is_empty()
    }

    /// Look up a single row by leg id.
    pub fn row(&self, id: u128) -> (r: Option<&OrderRow>)
        ensures
            match r {
                Some(row) => self@.rows.contains_key(id) && row@ == self@.rows[id],
                None => !self@.rows.contains_key(id),
            },
    {
        self.rows.get(&id)
    }

    /// Apply an in-place update to an existing row; an unknown id is a
    /// no-op.
    fn touch_row(&mut self, order_id: u128, update: RowUpdate, now: UtcTime) -> (touched: Vec<u128>)
        ensures
            final(self)@.generation == old(self)@.generation,
            final(self)@.by_parent == old(self)@.by_parent,
            old(self)@.rows.contains_key(order_id) ==> {
                &&& final(self)@.rows == old(self)@.rows.insert(
                    order_id,
                    updated_row(old(self)@.rows[order_id], update, now),
                )
                &&& touched@ == seq![order_id]
            },
            !old(self)@.rows.contains_key(order_id) ==> {
                &&& final(self)@.rows == old(self)@.rows
                &&& touched@ == Seq::<u128>::empty()
            },
    {
        match self.rows.remove(&order_id) {
            None => {
                assert(self@.rows =~= old(self)@.rows);
                Vec::new()
            },
            Some(mut row) => {
                match update {
                    RowUpdate::Submitted { ib_order_id, ib_perm_id } => {
                        row.ib_order_id = Some(ib_order_id);
                        if ib_perm_id != 0 {
                            row.ib_perm_id = Some(ib_perm_id);
                        }
                    },
                    RowUpdate::StatusChanged {
                        status,
                        filled_qty,
                        remaining_qty,
                        avg_fill_price,
                    } => {
                        row.filled_qty = filled_qty;
                        row.remaining_qty = remaining_qty;
                        if f64_bits_is_positive(avg_fill_price) {
                            row.avg_fill_price = Some(avg_fill_price);
                        }
                        row.status = status;
                    },
                    RowUpdate::Stamp => {},
                    RowUpdate::Terminal(status) => {
                        row.status = status;
                    },
                }
                row.last_update_at = now;
                self.rows.insert(order_id, row);
                assert(self@.rows =~= old(self)@.rows.insert(
                    order_id,
                    updated_row(old(self)@.rows[order_id], update, now),
                ));
                let mut t = Vec::new();
                t.push(order_id);
                t
            },
        }
    }

    /// Create the rows of a new bracket; a parent that is already indexed
    /// makes this a replay and a no-op.
    fn apply_bracket_created(&mut self, event: &BrokerEvent, now: UtcTime) -> (touched: Vec<u128>)
        requires
            event is BracketCreated,
        ensures
            final(self)@.generation == old(self)@.generation,
            final(self)@.rows == event_effect(old(self)@, *event, now).0,
            final(self)@.by_parent == event_effect(old(self)@, *event, now).1,
            touched@ == event_effect(old(self)@, *event, now).2,
    {
        match event {
            BrokerEvent::BracketCreated {
                parent_id,
                take_profit_id,
                stop_loss_id,
                symbol,
                action,
                quantity,
                tp_price,
                sl_price,
                entry_kind,
                entry_limit_price,
                entry_stop_price,
                sl_limit_price,
                tp_tif,
                sl_tif,
                ..
            } => {
                if self.by_parent.contains_key(parent_id) {
                    return Vec::new();
                }
                let ghost v0 = old(self)@;
                let side = translate_action(*action);
                let kind = translate_kind(*entry_kind);
                let entry = OrderRow {
                    order_id: *parent_id,
                    parent_id: *parent_id,
                    leg_role: LegRole::Entry,
                    symbol: symbol.clone(),
                    side: side,
                    kind: kind,
                    quantity: *quantity,
                    filled_qty: 0,
                    remaining_qty: *quantity,
                    avg_fill_price: None,
                    limit_price: *entry_limit_price,
                    stop_price: *entry_stop_price,
                    tp_price: *tp_price,
                    sl_price: *sl_price,
                    status: OrderStatus::Working,
                    time_in_force: None,
                    ib_order_id: None,
                    ib_perm_id: None,
                    created_at: now,
                    last_update_at: now,
                };
                self.rows.insert(*parent_id, entry);
                let ghost r1 = v0.rows.insert(
                    *parent_id,
                    entry_row(
                        *parent_id,
                        symbol@,
                        *action,
                        *quantity,
                        *tp_price,
                        *sl_price,
                        *entry_kind,
                        *entry_limit_price,
                        *entry_stop_price,
                        now,
                    ),
                );
                assert(self@.rows =~= r1);
                let mut touched: Vec<u128> = Vec::new();
                let mut ids: Vec<u128> = Vec::new();
                touched.push(*parent_id);
                ids.push(*parent_id);
                let child_side = match side {
                    OrderAction::Buy => OrderAction::Sell,
                    OrderAction::Sell => OrderAction::Buy,
                };
                let ghost r2 = r1;
                match (take_profit_id, tp_price) {
                    (Some(id), Some(price)) => {
                        let row = OrderRow {
                            order_id: *id,
                            parent_id: *parent_id,
                            leg_role: LegRole::TakeProfit,
                            symbol: symbol.clone(),
                            side: child_side,
                            kind: EntryKind::Limit,
                            quantity: *quantity,
                            filled_qty: 0,
                            remaining_qty: *quantity,
                            avg_fill_price: None,
                            limit_price: Some(*price),
                            stop_price: None,
                            tp_price: *tp_price,
                            sl_price: *sl_price,
                            status: OrderStatus::Working,
                            time_in_force: translate_opt_tif(*tp_tif),
                            ib_order_id: None,
                            ib_perm_id: None,
                            created_at: now,
                            last_update_at: now,
                        };
                        self.rows.insert(*id, row);
                        proof {
                            r2 = r1.insert(
                                *id,
                                take_profit_row(
                                    *id,
                                    *parent_id,
                                    symbol@,
                                    *action,
                                    *quantity,
                                    *price,
                                    *tp_price,
                                    *sl_price,
                                    *tp_tif,
                                    now,
                                ),
                            );
                        }
                        assert(self@.rows =~= r2);
                        touched.push(*id);
                        ids.push(*id);
                    },
                    _ => {},
                }
                let ghost r3 = r2;
                match (stop_loss_id, sl_price) {
                    (Some(id), Some(price)) => {
                        let sl_kind = if sl_limit_price.is_some() {
                            EntryKind::StopLimit
                        } else {
                            EntryKind::Stop
                        };
                        let row = OrderRow {
                            order_id: *id,
                            parent_id: *parent_id,
                            leg_role: LegRole::StopLoss,
                            symbol: symbol.clone(),
                            side: child_side,
                            kind: sl_kind,
                            quantity: *quantity,
                            filled_qty: 0,
                            remaining_qty: *quantity,
                            avg_fill_price: None,
                            limit_price: *sl_limit_price,
                            stop_price: Some(*price),
                            tp_price: *tp_price,
                            sl_price: *sl_price,
                            status: OrderStatus::Working,
                            time_in_force: translate_opt_tif(*sl_tif),
                            ib_order_id: None,
                            ib_perm_id: None,
                            created_at: now,
                            last_update_at: now,
                        };
                        self.rows.insert(*id, row);
                        proof {
                            r3 = r2.insert(
                                *id,
                                stop_loss_row(
                                    *id,
                                    *parent_id,
                                    symbol@,
                                    *action,
                                    *quantity,
                                    *price,
                                    *tp_price,
                                    *sl_price,
                                    *sl_limit_price,
                                    *sl_tif,
                                    now,
                                ),
                            );
                        }
                        assert(self@.rows =~= r3);
                        touched.push(*id);
                        ids.push(*id);
                    },
                    _ => {},
                }
                self.by_parent.insert(*parent_id, ids);
                assert(self@.by_parent =~= v0.by_parent.insert(*parent_id, touched@));
                touched
            },
            _ => Vec::new(),
        }
    }

    /// Apply one broker event stamped at `now`. Returns the ids of the
    /// rows it touched, empty when the event was irrelevant, replayed or
    /// named an unknown leg.
    pub fn apply_at(&mut self, event: &BrokerEvent, now: UtcTime) -> (touched: Vec<u128>)
        ensures
            final(self)@ == apply_event(old(self)@, *event, now).0,
            touched@ == apply_event(old(self)@, *event, now).1,
            old(self).wf() ==> final(self).wf(),
    {
        proof {
            if old(self).wf() {
                crate::blotter_laws::lemma_apply_preserves_wf(old(self)@, *event, now);
            }
        }
        let touched = match event {
            BrokerEvent::BracketCreated { .. } => self.apply_bracket_created(event, now),
            BrokerEvent::OrderSubmitted { order_id, ib_order_id, ib_perm_id } => self.touch_row(
                *order_id,
                RowUpdate::Submitted { ib_order_id: *ib_order_id, ib_perm_id: *ib_perm_id },
                now,
            ),
            BrokerEvent::OrderStatusChanged {
                order_id,
                new_status,
                filled_qty,
                remaining_qty,
                avg_fill_price,
                ..
            } => {
                let status = OrderStatus::from_broker_str(new_status.as_str());
                self.touch_row(
                    *order_id,
                    RowUpdate::StatusChanged {
                        status,
                        filled_qty: *filled_qty,
                        remaining_qty: *remaining_qty,
                        avg_fill_price: *avg_fill_price,
                    },
                    now,
                )
            },
            BrokerEvent::OrderFilled { order_id, .. } => self.touch_row(
                *order_id,
                RowUpdate::Stamp,
                now,
            ),
            BrokerEvent::OrderCancelled { order_id, .. } => self.touch_row(
                *order_id,
                RowUpdate::Terminal(OrderStatus::Cancelled),
                now,
            ),
            BrokerEvent::OrderRejected { order_id, .. } => self.touch_row(
                *order_id,
                RowUpdate::Terminal(OrderStatus::Rejected),
                now,
            ),
            _ => {
                assert(self@.rows =~= old(self)@.rows);
                Vec::new()
            },
        };
        if touched.len() > 0 {
            self.generation = self.generation.wrapping_add(1);
        }
        assert(self@ =~= apply_event(old(self)@, *event, now).0);
        touched
    }

    /// Apply one broker event stamped with the current wall-clock time.
    pub fn apply(&mut self, event: &BrokerEvent) -> (touched: Vec<u128>)
        ensures
            exists|now: UtcTime|
                final(self)@ == apply_event(old(self)@, *event, now).0 && touched@
                    == apply_event(old(self)@, *event, now).1,
            old(self).wf() ==> final(self).wf(),
    {
        let now = utc_now();
        self.apply_at(event, now)
    }

    /// Replace the contents with persisted rows, e.g. on startup, and
    /// rebuild the parent index. Later rows with a repeated id replace
    /// earlier ones.
    pub fn hydrate(&mut self, rows: Vec<OrderRow>)
        ensures
            final(self)@.rows == rows_after(rows@.map_values(|r: OrderRow| r@)),
            final(self)@.by_parent == index_after(rows@.map_values(|r: OrderRow| r@)),
            final(self)@.generation == next_generation(old(self)@.generation),
            final(self)@ == hydrated(rows@.map_values(|r: OrderRow| r@), old(self)@.generation),
            final(self).wf(),
    {
        self.rows.clear();
        self.by_parent.clear();
        let ghost views = rows@.map_values(|r: OrderRow| r@);
        let n = rows.len();
        let mut i: usize = 0;
        assert(self@.rows =~= rows_after(views.take(0)));
        assert(self@.by_parent =~= index_after(views.take(0)));
        while i < n
            invariant
                n == rows.len(),
                i <= n,
                views == rows@.map_values(|r: OrderRow| r@),
                self@.rows == rows_after(views.take(i as int)),
                self@.by_parent == index_after(views.take(i as int)),
                self.generation == old(self).generation,
            decreases n - i,
        {
            let row = rows[i].duplicate();
            let order_id = row.order_id;
            let parent_id = row.parent_id;
            let ghost before = views.take(i as int);
            assert(views.take(i + 1) =~= before.push(row@));
            assert(views.take(i + 1).drop_last() =~= before);
            let mut list = match self.by_parent.remove(&parent_id) {
                Some(l) => l,
                None => Vec::new(),
            };
            list.push(order_id);
            self.by_parent.insert(parent_id, list);
            self.rows.insert(order_id, row);
            assert(self@.rows =~= rows_after(views.take(i + 1)));
            assert(self@.by_parent =~= index_after(views.take(i + 1)));
            i = i + 1;
        }
        assert(views.take(n as int) =~= views);
        self.generation = self.generation.wrapping_add(1);
        proof {
            crate::blotter_laws::lemma_restored_rows_wf(views, self.generation);
        }
    }

    /// All rows in increasing leg-id order.
    pub fn rows(&self) -> (r: Vec<&OrderRow>)
        requires
            self.wf(),
        ensures
            r@.len() == self@.rows.len(),
            forall|i: int| 0 <= i < r@.len() ==> #[trigger] self@.rows.contains_key(r@[i].order_id)
                && self@.rows[r@[i].order_id] == r@[i]@,
            forall|i: int, j: int| 0 <= i < j < r@.len() ==> r@[i].order_id < r@[j].order_id,
    {
        let values = self.rows.values();
        proof {
            let ks = choose|ks: Seq<u128>|
                {
                    &&& vstd::std_specs::btree::increasing_seq(ks)
                    &&& ks.to_set() == self.rows@.dom()
                    &&& ks.no_duplicates()
                    &&& IteratorSpec::remaining(&values) == ks.map(|i: int, k: u128| &self.rows@[k])
                };
            let rem = IteratorSpec::remaining(&values);
            assert(self@.rows.dom() =~= self.rows@.dom());
            ks.unique_seq_to_set();
            assert(rem.len() == self@.rows.len());
            assert forall|i: int| 0 <= i < rem.len() implies #[trigger] self@.rows.contains_key(
                rem[i].order_id,
            ) && self@.rows[rem[i].order_id] == rem[i]@ by {
                assert(ks.to_set().contains(ks[i]));
                assert(rem[i] == &self.rows@[ks[i]]);
            }
            assert forall|i: int, j: int| 0 <= i < j < rem.len() implies rem[i].order_id
                < rem[j].order_id by {
                assert(ks.to_set().contains(ks[i]));
                assert(ks.to_set().contains(ks[j]));
                assert(vstd::laws_cmp::obeys_cmp::<u128>());
                assert(ks[i].cmp_spec(&ks[j]) is Less);
            }
        }
        let ghost rem = IteratorSpec::remaining(&values);
        let mut out: Vec<&OrderRow> = Vec::new();
        for row in it: values
            invariant
                it.seq() == rem,
                out@.len() == it.index(),
                forall|k: int| 0 <= k < out@.len() ==> out@[k] == rem[k],
        {
            out.push(row);
        }
        assert(out@ =~= rem);
        out
    }
}

} // verus!
