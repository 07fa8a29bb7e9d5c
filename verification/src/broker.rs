//! Broker-side events and order vocabulary, as the desktop receives them
//! from the broker engine, plus their stable wire-level variant names.
//!
//! Identifiers are UUIDs carried as their 128-bit value. Prices and
//! quantities are carried as IEEE-754 `f64` bit patterns (`u64`), exactly
//! as the engine produced them: this library stores and compares them but
//! never does arithmetic on them.

use vstd::prelude::*;

verus! {

/// Buy or sell, as the broker engine reports it.
#[derive(Copy, Clone, Debug, PartialEq, Eq, Structural)]
pub enum OrderAction {
    Buy,
    Sell,
}

/// Order type, as the broker engine reports it.
#[derive(Copy, Clone, Debug, PartialEq, Eq, Structural)]
pub enum OrderKind {
    Market,
    Limit,
    Stop,
    StopLimit,
    TrailingStop,
}

/// Time in force, as the broker engine reports it.
#[derive(Copy, Clone, Debug, PartialEq, Eq, Structural)]
pub enum TimeInForce {
    Day,
    Gtc,
    Ioc,
    Gtd,
    Opg,
}

/// A market-data subscription key: ticker plus contract id.
#[derive(Clone, Debug)]
pub struct SymbolKey {
    pub symbol: String,
    pub contract_id: i64,
}

/// An event from the broker engine's broadcast stream. Variants carry the
/// fields this library reads; the others are kept so that every event the
/// engine emits has a name.
#[derive(Clone, Debug)]
pub enum BrokerEvent {
    Connected { server_version: i32 },
    Disconnected { reason: String },
    Reconnecting,
    Reconnected,
    OrderCreated,
    OrderSubmitted { order_id: u128, ib_order_id: i32, ib_perm_id: i64 },
    OrderStatusChanged {
        order_id: u128,
        old_status: String,
        new_status: String,
        filled_qty: u64,
        remaining_qty: u64,
        avg_fill_price: u64,
    },
    OrderFilled {
        order_id: u128,
        ib_exec_id: String,
        shares: u64,
        price: u64,
        commission: Option<u64>,
    },
    OrderRejected { order_id: u128, reason: String },
    OrderCancelled { order_id: u128, reason: String },
    OrderError,
    OrderValidationFailed,
    BracketCreated {
        parent_id: u128,
        take_profit_id: Option<u128>,
        stop_loss_id: Option<u128>,
        symbol: String,
        action: OrderAction,
        quantity: u64,
        tp_price: Option<u64>,
        sl_price: Option<u64>,
        reference_price: Option<u64>,
        entry_kind: OrderKind,
        entry_limit_price: Option<u64>,
        entry_stop_price: Option<u64>,
        sl_limit_price: Option<u64>,
        tp_tif: Option<TimeInForce>,
        sl_tif: Option<TimeInForce>,
    },
    BracketStatusChanged,
    Tick { symbol: SymbolKey },
    RealtimeBar { symbol: SymbolKey },
    BarClosed { symbol: SymbolKey },
    BarUpdated { symbol: SymbolKey },
    HistoricalDataComplete { symbol: SymbolKey },
    DepthUpdate { symbol: SymbolKey },
    PositionUpdate { account: String, symbol: String, con_id: i32, quantity: u64, avg_cost: u64 },
    AccountValueUpdate,
    PnlUpdate,
    Warning,
    DataFarmStatus,
    Error,
    OrderSnapshot,
}

/// Mathematical value of a broker event: text fields as characters.
pub enum BrokerEventView {
    Connected { server_version: i32 },
    Disconnected { reason: Seq<char> },
    Reconnecting,
    Reconnected,
    OrderCreated,
    OrderSubmitted { order_id: u128, ib_order_id: i32, ib_perm_id: i64 },
    OrderStatusChanged {
        order_id: u128,
        old_status: Seq<char>,
        new_status: Seq<char>,
        filled_qty: u64,
        remaining_qty: u64,
        avg_fill_price: u64,
    },
    OrderFilled {
        order_id: u128,
        ib_exec_id: Seq<char>,
        shares: u64,
        price: u64,
        commission: Option<u64>,
    },
    OrderRejected { order_id: u128, reason: Seq<char> },
    OrderCancelled { order_id: u128, reason: Seq<char> },
    OrderError,
    OrderValidationFailed,
    BracketCreated {
        parent_id: u128,
        take_profit_id: Option<u128>,
        stop_loss_id: Option<u128>,
        symbol: Seq<char>,
        action: OrderAction,
        quantity: u64,
        tp_price: Option<u64>,
        sl_price: Option<u64>,
        reference_price: Option<u64>,
        entry_kind: OrderKind,
        entry_limit_price: Option<u64>,
        entry_stop_price: Option<u64>,
        sl_limit_price: Option<u64>,
        tp_tif: Option<TimeInForce>,
        sl_tif: Option<TimeInForce>,
    },
    BracketStatusChanged,
    Tick { symbol: Seq<char>, contract_id: i64 },
    RealtimeBar { symbol: Seq<char>, contract_id: i64 },
    BarClosed { symbol: Seq<char>, contract_id: i64 },
    BarUpdated { symbol: Seq<char>, contract_id: i64 },
    HistoricalDataComplete { symbol: Seq<char>, contract_id: i64 },
    DepthUpdate { symbol: Seq<char>, contract_id: i64 },
    PositionUpdate {
        account: Seq<char>,
        symbol: Seq<char>,
        con_id: i32,
        quantity: u64,
        avg_cost: u64,
    },
    AccountValueUpdate,
    PnlUpdate,
    Warning,
    DataFarmStatus,
    Error,
    OrderSnapshot,
}

impl View for BrokerEvent {
    type V = BrokerEventView;

    open spec fn view(&self) -> BrokerEventView {
        match *self {
            BrokerEvent::Connected { server_version } => BrokerEventView::Connected { server_version },
            BrokerEvent::Disconnected { reason } => BrokerEventView::Disconnected { reason: reason@ },
            BrokerEvent::Reconnecting => BrokerEventView::Reconnecting,
            BrokerEvent::Reconnected => BrokerEventView::Reconnected,
            BrokerEvent::OrderCreated => BrokerEventView::OrderCreated,
            BrokerEvent::OrderSubmitted { order_id, ib_order_id, ib_perm_id } => {
                BrokerEventView::OrderSubmitted { order_id, ib_order_id, ib_perm_id }
            },
            BrokerEvent::OrderStatusChanged {
                order_id,
                old_status,
                new_status,
                filled_qty,
                remaining_qty,
                avg_fill_price,
            } => BrokerEventView::OrderStatusChanged {
                order_id,
                old_status: old_status@,
                new_status: new_status@,
                filled_qty,
                remaining_qty,
                avg_fill_price,
            },
            BrokerEvent::OrderFilled { order_id, ib_exec_id, shares, price, commission } => {
                BrokerEventView::OrderFilled {
                    order_id,
                    ib_exec_id: ib_exec_id@,
                    shares,
                    price,
                    commission,
                }
            },
            BrokerEvent::OrderRejected { order_id, reason } => BrokerEventView::OrderRejected {
                order_id,
                reason: reason@,
            },
            BrokerEvent::OrderCancelled { order_id, reason } => BrokerEventView::OrderCancelled {
                order_id,
                reason: reason@,
            },
            BrokerEvent::OrderError => BrokerEventView::OrderError,
            BrokerEvent::OrderValidationFailed => BrokerEventView::OrderValidationFailed,
            BrokerEvent::BracketCreated {
                parent_id,
                take_profit_id,
                stop_loss_id,
                symbol,
                action,
                quantity,
                tp_price,
                sl_price,
                reference_price,
                entry_kind,
                entry_limit_price,
                entry_stop_price,
                sl_limit_price,
                tp_tif,
                sl_tif,
            } => BrokerEventView::BracketCreated {
                parent_id,
                take_profit_id,
                stop_loss_id,
                symbol: symbol@,
                action,
                quantity,
                tp_price,
                sl_price,
                reference_price,
                entry_kind,
                entry_limit_price,
                entry_stop_price,
                sl_limit_price,
                tp_tif,
                sl_tif,
            },
            BrokerEvent::BracketStatusChanged => BrokerEventView::BracketStatusChanged,
            BrokerEvent::Tick { symbol } => BrokerEventView::Tick {
                symbol: symbol.symbol@,
                contract_id: symbol.contract_id,
            },
            BrokerEvent::RealtimeBar { symbol } => BrokerEventView::RealtimeBar {
                symbol: symbol.symbol@,
                contract_id: symbol.contract_id,
            },
            BrokerEvent::BarClosed { symbol } => BrokerEventView::BarClosed {
                symbol: symbol.symbol@,
                contract_id: symbol.contract_id,
            },
            BrokerEvent::BarUpdated { symbol } => BrokerEventView::BarUpdated {
                symbol: symbol.symbol@,
                contract_id: symbol.contract_id,
            },
            BrokerEvent::HistoricalDataComplete { symbol } => {
                BrokerEventView::HistoricalDataComplete {
                    symbol: symbol.symbol@,
                    contract_id: symbol.contract_id,
                }
            },
            BrokerEvent::DepthUpdate { symbol } => BrokerEventView::DepthUpdate {
                symbol: symbol.symbol@,
                contract_id: symbol.contract_id,
            },
            BrokerEvent::PositionUpdate { account, symbol, con_id, quantity, avg_cost } => {
                BrokerEventView::PositionUpdate {
                    account: account@,
                    symbol: symbol@,
                    con_id,
                    quantity,
                    avg_cost,
                }
            },
            BrokerEvent::AccountValueUpdate => BrokerEventView::AccountValueUpdate,
            BrokerEvent::PnlUpdate => BrokerEventView::PnlUpdate,
            BrokerEvent::Warning => BrokerEventView::Warning,
            BrokerEvent::DataFarmStatus => BrokerEventView::DataFarmStatus,
            BrokerEvent::Error => BrokerEventView::Error,
            BrokerEvent::OrderSnapshot => BrokerEventView::OrderSnapshot,
        }
    }
}

/// Stable wire name of a broker event's variant.
pub open spec fn broker_variant_name(e: BrokerEvent) -> Seq<char> {
    match e {
        BrokerEvent::Connected { .. } => "Connected"@,
        BrokerEvent::Disconnected { .. } => "Disconnected"@,
        BrokerEvent::Reconnecting => "Reconnecting"@,
        BrokerEvent::Reconnected => "Reconnected"@,
        BrokerEvent::OrderCreated => "OrderCreated"@,
        BrokerEvent::OrderSubmitted { .. } => "OrderSubmitted"@,
        BrokerEvent::OrderStatusChanged { .. } => "OrderStatusChanged"@,
        BrokerEvent::OrderFilled { .. } => "OrderFilled"@,
        BrokerEvent::OrderRejected { .. } => "OrderRejected"@,
        BrokerEvent::OrderCancelled { .. } => "OrderCancelled"@,
        BrokerEvent::OrderError => "OrderError"@,
        BrokerEvent::OrderValidationFailed => "OrderValidationFailed"@,
        BrokerEvent::BracketCreated { .. } => "BracketCreated"@,
        BrokerEvent::BracketStatusChanged => "BracketStatusChanged"@,
        BrokerEvent::Tick { .. } => "Tick"@,
        BrokerEvent::RealtimeBar { .. } => "RealtimeBar"@,
        BrokerEvent::BarClosed { .. } => "BarClosed"@,
        BrokerEvent::BarUpdated { .. } => "BarUpdated"@,
        BrokerEvent::HistoricalDataComplete { .. } => "HistoricalDataComplete"@,
        BrokerEvent::DepthUpdate { .. } => "DepthUpdate"@,
        BrokerEvent::PositionUpdate { .. } => "PositionUpdate"@,
        BrokerEvent::AccountValueUpdate => "AccountValueUpdate"@,
        BrokerEvent::PnlUpdate => "PnlUpdate"@,
        BrokerEvent::Warning => "Warning"@,
        BrokerEvent::DataFarmStatus => "DataFarmStatus"@,
        BrokerEvent::Error => "Error"@,
        BrokerEvent::OrderSnapshot => "OrderSnapshot"@,
    }
}

/// Stable wire-level variant name for a broker event.
pub fn broker_event_variant(event: &BrokerEvent) -> (r: &'static str)
    ensures
        r@ == broker_variant_name(*event),
{
    match event {
        BrokerEvent::Connected { .. } => "Connected",
        BrokerEvent::Disconnected { .. } => "Disconnected",
        BrokerEvent::Reconnecting => "Reconnecting",
        BrokerEvent::Reconnected => "Reconnected",
        BrokerEvent::OrderCreated => "OrderCreated",
        BrokerEvent::OrderSubmitted { .. } => "OrderSubmitted",
        BrokerEvent::OrderStatusChanged { .. } => "OrderStatusChanged",
        BrokerEvent::OrderFilled { .. } => "OrderFilled",
        BrokerEvent::OrderRejected { .. } => "OrderRejected",
        BrokerEvent::OrderCancelled { .. } => "OrderCancelled",
        BrokerEvent::OrderError => "OrderError",
        BrokerEvent::OrderValidationFailed => "OrderValidationFailed",
        BrokerEvent::BracketCreated { .. } => "BracketCreated",
        BrokerEvent::BracketStatusChanged => "BracketStatusChanged",
        BrokerEvent::Tick { .. } => "Tick",
        BrokerEvent::RealtimeBar { .. } => "RealtimeBar",
        BrokerEvent::BarClosed { .. } => "BarClosed",
        BrokerEvent::BarUpdated { .. } => "BarUpdated",
        BrokerEvent::HistoricalDataComplete { .. } => "HistoricalDataComplete",
        BrokerEvent::DepthUpdate { .. } => "DepthUpdate",
        BrokerEvent::PositionUpdate { .. } => "PositionUpdate",
        BrokerEvent::AccountValueUpdate => "AccountValueUpdate",
        BrokerEvent::PnlUpdate => "PnlUpdate",
        BrokerEvent::Warning => "Warning",
        BrokerEvent::DataFarmStatus => "DataFarmStatus",
        BrokerEvent::Error => "Error",
        BrokerEvent::OrderSnapshot => "OrderSnapshot",
    }
}

/// Market-data variants that fire at tick rate.
pub open spec fn is_tick_rate_broker_spec(e: BrokerEvent) -> bool {
    ||| e is Tick
    ||| e is RealtimeBar
    ||| e is BarClosed
    ||| e is BarUpdated
    ||| e is DepthUpdate
}

/// Tick-rate broker events, skipped by the event log to keep it bounded.
pub fn is_tick_rate_broker(event: &BrokerEvent) -> (r: bool)
    ensures
        r == is_tick_rate_broker_spec(*event),
{
    match event {
        BrokerEvent::Tick { .. } | BrokerEvent::RealtimeBar { .. } | BrokerEvent::BarClosed {
            ..
        } | BrokerEvent::BarUpdated { .. } | BrokerEvent::DepthUpdate { .. } => true,
        _ => false,
    }
}

/// The symbol a broker event carries, for the variants that carry one.
pub open spec fn broker_symbol_spec(e: BrokerEvent) -> Option<Seq<char>> {
    match e {
        BrokerEvent::BracketCreated { symbol, .. } => Some(symbol@),
        BrokerEvent::PositionUpdate { symbol, .. } => Some(symbol@),
        BrokerEvent::Tick { symbol } => Some(symbol.symbol@),
        BrokerEvent::RealtimeBar { symbol } => Some(symbol.symbol@),
        BrokerEvent::BarClosed { symbol } => Some(symbol.symbol@),
        BrokerEvent::BarUpdated { symbol } => Some(symbol.symbol@),
        BrokerEvent::HistoricalDataComplete { symbol } => Some(symbol.symbol@),
        BrokerEvent::DepthUpdate { symbol } => Some(symbol.symbol@),
        _ => None,
    }
}

/// Pull the symbol out of a broker event when the variant carries one.
pub fn broker_event_symbol(event: &BrokerEvent) -> (r: Option<String>)
    ensures
        match r {
            Some(s) => broker_symbol_spec(*event) == Some(s@),
            None => broker_symbol_spec(*event) is None,
        },
{
    match event {
        BrokerEvent::BracketCreated { symbol, .. } => Some(symbol.clone()),
        BrokerEvent::PositionUpdate { symbol, .. } => Some(symbol.clone()),
        BrokerEvent::Tick { symbol } => Some(symbol.symbol.clone()),
        BrokerEvent::RealtimeBar { symbol } => Some(symbol.symbol.clone()),
        BrokerEvent::BarClosed { symbol } => Some(symbol.symbol.clone()),
        BrokerEvent::BarUpdated { symbol } => Some(symbol.symbol.clone()),
        BrokerEvent::HistoricalDataComplete { symbol } => Some(symbol.symbol.clone()),
        BrokerEvent::DepthUpdate { symbol } => Some(symbol.symbol.clone()),
        _ => None,
    }
}

} // verus!
