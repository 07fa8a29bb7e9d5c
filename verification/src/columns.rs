//! Column vocabulary of the Orders (blotter) grid: stable column ids,
//! header labels, per-column behaviour flags, sort ranks and the text
//! shown for order types, time in force and order ids.

use vstd::prelude::*;
use crate::blotter::{EntryKind, LegRole, OrderAction, OrderStatus, TimeInForce};
use crate::text::{push_char, str_eq};

verus! {

/// A column of the Orders grid.
#[derive(Copy, Clone, Debug, PartialEq, Eq, Structural, Hash)]
pub enum OrderBlotterColumn {
    Symbol,
    Side,
    Type,
    Qty,
    AvgFill,
    Limit,
    Stop,
    TakeProfit,
    StopLoss,
    Status,
    LastUpdate,
    Instruction,
    OrderId,
}

/// Horizontal alignment of a column's cells.
#[derive(Copy, Clone, Debug, PartialEq, Eq, Structural)]
pub enum Alignment {
    Start,
    End,
}

/// Every column, in display order.
pub open spec fn all_columns() -> Seq<OrderBlotterColumn> {
    seq![
        OrderBlotterColumn::Symbol,
        OrderBlotterColumn::Side,
        OrderBlotterColumn::Type,
        OrderBlotterColumn::Qty,
        OrderBlotterColumn::AvgFill,
        OrderBlotterColumn::Limit,
        OrderBlotterColumn::Stop,
        OrderBlotterColumn::TakeProfit,
        OrderBlotterColumn::StopLoss,
        OrderBlotterColumn::Status,
        OrderBlotterColumn::LastUpdate,
        OrderBlotterColumn::Instruction,
        OrderBlotterColumn::OrderId,
    ]
}

/// Wire-stable id of a column (persisted in the column-width map).
pub open spec fn column_id(c: OrderBlotterColumn) -> Seq<char> {
    match c {
        OrderBlotterColumn::Symbol => "symbol"@,
        OrderBlotterColumn::Side => "side"@,
        OrderBlotterColumn::Type => "type"@,
        OrderBlotterColumn::Qty => "qty"@,
        OrderBlotterColumn::AvgFill => "avg_fill"@,
        OrderBlotterColumn::Limit => "limit"@,
        OrderBlotterColumn::Stop => "stop"@,
        OrderBlotterColumn::TakeProfit => "tp"@,
        OrderBlotterColumn::StopLoss => "sl"@,
        OrderBlotterColumn::Status => "status"@,
        OrderBlotterColumn::LastUpdate => "last_update"@,
        OrderBlotterColumn::Instruction => "instruction"@,
        OrderBlotterColumn::OrderId => "order_id"@,
    }
}

/// Distinct columns have distinct wire ids, so a column is found again
/// by its own id.
pub proof fn lemma_column_ids_distinct(a: OrderBlotterColumn, b: OrderBlotterColumn)
    ensures
        column_id(a) == column_id(b) ==> a == b,
{
    reveal_strlit("symbol");
    reveal_strlit("side");
    reveal_strlit("type");
    reveal_strlit("qty");
    reveal_strlit("avg_fill");
    reveal_strlit("limit");
    reveal_strlit("stop");
    reveal_strlit("tp");
    reveal_strlit("sl");
    reveal_strlit("status");
    reveal_strlit("last_update");
    reveal_strlit("instruction");
    reveal_strlit("order_id");
    if column_id(a) == column_id(b) && a != b {
        assert(column_id(a).len() == column_id(b).len());
        assert(column_id(a)[0] == column_id(b)[0]);
        assert(column_id(a)[1] == column_id(b)[1]);
        assert(column_id(a)[2] == column_id(b)[2]);
    }
}

/// Header label of a column.
pub open spec fn column_header(c: OrderBlotterColumn) -> Seq<char> {
    match c {
        OrderBlotterColumn::Symbol => "Symbol"@,
        OrderBlotterColumn::Side => "Side"@,
        OrderBlotterColumn::Type => "Type"@,
        OrderBlotterColumn::Qty => "Qty"@,
        OrderBlotterColumn::AvgFill => "Avg Fill Price"@,
        OrderBlotterColumn::Limit => "Limit Price"@,
        OrderBlotterColumn::Stop => "Stop Price"@,
        OrderBlotterColumn::TakeProfit => "Take Profit"@,
        OrderBlotterColumn::StopLoss => "Stop Loss"@,
        OrderBlotterColumn::Status => "Status"@,
        OrderBlotterColumn::LastUpdate => "Last Update Time"@,
        OrderBlotterColumn::Instruction => "Instruction"@,
        OrderBlotterColumn::OrderId => "Order ID"@,
    }
}

/// Cell alignment of a column: text columns start-aligned, numbers,
/// times and ids end-aligned.
pub open spec fn column_align(c: OrderBlotterColumn) -> Alignment {
    match c {
        OrderBlotterColumn::Symbol | OrderBlotterColumn::Side | OrderBlotterColumn::Type
        | OrderBlotterColumn::Status | OrderBlotterColumn::Instruction => Alignment::Start,
        _ => Alignment::End,
    }
}

impl OrderBlotterColumn {
    /// Every column, in display order.
    pub fn all() -> (r: Vec<OrderBlotterColumn>)
        ensures
            r@ == all_columns(),
    {
        let r = vec![
            OrderBlotterColumn::Symbol,
            OrderBlotterColumn::Side,
            OrderBlotterColumn::Type,
            OrderBlotterColumn::Qty,
            OrderBlotterColumn::AvgFill,
            OrderBlotterColumn::Limit,
            OrderBlotterColumn::Stop,
            OrderBlotterColumn::TakeProfit,
            OrderBlotterColumn::StopLoss,
            OrderBlotterColumn::Status,
            OrderBlotterColumn::LastUpdate,
            OrderBlotterColumn::Instruction,
            OrderBlotterColumn::OrderId,
        ];
        assert(r@ =~= all_columns());
        r
    }

    /// Wire-stable id of the column.
    pub fn id(&self) -> (r: &'static str)
        ensures
            r@ == column_id(*self),
    {
        match self {
            OrderBlotterColumn::Symbol => "symbol",
            OrderBlotterColumn::Side => "side",
            OrderBlotterColumn::Type => "type",
            OrderBlotterColumn::Qty => "qty",
            OrderBlotterColumn::AvgFill => "avg_fill",
            OrderBlotterColumn::Limit => "limit",
            OrderBlotterColumn::Stop => "stop",
            OrderBlotterColumn::TakeProfit => "tp",
            OrderBlotterColumn::StopLoss => "sl",
            OrderBlotterColumn::Status => "status",
            OrderBlotterColumn::LastUpdate => "last_update",
            OrderBlotterColumn::Instruction => "instruction",
            OrderBlotterColumn::OrderId => "order_id",
        }
    }

    /// The ids of every column, in display order.
    pub fn ids() -> (r: Vec<&'static str>)
        ensures
            r@.len() == all_columns().len(),
            forall|i: int| 0 <= i < r@.len() ==> #[trigger] r@[i]@ == column_id(all_columns()[i]),
    {
        let cols = Self::all();
        let mut out: Vec<&'static str> = Vec::new();
        let mut i: usize = 0;
        while i < cols.len()
            invariant
                cols@ == all_columns(),
                i <= cols@.len(),
                out@.len() == i,
                forall|j: int| 0 <= j < i ==> #[trigger] out@[j]@ == column_id(all_columns()[j]),
            decreases cols@.len() - i,
        {
            out.push(cols[i].id());
            i = i + 1;
        }
        out
    }

    /// The column whose wire id is `id`, if any.
    pub fn from_id(id: &str) -> (r: Option<OrderBlotterColumn>)
        ensures
            match r {
                Some(c) => column_id(c) == id@ && forall|d: OrderBlotterColumn|
                    column_id(d) == id@ ==> d == c,
                None => forall|c: OrderBlotterColumn| column_id(c) != id@,
            },
    {
        let cols = Self::all();
        let mut i: usize = 0;
        while i < cols.len()
            invariant
                cols@ == all_columns(),
                i <= cols@.len(),
                forall|j: int| 0 <= j < i ==> column_id(#[trigger] all_columns()[j]) != id@,
            decreases cols@.len() - i,
        {
            if str_eq(cols[i].id(), id) {
                proof {
                    assert forall|d: OrderBlotterColumn| column_id(d) == id@ implies d == cols@[i as int] by {
                        lemma_column_ids_distinct(d, cols@[i as int]);
                    }
                }
                return Some(cols[i]);
            }
            i = i + 1;
        }
        proof {
            assert forall|c: OrderBlotterColumn| column_id(c) != id@ by {
                let k: int = match c {
                    OrderBlotterColumn::Symbol => 0,
                    OrderBlotterColumn::Side => 1,
                    OrderBlotterColumn::Type => 2,
                    OrderBlotterColumn::Qty => 3,
                    OrderBlotterColumn::AvgFill => 4,
                    OrderBlotterColumn::Limit => 5,
                    OrderBlotterColumn::Stop => 6,
                    OrderBlotterColumn::TakeProfit => 7,
                    OrderBlotterColumn::StopLoss => 8,
                    OrderBlotterColumn::Status => 9,
                    OrderBlotterColumn::LastUpdate => 10,
                    OrderBlotterColumn::Instruction => 11,
                    OrderBlotterColumn::OrderId => 12,
                };
                assert(all_columns()[k] == c);
            }
        }
        None
    }

    /// Header label of the column.
    pub fn header_label(&self) -> (r: &'static str)
        ensures
            r@ == column_header(*self),
    {
        match self {
            OrderBlotterColumn::Symbol => "Symbol",
            OrderBlotterColumn::Side => "Side",
            OrderBlotterColumn::Type => "Type",
            OrderBlotterColumn::Qty => "Qty",
            OrderBlotterColumn::AvgFill => "Avg Fill Price",
            OrderBlotterColumn::Limit => "Limit Price",
            OrderBlotterColumn::Stop => "Stop Price",
            OrderBlotterColumn::TakeProfit => "Take Profit",
            OrderBlotterColumn::StopLoss => "Stop Loss",
            OrderBlotterColumn::Status => "Status",
            OrderBlotterColumn::LastUpdate => "Last Update Time",
            OrderBlotterColumn::Instruction => "Instruction",
            OrderBlotterColumn::OrderId => "Order ID",
        }
    }

    /// Side and Status have fixed widths; every other column resizes.
    pub fn resizable(&self) -> (r: bool)
        ensures
            r == !(*self is Side || *self is Status),
    {
        !matches!(self, OrderBlotterColumn::Side | OrderBlotterColumn::Status)
    }

    /// Every column but Symbol sorts.
    pub fn sortable(&self) -> (r: bool)
        ensures
            r == !(*self is Symbol),
    {
        !matches!(self, OrderBlotterColumn::Symbol)
    }

    /// Every column can be moved.
    pub fn reorderable(&self) -> (r: bool)
        ensures
            r,
    {
        true
    }

    /// Cell alignment of the column.
    pub fn align(&self) -> (r: Alignment)
        ensures
            r == column_align(*self),
    {
        match self {
            OrderBlotterColumn::Symbol | OrderBlotterColumn::Side | OrderBlotterColumn::Type
            | OrderBlotterColumn::Status | OrderBlotterColumn::Instruction => Alignment::Start,
            OrderBlotterColumn::Qty | OrderBlotterColumn::AvgFill | OrderBlotterColumn::Limit
            | OrderBlotterColumn::Stop | OrderBlotterColumn::TakeProfit
            | OrderBlotterColumn::StopLoss | OrderBlotterColumn::LastUpdate
            | OrderBlotterColumn::OrderId => Alignment::End,
        }
    }
}

/// Sort rank of a side: Buy before Sell.
pub open spec fn side_rank_of(s: OrderAction) -> u8 {
    match s {
        OrderAction::Buy => 0,
        OrderAction::Sell => 1,
    }
}

/// Sort rank of a side: Buy before Sell.
pub fn side_rank(s: OrderAction) -> (r: u8)
    ensures
        r == side_rank_of(s),
{
    match s {
        OrderAction::Buy => 0,
        OrderAction::Sell => 1,
    }
}

/// Sort rank of a status, in lifecycle order.
pub open spec fn status_rank_of(s: OrderStatus) -> u8 {
    match s {
        OrderStatus::Working => 0,
        OrderStatus::PartiallyFilled => 1,
        OrderStatus::Filled => 2,
        OrderStatus::Cancelled => 3,
        OrderStatus::Rejected => 4,
    }
}

/// Sort rank of a status, in lifecycle order.
pub fn status_rank(s: OrderStatus) -> (r: u8)
    ensures
        r == status_rank_of(s),
{
    match s {
        OrderStatus::Working => 0,
        OrderStatus::PartiallyFilled => 1,
        OrderStatus::Filled => 2,
        OrderStatus::Cancelled => 3,
        OrderStatus::Rejected => 4,
    }
}

/// Text of the Instruction column for a time in force.
pub open spec fn tif_text(t: Option<TimeInForce>) -> Seq<char> {
    match t {
        Some(TimeInForce::Day) => "Day"@,
        Some(TimeInForce::Gtc) => "Good Till Cancel"@,
        Some(TimeInForce::Ioc) => "IOC"@,
        Some(TimeInForce::Gtd) => "Good Till Date"@,
        Some(TimeInForce::Opg) => "At Open"@,
        None => ""@,
    }
}

/// Text of the Instruction column for a time in force.
pub fn format_tif(t: Option<TimeInForce>) -> (r: String)
    ensures
        r@ == tif_text(t),
{
    let s: &str = match t {
        Some(TimeInForce::Day) => "Day",
        Some(TimeInForce::Gtc) => "Good Till Cancel",
        Some(TimeInForce::Ioc) => "IOC",
        Some(TimeInForce::Gtd) => "Good Till Date",
        Some(TimeInForce::Opg) => "At Open",
        None => "",
    };
    s.to_owned()
}

/// Text of the Type column: a plain stop reads as a stop loss.
pub open spec fn kind_label(kind: EntryKind, role: LegRole) -> Seq<char> {
    match kind {
        EntryKind::Stop => "Stop Loss"@,
        EntryKind::StopLimit => "Stop Limit"@,
        EntryKind::Market => "Market"@,
        EntryKind::Limit => "Limit"@,
    }
}

/// Text of the Type column for a row's order type and leg role.
pub fn kind_text(kind: EntryKind, role: LegRole) -> (r: String)
    ensures
        r@ == kind_label(kind, role),
{
    let s: &str = match kind {
        EntryKind::Stop => "Stop Loss",
        EntryKind::StopLimit => "Stop Limit",
        EntryKind::Market => "Market",
        EntryKind::Limit => "Limit",
    };
    s.to_owned()
}

/// Lower-case hexadecimal digit of a value below 16.
pub open spec fn hex_digit(d: int) -> char {
    if d < 10 {
        (('0' as int) + d) as char
    } else {
        (('a' as int) + d - 10) as char
    }
}

/// The last `width` digits of `n` in lower-case hexadecimal, padded with
/// zeros: the tail of the 32-digit rendering of a UUID.
pub open spec fn hex_tail(n: nat, width: nat) -> Seq<char>
    decreases width,
{
    if width == 0 {
        Seq::empty()
    } else {
        hex_tail(n / 16, (width - 1) as nat).push(hex_digit((n % 16) as int))
    }
}

fn hex_char(d: u8) -> (c: char)
    requires
        d < 16,
    ensures
        c == hex_digit(d as int),
{
    let table = "0123456789abcdef";
    proof {
        reveal_strlit("0123456789abcdef");
    }
    table.get_char(d as usize)
}

/// Short form of a leg id: the last ten hex digits of its 32-digit
/// lower-case rendering.
pub fn short_uuid(id: u128) -> (r: String)
    ensures
        r@ == hex_tail(id as nat, 10),
{
    let mut digits: Vec<u8> = Vec::new();
    let mut n: u128 = id;
    let mut k: usize = 0;
    while k < 10
        invariant
            k <= 10,
            digits@.len() == k,
            hex_tail(id as nat, 10) == hex_tail(n as nat, (10 - k) as nat) + Seq::new(
                k as nat,
                |j: int| hex_digit(digits@[k - 1 - j] as int),
            ),
            forall|j: int| 0 <= j < k ==> digits@[j] < 16,
        decreases 10 - k,
    {
        let d = (n % 16) as u8;
        let ghost rest = hex_tail((n / 16) as nat, (10 - k - 1) as nat);
        assert(hex_tail(n as nat, (10 - k) as nat) == rest.push(hex_digit(d as int)));
        digits.push(d);
        n = n / 16;
        k = k + 1;
        assert(hex_tail(id as nat, 10) =~= hex_tail(n as nat, (10 - k) as nat) + Seq::new(
            k as nat,
            |j: int| hex_digit(digits@[k - 1 - j] as int),
        ));
    }
    assert(hex_tail(n as nat, 0) =~= Seq::<char>::empty());
    let mut out = String::new();
    let mut i: usize = 0;
    while i < 10
        invariant
            i <= 10,
            digits@.len() == 10,
            forall|j: int| 0 <= j < 10 ==> digits@[j] < 16,
            hex_tail(id as nat, 10) == Seq::new(10, |j: int| hex_digit(digits@[9 - j] as int)),
            out@ == Seq::new(10, |j: int| hex_digit(digits@[9 - j] as int)).take(i as int),
        decreases 10 - i,
    {
        let c = hex_char(digits[9 - i]);
        push_char(&mut out, c);
        i = i + 1;
        assert(out@ =~= Seq::new(10, |j: int| hex_digit(digits@[9 - j] as int)).take(i as int));
    }
    assert(out@ =~= hex_tail(id as nat, 10));
    out
}

} // verus!
