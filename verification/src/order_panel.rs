//! Order-entry vocabulary and the validation rules of the order panel
//! and of chart-driven brackets.
//!
//! Prices are compared where they are held; the rules here take the
//! outcome of each comparison and decide which errors the user sees,
//! in which order, under which field key.

use vstd::prelude::*;
use crate::text::str_eq;

verus! {

/// Buy or sell direction for the order panel.
#[derive(Copy, Clone, Debug, PartialEq, Eq, Structural, Hash)]
pub enum OrderSide {
    Buy,
    Sell,
}

/// How the user specifies a take-profit or stop-loss price.
#[derive(Copy, Clone, Debug, PartialEq, Eq, Structural, Hash)]
pub enum PriceInputMode {
    /// Absolute price level.
    Absolute,
    /// Dollar offset from the last price.
    Offset,
    /// Percentage from the last price.
    Percent,
}

/// Stop-loss order type.
#[derive(Copy, Clone, Debug, PartialEq, Eq, Structural, Hash)]
pub enum StopLossType {
    /// Becomes a market order when the stop price is hit.
    Stop,
    /// Becomes a limit order when the stop price is hit.
    StopLimit,
}

/// Which price field a step action targets.
#[derive(Copy, Clone, Debug, PartialEq, Eq, Structural)]
pub enum PriceField {
    Tp,
    Sl,
    LimitPrice,
    StopPrice,
}

/// Whether an offset or percentage moves the price up: a buy's take
/// profit and a sell's stop loss sit above the last price.
pub open spec fn moves_up(side: OrderSide, is_tp: bool) -> bool {
    (side == OrderSide::Buy) == is_tp
}

/// Whether an offset or percentage moves the price up: a buy's take
/// profit and a sell's stop loss sit above the last price.
pub fn offset_moves_up(side: OrderSide, is_tp: bool) -> (r: bool)
    ensures
        r == moves_up(side, is_tp),
{
    (side == OrderSide::Buy) == is_tp
}

/// How the quantity field read.
#[derive(Copy, Clone, Debug, PartialEq, Eq, Structural)]
pub enum QuantityCheck {
    /// Not a number.
    Invalid,
    /// A number that is not greater than zero.
    NotPositive,
    /// A number greater than zero.
    Positive,
}

/// How a take-profit or stop-loss leg of the panel read against the
/// last price.
#[derive(Copy, Clone, Debug, PartialEq, Eq, Structural)]
pub struct LegChecks {
    /// The leg's value field is a number.
    pub parsed: bool,
    /// The resolved price is not greater than zero.
    pub price_not_positive: bool,
    /// The resolved price is at or below the last price.
    pub at_or_below_last: bool,
    /// The resolved price is at or above the last price.
    pub at_or_above_last: bool,
}

/// Everything the panel validation decides on.
#[derive(Copy, Clone, Debug, PartialEq, Eq, Structural)]
pub struct PanelChecks {
    pub symbol_empty: bool,
    pub quantity: QuantityCheck,
    /// Whether a last market price is known.
    pub market_price_known: bool,
    pub side: OrderSide,
    /// The take-profit leg, when enabled.
    pub tp: Option<LegChecks>,
    /// The stop-loss leg, when enabled.
    pub sl: Option<LegChecks>,
}

/// A validation error: the field key and the message.
pub type FieldError = (Seq<char>, Seq<char>);

/// The errors of one panel leg: an unreadable value, else a
/// non-positive price and a price on the wrong side of the market.
pub open spec fn leg_errors(is_tp: bool, side: OrderSide, l: LegChecks) -> Seq<FieldError> {
    let key = if is_tp {
        "tp"@
    } else {
        "sl"@
    };
    if !l.parsed {
        seq![
            (
                key,
                if is_tp {
                    "Invalid TP value (not a number)"@
                } else {
                    "Invalid SL value (not a number)"@
                },
            ),
        ]
    } else {
        let e1 = if l.price_not_positive {
            seq![
                (
                    key,
                    if is_tp {
                        "Invalid TP price"@
                    } else {
                        "Invalid SL price"@
                    },
                ),
            ]
        } else {
            Seq::empty()
        };
        let wrong_side = match side {
            OrderSide::Buy => if is_tp {
                l.at_or_below_last
            } else {
                l.at_or_above_last
            },
            OrderSide::Sell => if is_tp {
                l.at_or_above_last
            } else {
                l.at_or_below_last
            },
        };
        let msg = match side {
            OrderSide::Buy => if is_tp {
                "TP must be above current price for BUY"@
            } else {
                "SL must be below current price for BUY"@
            },
            OrderSide::Sell => if is_tp {
                "TP must be below current price for SELL"@
            } else {
                "SL must be above current price for SELL"@
            },
        };
        if wrong_side {
            e1.push((key, msg))
        } else {
            e1
        }
    }
}

/// The symbol error of the order panel.
pub open spec fn symbol_errors(c: PanelChecks) -> Seq<FieldError> {
    if c.symbol_empty {
        seq![("symbol"@, "No symbol selected"@)]
    } else {
        Seq::empty()
    }
}

/// The quantity error of the order panel.
pub open spec fn quantity_errors(c: PanelChecks) -> Seq<FieldError> {
    match c.quantity {
        QuantityCheck::Positive => Seq::empty(),
        QuantityCheck::NotPositive => seq![("quantity"@, "Quantity must be positive"@)],
        QuantityCheck::Invalid => seq![("quantity"@, "Invalid quantity (not a number)"@)],
    }
}

/// The price errors of the order panel: those of the enabled legs, or
/// the missing market price.
pub open spec fn price_errors(c: PanelChecks) -> Seq<FieldError> {
    if c.market_price_known {
        let e_tp = match c.tp {
            Some(l) => leg_errors(true, c.side, l),
            None => Seq::empty(),
        };
        let e_sl = match c.sl {
            Some(l) => leg_errors(false, c.side, l),
            None => Seq::empty(),
        };
        e_tp + e_sl
    } else {
        seq![("price"@, "No market price available"@)]
    }
}

/// The errors of the order panel, in the order the user sees them.
pub open spec fn panel_errors(c: PanelChecks) -> Seq<FieldError> {
    symbol_errors(c) + quantity_errors(c) + price_errors(c)
}

/// The mathematical value of a list of errors.
pub open spec fn errors_view(v: Seq<(String, String)>) -> Seq<FieldError> {
    v.map_values(|e: (String, String)| (e.0@, e.1@))
}

fn push_error(errors: &mut Vec<(String, String)>, key: &str, msg: &str)
    ensures
        errors_view(final(errors)@) == errors_view(old(errors)@).push((key@, msg@)),
{
    errors.push((key.to_owned(), msg.to_owned()));
    assert(errors_view(errors@) =~= errors_view(old(errors)@).push((key@, msg@)));
}

fn push_leg_errors(errors: &mut Vec<(String, String)>, is_tp: bool, side: OrderSide, l: LegChecks)
    ensures
        errors_view(final(errors)@) == errors_view(old(errors)@) + leg_errors(is_tp, side, l),
{
    proof {
        reveal_strlit("tp");
        reveal_strlit("sl");
    }
    let key = if is_tp {
        "tp"
    } else {
        "sl"
    };
    let ghost start = errors_view(errors@);
    if !l.parsed {
        let msg = if is_tp {
            "Invalid TP value (not a number)"
        } else {
            "Invalid SL value (not a number)"
        };
        push_error(errors, key, msg);
        assert(errors_view(errors@) =~= start + leg_errors(is_tp, side, l));
        return;
    }
    if l.price_not_positive {
        let msg = if is_tp {
            "Invalid TP price"
        } else {
            "Invalid SL price"
        };
        push_error(errors, key, msg);
    }
    let wrong_side = match side {
        OrderSide::Buy => if is_tp {
            l.at_or_below_last
        } else {
            l.at_or_above_last
        },
        OrderSide::Sell => if is_tp {
            l.at_or_above_last
        } else {
            l.at_or_below_last
        },
    };
    if wrong_side {
        let msg = match side {
            OrderSide::Buy => if is_tp {
                "TP must be above current price for BUY"
            } else {
                "SL must be below current price for BUY"
            },
            OrderSide::Sell => if is_tp {
                "TP must be below current price for SELL"
            } else {
                "SL must be above current price for SELL"
            },
        };
        push_error(errors, key, msg);
    }
    assert(errors_view(errors@) =~= start + leg_errors(is_tp, side, l));
}

/// Validate the order panel: the (field, message) errors for its
/// symbol, quantity and enabled legs, empty when the order can go.
pub fn validate_panel_checks(c: PanelChecks) -> (r: Vec<(String, String)>)
    ensures
        errors_view(r@) == panel_errors(c),
{
    let mut errors: Vec<(String, String)> = Vec::new();
    assert(errors_view(errors@) =~= Seq::<FieldError>::empty());
    if c.symbol_empty {
        push_error(&mut errors, "symbol", "No symbol selected");
    }
    assert(errors_view(errors@) =~= symbol_errors(c));
    let ghost e1 = errors_view(errors@);
    match c.quantity {
        QuantityCheck::Positive => {},
        QuantityCheck::NotPositive => {
            push_error(&mut errors, "quantity", "Quantity must be positive");
        },
        QuantityCheck::Invalid => {
            push_error(&mut errors, "quantity", "Invalid quantity (not a number)");
        },
    }
    assert(errors_view(errors@) =~= e1 + quantity_errors(c));
    let ghost e2 = errors_view(errors@);
    if c.market_price_known {
        if let Some(l) = c.tp {
            push_leg_errors(&mut errors, true, c.side, l);
        }
        let ghost e3 = errors_view(errors@);
        if let Some(l) = c.sl {
            push_leg_errors(&mut errors, false, c.side, l);
        }
        assert(errors_view(errors@) =~= e2 + price_errors(c));
    } else {
        push_error(&mut errors, "price", "No market price available");
        assert(errors_view(errors@) =~= e2 + price_errors(c));
    }
    assert(errors_view(errors@) =~= panel_errors(c));
    errors
}

/// Entry order type of a chart bracket.
#[derive(Copy, Clone, Debug, PartialEq, Eq, Structural)]
pub enum EntryType {
    Market,
    Limit,
    Stop,
    StopLimit,
}

/// Direction of a chart bracket.
#[derive(Copy, Clone, Debug, PartialEq, Eq, Structural)]
pub enum BracketSide {
    Long,
    Short,
}

/// How a stop-limit entry's stop trigger read.
#[derive(Copy, Clone, Debug, PartialEq, Eq, Structural)]
pub struct StopTriggerChecks {
    /// The trigger price is not greater than zero.
    pub not_positive: bool,
    /// The limit price is above the trigger.
    pub limit_above_stop: bool,
    /// The limit price is below the trigger.
    pub limit_below_stop: bool,
}

/// How a bracket's stop-loss leg read against its entry.
#[derive(Copy, Clone, Debug, PartialEq, Eq, Structural)]
pub struct StopLossChecks {
    /// The stop loss is at or above the entry.
    pub at_or_above_entry: bool,
    /// The stop loss is at or below the entry.
    pub at_or_below_entry: bool,
}

/// Everything the bracket validation decides on.
#[derive(Copy, Clone, Debug, PartialEq, Eq, Structural)]
pub struct BracketChecks {
    pub quantity_not_positive: bool,
    pub entry_type: EntryType,
    pub side: BracketSide,
    /// The entry (or limit) price is not greater than zero.
    pub entry_price_not_positive: bool,
    /// The stop trigger of a stop-limit entry, when one is set.
    pub stop_trigger: Option<StopTriggerChecks>,
    /// The stop-loss leg, when the bracket has one.
    pub stop_loss: Option<StopLossChecks>,
}

/// The entry errors of a bracket.
pub open spec fn entry_errors(c: BracketChecks) -> Seq<FieldError> {
    match c.entry_type {
        EntryType::Market => if c.entry_price_not_positive {
            seq![("entry"@, "No market price available"@)]
        } else {
            Seq::empty()
        },
        EntryType::Limit => if c.entry_price_not_positive {
            seq![("entry"@, "Limit price must be positive"@)]
        } else {
            Seq::empty()
        },
        EntryType::Stop => if c.entry_price_not_positive {
            seq![("entry"@, "Stop price must be positive"@)]
        } else {
            Seq::empty()
        },
        EntryType::StopLimit => {
            let e1 = if c.entry_price_not_positive {
                seq![("entry"@, "Limit price must be positive"@)]
            } else {
                Seq::empty()
            };
            match c.stop_trigger {
                None => e1.push(("entry"@, "Stop-Limit requires a stop trigger price"@)),
                Some(t) => if t.not_positive {
                    e1.push(("entry"@, "Stop trigger price must be positive"@))
                } else {
                    match c.side {
                        BracketSide::Long => if t.limit_above_stop {
                            e1.push(("entry"@, "Limit price must be at or below stop for BUY"@))
                        } else {
                            e1
                        },
                        BracketSide::Short => if t.limit_below_stop {
                            e1.push(("entry"@, "Limit price must be at or above stop for SELL"@))
                        } else {
                            e1
                        },
                    }
                },
            }
        },
    }
}

/// The errors of a chart bracket, in the order the user sees them.
pub open spec fn bracket_errors(c: BracketChecks) -> Seq<FieldError> {
    let e_qty = if c.quantity_not_positive {
        seq![("quantity"@, "Quantity must be positive"@)]
    } else {
        Seq::empty()
    };
    let e_sl = match c.stop_loss {
        Some(s) => match c.side {
            BracketSide::Long => if s.at_or_above_entry {
                seq![("sl"@, "Stop loss must be below entry for BUY"@)]
            } else {
                Seq::empty()
            },
            BracketSide::Short => if s.at_or_below_entry {
                seq![("sl"@, "Stop loss must be above entry for SELL"@)]
            } else {
                Seq::empty()
            },
        },
        None => Seq::empty(),
    };
    e_qty + entry_errors(c) + e_sl
}

/// Validate a chart bracket for submission: the (field, message)
/// errors for its quantity, entry and stop loss.
pub fn validate_bracket_checks(c: BracketChecks) -> (r: Vec<(String, String)>)
    ensures
        errors_view(r@) == bracket_errors(c),
{
    let mut errors: Vec<(String, String)> = Vec::new();
    assert(errors_view(errors@) =~= Seq::<FieldError>::empty());
    if c.quantity_not_positive {
        push_error(&mut errors, "quantity", "Quantity must be positive");
    }
    let ghost head = errors_view(errors@);
    match c.entry_type {
        EntryType::Market => {
            if c.entry_price_not_positive {
                push_error(&mut errors, "entry", "No market price available");
            }
        },
        EntryType::Limit => {
            if c.entry_price_not_positive {
                push_error(&mut errors, "entry", "Limit price must be positive");
            }
        },
        EntryType::Stop => {
            if c.entry_price_not_positive {
                push_error(&mut errors, "entry", "Stop price must be positive");
            }
        },
        EntryType::StopLimit => {
            if c.entry_price_not_positive {
                push_error(&mut errors, "entry", "Limit price must be positive");
            }
            match c.stop_trigger {
                None => {
                    push_error(&mut errors, "entry", "Stop-Limit requires a stop trigger price");
                },
                Some(t) => {
                    if t.not_positive {
                        push_error(&mut errors, "entry", "Stop trigger price must be positive");
                    } else {
                        match c.side {
                            BracketSide::Long => {
                                if t.limit_above_stop {
                                    push_error(
                                        &mut errors,
                                        "entry",
                                        "Limit price must be at or below stop for BUY",
                                    );
                                }
                            },
                            BracketSide::Short => {
                                if t.limit_below_stop {
                                    push_error(
                                        &mut errors,
                                        "entry",
                                        "Limit price must be at or above stop for SELL",
                                    );
                                }
                            },
                        }
                    }
                },
            }
        },
    }
    assert(errors_view(errors@) =~= head + entry_errors(c));
    let ghost mid = errors_view(errors@);
    if let Some(s) = c.stop_loss {
        match c.side {
            BracketSide::Long => {
                if s.at_or_above_entry {
                    push_error(&mut errors, "sl", "Stop loss must be below entry for BUY");
                }
            },
            BracketSide::Short => {
                if s.at_or_below_entry {
                    push_error(&mut errors, "sl", "Stop loss must be above entry for SELL");
                }
            },
        }
    }
    assert(errors_view(errors@) =~= bracket_errors(c));
    errors
}

/// Status of a bracket as the chart draws it.
#[derive(Copy, Clone, Debug, PartialEq, Eq, Structural)]
pub enum BracketStatus {
    Pending,
    PartialFill,
    Active,
    Closed,
    Cancelled,
}

/// The chart status a broker lifecycle status string maps to; unknown
/// strings read as pending.
pub open spec fn chart_status_of(s: Seq<char>) -> BracketStatus {
    if s == "Submitted"@ {
        BracketStatus::Pending
    } else if s == "PartialFill"@ || s == "PartiallyFilled"@ {
        BracketStatus::PartialFill
    } else if s == "EntryFilled"@ {
        BracketStatus::Active
    } else if s == "TakeProfitHit"@ || s == "StopLossHit"@ || s == "Closed"@ {
        BracketStatus::Closed
    } else if s == "Cancelled"@ || s == "Rejected"@ || s == "Error"@ {
        BracketStatus::Cancelled
    } else {
        BracketStatus::Pending
    }
}

/// Map a broker lifecycle status string to the chart's bracket status.
pub fn map_lifecycle_to_chart_status(status: &str) -> (r: BracketStatus)
    ensures
        r == chart_status_of(status@),
{
    if str_eq(status, "Submitted") {
        BracketStatus::Pending
    } else if str_eq(status, "PartialFill") || str_eq(status, "PartiallyFilled") {
        BracketStatus::PartialFill
    } else if str_eq(status, "EntryFilled") {
        BracketStatus::Active
    } else if str_eq(status, "TakeProfitHit") || str_eq(status, "StopLossHit") || str_eq(
        status,
        "Closed",
    ) {
        BracketStatus::Closed
    } else if str_eq(status, "Cancelled") || str_eq(status, "Rejected") || str_eq(status, "Error") {
        BracketStatus::Cancelled
    } else {
        BracketStatus::Pending
    }
}

/// Offsets move each leg to the side of the market that validation
/// accepts. For a leg priced off the last price (neither equal to it nor
/// unreadable nor non-positive), the direction check passes exactly when
/// the price lies above the last price for an offset that moves up, and
/// below it for one that moves down.
pub proof fn lemma_offset_direction_passes_validation(side: OrderSide, is_tp: bool, l: LegChecks)
    requires
        l.parsed,
        !l.price_not_positive,
        l.at_or_below_last != l.at_or_above_last,
    ensures
        leg_errors(is_tp, side, l).len() == 0 <==> (moves_up(side, is_tp) == l.at_or_above_last),
{
}

/// A buy's take profit and a sell's stop loss lie above the last price,
/// so their offsets move up; a buy's stop loss and a sell's take profit
/// lie below it, so theirs move down.
pub proof fn lemma_offset_directions()
    ensures
        moves_up(OrderSide::Buy, true),
        !moves_up(OrderSide::Buy, false),
        !moves_up(OrderSide::Sell, true),
        moves_up(OrderSide::Sell, false),
{
    let above = LegChecks {
        parsed: true,
        price_not_positive: false,
        at_or_below_last: false,
        at_or_above_last: true,
    };
    let below = LegChecks { at_or_below_last: true, at_or_above_last: false, ..above };
    lemma_offset_direction_passes_validation(OrderSide::Buy, true, above);
    lemma_offset_direction_passes_validation(OrderSide::Buy, false, below);
    lemma_offset_direction_passes_validation(OrderSide::Sell, true, below);
    lemma_offset_direction_passes_validation(OrderSide::Sell, false, above);
}

} // verus!
