//! Form state of the dockable order panel and its persisted config.
//!
//! A panel persists its symbol, side, quantity, link group, bracket
//! toggle and bound symbol; everything else starts from the form's
//! defaults when the workspace is restored. Sides persist as `"BUY"` /
//! `"SELL"`. The last price travels as an `f64` bit pattern.

use vstd::prelude::*;
use crate::link::LinkMode;
use crate::order_panel::{EntryType, OrderSide, PriceInputMode, StopLossType};
use crate::text::str_eq;

verus! {

/// State of the order-entry form.
#[derive(Debug)]
pub struct OrderPanelState {
    /// Whether the panel is visible.
    pub visible: bool,
    pub side: OrderSide,
    /// Quantity as typed; parsed on submit.
    pub quantity: String,
    pub tp_enabled: bool,
    pub tp_mode: PriceInputMode,
    pub tp_value: String,
    pub sl_enabled: bool,
    pub sl_mode: PriceInputMode,
    pub sl_value: String,
    pub sl_type: StopLossType,
    /// Stop-limit price, used when the stop loss is a stop-limit.
    pub sl_limit_value: String,
    pub entry_type: EntryType,
    pub limit_price: String,
    pub stop_price: String,
    /// Validation errors shown inline: field key and message.
    pub errors: Vec<(String, String)>,
    pub symbol: String,
    /// Last known price, as an `f64` bit pattern.
    pub last_price: Option<u64>,
    /// The chart the panel is attached to.
    pub source_chart: Option<u32>,
    pub showing_confirmation: bool,
    /// `None`: no bracket on the chart; `Some(side)`: a bracket is shown.
    pub bracket_active: Option<OrderSide>,
    /// The live draft bracket this panel edits.
    pub bracket_annotation_id: Option<u64>,
    /// Whether the user edited the form since the last hydration,
    /// submit or cancel.
    pub dirty: bool,
}

/// Whether every field of `s` other than `visible`, `symbol`, `side`,
/// `quantity` and `bracket_active` holds its default.
pub open spec fn rest_is_default(s: OrderPanelState) -> bool {
    &&& !s.tp_enabled
    &&& s.tp_mode == PriceInputMode::Absolute
    &&& s.tp_value@.len() == 0
    &&& !s.sl_enabled
    &&& s.sl_mode == PriceInputMode::Absolute
    &&& s.sl_value@.len() == 0
    &&& s.sl_type == StopLossType::Stop
    &&& s.sl_limit_value@.len() == 0
    &&& s.entry_type == EntryType::Market
    &&& s.limit_price@.len() == 0
    &&& s.stop_price@.len() == 0
    &&& s.errors@.len() == 0
    &&& s.last_price is None
    &&& s.source_chart is None
    &&& !s.showing_confirmation
    &&& s.bracket_annotation_id is None
    &&& !s.dirty
}

/// Whether `s` is the default form.
pub open spec fn is_default_state(s: OrderPanelState) -> bool {
    &&& rest_is_default(s)
    &&& !s.visible
    &&& s.side == OrderSide::Buy
    &&& s.quantity@ == "100"@
    &&& s.symbol@.len() == 0
    &&& s.bracket_active is None
}

fn default_state() -> (r: OrderPanelState)
    ensures
        is_default_state(r),
{
    let quantity = "100".to_owned();
    proof {
        reveal_strlit("100");
    }
    OrderPanelState {
        visible: false,
        side: OrderSide::Buy,
        quantity,
        tp_enabled: false,
        tp_mode: PriceInputMode::Absolute,
        tp_value: String::new(),
        sl_enabled: false,
        sl_mode: PriceInputMode::Absolute,
        sl_value: String::new(),
        sl_type: StopLossType::Stop,
        sl_limit_value: String::new(),
        entry_type: EntryType::Market,
        limit_price: String::new(),
        stop_price: String::new(),
        errors: Vec::new(),
        symbol: String::new(),
        last_price: None,
        source_chart: None,
        showing_confirmation: false,
        bracket_active: None,
        bracket_annotation_id: None,
        dirty: false,
    }
}

impl Default for OrderPanelState {
    fn default() -> (r: Self)
        ensures
            is_default_state(r),
    {
        default_state()
    }
}

impl OrderPanelState {
    /// Whether hydrating the form from `symbol`'s ticker state goes
    /// ahead: a form with unsaved edits for that same symbol is kept.
    pub fn accepts_hydration(&self, symbol: &str) -> (r: bool)
        ensures
            r == !(self.dirty && self.symbol@ == symbol@),
    {
        !(self.dirty && str_eq(self.symbol.as_str(), symbol))
    }
}

/// The persisted part of an order panel.
#[derive(Debug)]
pub struct OrderPanelConfig {
    pub symbol: String,
    /// `"BUY"` or `"SELL"`; anything else restores as a buy.
    pub side: String,
    pub quantity: String,
    pub symbol_link: LinkMode,
    /// `"BUY"`, `"SELL"` or absent; anything else restores as absent.
    pub bracket_active: Option<String>,
    pub bound_symbol: Option<String>,
}

/// Whether `c` is the config of a panel never saved.
pub open spec fn is_default_config(c: OrderPanelConfig) -> bool {
    &&& c.symbol@.len() == 0
    &&& c.side@ == "BUY"@
    &&& c.quantity@ == "100"@
    &&& c.symbol_link == LinkMode::Unlinked
    &&& c.bracket_active is None
    &&& c.bound_symbol is None
}

impl Default for OrderPanelConfig {
    fn default() -> (r: Self)
        ensures
            is_default_config(r),
    {
        let side = "BUY".to_owned();
        let quantity = "100".to_owned();
        proof {
            reveal_strlit("BUY");
            reveal_strlit("100");
        }
        OrderPanelConfig {
            symbol: String::new(),
            side,
            quantity,
            symbol_link: LinkMode::Unlinked,
            bracket_active: None,
            bound_symbol: None,
        }
    }
}

/// A dockable order panel.
#[derive(Debug)]
pub struct OrderPanel {
    pub id: u32,
    pub state: OrderPanelState,
    /// Link group for symbol propagation.
    pub symbol_link: LinkMode,
    /// The symbol the panel is bound to, if any.
    pub bound_symbol: Option<String>,
}

/// The persisted code of a side.
pub open spec fn side_code(s: OrderSide) -> Seq<char> {
    match s {
        OrderSide::Buy => "BUY"@,
        OrderSide::Sell => "SELL"@,
    }
}

/// The side a persisted bracket toggle names.
pub open spec fn side_of_code(c: Seq<char>) -> Option<OrderSide> {
    if c == "BUY"@ {
        Some(OrderSide::Buy)
    } else if c == "SELL"@ {
        Some(OrderSide::Sell)
    } else {
        None
    }
}

/// An optional text, by its view.
pub open spec fn opt_text(o: Option<String>) -> Option<Seq<char>> {
    match o {
        Some(s) => Some(s@),
        None => None,
    }
}

/// The bound symbol a panel restores: the saved binding, else the
/// saved symbol; an empty one binds nothing.
pub open spec fn restored_binding(bound: Option<Seq<char>>, symbol: Seq<char>) -> Option<Seq<char>> {
    let k = match bound {
        Some(b) => b,
        None => symbol,
    };
    if k.len() == 0 {
        None
    } else {
        Some(k)
    }
}

/// The bracket toggle a saved config restores.
pub open spec fn restored_bracket(c: Option<Seq<char>>) -> Option<OrderSide> {
    match c {
        Some(t) => side_of_code(t),
        None => None,
    }
}

/// The persisted code of an optional bracket toggle.
pub open spec fn bracket_code(b: Option<OrderSide>) -> Option<Seq<char>> {
    match b {
        Some(s) => Some(side_code(s)),
        None => None,
    }
}

/// Whether `c` is the config that panel `p` persists.
pub open spec fn is_config_of(p: OrderPanel, c: OrderPanelConfig) -> bool {
    &&& c.symbol@ == p.state.symbol@
    &&& c.side@ == side_code(p.state.side)
    &&& c.quantity@ == p.state.quantity@
    &&& c.symbol_link == p.symbol_link
    &&& opt_text(c.bracket_active) == bracket_code(p.state.bracket_active)
    &&& opt_text(c.bound_symbol) == opt_text(p.bound_symbol)
}

/// Whether `r` is the panel `id` restored from config `c`: the
/// persisted fields, a visible form, the rest of the form at defaults.
pub open spec fn is_restored_from(id: u32, c: OrderPanelConfig, r: OrderPanel) -> bool {
    &&& r.id == id
    &&& r.state.symbol@ == c.symbol@
    &&& r.state.side == (if c.side@ == "SELL"@ {
        OrderSide::Sell
    } else {
        OrderSide::Buy
    })
    &&& r.state.quantity@ == c.quantity@
    &&& r.state.visible
    &&& r.state.bracket_active == restored_bracket(opt_text(c.bracket_active))
    &&& rest_is_default(r.state)
    &&& r.symbol_link == c.symbol_link
    &&& opt_text(r.bound_symbol) == restored_binding(opt_text(c.bound_symbol), c.symbol@)
}

fn side_text(s: OrderSide) -> (r: String)
    ensures
        r@ == side_code(s),
{
    match s {
        OrderSide::Buy => "BUY".to_owned(),
        OrderSide::Sell => "SELL".to_owned(),
    }
}

fn clone_opt(o: &Option<String>) -> (r: Option<String>)
    ensures
        opt_text(r) == opt_text(*o),
{
    match o {
        Some(s) => Some(s.clone()),
        None => None,
    }
}

impl OrderPanel {
    /// A new docked panel for `symbol`: a visible default form, bound to
    /// the symbol unless it is empty.
    pub fn new(id: u32, symbol: String) -> (r: Self)
        ensures
            r.id == id,
            r.state.symbol@ == symbol@,
            r.state.visible,
            r.state.side == OrderSide::Buy,
            r.state.quantity@ == "100"@,
            r.state.bracket_active is None,
            rest_is_default(r.state),
            r.symbol_link == LinkMode::Unlinked,
            opt_text(r.bound_symbol) == (if symbol@.len() == 0 {
                None
            } else {
                Some(symbol@)
            }),
    {
        let bound = if symbol.unicode_len() == 0 {
            None
        } else {
            Some(symbol.clone())
        };
        let mut state = default_state();
        state.symbol = symbol;
        state.visible = true;
        OrderPanel { id, state, symbol_link: LinkMode::Unlinked, bound_symbol: bound }
    }

    /// The config this panel persists.
    pub fn to_config(&self) -> (c: OrderPanelConfig)
        ensures
            is_config_of(*self, c),
    {
        let bracket_active = match self.state.bracket_active {
            Some(s) => Some(side_text(s)),
            None => None,
        };
        OrderPanelConfig {
            symbol: self.state.symbol.clone(),
            side: side_text(self.state.side),
            quantity: self.state.quantity.clone(),
            symbol_link: self.symbol_link,
            bracket_active,
            bound_symbol: clone_opt(&self.bound_symbol),
        }
    }

    /// Restore a panel from its saved config: the persisted fields come
    /// back, the rest of the form starts from its defaults, visible.
    pub fn from_config(id: u32, config: &OrderPanelConfig) -> (r: Self)
        ensures
            is_restored_from(id, *config, r),
    {
        let bracket_active = match &config.bracket_active {
            Some(t) => {
                if str_eq(t.as_str(), "BUY") {
                    Some(OrderSide::Buy)
                } else if str_eq(t.as_str(), "SELL") {
                    Some(OrderSide::Sell)
                } else {
                    None
                }
            },
            None => None,
        };
        let key = match &config.bound_symbol {
            Some(b) => b.clone(),
            None => config.symbol.clone(),
        };
        let bound_symbol = if key.unicode_len() == 0 {
            None
        } else {
            Some(key)
        };
        let mut state = default_state();
        state.symbol = config.symbol.clone();
        state.side = if str_eq(config.side.as_str(), "SELL") {
            OrderSide::Sell
        } else {
            OrderSide::Buy
        };
        state.quantity = config.quantity.clone();
        state.visible = true;
        state.bracket_active = bracket_active;
        OrderPanel { id, state, symbol_link: config.symbol_link, bound_symbol }
    }
}

/// Whether a panel's binding survives a save and restore as it is: a
/// non-empty bound symbol, or no binding on a panel without a symbol.
pub open spec fn binding_round_trips(p: OrderPanel) -> bool {
    match p.bound_symbol {
        Some(b) => b@.len() > 0,
        None => p.state.symbol@.len() == 0,
    }
}

/// Saving a panel and restoring it gives back its symbol, side,
/// quantity, link group and bracket toggle. The binding comes back as
/// the saved binding, or the symbol when there was none, and empty
/// binds nothing; so it comes back unchanged whenever it is a
/// non-empty symbol, or absent on a panel without a symbol.
pub proof fn lemma_config_round_trip(id: u32, p: OrderPanel, c: OrderPanelConfig, q: OrderPanel)
    requires
        is_config_of(p, c),
        is_restored_from(id, c, q),
    ensures
        q.id == id,
        q.state.symbol@ == p.state.symbol@,
        q.state.side == p.state.side,
        q.state.quantity@ == p.state.quantity@,
        q.symbol_link == p.symbol_link,
        q.state.bracket_active == p.state.bracket_active,
        opt_text(q.bound_symbol) == restored_binding(opt_text(p.bound_symbol), p.state.symbol@),
        binding_round_trips(p) ==> opt_text(q.bound_symbol) == opt_text(p.bound_symbol),
{
    reveal_strlit("BUY");
    reveal_strlit("SELL");
    assert("BUY"@.len() == 3 && "SELL"@.len() == 4);
}

} // verus!
