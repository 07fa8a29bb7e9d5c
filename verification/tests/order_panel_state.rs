use midas_app::link::LinkMode;
use midas_app::order_panel::OrderSide;
use midas_app::order_panel_state::{OrderPanel, OrderPanelConfig, OrderPanelState};

fn new_sets_symbol() {
    let id = 1u32;
    let panel = OrderPanel::new(id, "AAPL".to_string());
    assert_eq!(panel.id, id);
    assert_eq!(panel.state.symbol, "AAPL");
    assert!(panel.state.visible);
    assert_eq!(panel.state.side, OrderSide::Buy);
    assert_eq!(panel.state.quantity, "100");
}

fn to_config_roundtrip() {
    let id = 5u32;
    let mut panel = OrderPanel::new(id, "MSFT".to_string());
    panel.state.side = OrderSide::Sell;
    panel.state.quantity = "250".to_string();
    panel.symbol_link = LinkMode::ListenAll;

    let config = panel.to_config();
    assert_eq!(config.symbol, "MSFT");
    assert_eq!(config.side, "SELL");
    assert_eq!(config.quantity, "250");
    assert_eq!(config.symbol_link, LinkMode::ListenAll);

    let restored = OrderPanel::from_config(id, &config);
    assert_eq!(restored.id, id);
    assert_eq!(restored.state.symbol, "MSFT");
    assert_eq!(restored.state.side, OrderSide::Sell);
    assert_eq!(restored.state.quantity, "250");
    assert_eq!(restored.symbol_link, LinkMode::ListenAll);
    assert!(restored.state.visible);
}

fn from_config_defaults() {
    let config = OrderPanelConfig::default();
    let panel = OrderPanel::from_config(1, &config);
    assert_eq!(panel.state.side, OrderSide::Buy);
    assert_eq!(panel.state.quantity, "100");
    assert!(panel.state.symbol.is_empty());
}

#[test]
fn order_panel_order_panel_new_sets_symbol() {
    new_sets_symbol();
}

#[test]
fn tests_order_panel_new_sets_symbol() {
    new_sets_symbol();
}

#[test]
fn order_panel_order_panel_to_config_roundtrip() {
    to_config_roundtrip();
}

#[test]
fn tests_order_panel_to_config_roundtrip() {
    to_config_roundtrip();
}

#[test]
fn order_panel_order_panel_from_config_defaults() {
    from_config_defaults();
}

#[test]
fn tests_order_panel_from_config_defaults() {
    from_config_defaults();
}

#[test]
fn to_config_persists_bracket_active_buy() {
    let mut panel = OrderPanel::new(1, "AAPL".to_string());
    panel.state.bracket_active = Some(OrderSide::Buy);
    let config = panel.to_config();
    assert_eq!(config.bracket_active, Some("BUY".to_string()));
}

#[test]
fn to_config_persists_bracket_active_sell() {
    let mut panel = OrderPanel::new(1, "AAPL".to_string());
    panel.state.bracket_active = Some(OrderSide::Sell);
    let config = panel.to_config();
    assert_eq!(config.bracket_active, Some("SELL".to_string()));
}

#[test]
fn to_config_persists_bracket_active_none() {
    let panel = OrderPanel::new(1, "AAPL".to_string());
    let config = panel.to_config();
    assert_eq!(config.bracket_active, None);
}

#[test]
fn from_config_restores_bracket_active_buy() {
    let config =
        OrderPanelConfig { bracket_active: Some("BUY".to_string()), ..Default::default() };
    let panel = OrderPanel::from_config(1, &config);
    assert_eq!(panel.state.bracket_active, Some(OrderSide::Buy));
}

#[test]
fn from_config_restores_bracket_active_sell() {
    let config =
        OrderPanelConfig { bracket_active: Some("SELL".to_string()), ..Default::default() };
    let panel = OrderPanel::from_config(1, &config);
    assert_eq!(panel.state.bracket_active, Some(OrderSide::Sell));
}

#[test]
fn from_config_bracket_active_none_when_missing() {
    let config = OrderPanelConfig::default();
    let panel = OrderPanel::from_config(1, &config);
    assert_eq!(panel.state.bracket_active, None);
}

#[test]
fn from_config_bracket_active_none_for_unknown_value() {
    let config =
        OrderPanelConfig { bracket_active: Some("UNKNOWN".to_string()), ..Default::default() };
    let panel = OrderPanel::from_config(1, &config);
    assert_eq!(panel.state.bracket_active, None);
}

#[test]
fn bracket_active_roundtrip_buy() {
    let mut panel = OrderPanel::new(1, "TSLA".to_string());
    panel.state.bracket_active = Some(OrderSide::Buy);
    let restored = OrderPanel::from_config(1, &panel.to_config());
    assert_eq!(restored.state.bracket_active, Some(OrderSide::Buy));
}

#[test]
fn bracket_active_roundtrip_sell() {
    let mut panel = OrderPanel::new(1, "TSLA".to_string());
    panel.state.bracket_active = Some(OrderSide::Sell);
    let restored = OrderPanel::from_config(1, &panel.to_config());
    assert_eq!(restored.state.bracket_active, Some(OrderSide::Sell));
}

#[test]
fn bracket_active_roundtrip_none() {
    let panel = OrderPanel::new(1, "TSLA".to_string());
    let restored = OrderPanel::from_config(1, &panel.to_config());
    assert_eq!(restored.state.bracket_active, None);
}

#[test]
fn binding_falls_back_to_symbol_and_empty_binds_nothing() {
    let restored = OrderPanel::from_config(
        2,
        &OrderPanelConfig { symbol: "NVDA".to_string(), ..Default::default() },
    );
    assert_eq!(restored.bound_symbol.as_deref(), Some("NVDA"));
    let restored = OrderPanel::from_config(
        2,
        &OrderPanelConfig {
            symbol: "NVDA".to_string(),
            bound_symbol: Some(String::new()),
            ..Default::default()
        },
    );
    assert_eq!(restored.bound_symbol, None);
    let fresh = OrderPanel::new(3, String::new());
    assert_eq!(fresh.bound_symbol, None);
    let state = OrderPanelState::default();
    assert!(!state.visible);
    assert!(state.errors.is_empty());
    assert_eq!(state.last_price, None);
}

#[test]
fn dirty_form_keeps_its_own_symbol() {
    let mut state = OrderPanelState::default();
    state.symbol = "AAPL".to_string();
    assert!(state.accepts_hydration("AAPL"));
    state.dirty = true;
    assert!(!state.accepts_hydration("AAPL"));
    assert!(state.accepts_hydration("MSFT"));
}
