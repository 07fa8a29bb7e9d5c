use midas_app::session::{
    axis_kind_label, bar_period_ns, period_label, tool_kind_for_label, AxisKind, BarPeriod,
    EhPolicy, SceneLayers, TimeAxisPolicy, ToolKind,
};

#[test]
fn cycle_round_trips_after_three_applications() {
    assert_eq!(EhPolicy::default(), EhPolicy::ShowAll);
    assert_eq!(EhPolicy::ShowAll.next(), EhPolicy::HideExtended);
    assert_eq!(EhPolicy::HideExtended.next(), EhPolicy::ShowBarsOnly);
    assert_eq!(EhPolicy::ShowBarsOnly.next(), EhPolicy::ShowAll);
}

#[test]
fn short_labels_are_stable() {
    assert_eq!(EhPolicy::ShowAll.short_label(), "EH");
    assert_eq!(EhPolicy::HideExtended.short_label(), "RTH");
    assert_eq!(EhPolicy::ShowBarsOnly.short_label(), "EH·bars");
}

#[test]
fn eh_policy_show_all_has_bands_and_separators() {
    let layers = SceneLayers::from_eh_policy(EhPolicy::ShowAll, true);
    assert!(layers.session_bands);
    assert!(layers.session_separators);
    assert!(layers.candles);
    assert!(layers.holidays);
}

#[test]
fn eh_policy_hide_extended_keeps_bands_and_separators() {
    let layers = SceneLayers::from_eh_policy(EhPolicy::HideExtended, true);
    assert!(layers.session_bands);
    assert!(layers.session_separators);
}

#[test]
fn eh_policy_show_bars_only_hides_bands_and_separators() {
    let layers = SceneLayers::from_eh_policy(EhPolicy::ShowBarsOnly, true);
    assert!(!layers.session_bands);
    assert!(!layers.session_separators);
    assert!(layers.candles, "candles must still render");
    assert!(layers.crosshair, "crosshair still usable");
}

#[test]
fn eh_policy_crypto_never_gets_holidays() {
    for p in [EhPolicy::ShowAll, EhPolicy::HideExtended, EhPolicy::ShowBarsOnly] {
        let layers = SceneLayers::from_eh_policy(p, false);
        assert!(
            !layers.holidays,
            "crypto must never enable the holiday layer (policy {p:?})"
        );
    }
}

#[test]
fn eh_policy_xnys_always_gets_holidays() {
    for p in [EhPolicy::ShowAll, EhPolicy::HideExtended, EhPolicy::ShowBarsOnly] {
        let layers = SceneLayers::from_eh_policy(p, true);
        assert!(layers.holidays, "XNYS must enable the holiday layer (policy {p:?})");
    }
}

#[test]
fn session_chart_panel_axis_kind_label_covers_all_variants() {
    assert_eq!(axis_kind_label(AxisKind::Continuous), "Continuous");
    assert_eq!(axis_kind_label(AxisKind::Compressed), "Compressed");
    assert_eq!(axis_kind_label(AxisKind::SessionIndex), "SessionIndex");
}

#[test]
fn session_chart_window_axis_kind_label_covers_all_variants() {
    assert_eq!(axis_kind_label(AxisKind::Continuous), "Continuous");
    assert_eq!(axis_kind_label(AxisKind::Compressed), "Compressed");
    assert_eq!(axis_kind_label(AxisKind::SessionIndex), "SessionIndex");
}

#[test]
fn session_chart_panel_period_label_covers_canonical_periods() {
    assert_eq!(period_label(BarPeriod::m1()), "M1");
    assert_eq!(period_label(BarPeriod::m5()), "M5");
    assert_eq!(period_label(BarPeriod::h1()), "H1");
    assert_eq!(period_label(BarPeriod::d1_rth()), "D1·RTH");
    assert_eq!(period_label(BarPeriod::w1()), "W1");
    assert_eq!(period_label(BarPeriod::mn1()), "MN1");
}

#[test]
fn session_chart_window_period_label_covers_canonical_periods() {
    assert_eq!(period_label(BarPeriod::m1()), "M1");
    assert_eq!(period_label(BarPeriod::m5()), "M5");
    assert_eq!(period_label(BarPeriod::h1()), "H1");
    assert_eq!(period_label(BarPeriod::d1_rth()), "D1·RTH");
    assert_eq!(period_label(BarPeriod::w1()), "W1");
    assert_eq!(period_label(BarPeriod::mn1()), "MN1");
}

#[test]
fn bar_period_nanos_of_canonical_periods() {
    assert_eq!(bar_period_ns(BarPeriod::m1()), 60_000_000_000);
    assert_eq!(bar_period_ns(BarPeriod::m5()), 300_000_000_000);
    // Periods without their own floor fall back to one minute.
    assert_eq!(bar_period_ns(BarPeriod::h1()), 60_000_000_000);
    assert_eq!(bar_period_ns(BarPeriod::mn1()), 60_000_000_000);
    assert_eq!(bar_period_ns(BarPeriod::d1_rth()), 86_400_000_000_000);
    assert_eq!(bar_period_ns(BarPeriod::w1()), 7 * 86_400_000_000_000);
}

#[test]
fn axis_kind_follows_calendar_policy() {
    assert_eq!(AxisKind::for_calendar(TimeAxisPolicy::Continuous), AxisKind::Continuous);
    assert_eq!(
        AxisKind::for_calendar(TimeAxisPolicy::CompressedSessionBoundaries),
        AxisKind::Compressed
    );
}

#[test]
fn scene_layer_presets() {
    let all = SceneLayers::all_on();
    assert!(all.candles && all.session_bands && all.session_separators && all.crosshair);
    assert!(!all.holidays, "holidays are opt-in");
    let minimal = SceneLayers::candles_and_grid();
    assert!(minimal.candles && minimal.grid);
    assert!(!minimal.session_bands && !minimal.volume && !minimal.crosshair);
    assert!(!minimal.holidays);
}

#[test]
fn tool_kind_for_label_maps_known_values() {
    assert_eq!(tool_kind_for_label(Some("level")), Some(ToolKind::Level));
    assert_eq!(tool_kind_for_label(Some("bracket")), Some(ToolKind::Bracket));
    assert_eq!(tool_kind_for_label(None), None);
}

#[test]
fn tool_kind_for_label_unknown_returns_none() {
    assert_eq!(tool_kind_for_label(Some("teleporter")), None);
}
