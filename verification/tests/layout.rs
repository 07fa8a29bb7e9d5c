use midas_app::layout::{grid_chart_ids, kept_chart_id, PaneState, PanelIds};

#[test]
fn ids_count_up() {
    let mut ids = PanelIds::for_single();
    assert_eq!(ids.next_chart_id(), 2);
    assert_eq!(ids.next_chart_id(), 3);
    assert_eq!(ids.next_watchlist_id(), 1);
    assert_eq!(ids.next_order_panel_id(), 1);
}

#[test]
fn kept_chart_prefers_focus_then_first() {
    let mut ids = PanelIds::for_single();
    assert_eq!(kept_chart_id(Some(7), Some(3), &mut ids), 7);
    assert_eq!(kept_chart_id(None, Some(3), &mut ids), 3);
    assert_eq!(kept_chart_id(None, None, &mut ids), 2);
    assert_eq!(ids.next_chart_id, 3);
}

#[test]
fn grid_tops_up_with_fresh_ids() {
    let mut ids = PanelIds::for_single();
    assert_eq!(grid_chart_ids(&vec![1], &mut ids), vec![1, 2, 3, 4]);
    assert_eq!(ids.next_chart_id, 5);
    let mut ids = PanelIds::for_single();
    assert_eq!(grid_chart_ids(&vec![9, 8, 7, 6, 5], &mut ids), vec![9, 8, 7, 6]);
    assert_eq!(ids.next_chart_id, 2);
}

#[test]
fn pane_chart_id() {
    assert_eq!(PaneState::chart(4).chart_id(), Some(4));
    assert_eq!(PaneState::watchlist(4).chart_id(), None);
    assert!(!PaneState::order(1).is_focused);
}
