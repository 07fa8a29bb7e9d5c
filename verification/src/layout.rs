//! Workspace layout bookkeeping: what a pane holds, the id counters of
//! new panels, and which chart ids a layout preset keeps or creates.

use vstd::prelude::*;

verus! {

/// Predefined workspace layouts.
#[derive(Copy, Clone, Debug, PartialEq, Eq, Structural)]
pub enum LayoutPresetKind {
    /// Single chart filling the workspace.
    Single,
    /// Two charts side by side.
    SplitH,
    /// Two charts stacked.
    SplitV,
    /// Four charts in a 2x2 grid.
    Grid2x2,
}

/// What a workspace pane holds, by panel id.
#[derive(Copy, Clone, Debug, PartialEq, Eq, Structural)]
pub enum PanelContent {
    Chart(u32),
    Watchlist(u32),
    Order(u32),
}

/// A pane's content and whether it has focus.
#[derive(Copy, Clone, Debug, PartialEq, Eq, Structural)]
pub struct PaneState {
    pub content: PanelContent,
    pub is_focused: bool,
}

impl PaneState {
    /// An unfocused chart pane.
    pub fn chart(chart_id: u32) -> (r: Self)
        ensures
            r == (PaneState { content: PanelContent::Chart(chart_id), is_focused: false }),
    {
        PaneState { content: PanelContent::Chart(chart_id), is_focused: false }
    }

    /// An unfocused watchlist pane.
    pub fn watchlist(id: u32) -> (r: Self)
        ensures
            r == (PaneState { content: PanelContent::Watchlist(id), is_focused: false }),
    {
        PaneState { content: PanelContent::Watchlist(id), is_focused: false }
    }

    /// An unfocused order-panel pane.
    pub fn order(id: u32) -> (r: Self)
        ensures
            r == (PaneState { content: PanelContent::Order(id), is_focused: false }),
    {
        PaneState { content: PanelContent::Order(id), is_focused: false }
    }

    /// The chart this pane shows, if it is a chart pane.
    pub fn chart_id(&self) -> (r: Option<u32>)
        ensures
            r == (match self.content {
                PanelContent::Chart(id) => Some(id),
                _ => None,
            }),
    {
        match self.content {
            PanelContent::Chart(id) => Some(id),
            PanelContent::Watchlist(_) | PanelContent::Order(_) => None,
        }
    }
}

/// Counters that hand out fresh panel ids.
#[derive(Copy, Clone, Debug, PartialEq, Eq, Structural)]
pub struct PanelIds {
    pub next_chart_id: u32,
    pub next_watchlist_id: u32,
    pub next_order_panel_id: u32,
}

impl PanelIds {
    /// Counters for a fresh single-chart workspace: chart 1 is taken.
    pub fn for_single() -> (r: Self)
        ensures
            r == (PanelIds { next_chart_id: 2, next_watchlist_id: 1, next_order_panel_id: 1 }),
    {
        PanelIds { next_chart_id: 2, next_watchlist_id: 1, next_order_panel_id: 1 }
    }

    /// Hand out the next chart id.
    pub fn next_chart_id(&mut self) -> (r: u32)
        requires
            old(self).next_chart_id < u32::MAX,
        ensures
            r == old(self).next_chart_id,
            *final(self) == (PanelIds { next_chart_id: (r + 1) as u32, ..*old(self) }),
    {
        let id = self.next_chart_id;
        self.next_chart_id = self.next_chart_id + 1;
        id
    }

    /// Hand out the next watchlist id.
    pub fn next_watchlist_id(&mut self) -> (r: u32)
        requires
            old(self).next_watchlist_id < u32::MAX,
        ensures
            r == old(self).next_watchlist_id,
            *final(self) == (PanelIds { next_watchlist_id: (r + 1) as u32, ..*old(self) }),
    {
        let id = self.next_watchlist_id;
        self.next_watchlist_id = self.next_watchlist_id + 1;
        id
    }

    /// Hand out the next order-panel id.
    pub fn next_order_panel_id(&mut self) -> (r: u32)
        requires
            old(self).next_order_panel_id < u32::MAX,
        ensures
            r == old(self).next_order_panel_id,
            *final(self) == (PanelIds { next_order_panel_id: (r + 1) as u32, ..*old(self) }),
    {
        let id = self.next_order_panel_id;
        self.next_order_panel_id = self.next_order_panel_id + 1;
        id
    }
}

/// The chart a one- or two-pane preset keeps: the focused chart, else
/// the first chart of the workspace, else a fresh one.
pub fn kept_chart_id(focused: Option<u32>, first_chart: Option<u32>, ids: &mut PanelIds) -> (r: u32)
    requires
        old(ids).next_chart_id < u32::MAX,
    ensures
        match (focused, first_chart) {
            (Some(f), _) => r == f && *final(ids) == *old(ids),
            (None, Some(c)) => r == c && *final(ids) == *old(ids),
            (None, None) => r == old(ids).next_chart_id && final(ids).next_chart_id == r + 1
                && final(ids).next_watchlist_id == old(ids).next_watchlist_id
                && final(ids).next_order_panel_id == old(ids).next_order_panel_id,
        },
{
    match focused {
        Some(f) => f,
        None => match first_chart {
            Some(c) => c,
            None => ids.next_chart_id(),
        },
    }
}

/// The four charts of a 2x2 grid: the workspace's first four charts,
/// topped up with fresh ids.
pub fn grid_chart_ids(existing: &Vec<u32>, ids: &mut PanelIds) -> (r: Vec<u32>)
    requires
        old(ids).next_chart_id + 4 <= u32::MAX,
    ensures
        r@.len() == 4,
        forall|i: int|
            0 <= i < 4 ==> #[trigger] r@[i] == if i < existing@.len() {
                existing@[i] as int
            } else {
                old(ids).next_chart_id + (i - existing@.len())
            },
        final(ids).next_chart_id == old(ids).next_chart_id + (if existing@.len() >= 4 {
            0
        } else {
            4 - existing@.len()
        }),
        final(ids).next_watchlist_id == old(ids).next_watchlist_id,
        final(ids).next_order_panel_id == old(ids).next_order_panel_id,
{
    let mut out: Vec<u32> = Vec::new();
    let mut i: usize = 0;
    while i < 4
        invariant
            i <= 4,
            out@.len() == i,
            old(ids).next_chart_id + 4 <= u32::MAX,
            forall|j: int|
                0 <= j < i ==> #[trigger] out@[j] == if j < existing@.len() {
                    existing@[j] as int
                } else {
                    old(ids).next_chart_id + (j - existing@.len())
                },
            ids.next_chart_id == old(ids).next_chart_id + (if existing@.len() >= i {
                0
            } else {
                i - existing@.len()
            }),
            ids.next_watchlist_id == old(ids).next_watchlist_id,
            ids.next_order_panel_id == old(ids).next_order_panel_id,
        decreases 4 - i,
    {
        if i < existing.len() {
            out.push(existing[i]);
        } else {
            let id = ids.next_chart_id();
            out.push(id);
        }
        i = i + 1;
    }
    out
}

} // verus!
