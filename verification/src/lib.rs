//! Verified core of the Midas desktop trading workspace: order blotter
//! bookkeeping, link propagation, chart policies, devloop parsing and
//! the small state machines the desktop shell drives.

pub mod blotter;
pub mod blotter_laws;
pub mod broker;
pub mod broker_inject;
pub mod columns;
pub mod devloop;
pub mod idle;
pub mod dispatch;
pub mod json;
pub mod keys;
pub mod layout;
pub mod level_store;
pub mod link;
pub mod order_panel;
pub mod order_panel_state;
pub mod persist;
pub mod registry;
pub mod session;
pub mod sim_child;
pub mod text;
pub mod ticker_inject;

use vstd::prelude::*;

verus! {

} // verus!
