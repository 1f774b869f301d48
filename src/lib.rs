//! Coordination core of a tray-resident popover application: the presentation
//! state machine, the tray event router, the UI work queue, the file-dialog
//! bridge and the focus-loss debounce.
use vstd::prelude::*;

pub mod presentation;
pub mod dispatcher;
pub mod bridge;
pub mod tray;
pub mod focus;

verus! {

} // verus!
