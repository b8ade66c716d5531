//! A mode-aware legend of active keybindings for a terminal multiplexer.
//!
//! The library keeps a small session state fed by host events (the active
//! input mode with its keybinding tables, and the list of tab names),
//! decides when a re-render is due, and turns the active mode's keybinding
//! table into two ordered blocks of display lines: mode-switch bindings
//! first, regular bindings after them.

use vstd::prelude::*;

pub mod labels;
pub mod render;
pub mod state;

verus! {

} // verus!
