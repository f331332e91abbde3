//! Key input as the dashboard core understands it.
//!
//! The terminal layer translates raw terminal key events into this type
//! before handing them to the collections and the controller.

use vstd::prelude::*;

verus! {

/// One key press. `CtrlQ` is the control-modified exit key; `Other` stands
/// for any key the core does not react to.
#[derive(Clone, Copy, PartialEq, Eq, Structural, Debug)]
pub enum Key {
    Up,
    Down,
    Left,
    Right,
    Enter,
    Esc,
    Backspace,
    Char(char),
    CtrlQ,
    Other,
}

} // verus!
