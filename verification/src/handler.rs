//! The callback interface that menu items carry, and the item display state.

use vstd::prelude::*;

verus! {

/// Callback for invoking a menu item's functionality.
///
/// Implemented by user code; one value is stored per registered menu item and
/// invoked when a menu-command notification reports that item's position.
pub trait MenuItemHandler: 'static {
    /// Invoked (synchronously, on the message-loop thread) when the user
    /// selects the associated menu item.
    fn invoke(&mut self);
}

/// A placeholder handler for menus none of whose items carry a callback;
/// invoking it does nothing.
#[derive(Clone, Copy, Debug, PartialEq, Eq, Structural)]
pub struct Empty;

impl MenuItemHandler for Empty {
    fn invoke(&mut self) {
    }
}

/// The display state of a menu item: checked, mixed, or unchecked.
#[derive(Clone, Copy, Debug, PartialEq, Eq, Structural)]
pub enum MenuItemState {
    /// Checked.
    On,
    Mixed,
    /// Unchecked.
    Off,
}

impl MenuItemState {
    /// The native state value standing for this state: on is `1`, mixed is
    /// `-1`, off is `0`.
    pub fn to_raw(self) -> (r: isize)
        ensures
            r == (match self {
                MenuItemState::On => 1isize,
                MenuItemState::Mixed => -1isize,
                MenuItemState::Off => 0isize,
            }),
    {
        match self {
            MenuItemState::On => 1,
            MenuItemState::Mixed => -1,
            MenuItemState::Off => 0,
        }
    }

    /// The state a native state value stands for, if any.
    pub fn from_raw(value: isize) -> (r: Option<MenuItemState>)
        ensures
            r == (match value {
                1isize => Some(MenuItemState::On),
                -1isize => Some(MenuItemState::Mixed),
                0isize => Some(MenuItemState::Off),
                _ => None::<MenuItemState>,
            }),
    {
        match value {
            1 => Some(MenuItemState::On),
            -1 => Some(MenuItemState::Mixed),
            0 => Some(MenuItemState::Off),
            _ => None,
        }
    }
}

} // verus!
