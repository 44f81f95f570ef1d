//! The configuration data model: interval, button, arity, position, and the
//! synthetic events an emission round is made of.

use vstd::prelude::*;

verus! {

/// A repeat interval between emission rounds, decomposed into hours, minutes,
/// seconds and milliseconds for display. The pieces convert deterministically
/// to a single duration through `timing::convert_time_to_duration`.
#[derive(Debug, Clone, Copy, PartialEq, Eq, Structural)]
pub struct ClickInterval {
    pub hours: usize,
    pub minutes: usize,
    pub seconds: usize,
    pub milliseconds: usize,
}

impl Default for ClickInterval {
    /// The zero interval: emission rounds repeat back to back.
    fn default() -> (interval: Self)
        ensures
            interval == (ClickInterval { hours: 0, minutes: 0, seconds: 0, milliseconds: 0 }),
    {
        ClickInterval { hours: 0, minutes: 0, seconds: 0, milliseconds: 0 }
    }
}

/// The mouse button a click is issued with.
#[derive(Debug, Clone, Copy, PartialEq, Eq, Structural)]
pub enum MouseButton {
    Left,
    Middle,
    Right,
}

impl Default for MouseButton {
    fn default() -> (button: Self)
        ensures
            button == MouseButton::Left,
    {
        MouseButton::Left
    }
}

/// The click arity: how many press/release pairs one emission round issues.
#[derive(Debug, Clone, Copy, PartialEq, Eq, Structural)]
pub enum ClickType {
    Single,
    Double,
}

impl Default for ClickType {
    fn default() -> (arity: Self)
        ensures
            arity == ClickType::Single,
    {
        ClickType::Single
    }
}

/// How many press/release pairs the arity stands for.
pub open spec fn click_count_spec(arity: ClickType) -> nat {
    match arity {
        ClickType::Single => 1,
        ClickType::Double => 2,
    }
}

/// The repeat count an emission round derives from the arity.
pub fn click_count(arity: ClickType) -> (count: usize)
    ensures
        count == click_count_spec(arity),
{
    match arity {
        ClickType::Single => 1,
        ClickType::Double => 2,
    }
}

/// The button and arity a click is issued with, always sent and applied as a
/// complete pair, never as a diff.
#[derive(Debug, Clone, Copy, PartialEq, Eq, Structural)]
pub struct ClickOptions {
    pub mouse_button: MouseButton,
    pub click_type: ClickType,
}

impl Default for ClickOptions {
    fn default() -> (options: Self)
        ensures
            options == (ClickOptions {
                mouse_button: MouseButton::Left,
                click_type: ClickType::Single,
            }),
    {
        ClickOptions { mouse_button: MouseButton::Left, click_type: ClickType::Single }
    }
}

/// Where a click lands: wherever the pointer already is, or a fixed
/// coordinate the round moves to first.
#[derive(Debug, Clone, Copy, PartialEq, Eq, Structural)]
pub enum ClickPosition {
    CurrentCursorPosition,
    Custom { x: usize, y: usize },
}

impl Default for ClickPosition {
    fn default() -> (position: Self)
        ensures
            position == ClickPosition::CurrentCursorPosition,
    {
        ClickPosition::CurrentCursorPosition
    }
}

/// One synthetic input event of an emission round, in the order the engine
/// plans them. The caller that owns the OS input facility dispatches each in
/// turn.
#[derive(Debug, Clone, Copy, PartialEq, Eq, Structural)]
pub enum MouseEvent {
    MouseMove { x: usize, y: usize },
    ButtonPress { button: MouseButton },
    ButtonRelease { button: MouseButton },
}

} // verus!
