//! Key events as the state machine sees them, and the modifier-scaled step for
//! amount editing.

use vstd::prelude::*;

verus! {

/// The modifier keys held during a key press.
#[derive(Clone, Copy, PartialEq, Eq, Structural, Debug)]
pub struct Modifiers {
    /// Shift was held.
    pub shift: bool,
    /// Control was held.
    pub control: bool,
    /// Alt was held.
    pub alt: bool,
}

impl Modifiers {
    /// No modifier held.
    pub fn none() -> (r: Self)
        ensures
            r == (Modifiers { shift: false, control: false, alt: false }),
    {
        Modifiers { shift: false, control: false, alt: false }
    }
}

/// The keys the application reacts to. Anything else arrives as `Other`.
#[derive(Clone, Copy, PartialEq, Eq, Structural, Debug)]
pub enum Key {
    Left,
    Right,
    Up,
    Down,
    Enter,
    Esc,
    Backspace,
    Delete,
    Insert,
    Tab,
    BackTab,
    Char(char),
    Other,
}

/// One key press: the key and the modifiers held with it.
#[derive(Clone, Copy, PartialEq, Eq, Structural, Debug)]
pub struct KeyPress {
    /// The key pressed.
    pub code: Key,
    /// The modifiers held.
    pub modifiers: Modifiers,
}

impl KeyPress {
    /// A press of a key with no modifiers.
    pub fn plain(code: Key) -> (r: Self)
        ensures
            r == (KeyPress { code, modifiers: Modifiers { shift: false, control: false,
                alt: false } }),
    {
        KeyPress { code, modifiers: Modifiers::none() }
    }
}

/// The amount step a set of held modifiers selects: the base step scaled by 5
/// for Shift, by 50 for Control and by 200 for Alt, composing multiplicatively.
pub open spec fn step_of_modifiers(m: Modifiers) -> int {
    (if m.shift {
        5int
    } else {
        1int
    }) * (if m.control {
        50int
    } else {
        1int
    }) * (if m.alt {
        200int
    } else {
        1int
    })
}

/// Returns the value step selected by the held modifier keys.
pub fn value_from_modifiers(modifiers: Modifiers) -> (r: i32)
    ensures
        r == step_of_modifiers(modifiers),
        1 <= r <= 50000,
{
    let mut value: i32 = 1;
    if modifiers.shift {
        value = 5;
    }
    if modifiers.control {
        value = value * 50;
    }
    if modifiers.alt {
        value = value * 200;
    }
    value
}

/// Adding a step, stopping at the greatest representable value.
pub open spec fn sat_add_model(amount: i32, step: int) -> i32 {
    if amount + step > i32::MAX {
        i32::MAX
    } else if amount + step < i32::MIN {
        i32::MIN
    } else {
        (amount + step) as i32
    }
}

/// Subtracting a step, stopping at the least representable value.
pub open spec fn sat_sub_model(amount: i32, step: int) -> i32 {
    if amount - step < i32::MIN {
        i32::MIN
    } else if amount - step > i32::MAX {
        i32::MAX
    } else {
        (amount - step) as i32
    }
}

/// Adds a positive step to an amount, stopping at the greatest representable
/// value instead of overflowing.
pub fn saturating_add_step(amount: i32, step: i32) -> (r: i32)
    requires
        step >= 0,
    ensures
        r == sat_add_model(amount, step as int),
{
    if amount <= i32::MAX - step {
        amount + step
    } else {
        i32::MAX
    }
}

/// Subtracts a positive step from an amount, stopping at the least
/// representable value instead of overflowing.
pub fn saturating_sub_step(amount: i32, step: i32) -> (r: i32)
    requires
        step >= 0,
    ensures
        r == sat_sub_model(amount, step as int),
{
    if amount >= i32::MIN + step {
        amount - step
    } else {
        i32::MIN
    }
}

/// Moving a selection one row down: the first row when nothing is selected,
/// otherwise one further, stopping at the last row; no selection without rows.
pub open spec fn select_next_model(sel: Option<usize>, len: nat) -> Option<usize> {
    if len == 0 {
        None
    } else {
        match sel {
            None => Some(0usize),
            Some(i) => if i + 1 < len {
                Some((i + 1) as usize)
            } else {
                Some((len - 1) as usize)
            },
        }
    }
}

/// Moving a selection one row up: the first row when nothing is selected,
/// otherwise one back, stopping at the first row; no selection without rows.
pub open spec fn select_prev_model(sel: Option<usize>, len: nat) -> Option<usize> {
    if len == 0 {
        None
    } else {
        match sel {
            None => Some(0usize),
            Some(i) => if i == 0 {
                Some(0usize)
            } else if i < len {
                Some((i - 1) as usize)
            } else {
                Some((len - 1) as usize)
            },
        }
    }
}

/// Moves a selection one row down within a list of `len` rows.
pub fn select_next(sel: Option<usize>, len: usize) -> (r: Option<usize>)
    ensures
        r == select_next_model(sel, len as nat),
{
    if len == 0 {
        None
    } else {
        match sel {
            None => Some(0),
            Some(i) => if i < len - 1 {
                Some(i + 1)
            } else {
                Some(len - 1)
            },
        }
    }
}

/// Moves a selection one row up within a list of `len` rows.
pub fn select_prev(sel: Option<usize>, len: usize) -> (r: Option<usize>)
    ensures
        r == select_prev_model(sel, len as nat),
{
    if len == 0 {
        None
    } else {
        match sel {
            None => Some(0),
            Some(i) => if i == 0 {
                Some(0)
            } else if i < len {
                Some(i - 1)
            } else {
                Some(len - 1)
            },
        }
    }
}

} // verus!
