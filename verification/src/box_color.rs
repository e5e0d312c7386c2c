//! The colour of the bouncing box and the Shift key that switches it.
//!
//! The box starts red. Each press of Shift switches it, first to green, then
//! to yellow, then to green again, and so on; every other key leaves it as it
//! is. The switch remembers which colour comes next in `check_num`: 0 before
//! a green, 1 before a yellow.
use vstd::prelude::*;

verus! {

/// A colour that the box can be drawn in.
#[derive(Clone, Copy, Debug, PartialEq, Eq, Structural)]
pub enum BoxColor {
    Red,
    Green,
    Yellow,
}

/// The CSS fill style of each colour, as the canvas receives it.
///
/// The yellow one lacks its closing parenthesis, so a canvas rejects it and
/// keeps the fill style it had; the string is kept exactly as the page sets it.
pub open spec fn css_of(color: BoxColor) -> Seq<char> {
    match color {
        BoxColor::Red => "rgba(255, 0, 0, 0.5)"@,
        BoxColor::Green => "rgba(0, 255, 0, 0.5)"@,
        BoxColor::Yellow => "rgba(255, 255, 0, 0.5"@,
    }
}

impl BoxColor {
    /// The colour the box has before any key is pressed.
    pub fn initial() -> (color: BoxColor)
        ensures
            color == BoxColor::Red,
    {
        BoxColor::Red
    }

    /// The CSS fill style of this colour.
    pub fn css(&self) -> (s: String)
        ensures
            s@ == css_of(*self),
            *self == BoxColor::Red ==> s@ == "rgba(255, 0, 0, 0.5)"@,
            *self == BoxColor::Green ==> s@ == "rgba(0, 255, 0, 0.5)"@,
            *self == BoxColor::Yellow ==> s@ == "rgba(255, 255, 0, 0.5"@,
    {
        match self {
            BoxColor::Red => String::from_str("rgba(255, 0, 0, 0.5)"),
            BoxColor::Green => String::from_str("rgba(0, 255, 0, 0.5)"),
            BoxColor::Yellow => String::from_str("rgba(255, 255, 0, 0.5"),
        }
    }
}

/// Whether a key name is the one that switches the colour.
pub open spec fn is_shift(key: Seq<char>) -> bool {
    key == "Shift"@
}

/// The switch's state after a key press.
pub open spec fn next_check_num(check_num: int, key: Seq<char>) -> int {
    if is_shift(key) && check_num == 0 {
        1
    } else if is_shift(key) && check_num == 1 {
        0
    } else {
        check_num
    }
}

/// The colour that a key press sets, if it sets one.
pub open spec fn color_set_by(check_num: int, key: Seq<char>) -> Option<BoxColor> {
    if is_shift(key) && check_num == 0 {
        Some(BoxColor::Green)
    } else if is_shift(key) && check_num == 1 {
        Some(BoxColor::Yellow)
    } else {
        None
    }
}

/// The switch's state after `n` presses of Shift on a fresh switch.
pub open spec fn check_num_after_shifts(n: nat) -> int
    decreases n,
{
    if n == 0 {
        0
    } else {
        next_check_num(check_num_after_shifts((n - 1) as nat), "Shift"@)
    }
}

/// Remembers which colour the next press of Shift sets.
pub struct ShiftSwitch {
    check_num: i32,
}

impl View for ShiftSwitch {
    type V = int;

    closed spec fn view(&self) -> int {
        self.check_num as int
    }
}

/// Whether `key` names the Shift key.
fn is_shift_key(key: &str) -> (b: bool)
    ensures
        b == is_shift(key@),
        b <==> key@ == "Shift"@,
{
    let pressed = key.to_owned();
    let shift = String::from_str("Shift");
    pressed == shift
}

impl ShiftSwitch {
    /// A switch whose next Shift press turns the box green.
    pub fn new() -> (switch: ShiftSwitch)
        ensures
            switch@ == 0,
    {
        ShiftSwitch { check_num: 0 }
    }

    /// Handles one key press: returns the colour the box takes, or `None`
    /// where the box keeps its colour.
    pub fn on_key(&mut self, key: &str) -> (set: Option<BoxColor>)
        ensures
            final(self)@ == next_check_num(old(self)@, key@),
            set == color_set_by(old(self)@, key@),
            key@ != "Shift"@ ==> set is None && final(self)@ == old(self)@,
            key@ == "Shift"@ && old(self)@ == 0 ==> set == Some(BoxColor::Green) && final(self)@ == 1,
            key@ == "Shift"@ && old(self)@ == 1 ==> set == Some(BoxColor::Yellow) && final(self)@ == 0,
    {
        let shift = is_shift_key(key);
        if shift && self.check_num == 0 {
            self.check_num = 1;
            Some(BoxColor::Green)
        } else if shift && self.check_num == 1 {
            self.check_num = 0;
            Some(BoxColor::Yellow)
        } else {
            None
        }
    }
}

/// The switch only ever holds 0 or 1: every key press keeps it there.
pub proof fn lemma_check_num_stays_binary(check_num: int, key: Seq<char>)
    requires
        check_num == 0 || check_num == 1,
    ensures
        next_check_num(check_num, key) == 0 || next_check_num(check_num, key) == 1,
{
}

/// A key other than Shift neither changes the switch nor sets a colour.
pub proof fn lemma_other_keys_are_ignored(check_num: int, key: Seq<char>)
    requires
        key != "Shift"@,
    ensures
        next_check_num(check_num, key) == check_num,
        color_set_by(check_num, key) is None,
{
}

/// Two presses of Shift bring the switch back to where it was.
pub proof fn lemma_two_shifts_restore(check_num: int)
    requires
        check_num == 0 || check_num == 1,
    ensures
        next_check_num(next_check_num(check_num, "Shift"@), "Shift"@) == check_num,
{
}

/// Only the key named exactly "Shift" switches: a press of it on a switch
/// holding 0 or 1 always sets a colour and moves the switch, and a press of
/// any other key sets none and leaves the switch where it was.
pub proof fn lemma_only_shift_switches(check_num: int, key: Seq<char>)
    requires
        check_num == 0 || check_num == 1,
    ensures
        (color_set_by(check_num, key) is Some) <==> key == "Shift"@,
        (next_check_num(check_num, key) != check_num) <==> key == "Shift"@,
{
}

/// Every press of Shift sets a colour, and two presses in a row set
/// different colours, green and yellow.
pub proof fn lemma_shifts_alternate(check_num: int)
    requires
        check_num == 0 || check_num == 1,
    ensures
        color_set_by(check_num, "Shift"@) is Some,
        color_set_by(next_check_num(check_num, "Shift"@), "Shift"@) is Some,
        color_set_by(check_num, "Shift"@) != color_set_by(next_check_num(check_num, "Shift"@), "Shift"@),
        color_set_by(check_num, "Shift"@) == Some(BoxColor::Green) || color_set_by(check_num, "Shift"@) == Some(BoxColor::Yellow),
{
}

/// On a fresh switch, after `n` presses of Shift, the next press sets green
/// when `n` is even and yellow when `n` is odd.
pub proof fn lemma_color_after_shifts(n: nat)
    ensures
        check_num_after_shifts(n) == (n % 2) as int,
        color_set_by(check_num_after_shifts(n), "Shift"@) == (if n % 2 == 0 {
            Some(BoxColor::Green)
        } else {
            Some(BoxColor::Yellow)
        }),
    decreases n,
{
    if n > 0 {
        lemma_color_after_shifts((n - 1) as nat);
    }
}

/// The number of Shift presses among `keys`.
pub open spec fn shift_count(keys: Seq<Seq<char>>) -> nat
    decreases keys.len(),
{
    if keys.len() == 0 {
        0
    } else if keys.last() == "Shift"@ {
        shift_count(keys.drop_last()) + 1
    } else {
        shift_count(keys.drop_last())
    }
}

/// The switch's state after the key presses `keys`, in order, on a fresh
/// switch.
pub open spec fn check_num_after_keys(keys: Seq<Seq<char>>) -> int
    decreases keys.len(),
{
    if keys.len() == 0 {
        0
    } else {
        next_check_num(check_num_after_keys(keys.drop_last()), keys.last())
    }
}

/// The box's colour after the key presses `keys`, in order, starting red:
/// the colour set by the last press that set one.
pub open spec fn color_after_keys(keys: Seq<Seq<char>>) -> BoxColor
    decreases keys.len(),
{
    if keys.len() == 0 {
        BoxColor::Red
    } else {
        match color_set_by(check_num_after_keys(keys.drop_last()), keys.last()) {
            Some(color) => color,
            None => color_after_keys(keys.drop_last()),
        }
    }
}

/// After any sequence of key presses, the switch holds the number of Shift
/// presses modulo 2, and the box is red when there was no Shift press,
/// green after an odd number of them and yellow after an even, non-zero
/// number; keys other than Shift count for nothing.
pub proof fn lemma_color_after_keys(keys: Seq<Seq<char>>)
    ensures
        check_num_after_keys(keys) == (shift_count(keys) % 2) as int,
        color_after_keys(keys) == (if shift_count(keys) == 0 {
            BoxColor::Red
        } else if shift_count(keys) % 2 == 1 {
            BoxColor::Green
        } else {
            BoxColor::Yellow
        }),
    decreases keys.len(),
{
    if keys.len() > 0 {
        lemma_color_after_keys(keys.drop_last());
    }
}

} // verus!
