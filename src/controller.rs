//! Controller buttons and the 8-bit state that the console latches: one
//! bit per button, A in the top bit down to Right in the lowest, the order
//! in which reads shift them out.
use vstd::prelude::*;

verus! {

#[derive(PartialEq, Eq, Structural, Clone, Copy, Debug)]
pub enum Button {
    A,
    B,
    Select,
    Start,
    Up,
    Down,
    Left,
    Right,
}

/// The bit of a button in the controller state.
pub open spec fn button_mask(b: Button) -> u8 {
    match b {
        Button::A => 0x80,
        Button::B => 0x40,
        Button::Select => 0x20,
        Button::Start => 0x10,
        Button::Up => 0x08,
        Button::Down => 0x04,
        Button::Left => 0x02,
        Button::Right => 0x01,
    }
}

/// The bit of a button; see `button_mask`.
pub fn mask(b: Button) -> (r: u8)
    ensures
        r == button_mask(b),
{
    match b {
        Button::A => 0x80,
        Button::B => 0x40,
        Button::Select => 0x20,
        Button::Start => 0x10,
        Button::Up => 0x08,
        Button::Down => 0x04,
        Button::Left => 0x02,
        Button::Right => 0x01,
    }
}

/// The state with button `b` held down.
pub fn press(state: u8, b: Button) -> (r: u8)
    ensures
        r == state | button_mask(b),
{
    state | mask(b)
}

/// The state with button `b` let go.
pub fn release(state: u8, b: Button) -> (r: u8)
    ensures
        r == state & !button_mask(b),
{
    state & !mask(b)
}

/// Pressing a button sets its bit and no other; letting it go clears its
/// bit and no other.
pub proof fn lemma_buttons_are_independent(state: u8, b: Button)
    ensures
        (state | button_mask(b)) & button_mask(b) != 0,
        (state & !button_mask(b)) & button_mask(b) == 0,
        (state | button_mask(b)) & !button_mask(b) == state & !button_mask(b),
        (state & !button_mask(b)) | button_mask(b) == state | button_mask(b),
{
    let m = button_mask(b);
    assert(m != 0);
    assert(m != 0 ==> (state | m) & m != 0 && (state & !m) & m == 0 && (state | m) & !m == state & !m
        && (state & !m) | m == state | m) by (bit_vector);
}

} // verus!
