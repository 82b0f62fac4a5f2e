//! Translation of the backend's raw input codes into typed events.
//!
//! Reading input is left to the caller: a [`Poller`] says what it needs to
//! read next (a raw code, a pending mouse report, or the surface size) and
//! turns each reading into either the next request or a finished event.

use crate::event::{Event, Key, MouseButton};
use vstd::prelude::*;

verus! {

/// Raw code of the down-arrow key.
pub const KEY_DOWN: i32 = 0x102;
/// Raw code of the up-arrow key.
pub const KEY_UP: i32 = 0x103;
/// Raw code of the left-arrow key.
pub const KEY_LEFT: i32 = 0x104;
/// Raw code of the right-arrow key.
pub const KEY_RIGHT: i32 = 0x105;
/// Raw code of the home key.
pub const KEY_HOME: i32 = 0x106;
/// Raw code of the backspace key.
pub const KEY_BACKSPACE: i32 = 0x107;
/// Raw code of function key 0; function key `n` has code `KEY_F0 + n`.
pub const KEY_F0: i32 = 0x108;
/// Raw code of the highest function key that is translated.
pub const KEY_F15: i32 = 0x117;
/// Raw code of the next-page key.
pub const KEY_NPAGE: i32 = 0x152;
/// Raw code of the previous-page key.
pub const KEY_PPAGE: i32 = 0x153;
/// Raw code of the enter key.
pub const KEY_ENTER: i32 = 0x157;
/// Raw code of the end key.
pub const KEY_END: i32 = 0x168;
/// Raw code of the exit key, reported as escape.
pub const KEY_EXIT: i32 = 0x169;
/// Raw code announcing that a mouse report is pending.
pub const KEY_MOUSE: i32 = 0x199;
/// Raw code announcing that the terminal was resized.
pub const KEY_RESIZE: i32 = 0x19a;

/// The special key that a raw code stands for, if any.
pub open spec fn special_key(code: i32) -> Option<Key> {
    if code == KEY_UP {
        Some(Key::Up)
    } else if code == KEY_DOWN {
        Some(Key::Down)
    } else if code == KEY_LEFT {
        Some(Key::Left)
    } else if code == KEY_RIGHT {
        Some(Key::Right)
    } else if code == KEY_HOME {
        Some(Key::Home)
    } else if code == KEY_END {
        Some(Key::End)
    } else if code == KEY_PPAGE {
        Some(Key::PageUp)
    } else if code == KEY_NPAGE {
        Some(Key::PageDown)
    } else if code == KEY_BACKSPACE {
        Some(Key::Backspace)
    } else if code == KEY_ENTER {
        Some(Key::Enter)
    } else if code == KEY_EXIT {
        Some(Key::Escape)
    } else if KEY_F0 <= code <= KEY_F15 {
        Some(Key::F((code - KEY_F0) as u32))
    } else {
        None
    }
}

/// The raw code of a key that the translator produces, if it produces it.
pub open spec fn key_code(key: Key) -> Option<i32> {
    match key {
        Key::Up => Some(KEY_UP),
        Key::Down => Some(KEY_DOWN),
        Key::Left => Some(KEY_LEFT),
        Key::Right => Some(KEY_RIGHT),
        Key::Home => Some(KEY_HOME),
        Key::End => Some(KEY_END),
        Key::PageUp => Some(KEY_PPAGE),
        Key::PageDown => Some(KEY_NPAGE),
        Key::Backspace => Some(KEY_BACKSPACE),
        Key::Enter => Some(KEY_ENTER),
        Key::Escape => Some(KEY_EXIT),
        Key::Tab => None,
        Key::F(n) => if n <= 15 {
            Some((KEY_F0 + n) as i32)
        } else {
            None
        },
    }
}

/// Whether a number is a Unicode scalar value.
pub open spec fn is_scalar_value(v: int) -> bool {
    (0 <= v < 0xD800) || (0xE000 <= v <= 0x10FFFF)
}

/// Relies on `char::from_u32`: it yields the character whose scalar value is
/// `i` exactly when `i` is a Unicode scalar value, and nothing otherwise.
pub assume_specification[ core::char::from_u32 ](i: u32) -> (r: Option<char>)
    ensures
        is_scalar_value(i as int) ==> r == Some(i as char),
        !is_scalar_value(i as int) ==> r is None,
;

/// What one raw code means on its own.
#[derive(Clone, Copy, Debug, PartialEq, Eq, Structural)]
pub enum Translation {
    /// The code is a complete event.
    Ready(Event),
    /// A mouse report is pending and must be read to finish the event.
    NeedsMouse,
    /// The terminal was resized; its size must be queried to finish the event.
    NeedsSize,
    /// The code means nothing to the translator and is dropped.
    Unrecognized,
}

/// The meaning of a raw code. The special-key table is consulted first, then
/// the mouse and resize codes, and only then is the code read as a
/// character.
pub open spec fn translation_of(code: i32) -> Translation {
    match special_key(code) {
        Some(k) => Translation::Ready(Event::Key(k)),
        None => if code == KEY_MOUSE {
            Translation::NeedsMouse
        } else if code == KEY_RESIZE {
            Translation::NeedsSize
        } else if is_scalar_value(code as int) {
            Translation::Ready(Event::Character(code as char))
        } else {
            Translation::Unrecognized
        },
    }
}

/// The special key that a raw code stands for, if any.
pub fn special_key_of(code: i32) -> (r: Option<Key>)
    ensures
        r == special_key(code),
{
    if code == KEY_UP {
        Some(Key::Up)
    } else if code == KEY_DOWN {
        Some(Key::Down)
    } else if code == KEY_LEFT {
        Some(Key::Left)
    } else if code == KEY_RIGHT {
        Some(Key::Right)
    } else if code == KEY_HOME {
        Some(Key::Home)
    } else if code == KEY_END {
        Some(Key::End)
    } else if code == KEY_PPAGE {
        Some(Key::PageUp)
    } else if code == KEY_NPAGE {
        Some(Key::PageDown)
    } else if code == KEY_BACKSPACE {
        Some(Key::Backspace)
    } else if code == KEY_ENTER {
        Some(Key::Enter)
    } else if code == KEY_EXIT {
        Some(Key::Escape)
    } else if KEY_F0 <= code && code <= KEY_F15 {
        Some(Key::F((code - KEY_F0) as u32))
    } else {
        None
    }
}

/// Translates one raw code.
pub fn translate(code: i32) -> (r: Translation)
    ensures
        r == translation_of(code),
{
    match special_key_of(code) {
        Some(k) => Translation::Ready(Event::Key(k)),
        None => if code == KEY_MOUSE {
            Translation::NeedsMouse
        } else if code == KEY_RESIZE {
            Translation::NeedsSize
        } else if code < 0 {
            Translation::Unrecognized
        } else {
            match core::char::from_u32(code as u32) {
                Some(c) => Translation::Ready(Event::Character(c)),
                None => Translation::Unrecognized,
            }
        },
    }
}


/// Mouse report bit: button 1 released.
pub const BUTTON1_RELEASED: u32 = 0x1;
/// Mouse report bit: button 1 pressed.
pub const BUTTON1_PRESSED: u32 = 0x2;
/// Mouse report bit: button 2 released.
pub const BUTTON2_RELEASED: u32 = 0x20;
/// Mouse report bit: button 2 pressed.
pub const BUTTON2_PRESSED: u32 = 0x40;
/// Mouse report bit: button 3 released.
pub const BUTTON3_RELEASED: u32 = 0x400;
/// Mouse report bit: button 3 pressed.
pub const BUTTON3_PRESSED: u32 = 0x800;
/// All six button bits that the translator reads.
pub const BUTTON_BITS: u32 = 0xC63;

/// Whether every bit of `flag` is set in a mouse report's button state.
pub open spec fn has_flag(state: u32, flag: u32) -> bool {
    state & flag == flag
}

/// A reported coordinate as the event carries it: the same 32 bits read as
/// unsigned, so that no value is clamped.
pub open spec fn coord(v: i32) -> u32 {
    #[verifier::truncate]
    (v as u32)
}

/// The event that a mouse report stands for. The six button bits are tried
/// in a fixed order and the first one set wins; the coordinates are carried
/// through unchanged.
pub open spec fn mouse_event(x: i32, y: i32, state: u32) -> Option<Event> {
    let (col, row) = (coord(x), coord(y));
    if has_flag(state, BUTTON1_PRESSED) {
        Some(Event::MouseDown(col, row, MouseButton::Left))
    } else if has_flag(state, BUTTON1_RELEASED) {
        Some(Event::MouseUp(col, row, MouseButton::Left))
    } else if has_flag(state, BUTTON2_PRESSED) {
        Some(Event::MouseDown(col, row, MouseButton::Middle))
    } else if has_flag(state, BUTTON2_RELEASED) {
        Some(Event::MouseUp(col, row, MouseButton::Middle))
    } else if has_flag(state, BUTTON3_PRESSED) {
        Some(Event::MouseDown(col, row, MouseButton::Right))
    } else if has_flag(state, BUTTON3_RELEASED) {
        Some(Event::MouseUp(col, row, MouseButton::Right))
    } else {
        None
    }
}

/// Decodes a mouse report: its column, its row and its button state.
pub fn decode_mouse(x: i32, y: i32, state: u32) -> (r: Option<Event>)
    ensures
        r == mouse_event(x, y, state),
{
    let col = #[verifier::truncate] (x as u32);
    let row = #[verifier::truncate] (y as u32);
    if state & BUTTON1_PRESSED == BUTTON1_PRESSED {
        Some(Event::MouseDown(col, row, MouseButton::Left))
    } else if state & BUTTON1_RELEASED == BUTTON1_RELEASED {
        Some(Event::MouseUp(col, row, MouseButton::Left))
    } else if state & BUTTON2_PRESSED == BUTTON2_PRESSED {
        Some(Event::MouseDown(col, row, MouseButton::Middle))
    } else if state & BUTTON2_RELEASED == BUTTON2_RELEASED {
        Some(Event::MouseUp(col, row, MouseButton::Middle))
    } else if state & BUTTON3_PRESSED == BUTTON3_PRESSED {
        Some(Event::MouseDown(col, row, MouseButton::Right))
    } else if state & BUTTON3_RELEASED == BUTTON3_RELEASED {
        Some(Event::MouseUp(col, row, MouseButton::Right))
    } else {
        None
    }
}

/// What the translator needs to read next.
#[derive(Clone, Copy, Debug, PartialEq, Eq, Structural)]
pub enum Awaiting {
    /// A raw input code.
    Code,
    /// The pending mouse report.
    Mouse,
    /// The current size of the terminal.
    Size,
}

/// One reading taken from the backend.
#[derive(Clone, Copy, Debug, PartialEq, Eq, Structural)]
pub enum Reading {
    /// A raw input code.
    Code(i32),
    /// A mouse report: column, row and button state.
    Mouse(i32, i32, u32),
    /// The terminal's width and height.
    Size(u32, u32),
}

/// One step of polling: from what was awaited and what was read, what is
/// awaited next and the event finished, if any. A reading of another kind
/// than the one awaited changes nothing.
pub open spec fn step(awaiting: Awaiting, reading: Reading) -> (Awaiting, Option<Event>) {
    match (awaiting, reading) {
        (Awaiting::Code, Reading::Code(code)) => match translation_of(code) {
            Translation::Ready(e) => (Awaiting::Code, Some(e)),
            Translation::NeedsMouse => (Awaiting::Mouse, None),
            Translation::NeedsSize => (Awaiting::Size, None),
            Translation::Unrecognized => (Awaiting::Code, None),
        },
        (Awaiting::Mouse, Reading::Mouse(x, y, state)) => (Awaiting::Code, mouse_event(x, y, state)),
        (Awaiting::Size, Reading::Size(w, h)) => (Awaiting::Code, Some(Event::Resize(w, h))),
        _ => (awaiting, None),
    }
}

/// The decision logic of a blocking poll. The caller reads what
/// [`Poller::awaiting`] names, hands it to [`Poller::feed`], and repeats
/// until an event comes back; unrecognized input is dropped on the way.
pub struct Poller {
    awaiting: Awaiting,
}

impl View for Poller {
    type V = Awaiting;

    closed spec fn view(&self) -> Awaiting {
        self.awaiting
    }
}

impl Poller {
    /// A poller that awaits a raw input code.
    pub fn new() -> (r: Poller)
        ensures
            r@ == Awaiting::Code,
    {
        Poller { awaiting: Awaiting::Code }
    }

    /// What must be read next.
    pub fn awaiting(&self) -> (r: Awaiting)
        ensures
            r == self@,
    {
        self.awaiting
    }

    /// Takes one reading; returns the finished event, if this reading
    /// completes one.
    pub fn feed(&mut self, reading: Reading) -> (r: Option<Event>)
        ensures
            (final(self)@, r) == step(old(self)@, reading),
    {
        match (self.awaiting, reading) {
            (Awaiting::Code, Reading::Code(code)) => match translate(code) {
                Translation::Ready(e) => Some(e),
                Translation::NeedsMouse => {
                    self.awaiting = Awaiting::Mouse;
                    None
                },
                Translation::NeedsSize => {
                    self.awaiting = Awaiting::Size;
                    None
                },
                Translation::Unrecognized => None,
            },
            (Awaiting::Mouse, Reading::Mouse(x, y, state)) => {
                self.awaiting = Awaiting::Code;
                decode_mouse(x, y, state)
            },
            (Awaiting::Size, Reading::Size(w, h)) => {
                self.awaiting = Awaiting::Code;
                Some(Event::Resize(w, h))
            },
            _ => None,
        }
    }
}

/// The special-key table is exact both ways: a code in the table stands for
/// the key whose code it is, each translated key has exactly one code, and
/// such a code translates to that key event.
pub proof fn lemma_special_key_table(code: i32, key: Key)
    ensures
        special_key(code) == Some(key) <==> key_code(key) == Some(code),
        key_code(key) == Some(code) ==> translation_of(code) == Translation::Ready(Event::Key(key)),
{
}

/// Two codes in the special-key table that stand for the same key are the
/// same code.
pub proof fn lemma_special_key_injective(a: i32, b: i32)
    requires
        special_key(a) is Some,
        special_key(a) == special_key(b),
    ensures
        a == b,
{
}

/// Each of the six button bits, set alone, decodes to its own press or
/// release of its own button, at the reported coordinates.
pub proof fn lemma_single_button_bits(x: i32, y: i32)
    ensures
        mouse_event(x, y, BUTTON1_PRESSED) == Some(Event::MouseDown(coord(x), coord(y), MouseButton::Left)),
        mouse_event(x, y, BUTTON1_RELEASED) == Some(Event::MouseUp(coord(x), coord(y), MouseButton::Left)),
        mouse_event(x, y, BUTTON2_PRESSED) == Some(Event::MouseDown(coord(x), coord(y), MouseButton::Middle)),
        mouse_event(x, y, BUTTON2_RELEASED) == Some(Event::MouseUp(coord(x), coord(y), MouseButton::Middle)),
        mouse_event(x, y, BUTTON3_PRESSED) == Some(Event::MouseDown(coord(x), coord(y), MouseButton::Right)),
        mouse_event(x, y, BUTTON3_RELEASED) == Some(Event::MouseUp(coord(x), coord(y), MouseButton::Right)),
{
    assert(0x1u32 & 0x2u32 == 0u32) by (bit_vector);
    assert(0x20u32 & 0x2u32 == 0u32 && 0x20u32 & 0x1u32 == 0u32) by (bit_vector);
    assert(0x40u32 & 0x2u32 == 0u32 && 0x40u32 & 0x1u32 == 0u32 && 0x40u32 & 0x20u32 == 0u32
        && 0x20u32 & 0x40u32 == 0u32) by (bit_vector);
    assert(0x400u32 & 0x2u32 == 0u32 && 0x400u32 & 0x1u32 == 0u32 && 0x400u32 & 0x20u32 == 0u32
        && 0x400u32 & 0x40u32 == 0u32 && 0x400u32 & 0x800u32 == 0u32) by (bit_vector);
    assert(0x800u32 & 0x2u32 == 0u32 && 0x800u32 & 0x1u32 == 0u32 && 0x800u32 & 0x20u32 == 0u32
        && 0x800u32 & 0x40u32 == 0u32) by (bit_vector);
    assert(0x1u32 & 0x1u32 == 0x1u32 && 0x2u32 & 0x2u32 == 0x2u32 && 0x20u32 & 0x20u32 == 0x20u32
        && 0x40u32 & 0x40u32 == 0x40u32 && 0x400u32 & 0x400u32 == 0x400u32
        && 0x800u32 & 0x800u32 == 0x800u32) by (bit_vector);
}

/// When several button bits are set, the first in the order button 1
/// pressed, button 1 released, button 2 pressed, button 2 released, button 3
/// pressed, button 3 released decides the event.
pub proof fn lemma_first_button_bit_wins(x: i32, y: i32, state: u32)
    ensures
        has_flag(state, BUTTON1_PRESSED) ==> mouse_event(x, y, state) == Some(Event::MouseDown(coord(x), coord(y), MouseButton::Left)),
        !has_flag(state, BUTTON1_PRESSED) && has_flag(state, BUTTON1_RELEASED)
            ==> mouse_event(x, y, state) == Some(Event::MouseUp(coord(x), coord(y), MouseButton::Left)),
        !has_flag(state, BUTTON1_PRESSED) && !has_flag(state, BUTTON1_RELEASED) && has_flag(state, BUTTON2_PRESSED)
            ==> mouse_event(x, y, state) == Some(Event::MouseDown(coord(x), coord(y), MouseButton::Middle)),
{
}

/// A mouse report with none of the six button bits set finishes no event:
/// the poller goes back to reading a fresh raw code.
pub proof fn lemma_unbuttoned_mouse_report_rereads(x: i32, y: i32, state: u32)
    requires
        state & BUTTON_BITS == 0,
    ensures
        mouse_event(x, y, state) is None,
        step(Awaiting::Mouse, Reading::Mouse(x, y, state)) == (Awaiting::Code, None::<Event>),
{
    assert(state & 0xC63u32 == 0u32 ==> (state & 0x2u32 != 0x2u32 && state & 0x1u32 != 0x1u32
        && state & 0x40u32 != 0x40u32 && state & 0x20u32 != 0x20u32 && state & 0x800u32 != 0x800u32
        && state & 0x400u32 != 0x400u32)) by (bit_vector);
}

/// Every Unicode scalar value whose code is neither in the special-key table
/// nor the mouse or resize code translates to that very character.
pub proof fn lemma_scalar_is_character(c: char)
    requires
        special_key(c as i32) is None,
        c as i32 != KEY_MOUSE,
        c as i32 != KEY_RESIZE,
    ensures
        translation_of(c as i32) == Translation::Ready(Event::Character(c)),
        step(Awaiting::Code, Reading::Code(c as i32)) == (Awaiting::Code, Some(Event::Character(c))),
{
}

/// A code that is neither in the special-key table, nor the mouse or resize
/// code, nor a Unicode scalar value finishes no event: the poller reads a
/// fresh raw code.
pub proof fn lemma_invalid_code_rereads(code: i32)
    requires
        special_key(code) is None,
        code != KEY_MOUSE,
        code != KEY_RESIZE,
        !is_scalar_value(code as int),
    ensures
        translation_of(code) == Translation::Unrecognized,
        step(Awaiting::Code, Reading::Code(code)) == (Awaiting::Code, None::<Event>),
{
}

/// A resize event carries exactly the size read in answer to the size query,
/// and only the resize code leads to that query.
pub proof fn lemma_resize_carries_queried_size(awaiting: Awaiting, reading: Reading, w: u32, h: u32)
    ensures
        step(awaiting, reading).1 == Some(Event::Resize(w, h))
            <==> (awaiting == Awaiting::Size && reading == Reading::Size(w, h)),
        step(Awaiting::Code, reading).0 == Awaiting::Size <==> reading == Reading::Code(KEY_RESIZE),
{
}

} // verus!
