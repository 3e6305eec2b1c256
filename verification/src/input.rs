//! Decoding of the packed integers that carry mouse, wheel, keyboard and timer
//! messages, and the command each one stands for.
use vstd::prelude::*;

verus! {

/// Virtual-key code of the Escape key.
pub const VK_ESCAPE: u32 = 0x1B;
/// Virtual-key code of the Enter key.
pub const VK_RETURN: u32 = 0x0D;
/// Virtual-key code of the Left arrow.
pub const VK_LEFT: u32 = 0x25;
/// Virtual-key code of the Up arrow.
pub const VK_UP: u32 = 0x26;
/// Virtual-key code of the Right arrow.
pub const VK_RIGHT: u32 = 0x27;
/// Virtual-key code of the Down arrow.
pub const VK_DOWN: u32 = 0x28;
/// The `MK_CONTROL` bit of a wheel message's key state.
pub const MK_CONTROL: usize = 0x0008;

/// Timer that drives the fade-in of the overlay.
pub const TIMER_FADE_IN: usize = 1;
/// Timer that drives the smooth scroll to the selected window.
pub const TIMER_SCROLL_ANIM: usize = 2;
/// Timer that drives the fade-in of the window labels.
pub const TIMER_TEXT_FADE_IN: usize = 3;
/// Period of every animation timer, in milliseconds.
pub const ANIM_INTERVAL_MS: u32 = 16;

/// The low 16 bits of a machine word, as a number in `0..0x10000`.
pub open spec fn low_word(v: int) -> int {
    v % 0x10000
}

/// Bits 16 to 31 of a machine word, as a number in `0..0x10000`.
pub open spec fn high_word(v: int) -> int {
    (v / 0x10000) % 0x10000
}

/// A 16-bit word read as a two's-complement signed number.
pub open spec fn signed_word(w: int) -> int {
    if w >= 0x8000 {
        w - 0x10000
    } else {
        w
    }
}

/// The 32-bit value that carries `lo` in its low word and `hi` in its high
/// word, each taken as a 16-bit pattern (`MAKELPARAM`).
pub open spec fn pack_words(lo: int, hi: int) -> int {
    (hi % 0x10000) * 0x10000 + lo % 0x10000
}

/// Extract the signed client coordinates packed into a mouse message's
/// `LPARAM`: x in the low word, y in the high word.
pub fn mouse_coords(lparam: isize) -> (r: (i16, i16))
    ensures
        r.0 as int == signed_word(low_word(lparam as int)),
        r.1 as int == signed_word(high_word(lparam as int)),
{
    let x = #[verifier::truncate] ((lparam & 0xFFFF) as i16);
    let y = #[verifier::truncate] (((lparam >> 16) & 0xFFFF) as i16);
    assert((lparam & 0xFFFF) as i16 as int == signed_word(lparam as int % 0x10000)) by (bit_vector);
    assert(((lparam >> 16) & 0xFFFF) as i16 as int == signed_word(
        (lparam as int / 0x10000) % 0x10000,
    )) by (bit_vector);
    (x, y)
}

/// The signed wheel rotation carried in the high word of a wheel message's
/// `WPARAM`, in raw units (one detent is 120).
pub fn wheel_delta(wparam: usize) -> (r: i16)
    ensures
        r as int == signed_word(high_word(wparam as int)),
{
    let d = #[verifier::truncate] (((wparam >> 16) & 0xFFFF) as i16);
    assert(((wparam >> 16) & 0xFFFF) as i16 as int == signed_word(
        (wparam as int / 0x10000) % 0x10000,
    )) by (bit_vector);
    d
}

/// Whether the Control key was held during a wheel message.
pub fn wheel_with_control(wparam: usize) -> (r: bool)
    ensures
        r == ((wparam as int / 8) % 2 == 1),
{
    assert(((wparam & 0x0008) != 0) == ((wparam as int / 8) % 2 == 1)) by (bit_vector);
    (wparam & MK_CONTROL) != 0
}

/// What a key press asks of the overlay.
#[derive(Debug, Clone, Copy, PartialEq, Eq, Structural)]
pub enum KeyCommand {
    /// Close the overlay (Escape).
    Close,
    /// Select the previous window (Left or Up).
    Previous,
    /// Select the next window (Right or Down).
    Next,
    /// Switch to the selected window (Enter).
    Activate,
    /// Any other key.
    Ignore,
}

/// The virtual-key code carried by a key message's `WPARAM`: its low 32 bits.
pub open spec fn key_code(wparam: int) -> int {
    wparam % 0x1_0000_0000
}

/// The command of a virtual-key code.
pub open spec fn key_command_of(vk: int) -> KeyCommand {
    if vk == VK_ESCAPE {
        KeyCommand::Close
    } else if vk == VK_LEFT || vk == VK_UP {
        KeyCommand::Previous
    } else if vk == VK_RIGHT || vk == VK_DOWN {
        KeyCommand::Next
    } else if vk == VK_RETURN {
        KeyCommand::Activate
    } else {
        KeyCommand::Ignore
    }
}

/// Decode a key-down message's `WPARAM` into the overlay command.
pub fn key_command(wparam: usize) -> (r: KeyCommand)
    ensures
        r == key_command_of(key_code(wparam as int)),
{
    let vk = #[verifier::truncate] (wparam as u32);
    assert(wparam as u32 as int == wparam as int % 0x1_0000_0000) by (bit_vector);
    if vk == VK_ESCAPE {
        KeyCommand::Close
    } else if vk == VK_LEFT || vk == VK_UP {
        KeyCommand::Previous
    } else if vk == VK_RIGHT || vk == VK_DOWN {
        KeyCommand::Next
    } else if vk == VK_RETURN {
        KeyCommand::Activate
    } else {
        KeyCommand::Ignore
    }
}

/// What a wheel message asks of the overlay.
#[derive(Debug, Clone, Copy, PartialEq, Eq, Structural)]
pub enum WheelCommand {
    /// Zoom around the pointer (wheel with Control held).
    Zoom,
    /// Select the previous window (wheel rotated away from the user).
    Previous,
    /// Select the next window (wheel rotated toward the user, or not at all).
    Next,
}

/// The command of a wheel message: zoom with Control held, otherwise step
/// backward on a positive rotation and forward on any other.
pub open spec fn wheel_command_of(wparam: int) -> WheelCommand {
    if (wparam / 8) % 2 == 1 {
        WheelCommand::Zoom
    } else if signed_word(high_word(wparam)) > 0 {
        WheelCommand::Previous
    } else {
        WheelCommand::Next
    }
}

/// Decode a wheel message's `WPARAM` into the overlay command.
pub fn wheel_command(wparam: usize) -> (r: WheelCommand)
    ensures
        r == wheel_command_of(wparam as int),
{
    if wheel_with_control(wparam) {
        WheelCommand::Zoom
    } else if wheel_delta(wparam) > 0 {
        WheelCommand::Previous
    } else {
        WheelCommand::Next
    }
}

/// The animation a timer message belongs to.
#[derive(Debug, Clone, Copy, PartialEq, Eq, Structural)]
pub enum TimerKind {
    /// The overlay's fade-in.
    FadeIn,
    /// The labels' fade-in.
    TextFadeIn,
    /// The scroll to the selected window.
    Scroll,
    /// A timer this overlay did not start.
    Other,
}

/// The animation a timer identifier belongs to.
pub open spec fn timer_kind_of(id: int) -> TimerKind {
    if id == TIMER_FADE_IN {
        TimerKind::FadeIn
    } else if id == TIMER_TEXT_FADE_IN {
        TimerKind::TextFadeIn
    } else if id == TIMER_SCROLL_ANIM {
        TimerKind::Scroll
    } else {
        TimerKind::Other
    }
}

/// Classify a timer message by the identifier in its `WPARAM`.
pub fn timer_kind(id: usize) -> (r: TimerKind)
    ensures
        r == timer_kind_of(id as int),
{
    if id == TIMER_FADE_IN {
        TimerKind::FadeIn
    } else if id == TIMER_TEXT_FADE_IN {
        TimerKind::TextFadeIn
    } else if id == TIMER_SCROLL_ANIM {
        TimerKind::Scroll
    } else {
        TimerKind::Other
    }
}

/// Packing two signed 16-bit values into a message word (`MAKELPARAM`) and
/// reading them back with `mouse_coords` gives the two values again.
pub proof fn lemma_mouse_coords_roundtrip(x: i16, y: i16)
    ensures
        signed_word(low_word(pack_words(x as int, y as int))) == x,
        signed_word(high_word(pack_words(x as int, y as int))) == y,
{
    lemma_words_of_pack(x as int, y as int);
    lemma_signed_word_of_i16(x);
    lemma_signed_word_of_i16(y);
}

/// A wheel message built from a key state and a signed rotation reads back
/// that rotation, and its Control flag is the key state's.
pub proof fn lemma_wheel_roundtrip(keys: u16, delta: i16)
    ensures
        signed_word(high_word(pack_words(keys as int, delta as int))) == delta,
        (pack_words(keys as int, delta as int) / 8) % 2 == (keys as int / 8) % 2,
{
    lemma_words_of_pack(keys as int, delta as int);
    lemma_signed_word_of_i16(delta);
    let q = delta as int % 0x10000;
    vstd::arithmetic::div_mod::lemma_small_mod(keys as nat, 0x10000);
    assert(pack_words(keys as int, delta as int) == (q * 0x2000) * 8 + keys as int);
    vstd::arithmetic::div_mod::lemma_fundamental_div_mod(keys as int, 8);
    vstd::arithmetic::div_mod::lemma_mod_bound(keys as int, 8);
    vstd::arithmetic::div_mod::lemma_fundamental_div_mod_converse(
        pack_words(keys as int, delta as int),
        8,
        q * 0x2000 + keys as int / 8,
        keys as int % 8,
    );
    vstd::arithmetic::div_mod::lemma_mod_multiples_vanish(q * 0x1000, keys as int / 8, 2);
}

/// The low and high words of a packed value are the packed 16-bit patterns.
proof fn lemma_words_of_pack(lo: int, hi: int)
    ensures
        low_word(pack_words(lo, hi)) == lo % 0x10000,
        high_word(pack_words(lo, hi)) == hi % 0x10000,
{
    let q = hi % 0x10000;
    let r = lo % 0x10000;
    vstd::arithmetic::div_mod::lemma_fundamental_div_mod_converse(q * 0x10000 + r, 0x10000, q, r);
    vstd::arithmetic::div_mod::lemma_small_mod(q as nat, 0x10000);
}

/// Reading the 16-bit pattern of an `i16` as a signed word gives it back.
proof fn lemma_signed_word_of_i16(v: i16)
    ensures
        signed_word(v as int % 0x10000) == v,
{
    if v >= 0 {
        vstd::arithmetic::div_mod::lemma_small_mod(v as nat, 0x10000);
    } else {
        vstd::arithmetic::div_mod::lemma_fundamental_div_mod_converse(
            v as int,
            0x10000,
            -1,
            v + 0x10000,
        );
    }
}

} // verus!
