//! Extended window style bits and what the commands do to them.
//!
//! An extended style is a word of thirty-two flags. The contracts speak of a
//! flag by arithmetic, so that they can be evaluated: a flag of value `f` is
//! set in `s` where `s / f` is odd, setting it adds `f`, clearing it
//! subtracts `f`. The laws below state the same in bitwise terms.

use vstd::prelude::*;

verus! {

/// Extended style bit: pointer input passes through the window.
pub const WS_EX_TRANSPARENT: i32 = 0x0000_0020;

/// Extended style bit: the window is layered, so it can carry an alpha value.
pub const WS_EX_LAYERED: i32 = 0x0008_0000;

/// Whether pointer input passes through a window of this extended style.
pub open spec fn is_transparent(ex_style: i32) -> bool {
    (ex_style as int / 0x0000_0020) % 2 == 1
}

/// Whether a window of this extended style is layered.
pub open spec fn is_layered(ex_style: i32) -> bool {
    (ex_style as int / 0x0008_0000) % 2 == 1
}

/// The flags of an extended style other than the transparent and the
/// layered one.
pub open spec fn other_flags(ex_style: i32) -> i32 {
    ex_style & !(WS_EX_TRANSPARENT | WS_EX_LAYERED)
}

/// The extended style with the transparent bit set and every other bit kept.
pub open spec fn with_transparent(ex_style: i32) -> i32 {
    if is_transparent(ex_style) {
        ex_style
    } else {
        (ex_style + WS_EX_TRANSPARENT) as i32
    }
}

/// The extended style with the transparent bit cleared and every other bit
/// kept.
pub open spec fn without_transparent(ex_style: i32) -> i32 {
    if is_transparent(ex_style) {
        (ex_style - WS_EX_TRANSPARENT) as i32
    } else {
        ex_style
    }
}

/// The extended style with the layered bit set and every other bit kept.
pub open spec fn with_layered(ex_style: i32) -> i32 {
    if is_layered(ex_style) {
        ex_style
    } else {
        (ex_style + WS_EX_LAYERED) as i32
    }
}

/// The extended style after click-through has been enabled or disabled.
/// Enabling sets the transparent and the layered bit. Disabling clears the
/// transparent bit only: the opacity of the window may rest on the layered
/// bit.
pub open spec fn with_click_through(ex_style: i32, enabled: bool) -> i32 {
    if enabled {
        with_layered(with_transparent(ex_style))
    } else {
        without_transparent(ex_style)
    }
}

/// The extended style of the window once it is layered.
pub fn layered_style(ex_style: i32) -> (style: i32)
    ensures
        style == with_layered(ex_style),
        style == ex_style | WS_EX_LAYERED,
{
    proof {
        lemma_bitwise(ex_style);
    }
    ex_style | WS_EX_LAYERED
}

/// The extended style of the window once click-through is enabled or
/// disabled.
pub fn click_through_style(ex_style: i32, enabled: bool) -> (style: i32)
    ensures
        style == with_click_through(ex_style, enabled),
        enabled ==> style == ex_style | WS_EX_TRANSPARENT | WS_EX_LAYERED,
        !enabled ==> style == ex_style & !WS_EX_TRANSPARENT,
{
    proof {
        lemma_bitwise(ex_style);
    }
    if enabled {
        ex_style | WS_EX_TRANSPARENT | WS_EX_LAYERED
    } else {
        ex_style & !WS_EX_TRANSPARENT
    }
}

/// The flags and their updates in bitwise terms: a flag is set where the
/// bitwise and with it gives the flag, it is set by a bitwise or and cleared
/// by a bitwise and with its complement.
pub proof fn lemma_bitwise(ex_style: i32)
    ensures
        is_transparent(ex_style) <==> ex_style & WS_EX_TRANSPARENT == WS_EX_TRANSPARENT,
        is_layered(ex_style) <==> ex_style & WS_EX_LAYERED == WS_EX_LAYERED,
        with_transparent(ex_style) == ex_style | WS_EX_TRANSPARENT,
        without_transparent(ex_style) == ex_style & !WS_EX_TRANSPARENT,
        with_layered(ex_style) == ex_style | WS_EX_LAYERED,
        with_click_through(ex_style, true) == ex_style | WS_EX_TRANSPARENT | WS_EX_LAYERED,
        with_click_through(ex_style, false) == ex_style & !WS_EX_TRANSPARENT,
{
    let s = ex_style;
    assert(((s as int / 0x20) % 2 == 1) <==> s & 0x20i32 == 0x20i32) by (bit_vector);
    assert(((s as int / 0x0008_0000) % 2 == 1) <==> s & 0x0008_0000i32 == 0x0008_0000i32)
        by (bit_vector);
    assert(s & 0x20i32 == 0x20i32 ==> s | 0x20i32 == s) by (bit_vector);
    assert(s & 0x20i32 != 0x20i32 ==> s | 0x20i32 == s + 0x20) by (bit_vector);
    assert(s & 0x20i32 == 0x20i32 ==> s & !0x20i32 == s - 0x20) by (bit_vector);
    assert(s & 0x20i32 != 0x20i32 ==> s & !0x20i32 == s) by (bit_vector);
    assert(s & 0x0008_0000i32 == 0x0008_0000i32 ==> s | 0x0008_0000i32 == s) by (bit_vector);
    assert(s & 0x0008_0000i32 != 0x0008_0000i32 ==> s | 0x0008_0000i32 == s + 0x0008_0000)
        by (bit_vector);
    let t = with_transparent(s);
    assert(t == s | 0x20i32);
    assert(((t as int / 0x0008_0000) % 2 == 1) <==> t & 0x0008_0000i32 == 0x0008_0000i32)
        by (bit_vector);
    assert(t & 0x0008_0000i32 == 0x0008_0000i32 ==> t | 0x0008_0000i32 == t) by (bit_vector);
    assert(t & 0x0008_0000i32 != 0x0008_0000i32 ==> t | 0x0008_0000i32 == t + 0x0008_0000)
        by (bit_vector);
}

/// Marking a window as layered makes it layered and changes no other flag.
pub proof fn lemma_with_layered(ex_style: i32)
    ensures
        is_layered(with_layered(ex_style)),
        is_transparent(with_layered(ex_style)) == is_transparent(ex_style),
        other_flags(with_layered(ex_style)) == other_flags(ex_style),
{
    let s = ex_style;
    lemma_bitwise(s);
    lemma_bitwise(with_layered(s));
    assert((s | 0x0008_0000i32) & 0x0008_0000i32 == 0x0008_0000i32) by (bit_vector);
    assert((s | 0x0008_0000i32) & 0x20i32 == s & 0x20i32) by (bit_vector);
    assert((s | 0x0008_0000i32) & !(0x20i32 | 0x0008_0000i32) == s & !(0x20i32 | 0x0008_0000i32))
        by (bit_vector);
}

/// Enabling click-through makes the window transparent to input and
/// layered; disabling makes it not transparent and leaves it layered or not,
/// as it was. Neither changes any other flag.
pub proof fn lemma_with_click_through(ex_style: i32, enabled: bool)
    ensures
        is_transparent(with_click_through(ex_style, enabled)) == enabled,
        enabled ==> is_layered(with_click_through(ex_style, enabled)),
        !enabled ==> is_layered(with_click_through(ex_style, enabled)) == is_layered(ex_style),
        other_flags(with_click_through(ex_style, enabled)) == other_flags(ex_style),
{
    let s = ex_style;
    lemma_bitwise(s);
    lemma_bitwise(with_click_through(s, enabled));
    assert((s | 0x20i32 | 0x0008_0000i32) & 0x20i32 == 0x20i32) by (bit_vector);
    assert((s | 0x20i32 | 0x0008_0000i32) & 0x0008_0000i32 == 0x0008_0000i32) by (bit_vector);
    assert((s | 0x20i32 | 0x0008_0000i32) & !(0x20i32 | 0x0008_0000i32) == s & !(0x20i32
        | 0x0008_0000i32)) by (bit_vector);
    assert((s & !0x20i32) & 0x20i32 == 0i32) by (bit_vector);
    assert((s & !0x20i32) & 0x0008_0000i32 == s & 0x0008_0000i32) by (bit_vector);
    assert((s & !0x20i32) & !(0x20i32 | 0x0008_0000i32) == s & !(0x20i32 | 0x0008_0000i32))
        by (bit_vector);
}

/// Enabling click-through twice, or disabling it twice, is as doing so once.
pub proof fn lemma_click_through_twice(ex_style: i32, enabled: bool)
    ensures
        with_click_through(with_click_through(ex_style, enabled), enabled) == with_click_through(
            ex_style,
            enabled,
        ),
{
    lemma_with_click_through(ex_style, enabled);
}

/// Click-through enabled and then disabled leaves the window not
/// transparent to input, but layered, whatever its style was before; its
/// other flags are as they were.
pub proof fn lemma_click_through_on_then_off(ex_style: i32)
    ensures
        !is_transparent(with_click_through(with_click_through(ex_style, true), false)),
        is_layered(with_click_through(with_click_through(ex_style, true), false)),
        other_flags(with_click_through(with_click_through(ex_style, true), false)) == other_flags(
            ex_style,
        ),
        with_click_through(with_click_through(ex_style, true), false) == without_transparent(
            with_layered(ex_style),
        ),
{
    let s = ex_style;
    let on = with_click_through(s, true);
    lemma_with_click_through(s, true);
    lemma_with_click_through(on, false);
    lemma_bitwise(s);
    lemma_bitwise(on);
    lemma_bitwise(with_layered(s));
    assert((s | 0x20i32 | 0x0008_0000i32) & !0x20i32 == (s | 0x0008_0000i32) & !0x20i32)
        by (bit_vector);
}

} // verus!
