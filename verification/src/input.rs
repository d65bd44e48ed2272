//! The pure logic behind input simulation: key-name mapping, scroll
//! direction, and drag interpolation.
//!
//! The input-synthesis collaborator performs the actual event injection;
//! this module decides what to inject. The one piece of real computation is
//! drag interpolation: a drag is divided into a fixed number of equal steps
//! (ten — a tuning constant, not exposed to callers), each position linearly
//! interpolated between the endpoints, so the receiving application sees a
//! continuous motion rather than a teleport.

use vstd::prelude::*;
use vstd::arithmetic::div_mod::lemma_div_is_ordered;
use vstd::arithmetic::div_mod::lemma_div_multiples_vanish;
use vstd::arithmetic::mul::lemma_mul_inequality;
use crate::errors::DispatchError;
use crate::strutil::lower;

verus! {

/// A key to inject: a named non-printing key, or one literal character.
#[derive(Clone, Copy, PartialEq, Eq, Structural, Debug)]
pub enum KeyCode {
    Return,
    Space,
    Tab,
    Escape,
    Backspace,
    Delete,
    UpArrow,
    DownArrow,
    LeftArrow,
    RightArrow,
    Home,
    End,
    PageUp,
    PageDown,
    F1,
    F2,
    F3,
    F4,
    F5,
    F6,
    F7,
    F8,
    F9,
    F10,
    F11,
    F12,
    Control,
    Alt,
    Shift,
    Meta,
    Unicode(char),
}

/// The key a name maps to: named keys are matched ignoring ASCII case; any
/// single character falls back to literal-character injection; everything
/// else has no mapping.
pub open spec fn spec_key(s: Seq<char>) -> Option<KeyCode> {
    let l = lower(s);
    if l == "enter"@ || l == "return"@ {
        Some(KeyCode::Return)
    } else if l == "space"@ {
        Some(KeyCode::Space)
    } else if l == "tab"@ {
        Some(KeyCode::Tab)
    } else if l == "escape"@ || l == "esc"@ {
        Some(KeyCode::Escape)
    } else if l == "backspace"@ {
        Some(KeyCode::Backspace)
    } else if l == "delete"@ || l == "del"@ {
        Some(KeyCode::Delete)
    } else if l == "up"@ {
        Some(KeyCode::UpArrow)
    } else if l == "down"@ {
        Some(KeyCode::DownArrow)
    } else if l == "left"@ {
        Some(KeyCode::LeftArrow)
    } else if l == "right"@ {
        Some(KeyCode::RightArrow)
    } else if l == "home"@ {
        Some(KeyCode::Home)
    } else if l == "end"@ {
        Some(KeyCode::End)
    } else if l == "pageup"@ || l == "pgup"@ {
        Some(KeyCode::PageUp)
    } else if l == "pagedown"@ || l == "pgdown"@ {
        Some(KeyCode::PageDown)
    } else if l == "f1"@ {
        Some(KeyCode::F1)
    } else if l == "f2"@ {
        Some(KeyCode::F2)
    } else if l == "f3"@ {
        Some(KeyCode::F3)
    } else if l == "f4"@ {
        Some(KeyCode::F4)
    } else if l == "f5"@ {
        Some(KeyCode::F5)
    } else if l == "f6"@ {
        Some(KeyCode::F6)
    } else if l == "f7"@ {
        Some(KeyCode::F7)
    } else if l == "f8"@ {
        Some(KeyCode::F8)
    } else if l == "f9"@ {
        Some(KeyCode::F9)
    } else if l == "f10"@ {
        Some(KeyCode::F10)
    } else if l == "f11"@ {
        Some(KeyCode::F11)
    } else if l == "f12"@ {
        Some(KeyCode::F12)
    } else if l == "ctrl"@ {
        Some(KeyCode::Control)
    } else if l == "alt"@ {
        Some(KeyCode::Alt)
    } else if l == "shift"@ {
        Some(KeyCode::Shift)
    } else if l == "cmd"@ || l == "command"@ || l == "meta"@ {
        Some(KeyCode::Meta)
    } else if s.len() == 1 {
        Some(KeyCode::Unicode(s[0]))
    } else {
        None
    }
}

/// Maps a key name to the key to inject. Succeeds exactly on the names
/// `spec_key` maps; an unmapped multi-character name is rejected with
/// `UnsupportedKey`, carrying the name.
pub fn parse_key(key: &str) -> (r: Result<KeyCode, DispatchError>)
    ensures
        spec_key(key@) matches Some(k) ==> r matches Ok(k2) && k2 == k,
        spec_key(key@) is None ==> (r matches Err(DispatchError::UnsupportedKey(n)) && n@
            == key@),
{
    let k = if crate::strutil::eq_lower(key, "enter") || crate::strutil::eq_lower(key, "return") {
        KeyCode::Return
    } else if crate::strutil::eq_lower(key, "space") {
        KeyCode::Space
    } else if crate::strutil::eq_lower(key, "tab") {
        KeyCode::Tab
    } else if crate::strutil::eq_lower(key, "escape") || crate::strutil::eq_lower(key, "esc") {
        KeyCode::Escape
    } else if crate::strutil::eq_lower(key, "backspace") {
        KeyCode::Backspace
    } else if crate::strutil::eq_lower(key, "delete") || crate::strutil::eq_lower(key, "del") {
        KeyCode::Delete
    } else if crate::strutil::eq_lower(key, "up") {
        KeyCode::UpArrow
    } else if crate::strutil::eq_lower(key, "down") {
        KeyCode::DownArrow
    } else if crate::strutil::eq_lower(key, "left") {
        KeyCode::LeftArrow
    } else if crate::strutil::eq_lower(key, "right") {
        KeyCode::RightArrow
    } else if crate::strutil::eq_lower(key, "home") {
        KeyCode::Home
    } else if crate::strutil::eq_lower(key, "end") {
        KeyCode::End
    } else if crate::strutil::eq_lower(key, "pageup") || crate::strutil::eq_lower(key, "pgup") {
        KeyCode::PageUp
    } else if crate::strutil::eq_lower(key, "pagedown") || crate::strutil::eq_lower(
        key,
        "pgdown",
    ) {
        KeyCode::PageDown
    } else if crate::strutil::eq_lower(key, "f1") {
        KeyCode::F1
    } else if crate::strutil::eq_lower(key, "f2") {
        KeyCode::F2
    } else if crate::strutil::eq_lower(key, "f3") {
        KeyCode::F3
    } else if crate::strutil::eq_lower(key, "f4") {
        KeyCode::F4
    } else if crate::strutil::eq_lower(key, "f5") {
        KeyCode::F5
    } else if crate::strutil::eq_lower(key, "f6") {
        KeyCode::F6
    } else if crate::strutil::eq_lower(key, "f7") {
        KeyCode::F7
    } else if crate::strutil::eq_lower(key, "f8") {
        KeyCode::F8
    } else if crate::strutil::eq_lower(key, "f9") {
        KeyCode::F9
    } else if crate::strutil::eq_lower(key, "f10") {
        KeyCode::F10
    } else if crate::strutil::eq_lower(key, "f11") {
        KeyCode::F11
    } else if crate::strutil::eq_lower(key, "f12") {
        KeyCode::F12
    } else if crate::strutil::eq_lower(key, "ctrl") {
        KeyCode::Control
    } else if crate::strutil::eq_lower(key, "alt") {
        KeyCode::Alt
    } else if crate::strutil::eq_lower(key, "shift") {
        KeyCode::Shift
    } else if crate::strutil::eq_lower(key, "cmd") || crate::strutil::eq_lower(key, "command")
        || crate::strutil::eq_lower(key, "meta") {
        KeyCode::Meta
    } else if key.unicode_len() == 1 {
        KeyCode::Unicode(key.get_char(0))
    } else {
        return Err(DispatchError::UnsupportedKey(String::from_str(key)));
    };
    Ok(k)
}

/// A single character always has a key: the literal-character fallback
/// catches whatever the named table does not.
pub proof fn lemma_single_char_always_mapped(s: Seq<char>)
    requires
        s.len() == 1,
    ensures
        spec_key(s) is Some,
{
    reveal_strlit("enter");
    reveal_strlit("return");
    reveal_strlit("space");
    reveal_strlit("tab");
    reveal_strlit("escape");
    reveal_strlit("esc");
    reveal_strlit("backspace");
    reveal_strlit("delete");
    reveal_strlit("del");
    reveal_strlit("up");
    reveal_strlit("down");
    reveal_strlit("left");
    reveal_strlit("right");
    reveal_strlit("home");
    reveal_strlit("end");
    reveal_strlit("pageup");
    reveal_strlit("pgup");
    reveal_strlit("pagedown");
    reveal_strlit("pgdown");
    reveal_strlit("f1");
    reveal_strlit("f2");
    reveal_strlit("f3");
    reveal_strlit("f4");
    reveal_strlit("f5");
    reveal_strlit("f6");
    reveal_strlit("f7");
    reveal_strlit("f8");
    reveal_strlit("f9");
    reveal_strlit("f10");
    reveal_strlit("f11");
    reveal_strlit("f12");
    reveal_strlit("ctrl");
    reveal_strlit("alt");
    reveal_strlit("shift");
    reveal_strlit("cmd");
    reveal_strlit("command");
    reveal_strlit("meta");
    assert(lower(s).len() == 1);
}

/// The signed scroll amount for a named direction: up, north, left and west
/// scroll against the axis, everything else (including an unknown name,
/// which defaults to downward) scrolls with it.
pub open spec fn spec_scroll(dir: Seq<char>, amount: int) -> int {
    let l = lower(dir);
    if l == "up"@ || l == "north"@ || l == "left"@ || l == "west"@ {
        -amount
    } else {
        amount
    }
}

/// Maps a direction name and an unsigned magnitude to the signed amount the
/// input-synthesis collaborator takes.
pub fn scroll_delta(direction: &str, amount: i32) -> (r: i32)
    requires
        amount != i32::MIN,
    ensures
        r == spec_scroll(direction@, amount as int),
{
    if crate::strutil::eq_lower(direction, "up") || crate::strutil::eq_lower(direction, "north")
        || crate::strutil::eq_lower(direction, "left") || crate::strutil::eq_lower(
        direction,
        "west",
    ) {
        -amount
    } else {
        amount
    }
}

/// The interpolated coordinate after `k` of ten equal steps from `a` to
/// `b`: the offset grows linearly and is truncated toward zero, so every
/// step stays between the endpoints and the tenth step lands exactly on
/// `b`.
pub open spec fn spec_lerp(a: int, b: int, k: int) -> int {
    if b >= a {
        a + (b - a) * k / 10
    } else {
        a - (a - b) * k / 10
    }
}

/// The tenth step of an interpolation lands exactly on the far endpoint.
pub proof fn lemma_lerp_endpoint(a: int, b: int)
    ensures
        spec_lerp(a, b, 10) == b,
{
    if b >= a {
        lemma_div_multiples_vanish(b - a, 10);
        assert((b - a) * 10 == 10 * (b - a));
    } else {
        lemma_div_multiples_vanish(a - b, 10);
        assert((a - b) * 10 == 10 * (a - b));
    }
}

/// Every interpolated position lies between the endpoints.
pub proof fn lemma_lerp_bounded(a: int, b: int, k: int)
    requires
        0 <= k <= 10,
    ensures
        b >= a ==> a <= spec_lerp(a, b, k) <= b,
        b < a ==> b <= spec_lerp(a, b, k) <= a,
{
    if b >= a {
        lemma_mul_inequality(k, 10, b - a);
        lemma_div_is_ordered((b - a) * k, (b - a) * 10, 10);
        lemma_div_multiples_vanish(b - a, 10);
        assert((b - a) * 10 == 10 * (b - a));
        assert((b - a) * k >= 0) by {
            lemma_mul_inequality(0, k, b - a);
        }
        lemma_div_is_ordered(0, (b - a) * k, 10);
    } else {
        lemma_mul_inequality(k, 10, a - b);
        lemma_div_is_ordered((a - b) * k, (a - b) * 10, 10);
        lemma_div_multiples_vanish(a - b, 10);
        assert((a - b) * 10 == 10 * (a - b));
        assert((a - b) * k >= 0) by {
            lemma_mul_inequality(0, k, a - b);
        }
        lemma_div_is_ordered(0, (a - b) * k, 10);
    }
}

/// One interpolated coordinate, computed exactly as `spec_lerp` states.
fn lerp_coord(a: i32, b: i32, k: u64) -> (r: i32)
    requires
        0 <= k <= 10,
    ensures
        r as int == spec_lerp(a as int, b as int, k as int),
{
    proof {
        lemma_lerp_bounded(a as int, b as int, k as int);
    }
    if b >= a {
        let d: u64 = (b as i64 - a as i64) as u64;
        proof {
            lemma_mul_inequality(k as int, 10, d as int);
            lemma_mul_inequality(0, k as int, d as int);
            assert(d * k == (d as int) * (k as int));
        }
        let off: u64 = (d * k) / 10;
        proof {
            lemma_div_is_ordered((d as int) * (k as int), (d as int) * 10, 10);
            lemma_div_multiples_vanish(d as int, 10);
            assert((d as int) * 10 == 10 * (d as int));
        }
        (a as i64 + off as i64) as i32
    } else {
        let d: u64 = (a as i64 - b as i64) as u64;
        proof {
            lemma_mul_inequality(k as int, 10, d as int);
            lemma_mul_inequality(0, k as int, d as int);
            assert(d * k == (d as int) * (k as int));
        }
        let off: u64 = (d * k) / 10;
        proof {
            lemma_div_is_ordered((d as int) * (k as int), (d as int) * 10, 10);
            lemma_div_multiples_vanish(d as int, 10);
            assert((d as int) * 10 == 10 * (d as int));
        }
        (a as i64 - off as i64) as i32
    }
}

/// The positions of a drag from `(x1, y1)` to `(x2, y2)`: always exactly
/// ten, regardless of distance, each linearly interpolated, the last one
/// exactly the far endpoint. The caller moves through them in order, with a
/// short fixed delay between moves.
pub fn drag_path(x1: i32, y1: i32, x2: i32, y2: i32) -> (r: Vec<(i32, i32)>)
    ensures
        r@.len() == 10,
        forall|i: int|
            0 <= i < 10 ==> (#[trigger] r@[i]).0 == spec_lerp(x1 as int, x2 as int, i + 1)
                && r@[i].1 == spec_lerp(y1 as int, y2 as int, i + 1),
        r@[9].0 == x2 && r@[9].1 == y2,
{
    let mut path: Vec<(i32, i32)> = Vec::new();
    let mut k: u64 = 1;
    while k <= 10
        invariant
            1 <= k <= 11,
            path@.len() == k - 1,
            forall|i: int|
                0 <= i < k - 1 ==> (#[trigger] path@[i]).0 == spec_lerp(
                    x1 as int,
                    x2 as int,
                    i + 1,
                ) && path@[i].1 == spec_lerp(y1 as int, y2 as int, i + 1),
        decreases 11 - k,
    {
        let px = lerp_coord(x1, x2, k);
        let py = lerp_coord(y1, y2, k);
        path.push((px, py));
        k += 1;
    }
    proof {
        lemma_lerp_endpoint(x1 as int, x2 as int);
        lemma_lerp_endpoint(y1 as int, y2 as int);
    }
    path
}

} // verus!
