//! PS/2 set-1 scancodes and evdev keycodes, in both directions.
//!
//! For `0x01..=0x58` the two numberings coincide; extended (`0xE0`-prefixed) keys
//! need the explicit table below, and anything absent maps to `None` rather than to a
//! plausible-looking wrong key.

use vstd::prelude::*;

verus! {

/// Highest set-1 scancode that is numerically equal to its evdev keycode.
pub const IDENTITY_MAX: u16 = 0x58;

/// Marker bit callers use to signal "this was an `0xE0`-prefixed extended scancode".
pub const EXTENDED: u16 = 0xE000;

/// evdev button code for the left mouse button (`BTN_LEFT`).
pub const BTN_LEFT: u32 = 0x110;
pub const BTN_RIGHT: u32 = 0x111;
pub const BTN_MIDDLE: u32 = 0x112;

/// The evdev keycode of an extended scancode's base byte, if Ultidesk forwards that key.
pub open spec fn extended_evdev(base: u16) -> Option<i32> {
    if base == 0x1D { Some(97) }          // right ctrl
    else if base == 0x38 { Some(100) }    // right alt
    else if base == 0x1C { Some(96) }     // keypad enter
    else if base == 0x35 { Some(98) }     // keypad slash
    else if base == 0x47 { Some(102) }    // home
    else if base == 0x48 { Some(103) }    // up
    else if base == 0x49 { Some(104) }    // page up
    else if base == 0x4B { Some(105) }    // left
    else if base == 0x4D { Some(106) }    // right
    else if base == 0x4F { Some(107) }    // end
    else if base == 0x50 { Some(108) }    // down
    else if base == 0x51 { Some(109) }    // page down
    else if base == 0x52 { Some(110) }    // insert
    else if base == 0x53 { Some(111) }    // delete
    else if base == 0x5B { Some(125) }    // left meta
    else if base == 0x5C { Some(126) }    // right meta
    else { None }
}

/// The extended base byte whose key has evdev keycode `code`, if any.
pub open spec fn extended_base(code: i32) -> Option<u16> {
    if code == 97 { Some(0x1Du16) }
    else if code == 100 { Some(0x38u16) }
    else if code == 96 { Some(0x1Cu16) }
    else if code == 98 { Some(0x35u16) }
    else if code == 102 { Some(0x47u16) }
    else if code == 103 { Some(0x48u16) }
    else if code == 104 { Some(0x49u16) }
    else if code == 105 { Some(0x4Bu16) }
    else if code == 106 { Some(0x4Du16) }
    else if code == 107 { Some(0x4Fu16) }
    else if code == 108 { Some(0x50u16) }
    else if code == 109 { Some(0x51u16) }
    else if code == 110 { Some(0x52u16) }
    else if code == 111 { Some(0x53u16) }
    else if code == 125 { Some(0x5Bu16) }
    else if code == 126 { Some(0x5Cu16) }
    else { None }
}

/// Scancode to evdev: extended codes through the table, plain `0x01..=0x58` unchanged,
/// everything else refused.
pub open spec fn scancode_to_evdev_spec(scancode: u16) -> Option<i32> {
    if scancode & EXTENDED != 0 {
        extended_evdev(scancode & 0x00FF)
    } else if 1 <= scancode <= IDENTITY_MAX {
        Some(scancode as i32)
    } else {
        None
    }
}

/// evdev to scancode: the table first (coming back with the `EXTENDED` bit), then the
/// identity range, everything else refused.
pub open spec fn evdev_to_scancode_spec(keycode: i32) -> Option<u16> {
    match extended_base(keycode) {
        Some(base) => Some((EXTENDED | base) as u16),
        None => if 1 <= keycode <= IDENTITY_MAX as i32 {
            Some(keycode as u16)
        } else {
            None
        },
    }
}

/// The extended scancodes Ultidesk forwards and their evdev keycodes.
pub fn extended_table() -> (r: [(u16, i32); 16])
    ensures
        forall|i: int| 0 <= i < 16 ==> extended_evdev(#[trigger] r@[i].0) == Some(r@[i].1),
        forall|i: int| 0 <= i < 16 ==> extended_base(#[trigger] r@[i].1) == Some(r@[i].0),
        forall|b: u16| extended_evdev(b) is Some ==> exists|i: int| 0 <= i < 16 && #[trigger] r@[i].0 == b,
        forall|c: i32| extended_base(c) is Some ==> exists|i: int| 0 <= i < 16 && #[trigger] r@[i].1 == c,
{
    let r = [
        (0x1D, 97),
        (0x38, 100),
        (0x1C, 96),
        (0x35, 98),
        (0x47, 102),
        (0x48, 103),
        (0x49, 104),
        (0x4B, 105),
        (0x4D, 106),
        (0x4F, 107),
        (0x50, 108),
        (0x51, 109),
        (0x52, 110),
        (0x53, 111),
        (0x5B, 125),
        (0x5C, 126),
    ];
    assert(r@[0].0 == 0x1D && r@[1].0 == 0x38 && r@[2].0 == 0x1C && r@[3].0 == 0x35);
    assert(r@[4].0 == 0x47 && r@[5].0 == 0x48 && r@[6].0 == 0x49 && r@[7].0 == 0x4B);
    assert(r@[8].0 == 0x4D && r@[9].0 == 0x4F && r@[10].0 == 0x50 && r@[11].0 == 0x51);
    assert(r@[12].0 == 0x52 && r@[13].0 == 0x53 && r@[14].0 == 0x5B && r@[15].0 == 0x5C);
    assert(r@[0].1 == 97 && r@[1].1 == 100 && r@[2].1 == 96 && r@[3].1 == 98);
    assert(r@[4].1 == 102 && r@[5].1 == 103 && r@[6].1 == 104 && r@[7].1 == 105);
    assert(r@[8].1 == 106 && r@[9].1 == 107 && r@[10].1 == 108 && r@[11].1 == 109);
    assert(r@[12].1 == 110 && r@[13].1 == 111 && r@[14].1 == 125 && r@[15].1 == 126);
    r
}

/// Translate a PS/2 set-1 scancode to an evdev keycode.
///
/// Set the `EXTENDED` bit for scancodes that arrived with an `0xE0` prefix. Returns
/// `None` for anything not known to map.
pub fn scancode_to_evdev(scancode: u16) -> (r: Option<i32>)
    ensures
        r == scancode_to_evdev_spec(scancode),
{
    if scancode & EXTENDED != 0 {
        let base = scancode & 0x00FF;
        let table = extended_table();
        let mut i: usize = 0;
        while i < 16
            invariant
                0 <= i <= 16,
                base == scancode & 0x00FF,
                scancode & EXTENDED != 0,
                forall|j: int| 0 <= j < i ==> table@[j].0 != base,
                forall|j: int| 0 <= j < 16 ==> extended_evdev(#[trigger] table@[j].0) == Some(table@[j].1),
                forall|b: u16| extended_evdev(b) is Some ==> exists|j: int| 0 <= j < 16 && #[trigger] table@[j].0 == b,
            decreases 16 - i,
        {
            if table[i].0 == base {
                assert(extended_evdev(table@[i as int].0) == Some(table@[i as int].1));
                return Some(table[i].1);
            }
            i = i + 1;
        }
        return None;
    }
    if 1 <= scancode && scancode <= IDENTITY_MAX {
        return Some(scancode as i32);
    }
    None
}

/// Translate an evdev keycode back to a PS/2 set-1 scancode; the exact inverse of
/// [`scancode_to_evdev`]. Extended keys come back with the `EXTENDED` bit set.
pub fn evdev_to_scancode(keycode: i32) -> (r: Option<u16>)
    ensures
        r == evdev_to_scancode_spec(keycode),
{
    let table = extended_table();
    let mut i: usize = 0;
    while i < 16
        invariant
            0 <= i <= 16,
            forall|j: int| 0 <= j < i ==> table@[j].1 != keycode,
            forall|j: int| 0 <= j < 16 ==> extended_base(#[trigger] table@[j].1) == Some(table@[j].0),
            forall|c: i32| extended_base(c) is Some ==> exists|j: int| 0 <= j < 16 && #[trigger] table@[j].1 == c,
        decreases 16 - i,
    {
        if table[i].1 == keycode {
            assert(extended_base(table@[i as int].1) == Some(table@[i as int].0));
            return Some(EXTENDED | table[i].0);
        }
        i = i + 1;
    }
    if 1 <= keycode && keycode <= IDENTITY_MAX as i32 {
        return Some(keycode as u16);
    }
    None
}

/// Which of the three forwarded buttons an evdev button code is, if any.
pub fn evdev_button_index(button: u32) -> (r: Option<u8>)
    ensures
        r == (if button == BTN_LEFT {
            Some(0u8)
        } else if button == BTN_RIGHT {
            Some(1u8)
        } else if button == BTN_MIDDLE {
            Some(2u8)
        } else {
            None
        }),
{
    if button == BTN_LEFT {
        Some(0)
    } else if button == BTN_RIGHT {
        Some(1)
    } else if button == BTN_MIDDLE {
        Some(2)
    } else {
        None
    }
}

/// No extended key maps to the keycode its own base byte would name: such an entry
/// would be a copy of the identity map, and the prefix would be lost.
pub proof fn lemma_extended_keys_leave_their_base(base: u16)
    ensures
        extended_evdev(base) matches Some(code) ==> code != base as i32,
{
}

/// Every scancode the forward map accepts, written as a plain byte or as an
/// `EXTENDED`-prefixed byte, comes back unchanged through the inverse.
///
/// Scancodes with other high bits set are left out: `scancode_to_evdev` tests only
/// whether any `EXTENDED` bit is set, so `0x201D` maps to 97, which comes back as
/// `0xE01D`.
pub proof fn lemma_scancode_round_trip(scancode: u16)
    requires
        scancode < 0x100 || (0xE000 <= scancode < 0xE100),
    ensures
        scancode_to_evdev_spec(scancode) matches Some(e) ==> evdev_to_scancode_spec(e) == Some(scancode),
{
    if scancode < 0x100 {
        assert(scancode < 0x100 ==> scancode & 0xE000u16 == 0) by (bit_vector);
    } else {
        assert(0xE000 <= scancode < 0xE100 ==> scancode & 0xE000u16 != 0 && 0xE000u16 | (scancode & 0x00FFu16) == scancode) by (bit_vector);
    }
}

/// Every keycode the inverse accepts maps forward to the keycode it came from.
pub proof fn lemma_evdev_round_trip(keycode: i32)
    ensures
        evdev_to_scancode_spec(keycode) matches Some(sc) ==> scancode_to_evdev_spec(sc) == Some(keycode),
{
    match extended_base(keycode) {
        Some(base) => {
            assert(base < 0x100);
            assert(base < 0x100 ==> (0xE000u16 | base) & 0xE000u16 != 0 && (0xE000u16 | base) & 0x00FFu16 == base) by (bit_vector);
        },
        None => {
            if 1 <= keycode <= 0x58 {
                let sc = keycode as u16;
                assert(1 <= sc <= 0x58 ==> sc & 0xE000u16 == 0) by (bit_vector);
            }
        },
    }
}


/// The two halves of an `EXTENDED`-prefixed scancode.
proof fn lemma_extended_code(s: u16, b: u16)
    by (bit_vector)
    requires
        b < 0x100,
        s == 0xE000 + b,
    ensures
        s & 0xE000u16 != 0,
        s & 0x00FFu16 == b,
        0xE000u16 | b == s,
{
}

/// Each extended key translates to the evdev key of the same name (`KEY_RIGHTCTRL` 97,
/// `KEY_RIGHTALT` 100, `KEY_KPENTER` 96, `KEY_KPSLASH` 98, `KEY_HOME` 102, `KEY_UP` 103,
/// `KEY_PAGEUP` 104, `KEY_LEFT` 105, `KEY_RIGHT` 106, `KEY_END` 107, `KEY_DOWN` 108,
/// `KEY_PAGEDOWN` 109, `KEY_INSERT` 110, `KEY_DELETE` 111, `KEY_LEFTMETA` 125,
/// `KEY_RIGHTMETA` 126), and that keycode translates back to the same prefixed scancode;
/// every other prefixed scancode is refused.
pub proof fn lemma_extended_keys_by_name()
    ensures
        // right ctrl
        scancode_to_evdev_spec(0xE01D) == Some(97i32) && evdev_to_scancode_spec(97) == Some(0xE01Du16),
        // right alt
        scancode_to_evdev_spec(0xE038) == Some(100i32) && evdev_to_scancode_spec(100) == Some(0xE038u16),
        // keypad enter
        scancode_to_evdev_spec(0xE01C) == Some(96i32) && evdev_to_scancode_spec(96) == Some(0xE01Cu16),
        // keypad slash
        scancode_to_evdev_spec(0xE035) == Some(98i32) && evdev_to_scancode_spec(98) == Some(0xE035u16),
        // home
        scancode_to_evdev_spec(0xE047) == Some(102i32) && evdev_to_scancode_spec(102) == Some(0xE047u16),
        // up
        scancode_to_evdev_spec(0xE048) == Some(103i32) && evdev_to_scancode_spec(103) == Some(0xE048u16),
        // page up
        scancode_to_evdev_spec(0xE049) == Some(104i32) && evdev_to_scancode_spec(104) == Some(0xE049u16),
        // left
        scancode_to_evdev_spec(0xE04B) == Some(105i32) && evdev_to_scancode_spec(105) == Some(0xE04Bu16),
        // right
        scancode_to_evdev_spec(0xE04D) == Some(106i32) && evdev_to_scancode_spec(106) == Some(0xE04Du16),
        // end
        scancode_to_evdev_spec(0xE04F) == Some(107i32) && evdev_to_scancode_spec(107) == Some(0xE04Fu16),
        // down
        scancode_to_evdev_spec(0xE050) == Some(108i32) && evdev_to_scancode_spec(108) == Some(0xE050u16),
        // page down
        scancode_to_evdev_spec(0xE051) == Some(109i32) && evdev_to_scancode_spec(109) == Some(0xE051u16),
        // insert
        scancode_to_evdev_spec(0xE052) == Some(110i32) && evdev_to_scancode_spec(110) == Some(0xE052u16),
        // delete
        scancode_to_evdev_spec(0xE053) == Some(111i32) && evdev_to_scancode_spec(111) == Some(0xE053u16),
        // left meta
        scancode_to_evdev_spec(0xE05B) == Some(125i32) && evdev_to_scancode_spec(125) == Some(0xE05Bu16),
        // right meta
        scancode_to_evdev_spec(0xE05C) == Some(126i32) && evdev_to_scancode_spec(126) == Some(0xE05Cu16),
        forall|b: u16|
            b < 0x100 && b != 0x1D && b != 0x38 && b != 0x1C && b != 0x35 && b != 0x47 && b != 0x48 && b != 0x49 && b != 0x4B && b != 0x4D && b != 0x4F && b != 0x50 && b != 0x51 && b != 0x52 && b != 0x53 && b != 0x5B && b != 0x5C ==> #[trigger] scancode_to_evdev_spec((0xE000 + b) as u16) is None,
{
    lemma_extended_code(0xE01D, 0x1D);
    lemma_extended_code(0xE038, 0x38);
    lemma_extended_code(0xE01C, 0x1C);
    lemma_extended_code(0xE035, 0x35);
    lemma_extended_code(0xE047, 0x47);
    lemma_extended_code(0xE048, 0x48);
    lemma_extended_code(0xE049, 0x49);
    lemma_extended_code(0xE04B, 0x4B);
    lemma_extended_code(0xE04D, 0x4D);
    lemma_extended_code(0xE04F, 0x4F);
    lemma_extended_code(0xE050, 0x50);
    lemma_extended_code(0xE051, 0x51);
    lemma_extended_code(0xE052, 0x52);
    lemma_extended_code(0xE053, 0x53);
    lemma_extended_code(0xE05B, 0x5B);
    lemma_extended_code(0xE05C, 0x5C);
    assert forall|b: u16|
        b < 0x100 && b != 0x1D && b != 0x38 && b != 0x1C && b != 0x35 && b != 0x47 && b != 0x48 && b != 0x49 && b != 0x4B && b != 0x4D && b != 0x4F && b != 0x50 && b != 0x51 && b != 0x52 && b != 0x53 && b != 0x5B && b != 0x5C implies #[trigger] scancode_to_evdev_spec((0xE000 + b) as u16) is None by {
        lemma_extended_code((0xE000 + b) as u16, b);
    }
}


/// Outside the prefixed keys the two numberings coincide: every plain scancode from
/// `0x01` to `0x58` is the evdev keycode of the same number, both ways (`KEY_ESC` 1,
/// `KEY_A` 30, `KEY_F12` 88), and a plain `0x00` or anything above `0x58` is refused.
pub proof fn lemma_plain_keys_keep_their_number(sc: u16, code: i32)
    ensures
        1 <= sc <= 0x58 ==> scancode_to_evdev_spec(sc) == Some(sc as i32),
        (sc == 0 || 0x58 < sc < 0x100) ==> scancode_to_evdev_spec(sc) is None,
        1 <= code <= 0x58 ==> evdev_to_scancode_spec(code) == Some(code as u16),
{
    assert(sc < 0x100 ==> sc & 0xE000u16 == 0) by (bit_vector);
}

} // verus!
