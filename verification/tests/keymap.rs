use ultidesk::keymap::{
    evdev_button_index, evdev_to_scancode, extended_table, scancode_to_evdev, BTN_LEFT, BTN_MIDDLE,
    BTN_RIGHT, EXTENDED, IDENTITY_MAX,
};

#[test]
fn main_block_is_the_identity_map() {
    assert_eq!(scancode_to_evdev(0x1E), Some(30));
    assert_eq!(scancode_to_evdev(0x02), Some(2));
    assert_eq!(scancode_to_evdev(0x1C), Some(28));
    assert_eq!(scancode_to_evdev(0x39), Some(57));
    assert_eq!(scancode_to_evdev(0x0E), Some(14));
    assert_eq!(scancode_to_evdev(0x0F), Some(15));
    assert_eq!(scancode_to_evdev(0x01), Some(1));
    assert_eq!(scancode_to_evdev(0x3B), Some(59));
}

#[test]
fn identity_range_is_bounded_at_0x58() {
    assert_eq!(scancode_to_evdev(IDENTITY_MAX), Some(0x58));
    assert_eq!(scancode_to_evdev(IDENTITY_MAX + 1), None);
    assert_eq!(scancode_to_evdev(0x00), None);
}

#[test]
fn extended_keys_are_not_the_identity_map() {
    assert_eq!(scancode_to_evdev(EXTENDED | 0x1D), Some(97));
    assert_ne!(scancode_to_evdev(EXTENDED | 0x1D), Some(29));
    assert_eq!(scancode_to_evdev(EXTENDED | 0x48), Some(103));
    assert_eq!(scancode_to_evdev(EXTENDED | 0x4B), Some(105));
    assert_eq!(scancode_to_evdev(EXTENDED | 0x5B), Some(125));
}

#[test]
fn the_same_base_code_means_different_keys_with_and_without_the_prefix() {
    assert_eq!(scancode_to_evdev(0x1C), Some(28));
    assert_eq!(scancode_to_evdev(EXTENDED | 0x1C), Some(96));
}

#[test]
fn unknown_extended_codes_are_dropped_not_guessed() {
    assert_eq!(scancode_to_evdev(EXTENDED | 0x7F), None);
}

#[test]
fn every_scancode_the_forward_map_accepts_survives_a_round_trip() {
    let mut checked = 0;
    for raw in 0u16..=0xFF {
        for prefix in [0u16, EXTENDED] {
            let sc = prefix | raw;
            if let Some(evdev) = scancode_to_evdev(sc) {
                assert_eq!(
                    evdev_to_scancode(evdev),
                    Some(sc),
                    "0x{sc:04X} -> evdev {evdev} did not come back"
                );
                checked += 1;
            }
        }
    }
    assert!(checked > 80, "only {checked} codes round-tripped");
}

#[test]
fn evdev_keys_outside_the_mapped_set_are_dropped_not_guessed() {
    assert_eq!(evdev_to_scancode(0), None);
    assert_eq!(evdev_to_scancode(90), None);
    assert_eq!(evdev_to_scancode(200), None);
    assert_eq!(evdev_to_scancode(-1), None);
}

#[test]
fn extended_evdev_keys_come_back_with_the_prefix_bit() {
    assert_eq!(evdev_to_scancode(97), Some(EXTENDED | 0x1D));
    assert_ne!(evdev_to_scancode(97), Some(0x1D));
    assert_eq!(evdev_to_scancode(103), Some(EXTENDED | 0x48));
    assert_eq!(evdev_to_scancode(125), Some(EXTENDED | 0x5B));
    assert_eq!(evdev_to_scancode(96), Some(EXTENDED | 0x1C));
}

#[test]
fn enter_and_keypad_enter_do_not_collapse_onto_each_other() {
    assert_eq!(evdev_to_scancode(28), Some(0x1C));
    assert_eq!(evdev_to_scancode(96), Some(EXTENDED | 0x1C));
    assert_ne!(evdev_to_scancode(28), evdev_to_scancode(96));
}

#[test]
fn mouse_buttons_use_evdev_numbering_not_x11() {
    assert_eq!(evdev_button_index(BTN_LEFT), Some(0));
    assert_eq!(evdev_button_index(BTN_RIGHT), Some(1));
    assert_eq!(evdev_button_index(BTN_MIDDLE), Some(2));
    assert_eq!(evdev_button_index(1), None, "X11 button 1 must not map");
    assert_eq!(evdev_button_index(2), None);
}

#[test]
fn extra_mouse_buttons_are_dropped_rather_than_folded_onto_a_real_one() {
    assert_eq!(evdev_button_index(0x113), None);
    assert_eq!(evdev_button_index(0x114), None);
}

#[test]
fn every_extended_entry_is_outside_the_identity_range_value_space() {
    for (base, code) in extended_table().iter() {
        assert_ne!(
            *code, *base as i32,
            "extended 0x{base:02X} maps to its own base value, likely a mistake"
        );
    }
}

#[test]
fn a_stray_high_bit_still_reads_as_extended() {
    // Any EXTENDED bit counts as the prefix, so 0x201D is right control, and comes
    // back written the canonical way.
    assert_eq!(scancode_to_evdev(0x201D), Some(97));
    assert_eq!(evdev_to_scancode(97), Some(0xE01D));
}
