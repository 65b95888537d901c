use boringwm::keys::{
    grab_keys, grab_multimedia_keys, keybindings, keycodes_for_keysym, multimedia_keycodes,
    KeyGrab, KeyboardMapping, Keybindings, MultimediaKeycodes, KEYSYM_AUDIO_MUTE,
    KEYSYM_AUDIO_RAISE_VOLUME, KEYSYM_B, KEYSYM_J, KEYSYM_Q, KEYSYM_RETURN,
};

/// A small cut of a standard US keyboard mapping: keycodes 8 through 11,
/// two symbols recorded per keycode.
fn us_mapping() -> KeyboardMapping {
    KeyboardMapping {
        min_keycode: 8,
        keysyms_per_keycode: 2,
        keysyms: vec![
            KEYSYM_Q,
            0x51, // keycode 8: q / Q
            KEYSYM_RETURN,
            0, // keycode 9: Return
            KEYSYM_J,
            0x4A, // keycode 10: j / J
            KEYSYM_AUDIO_RAISE_VOLUME,
            0, // keycode 11: volume up
        ],
    }
}

#[test]
fn bound_symbol_resolves_to_a_keycode() {
    let m = us_mapping();
    assert_eq!(keycodes_for_keysym(&m, KEYSYM_RETURN), vec![9]);
    assert_eq!(keycodes_for_keysym(&m, KEYSYM_Q), vec![8]);
    // the shifted symbol of the same key resolves to the same keycode
    assert_eq!(keycodes_for_keysym(&m, 0x51), vec![8]);
}

#[test]
fn unmapped_symbol_resolves_to_nothing() {
    let m = us_mapping();
    assert_eq!(keycodes_for_keysym(&m, KEYSYM_B), Vec::<u8>::new());
}

#[test]
fn symbol_on_two_keys_resolves_to_both_in_order() {
    let m = KeyboardMapping {
        min_keycode: 20,
        keysyms_per_keycode: 1,
        keysyms: vec![KEYSYM_J, KEYSYM_Q, KEYSYM_J],
    };
    assert_eq!(keycodes_for_keysym(&m, KEYSYM_J), vec![20, 22]);
}

#[test]
fn degenerate_mapping_resolves_to_nothing() {
    let m = KeyboardMapping { min_keycode: 8, keysyms_per_keycode: 0, keysyms: vec![] };
    assert_eq!(keycodes_for_keysym(&m, KEYSYM_RETURN), Vec::<u8>::new());
}

#[test]
fn keybindings_resolve_on_a_us_mapping() {
    let b = keybindings(&us_mapping());
    assert_eq!(b.terminal, vec![9]);
    assert_eq!(b.close, vec![8]);
    assert_eq!(b.focus_next, vec![10]);
    assert_eq!(b.focus_prev, Vec::<u8>::new());
    assert_eq!(b.browser, Vec::<u8>::new());
}

#[test]
fn multimedia_keycodes_resolve_on_a_us_mapping() {
    let m = multimedia_keycodes(&us_mapping());
    assert_eq!(m.volume_up, vec![11]);
    assert_eq!(m.volume_down, Vec::<u8>::new());
    assert_eq!(m.volume_mute, Vec::<u8>::new());
}

#[test]
fn grab_keys_pairs_every_keycode_with_every_lock_variant() {
    let b = Keybindings {
        terminal: vec![10],
        close: vec![11],
        focus_next: vec![],
        focus_prev: vec![],
        file_manager: vec![],
        browser: vec![],
        launcher: vec![],
    };
    let grabs = grab_keys(&b);
    assert_eq!(
        grabs,
        vec![
            KeyGrab { modifiers: 0x40, keycode: 10 },
            KeyGrab { modifiers: 0x40, keycode: 11 },
            KeyGrab { modifiers: 0x50, keycode: 10 },
            KeyGrab { modifiers: 0x50, keycode: 11 },
            KeyGrab { modifiers: 0x42, keycode: 10 },
            KeyGrab { modifiers: 0x42, keycode: 11 },
            KeyGrab { modifiers: 0x52, keycode: 10 },
            KeyGrab { modifiers: 0x52, keycode: 11 },
        ]
    );
}

#[test]
fn grab_multimedia_keys_uses_bare_lock_variants() {
    let m = MultimediaKeycodes { volume_down: vec![1], volume_mute: vec![2], volume_up: vec![3] };
    let grabs = grab_multimedia_keys(&m);
    assert_eq!(grabs.len(), 12);
    assert_eq!(grabs[0], KeyGrab { modifiers: 0x00, keycode: 1 });
    assert_eq!(grabs[1], KeyGrab { modifiers: 0x00, keycode: 2 });
    assert_eq!(grabs[2], KeyGrab { modifiers: 0x00, keycode: 3 });
    assert_eq!(grabs[3], KeyGrab { modifiers: 0x10, keycode: 1 });
    assert_eq!(grabs[6], KeyGrab { modifiers: 0x02, keycode: 1 });
    assert_eq!(grabs[11], KeyGrab { modifiers: 0x12, keycode: 3 });
}

#[test]
fn mute_key_resolution_is_independent_of_other_keys() {
    let m = KeyboardMapping {
        min_keycode: 100,
        keysyms_per_keycode: 3,
        keysyms: vec![0, KEYSYM_AUDIO_MUTE, 0],
    };
    let mm = multimedia_keycodes(&m);
    assert_eq!(mm.volume_mute, vec![100]);
}
