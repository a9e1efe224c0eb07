use xmirror::event::Key;
use xmirror::event::Mods;
use xmirror::event::Mouse;
use xmirror::event::Scroll;
use xmirror::event::MODS_ALT;
use xmirror::event::MODS_CTRL;
use xmirror::event::MODS_SHIFT;
use xmirror::event::MODS_SUPER;
use xmirror::proto::KEY_COUNT;

fn all_keys() -> Vec<Key> {
    let mut keys = Vec::new();
    for ord in 0..KEY_COUNT {
        keys.push(Key::from_ord(ord).unwrap());
    }
    keys
}

#[test]
fn key_table_round_trips_on_x11() {
    for key in all_keys() {
        assert_eq!(Key::from_x11(key.to_x11()), Some(key));
    }
}

#[test]
fn key_table_round_trips_on_macos() {
    for key in all_keys() {
        assert_eq!(Key::from_macos(key.to_macos()), Some(key));
    }
}

#[test]
fn key_tables_are_injective() {
    let keys = all_keys();
    for a in &keys {
        for b in &keys {
            if a != b {
                assert_ne!(a.to_x11(), b.to_x11());
                assert_ne!(a.to_macos(), b.to_macos());
            }
        }
    }
}

#[test]
fn key_table_spot_values() {
    assert_eq!(Key::A.to_x11(), 38);
    assert_eq!(Key::A.to_macos(), 0);
    assert_eq!(Key::Space.to_x11(), 65);
    assert_eq!(Key::Space.to_macos(), 49);
    assert_eq!(Key::F12.to_x11(), 96);
    assert_eq!(Key::F12.to_macos(), 111);
    assert_eq!(Key::from_x11(9), Some(Key::Esc));
    assert_eq!(Key::from_macos(53), Some(Key::Esc));
}

#[test]
fn unknown_native_codes_are_dropped() {
    assert_eq!(Key::from_x11(0), None);
    assert_eq!(Key::from_x11(1000), None);
    assert_eq!(Key::from_macos(1000), None);
    assert_eq!(Mouse::from_x11(0), None);
    assert_eq!(Mouse::from_x11(4), None);
    assert_eq!(Scroll::from_x11(0), None);
    assert_eq!(Scroll::from_macos(5), None);
}

#[test]
fn mouse_tables() {
    for button in [Mouse::Left, Mouse::Right, Mouse::Middle] {
        assert_eq!(Mouse::from_x11(button.to_x11()), Some(button));
        assert_eq!(Mouse::from_macos(button.to_macos()), Some(button));
    }
    assert_eq!(Mouse::Left.to_x11(), 1);
    assert_eq!(Mouse::Middle.to_x11(), 2);
    assert_eq!(Mouse::Right.to_x11(), 3);
}

#[test]
fn scroll_tables() {
    for dir in [Scroll::Up, Scroll::Down, Scroll::Left, Scroll::Right] {
        assert_eq!(Scroll::from_x11(dir.to_x11()), Some(dir));
        assert_eq!(Scroll::from_macos(dir.to_macos()), Some(dir));
    }
    assert_eq!(Scroll::Up.to_x11(), 5);
    assert_eq!(Scroll::Down.to_x11(), 4);
    assert_eq!(Scroll::Left.to_x11(), 6);
    assert_eq!(Scroll::Right.to_x11(), 7);
    assert_eq!(Scroll::Up.to_macos(), 3);
    assert_eq!(Scroll::Down.to_macos(), 2);
    assert_eq!(Scroll::Left.to_macos(), 1);
    assert_eq!(Scroll::Right.to_macos(), 4);
}

#[test]
fn each_modifier_bit_round_trips_on_x11() {
    for bit in [MODS_SHIFT, MODS_CTRL, MODS_ALT, MODS_SUPER] {
        let m = Mods::from_bits_truncate(bit);
        let back = Mods::from_x11(m.to_x11());
        assert_eq!(back.bits, bit);
    }
}

#[test]
fn each_modifier_bit_round_trips_on_macos() {
    for bit in [MODS_SHIFT, MODS_CTRL, MODS_ALT, MODS_SUPER] {
        let m = Mods::from_bits_truncate(bit);
        let back = Mods::from_macos(m.to_macos());
        assert_eq!(back.bits, bit);
    }
}

#[test]
fn every_modifier_combination_round_trips() {
    for bits in 0..16u8 {
        let m = Mods::from_bits_truncate(bits);
        assert_eq!(Mods::from_x11(m.to_x11()).bits, bits);
        assert_eq!(Mods::from_macos(m.to_macos()).bits, bits);
    }
}

#[test]
fn modifier_masks_are_positional() {
    assert_eq!(Mods::from_bits_truncate(MODS_SHIFT | MODS_CTRL).to_x11(), 1 | 4);
    assert_eq!(Mods::from_bits_truncate(MODS_ALT | MODS_SUPER).to_x11(), 8 | 64);
    assert_eq!(
        Mods::from_bits_truncate(MODS_SHIFT).to_macos(),
        0x2_0000
    );
    assert_eq!(Mods::all().to_macos(), 0x2_0000 | 0x4_0000 | 0x8_0000 | 0x10_0000);
    // unknown native bits are ignored when reading a mask back
    assert_eq!(Mods::from_x11(1 | 2 | 16 | 128).bits, MODS_SHIFT);
    assert_eq!(Mods::from_macos(0x2_0000 | 0x1).bits, MODS_SHIFT);
}
