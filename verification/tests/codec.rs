use xmirror::event::Event;
use xmirror::event::Key;
use xmirror::event::Mods;
use xmirror::event::Mouse;
use xmirror::proto::BUTTON_COUNT;
use xmirror::proto::DecodeError;
use xmirror::proto::KEY_COUNT;

fn all_keys() -> Vec<Key> {
    let mut keys = Vec::new();
    for ord in 0..KEY_COUNT {
        keys.push(Key::from_ord(ord).unwrap());
    }
    keys
}

fn all_buttons() -> Vec<Mouse> {
    vec![Mouse::Left, Mouse::Right, Mouse::Middle]
}

#[test]
fn round_trip_all_keys() {
    for key in all_keys() {
        for event in [Event::KeyDown(key), Event::KeyUp(key)] {
            assert_eq!(Event::decode(&event.encode()), Ok(event));
        }
    }
}

#[test]
fn round_trip_all_mod_combinations() {
    for bits in 0..16u8 {
        let event = Event::Mods(Mods::from_bits_truncate(bits));
        assert_eq!(Event::decode(&event.encode()), Ok(event));
    }
}

#[test]
fn round_trip_all_buttons() {
    for button in all_buttons() {
        for event in [Event::MouseDown(button), Event::MouseUp(button)] {
            assert_eq!(Event::decode(&event.encode()), Ok(event));
        }
    }
}

#[test]
fn round_trip_all_delta_pairs() {
    for dx in i8::MIN..=i8::MAX {
        for dy in i8::MIN..=i8::MAX {
            for event in [Event::MouseMove { dx, dy }, Event::Scroll { dx, dy }] {
                assert_eq!(Event::decode(&event.encode()), Ok(event));
            }
        }
    }
}

#[test]
fn exact_packets() {
    assert_eq!(Event::KeyDown(Key::A).encode(), [1, 0, 0]);
    assert_eq!(Event::KeyUp(Key::A).encode(), [2, 0, 0]);
    assert_eq!(Event::KeyDown(Key::F12).encode(), [1, 77, 0]);
    assert_eq!(Event::Mods(Mods::all()).encode(), [3, 15, 0]);
    assert_eq!(Event::MouseDown(Mouse::Left).encode(), [4, 0, 0]);
    assert_eq!(Event::MouseUp(Mouse::Middle).encode(), [5, 2, 0]);
    assert_eq!(Event::MouseMove { dx: -2, dy: 3 }.encode(), [6, 254, 3]);
    assert_eq!(Event::Scroll { dx: 0, dy: -128 }.encode(), [7, 0, 128]);
}

#[test]
fn tag_bounds() {
    assert_eq!(Event::decode(&[0, 0, 0]), Err(DecodeError::UnknownTag));
    for tag in 8..=255u8 {
        assert_eq!(Event::decode(&[tag, 0, 0]), Err(DecodeError::UnknownTag));
    }
}

#[test]
fn key_bounds() {
    assert_eq!(
        Event::decode(&[1, KEY_COUNT - 1, 0]),
        Ok(Event::KeyDown(Key::F12))
    );
    assert_eq!(
        Event::decode(&[2, KEY_COUNT - 1, 0]),
        Ok(Event::KeyUp(Key::F12))
    );
    for byte in KEY_COUNT..=255u8 {
        assert_eq!(Event::decode(&[1, byte, 0]), Err(DecodeError::InvalidKey));
        assert_eq!(Event::decode(&[2, byte, 0]), Err(DecodeError::InvalidKey));
    }
}

#[test]
fn button_bounds() {
    assert_eq!(
        Event::decode(&[4, BUTTON_COUNT - 1, 0]),
        Ok(Event::MouseDown(Mouse::Middle))
    );
    assert_eq!(
        Event::decode(&[5, BUTTON_COUNT - 1, 0]),
        Ok(Event::MouseUp(Mouse::Middle))
    );
    for byte in BUTTON_COUNT..=255u8 {
        assert_eq!(
            Event::decode(&[4, byte, 0]),
            Err(DecodeError::InvalidButton)
        );
        assert_eq!(
            Event::decode(&[5, byte, 0]),
            Err(DecodeError::InvalidButton)
        );
    }
}

#[test]
fn modifier_masking_never_errors() {
    for byte in 0..=255u8 {
        let decoded = Event::decode(&[3, byte, 0]);
        assert_eq!(
            decoded,
            Ok(Event::Mods(Mods::from_bits_truncate(byte & 15)))
        );
    }
    assert_eq!(
        Event::decode(&[3, 0xff, 0]),
        Ok(Event::Mods(Mods::all()))
    );
    assert_eq!(
        Event::decode(&[3, 0x35, 0]),
        Ok(Event::Mods(Mods::from_bits_truncate(0x05)))
    );
}

#[test]
fn reserved_byte_is_ignored_on_single_field_variants() {
    assert_eq!(Event::decode(&[1, 0, 9]), Ok(Event::KeyDown(Key::A)));
    assert_eq!(Event::decode(&[3, 1, 200]), Ok(Event::Mods(Mods::from_bits_truncate(1))));
}

#[test]
fn key_ordinals_are_stable() {
    assert_eq!(Key::A.ord(), 0);
    assert_eq!(Key::Z.ord(), 25);
    assert_eq!(Key::Num1.ord(), 26);
    assert_eq!(Key::Num0.ord(), 35);
    assert_eq!(Key::Left.ord(), 36);
    assert_eq!(Key::PageDown.ord(), 65);
    assert_eq!(Key::F1.ord(), 66);
    assert_eq!(Key::F12.ord(), 77);
    for (ord, key) in all_keys().into_iter().enumerate() {
        assert_eq!(key.ord() as usize, ord);
    }
    assert_eq!(Key::from_ord(KEY_COUNT), None);
}
