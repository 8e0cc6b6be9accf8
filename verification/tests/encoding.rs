use keypad::encoding::{u16_from_le, u16_to_le};
use keypad::{
    index_to_key, key_to_bytes, modifier_key_to_bytes, optional_key_bytes, Key, KeyCombo,
    KeyPress, KeyPressBuilder, KeypadError, ModifierKey,
};

fn press(ctrl: bool, alt: bool, shift: bool, windows: bool, key: Key) -> KeyPress {
    KeyPress { ctrl, alt, shift, windows, key }
}

fn decode_press(bytes: [u8; 4]) -> Result<KeyPress, KeypadError> {
    KeyPress::from_u16(u16_from_le(bytes[0], bytes[1]), u16_from_le(bytes[2], bytes[3]))
}

#[test]
fn press_round_trip_over_the_whole_vocabulary() {
    for key in Key::all() {
        for bits in 0u8..16 {
            let p = press(bits & 1 != 0, bits & 2 != 0, bits & 4 != 0, bits & 8 != 0, key);
            assert_eq!(decode_press(p.to_bytes()), Ok(p));
        }
    }
}

#[test]
fn combo_round_trip_with_and_without_second_press() {
    for key in Key::all() {
        let one = KeyPress::ctrl().shift().key(key);
        let alone = KeyCombo { one, two: None };
        assert_eq!(KeyCombo::from_bytes(&alone.to_bytes()), Ok(alone));
        for second in [Key::A, Key::F24, Key::KeyPadPeriod] {
            let pair = KeyCombo { one, two: Some(KeyPress::windows().alt().key(second)) };
            assert_eq!(KeyCombo::from_bytes(&pair.to_bytes()), Ok(pair));
        }
    }
}

#[test]
fn press_bytes_are_little_endian_mask_then_code() {
    assert_eq!(KeyPress::key(Key::A).to_bytes(), [0x00, 0x00, 0x04, 0xF0]);
    assert_eq!(KeyPress::ctrl().key(Key::R).to_bytes(), [0x01, 0xE0, 0x15, 0xF0]);
    assert_eq!(KeyPress::shift().key(Key::M).to_bytes(), [0x02, 0xE0, 0x10, 0xF0]);
    assert_eq!(KeyPress::alt().key(Key::F24).to_bytes(), [0x04, 0xE0, 0x73, 0xF0]);
    assert_eq!(KeyPress::windows().key(Key::L).to_bytes(), [0x08, 0xE0, 0x0F, 0xF0]);
    assert_eq!(
        KeyPress::ctrl().alt().shift().windows().key(Key::Menu).to_bytes(),
        [0x0F, 0xE0, 0x65, 0xF0]
    );
}

#[test]
fn combo_without_second_press_ends_in_zero_bytes() {
    let combo = KeyCombo { one: KeyPress::ctrl().key(Key::B), two: None };
    assert_eq!(combo.to_bytes(), vec![0x01, 0xE0, 0x05, 0xF0, 0, 0, 0, 0]);
}

#[test]
fn combo_with_second_press_is_both_presses_in_order() {
    let combo = KeyCombo { one: KeyPress::ctrl().key(Key::R), two: Some(KeyPress::key(Key::D)) };
    assert_eq!(combo.to_bytes(), vec![0x01, 0xE0, 0x15, 0xF0, 0x00, 0x00, 0x07, 0xF0]);
}

#[test]
fn zero_second_key_field_decodes_to_no_second_press() {
    // The modifier field of the second press is not looked at when its key field is zero.
    let bytes = [0x00, 0x00, 0x04, 0xF0, 0x0F, 0xE0, 0x00, 0x00];
    assert_eq!(
        KeyCombo::from_bytes(&bytes),
        Ok(KeyCombo { one: KeyPress::key(Key::A), two: None })
    );
}

#[test]
fn combo_decoding_reads_the_first_eight_bytes_only() {
    let mut bytes = KeyCombo { one: KeyPress::key(Key::Z), two: None }.to_bytes();
    bytes.extend_from_slice(&[0xFF, 0xFF]);
    assert_eq!(
        KeyCombo::from_bytes(&bytes),
        Ok(KeyCombo { one: KeyPress::key(Key::Z), two: None })
    );
}

#[test]
fn chunk_of_odd_length_is_invalid() {
    assert_eq!(KeyCombo::from_bytes(&[0x00]), Err(KeypadError::InvalidDataError));
    assert_eq!(
        KeyCombo::from_bytes(&[0x00, 0x00, 0x04, 0xF0, 0, 0, 0]),
        Err(KeypadError::InvalidDataError)
    );
    assert_eq!(
        KeyCombo::from_bytes(&[0x00, 0x00, 0x04, 0xF0, 0, 0, 0, 0, 0]),
        Err(KeypadError::InvalidDataError)
    );
}

#[test]
fn unknown_key_code_is_invalid_data() {
    // Right usage number, wrong marker.
    assert_eq!(KeyPress::from_u16(0, 0x0004), Err(KeypadError::InvalidDataError));
    assert_eq!(KeyPress::from_u16(0, 0xE004), Err(KeypadError::InvalidDataError));
    // Right marker, usage number that no key has.
    assert_eq!(KeyPress::from_u16(0, 0xF000), Err(KeypadError::InvalidDataError));
    assert_eq!(KeyPress::from_u16(0, 0xF003), Err(KeypadError::InvalidDataError));
    assert_eq!(KeyPress::from_u16(0, 0xF066), Err(KeypadError::InvalidDataError));
    assert_eq!(KeyPress::from_u16(0, 0xF067), Err(KeypadError::InvalidDataError));
    assert_eq!(KeyPress::from_u16(0, 0xF074), Err(KeypadError::InvalidDataError));
    assert_eq!(KeyPress::from_u16(0, 0xFFFF), Err(KeypadError::InvalidDataError));
    assert_eq!(KeyPress::from_u16(0, 0), Err(KeypadError::InvalidDataError));
}

#[test]
fn invalid_first_or_second_key_fails_the_combo() {
    let bad_first = [0x00, 0x00, 0x04, 0x00, 0, 0, 0, 0];
    assert_eq!(KeyCombo::from_bytes(&bad_first), Err(KeypadError::InvalidDataError));
    let bad_second = [0x00, 0x00, 0x04, 0xF0, 0x00, 0x00, 0x04, 0x00];
    assert_eq!(KeyCombo::from_bytes(&bad_second), Err(KeypadError::InvalidDataError));
}

#[test]
fn key_lookup_matches_codes_exactly() {
    let mut known = 0;
    for code in 0u16..=0xFFFF {
        match Key::from_u16(code) {
            Some(key) => {
                assert_eq!(key.code(), code);
                assert_eq!(code & 0xF000, 0xF000);
                known += 1;
            }
            None => {}
        }
    }
    assert_eq!(known, 110);
    assert_eq!(Key::from_u16(0xF004), Some(Key::A));
    assert_eq!(Key::from_u16(0xF065), Some(Key::Menu));
    assert_eq!(Key::from_u16(0xF068), Some(Key::F13));
    assert_eq!(Key::from_u16(0xF073), Some(Key::F24));
}

#[test]
fn key_codes_follow_the_usage_table() {
    assert_eq!(Key::A.code(), 4 | 0xF000);
    assert_eq!(Key::Z.code(), 29 | 0xF000);
    assert_eq!(Key::Key1.code(), 30 | 0xF000);
    assert_eq!(Key::Key0.code(), 39 | 0xF000);
    assert_eq!(Key::Enter.code(), 40 | 0xF000);
    assert_eq!(Key::F12.code(), 69 | 0xF000);
    assert_eq!(Key::KeyPadPeriod.code(), 99 | 0xF000);
    assert_eq!(Key::Menu.code(), 101 | 0xF000);
    assert_eq!(Key::F13.code(), 104 | 0xF000);
    assert_eq!(Key::F24.code(), 115 | 0xF000);
}

#[test]
fn modifier_lookup_matches_codes_exactly() {
    let flags = [0x01u16, 0x02, 0x04, 0x08, 0x10, 0x20, 0x40, 0x80];
    let all = ModifierKey::all();
    assert_eq!(all.len(), 8);
    for (modifier, flag) in all.iter().zip(flags.iter()) {
        assert_eq!(modifier.code(), flag | 0xE000);
        assert_eq!(ModifierKey::from_u16(flag | 0xE000), Some(*modifier));
    }
    assert_eq!(all[0], ModifierKey::LeftCtrl);
    assert_eq!(all[1], ModifierKey::LeftShift);
    assert_eq!(all[2], ModifierKey::LeftAlt);
    assert_eq!(all[3], ModifierKey::LeftGui);
    assert_eq!(all[7], ModifierKey::RightGui);
    assert_eq!(ModifierKey::from_u16(0x0001), None);
    assert_eq!(ModifierKey::from_u16(0xE000), None);
    assert_eq!(ModifierKey::from_u16(0xE003), None);
    assert_eq!(ModifierKey::from_u16(0xF001), None);
}

#[test]
fn right_hand_modifiers_are_not_read_from_the_mask() {
    let p = KeyPress::from_u16(ModifierKey::RightCtrl.code(), Key::A.code());
    assert_eq!(p, Ok(KeyPress::key(Key::A)));
    let q = KeyPress::from_u16(0xE0FF, Key::A.code());
    assert_eq!(q, Ok(KeyPress::ctrl().alt().shift().windows().key(Key::A)));
}

#[test]
fn modifier_bits_without_the_marker_are_not_flags() {
    assert_eq!(KeyPress::from_u16(0x000F, Key::A.code()), Ok(KeyPress::key(Key::A)));
}

#[test]
fn vocabulary_is_indexed_in_declaration_order() {
    let all = Key::all();
    assert_eq!(all.len(), 110);
    for (i, key) in all.iter().enumerate() {
        assert_eq!(index_to_key(i), *key);
        assert_eq!(key.index(), i);
    }
    assert_eq!(index_to_key(0), Key::A);
    assert_eq!(index_to_key(26), Key::Key1);
    assert_eq!(index_to_key(97), Key::Menu);
    assert_eq!(index_to_key(98), Key::F13);
    assert_eq!(index_to_key(109), Key::F24);
}

#[test]
fn optional_fields_are_zero_when_absent() {
    assert_eq!(key_to_bytes(None), [0, 0]);
    assert_eq!(key_to_bytes(Some(Key::A)), [0x04, 0xF0]);
    assert_eq!(modifier_key_to_bytes(None), [0, 0]);
    assert_eq!(modifier_key_to_bytes(Some(ModifierKey::RightAlt)), [0x40, 0xE0]);
    assert_eq!(optional_key_bytes(&None), [0, 0, 0, 0]);
    assert_eq!(
        optional_key_bytes(&Some(KeyPress::alt().key(Key::Tab))),
        [0x04, 0xE0, 0x2B, 0xF0]
    );
}

#[test]
fn sixteen_bit_values_split_low_byte_first() {
    assert_eq!(u16_to_le(0xF004), [0x04, 0xF0]);
    assert_eq!(u16_to_le(0), [0, 0]);
    assert_eq!(u16_to_le(0xFFFF), [0xFF, 0xFF]);
    assert_eq!(u16_from_le(0x04, 0xF0), 0xF004);
    assert_eq!(u16_from_le(0xFF, 0xFF), 0xFFFF);
    for x in [0u16, 1, 255, 256, 0xE001, 0xF073, 0xFFFF] {
        let b = u16_to_le(x);
        assert_eq!(b, x.to_le_bytes());
        assert_eq!(u16_from_le(b[0], b[1]), x);
    }
}

#[test]
fn builders_collect_modifiers() {
    assert_eq!(KeyPress::key(Key::Q), press(false, false, false, false, Key::Q));
    assert_eq!(KeyPress::ctrl().key(Key::Q), press(true, false, false, false, Key::Q));
    assert_eq!(KeyPress::alt().key(Key::Q), press(false, true, false, false, Key::Q));
    assert_eq!(KeyPress::shift().key(Key::Q), press(false, false, true, false, Key::Q));
    assert_eq!(KeyPress::windows().key(Key::Q), press(false, false, false, true, Key::Q));
    assert_eq!(KeyPress::ctrl().ctrl().alt().key(Key::Q), press(true, true, false, false, Key::Q));
    assert_eq!(
        KeyPressBuilder::default().shift().windows().key(Key::Q),
        press(false, false, true, true, Key::Q)
    );
    assert_eq!(KeyPressBuilder::default().key(Key::Q), KeyPress::key(Key::Q));
}

#[test]
fn default_combo_is_a_plain_a() {
    assert_eq!(KeyCombo::default(), KeyCombo { one: KeyPress::key(Key::A), two: None });
}

#[test]
fn labels_name_modifiers_then_key() {
    assert_eq!(KeyPress::key(Key::A).label(), "A");
    assert_eq!(KeyPress::ctrl().key(Key::R).label(), "Ctrl + R");
    assert_eq!(
        KeyPress::windows().shift().alt().ctrl().key(Key::KeyPadAsterix).label(),
        "Ctrl + Alt + Shift + Win + KeyPadAsterix"
    );
    let combo = KeyCombo { one: KeyPress::ctrl().key(Key::R), two: Some(KeyPress::key(Key::D)) };
    assert_eq!(combo.label(), "Ctrl + R, D");
    assert_eq!(KeyCombo::default().label(), "A");
    assert_eq!(Key::Guote.name(), "Guote");
    assert_eq!(Key::Key0.name(), "Key0");
}

#[test]
fn every_failure_has_its_message() {
    assert_eq!(KeypadError::SerialError.message(), "Serial opening error");
    assert_eq!(KeypadError::SerialCommunicationError.message(), "Serial communication error");
    assert_eq!(KeypadError::InvalidDataError.message(), "Invalid data error");
    assert_eq!(KeypadError::NoAcknowledge.message(), "No ACK was recieved");
    assert_eq!(KeypadError::NoDeviceFound.message(), "No device found");
    assert_eq!(
        KeypadError::WrongKeyCountFromDevice.message(),
        "Device returned unexpected key count"
    );
}
