use launchpad_mini_control::{
    encode_write, Color, LaunchMessage, MatPos, MessageType, PadIdentifier, CONTROL_ROW,
    CONTROL_ROW_BASE,
};

fn decode(msg: LaunchMessage) -> MatPos {
    MatPos::from(PadIdentifier::from(msg))
}

#[test]
fn note_grid_round_trip_every_position() {
    for row in 0..8u8 {
        for col in 0..9u8 {
            let pos = MatPos::new(row, col);
            let msg = encode_write(pos, Color::Orange);
            assert_eq!(decode(msg), pos);
            assert_eq!(MatPos::from(msg), pos);
        }
    }
}

#[test]
fn control_row_round_trip_every_button() {
    for col in 0..8u8 {
        let pos = MatPos::new(8, col);
        let msg = encode_write(pos, Color::Green);
        assert_eq!(msg.status, 0xb0);
        assert_eq!(decode(msg), pos);
    }
}

#[test]
fn note_key_is_row_major_nibbles() {
    let id = PadIdentifier::from(MatPos::new(3, 5));
    assert_eq!(id.status, MessageType::On);
    assert_eq!(id.key, 0x35);
    assert_eq!(id.key(), 0x35);
    let scene = PadIdentifier::from(MatPos::new(7, 8));
    assert_eq!(scene.key, 0x78);
}

#[test]
fn control_row_key_is_offset_from_base() {
    let id = PadIdentifier::from(MatPos::new(8, 2));
    assert_eq!(id.status, MessageType::Ctl);
    assert_eq!(id.key, 0x6a);
    assert_eq!(CONTROL_ROW_BASE, 0x68);
    assert_eq!(CONTROL_ROW, 8);
}

#[test]
fn encode_write_exact_bytes() {
    let m = encode_write(MatPos::new(0, 0), Color::Red);
    assert_eq!(m, LaunchMessage { status: 0x90, data1: 0x00, data2: 0x03 });
    let m = encode_write(MatPos::new(7, 7), Color::YellOrange);
    assert_eq!(m, LaunchMessage { status: 0x90, data1: 0x77, data2: 0x33 });
    let m = encode_write(MatPos::new(8, 7), Color::DimGreen);
    assert_eq!(m, LaunchMessage { status: 0xb0, data1: 0x6f, data2: 0x10 });
}

#[test]
fn decode_identifier_classes() {
    let on = PadIdentifier::from(LaunchMessage { status: 0x90, data1: 0x12, data2: 0x7f });
    assert_eq!(on, PadIdentifier { status: MessageType::On, key: 0x12 });
    let off = PadIdentifier::from(LaunchMessage { status: 0x80, data1: 0x12, data2: 0 });
    assert_eq!(off.status, MessageType::Off);
    let ctl = PadIdentifier::from(LaunchMessage { status: 0xb0, data1: 0x6c, data2: 0x7f });
    assert_eq!(ctl.status, MessageType::Ctl);
    assert_eq!(ctl.key, 0x6c);
}

#[test]
fn unknown_status_decodes_as_off() {
    let id = PadIdentifier::from(LaunchMessage { status: 0xe0, data1: 0x21, data2: 1 });
    assert_eq!(id.status, MessageType::Off);
    assert_eq!(id.key, 0x21);
    assert_eq!(MatPos::from(id), MatPos::new(2, 1));
}

#[test]
fn control_key_decodes_by_subtraction() {
    let pos = MatPos::from(PadIdentifier { status: MessageType::Ctl, key: 0x6d });
    assert_eq!(pos.get_as_tuple(), (8, 5));
    // A control key above 0xCF keeps its distance from the base.
    let far = MatPos::from(PadIdentifier { status: MessageType::Ctl, key: 0xd1 });
    assert_eq!(far.get_as_tuple(), (8, 0x69));
}

#[test]
fn note_key_decodes_by_nibbles() {
    let pos = MatPos::from(PadIdentifier { status: MessageType::On, key: 0x47 });
    assert_eq!(pos.get_as_tuple(), (4, 7));
}

#[test]
fn message_type_status_bytes() {
    assert_eq!(MessageType::Off.status(), 0x80);
    assert_eq!(MessageType::On.status(), 0x90);
    assert_eq!(MessageType::Ctl.status(), 0xb0);
}

#[test]
fn color_bytes() {
    let table = [
        (Color::Black, 0x00),
        (Color::DimGreen, 0x10),
        (Color::MedGreen, 0x20),
        (Color::Green, 0x30),
        (Color::Grellow, 0x31),
        (Color::DimGrellow, 0x21),
        (Color::Yellow, 0x32),
        (Color::MedYellow, 0x22),
        (Color::DimYellow, 0x11),
        (Color::YellOrange, 0x33),
        (Color::Orange, 0x23),
        (Color::DimORedange, 0x12),
        (Color::ORedange, 0x13),
        (Color::Red, 0x03),
        (Color::MedRed, 0x02),
        (Color::DimRed, 0x01),
    ];
    for (c, b) in table {
        assert_eq!(c.byte(), b);
    }
}

#[test]
fn mat_pos_tuple() {
    assert_eq!(MatPos::new(6, 1).get_as_tuple(), (6, 1));
}
