use launchpad_mini_control::{find_device, DeviceInfo, Direction, Identifier, MidiInterfaceError};

fn dev(id: i32, name: &str, dir: Direction) -> DeviceInfo {
    DeviceInfo { id, name: name.to_string(), dir }
}

fn devices() -> Vec<DeviceInfo> {
    vec![
        dev(0, "Midi Through", Direction::Output),
        dev(1, "Launchpad Mini MIDI 1", Direction::Output),
        dev(2, "Midi Through", Direction::Input),
        dev(3, "Launchpad Mini MIDI 1", Direction::Input),
    ]
}

#[test]
fn device_direction() {
    let d = dev(4, "x", Direction::Input);
    assert!(d.is_input());
    assert!(!d.is_output());
    let o = dev(5, "y", Direction::Output);
    assert!(o.is_output());
    assert!(!o.is_input());
}

#[test]
fn find_by_name_and_direction() {
    let devs = devices();
    let name = Identifier::from_name("Launchpad Mini MIDI 1");
    assert_eq!(find_device(&devs, Direction::Input, &name), Some(3));
    assert_eq!(find_device(&devs, Direction::Output, &name), Some(1));
}

#[test]
fn find_by_id_respects_direction() {
    let devs = devices();
    assert_eq!(find_device(&devs, Direction::Input, &Identifier::from(2)), Some(2));
    assert_eq!(find_device(&devs, Direction::Output, &Identifier::from(2)), None);
}

#[test]
fn find_takes_first_match() {
    let mut devs = devices();
    devs.push(dev(9, "Midi Through", Direction::Output));
    let name = Identifier::from_name("Midi Through");
    assert_eq!(find_device(&devs, Direction::Output, &name), Some(0));
}

#[test]
fn find_nothing() {
    let devs = devices();
    assert_eq!(find_device(&devs, Direction::Input, &Identifier::from_name("Nope")), None);
    assert_eq!(find_device(&Vec::new(), Direction::Input, &Identifier::from(0)), None);
}

#[test]
fn identifier_constructors() {
    assert!(matches!(Identifier::from(7), Identifier::Number(7)));
    match Identifier::from_name("abc") {
        Identifier::String(s) => assert_eq!(s, "abc"),
        Identifier::Number(_) => panic!("expected a name"),
    }
}

#[test]
fn error_messages_and_kinds() {
    let e = MidiInterfaceError::NotAnInputDevice("no input".to_string());
    assert_eq!(e.message(), "no input");
    assert!(e.is_missing_device());
    assert!(MidiInterfaceError::NotAnOutputDevice(String::new()).is_missing_device());
    let g = MidiInterfaceError::GenericBackendErr("host".to_string());
    assert_eq!(g.message(), "host");
    assert!(!g.is_missing_device());
    for e in [
        MidiInterfaceError::Unknown("a".to_string()),
        MidiInterfaceError::Unimplemented("a".to_string()),
        MidiInterfaceError::NoDefaultDevice("a".to_string()),
        MidiInterfaceError::Invalid("a".to_string()),
    ] {
        assert_eq!(e.message(), "a");
        assert!(!e.is_missing_device());
    }
}
