use evdev_mapper::config::{
    AbsAxisEvent, ConfigMap, ControllerId, ControllerInputEvent, DeviceConfig,
    EventMapping as Declaration, UniqueControllerEvent,
};
use evdev_mapper::device::{find_device_by_name, get_device_info};
use evdev_mapper::error::FatalError;
use evdev_mapper::mapping::EventMapping;
use evdev_mapper::output_event::{KeyOutputEvent, OutputEvent};
use evdev_mapper::types::{AbsInfo, AbsoluteAxisType, InputEvent, KeyCode, EV_KEY};
use evdev_mapper::util::rewrap;

const KEY_A: u16 = 30;
const KEY_B: u16 = 48;
const KEY_C: u16 = 46;
const ABS_X: u16 = 0;
const ABS_Z: u16 = 2;

fn listing() -> Vec<(String, Option<String>)> {
    vec![
        ("/dev/input/event0".to_string(), Some("Power Button".to_string())),
        ("/dev/input/event1".to_string(), Some("Pad".to_string())),
        ("/dev/input/event2".to_string(), Some("Pad".to_string())),
        ("/dev/input/event3".to_string(), Some("Rudder".to_string())),
        ("/dev/input/event4".to_string(), None),
    ]
}

#[test]
fn device_found_by_unique_name() {
    let path = find_device_by_name(&"Rudder".to_string(), &listing()).unwrap();
    assert_eq!(path, "/dev/input/event3");
}

#[test]
fn device_name_not_found() {
    match find_device_by_name(&"Yoke".to_string(), &listing()) {
        Err(FatalError::NoDeviceWithName(n)) => assert_eq!(n, "Yoke"),
        other => panic!("unexpected {:?}", other),
    }
}

#[test]
fn device_name_ambiguous() {
    match find_device_by_name(&"Pad".to_string(), &listing()) {
        Err(FatalError::TooManyDevicesWithName(n)) => assert_eq!(n, "Pad"),
        other => panic!("unexpected {:?}", other),
    }
}

#[test]
fn unnamed_device_matches_empty_name() {
    let path = find_device_by_name(&String::new(), &listing()).unwrap();
    assert_eq!(path, "/dev/input/event4");
}

#[test]
fn device_info_collects_keys_and_axis_states() {
    let states: Vec<AbsInfo> = (0..64).map(|c| AbsInfo::new(c, -c, c, 0, 0, 0)).collect();
    let info = get_device_info(
        &vec![KeyCode(KEY_A), KeyCode(KEY_B), KeyCode(KEY_A)],
        &vec![AbsoluteAxisType(ABS_Z), AbsoluteAxisType(ABS_X)],
        &states,
    );
    assert_eq!(info.key_info.len(), 2);
    assert!(info.key_info.contains(&KEY_A) && info.key_info.contains(&KEY_B));
    assert_eq!(info.axis_info.len(), 2);
    assert_eq!(info.axis_info[&ABS_Z], AbsInfo::new(2, -2, 2, 0, 0, 0));
    assert_eq!(info.axis_info[&ABS_X], AbsInfo::new(0, 0, 0, 0, 0, 0));
}

#[test]
fn device_without_capabilities_is_empty() {
    let info = get_device_info(&vec![], &vec![], &vec![]);
    assert!(info.key_info.is_empty());
    assert!(info.axis_info.is_empty());
}

#[test]
fn later_declaration_of_same_input_wins() {
    let config = ConfigMap::from_devices(vec![
        DeviceConfig::ByPath {
            path: "/dev/input/event1".to_string(),
            mappings: vec![
                Declaration::KeyEvent { input: KeyCode(KEY_A), output: KeyCode(KEY_B) },
                Declaration::KeyEvent { input: KeyCode(KEY_A), output: KeyCode(KEY_C) },
            ],
        },
        DeviceConfig::ByName {
            name: "Pad".to_string(),
            mappings: vec![Declaration::KeyEvent { input: KeyCode(KEY_A), output: KeyCode(KEY_B) }],
        },
    ]);
    assert_eq!(config.table.len(), 2);
    let key = UniqueControllerEvent::new(
        ControllerId::Path("/dev/input/event1".to_string()),
        ControllerInputEvent::Key(KeyCode(KEY_A)),
    );
    match config.table.get(&key) {
        Some(Declaration::KeyEvent { output, .. }) => assert_eq!(*output, KeyCode(KEY_C)),
        other => panic!("unexpected {:?}", other),
    }
    let devices = vec![
        (ControllerId::Path("/dev/input/event1".to_string()), get_device_info(&vec![KeyCode(KEY_A)], &vec![], &vec![])),
        (ControllerId::Name("Pad".to_string()), get_device_info(&vec![KeyCode(KEY_A)], &vec![], &vec![])),
    ];
    let table = EventMapping::new(config, &devices).unwrap();
    let out = table
        .get_output_event(
            ControllerId::Path("/dev/input/event1".to_string()),
            InputEvent::new(EV_KEY, KEY_A, 1),
        )
        .unwrap();
    assert_eq!(out, OutputEvent::Key(KeyOutputEvent::new(KeyCode(KEY_C), 1)));
}

#[test]
fn declaration_reads_its_input() {
    let k = Declaration::KeyEvent { input: KeyCode(KEY_A), output: KeyCode(KEY_B) };
    assert_eq!(k.input(), ControllerInputEvent::Key(KeyCode(KEY_A)));
    let a = Declaration::AbsAxisEvent {
        input: AbsoluteAxisType(ABS_Z),
        output: AbsAxisEvent::AbsAxis(AbsoluteAxisType(ABS_X)),
    };
    assert_eq!(ControllerInputEvent::from(a), ControllerInputEvent::AbsAxis(AbsoluteAxisType(ABS_Z)));
}

#[test]
fn config_map_insert_replaces() {
    let mut config = ConfigMap::new();
    let id = || ControllerId::Name("Pad".to_string());
    config.insert(id(), Declaration::KeyEvent { input: KeyCode(KEY_A), output: KeyCode(KEY_B) });
    config.insert(id(), Declaration::KeyEvent { input: KeyCode(KEY_B), output: KeyCode(KEY_B) });
    config.insert(id(), Declaration::KeyEvent { input: KeyCode(KEY_A), output: KeyCode(KEY_C) });
    assert_eq!(config.table.len(), 2);
}

#[test]
fn rewrap_pairs_or_passes_error() {
    let ok: Result<(u8, &str), String> = rewrap(3u8, Ok("x"));
    assert_eq!(ok, Ok((3, "x")));
    let err: Result<(u8, &str), String> = rewrap(3u8, Err("bad".to_string()));
    assert_eq!(err, Err("bad".to_string()));
}
