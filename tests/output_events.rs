use evdev_mapper::config::FilteredKeyMapping;
use evdev_mapper::output_event::{
    AbsAxisOutputEvent, FilteredAbsAxisOutputEvent, KeyOutputEvent, OutputEvent, SyncOutputEvent,
};
use evdev_mapper::types::{AbsInfo, AbsoluteAxisType, InputEvent, KeyCode, EV_ABS, EV_KEY, EV_SYN};

const KEY_A: u16 = 30;
const KEY_B: u16 = 48;
const ABS_X: u16 = 0;
const ABS_RX: u16 = 3;

fn calibration() -> AbsInfo {
    AbsInfo::new(7, -32768, 32767, 16, 128, 3)
}

fn two_windows() -> FilteredAbsAxisOutputEvent {
    FilteredAbsAxisOutputEvent::new(
        AbsoluteAxisType(ABS_X),
        calibration(),
        vec![
            FilteredKeyMapping { min: -1, max: 0, key: KeyCode(KEY_A) },
            FilteredKeyMapping { min: 1, max: 32767, key: KeyCode(KEY_B) },
        ],
    )
}

#[test]
fn filtered_axis_value_below_every_window_releases_both_keys() {
    // -500 lies in neither [-1, 0] nor [1, 32767]: both keys are up.
    let out = OutputEvent::FilteredAbsAxis(two_windows()).clone_set_value(-500);
    let events = out.to_evdev_events();
    assert_eq!(
        events,
        vec![InputEvent::new(EV_KEY, KEY_A, 0), InputEvent::new(EV_KEY, KEY_B, 0)]
    );
}

#[test]
fn filtered_axis_value_in_first_window_presses_first_key() {
    let out = OutputEvent::FilteredAbsAxis(two_windows()).clone_set_value(-1);
    let events = out.to_evdev_events();
    assert_eq!(
        events,
        vec![InputEvent::new(EV_KEY, KEY_A, 1), InputEvent::new(EV_KEY, KEY_B, 0)]
    );
}

#[test]
fn filtered_axis_positive_value_presses_second_key() {
    let out = OutputEvent::FilteredAbsAxis(two_windows()).clone_set_value(20000);
    let events = out.to_evdev_events();
    assert_eq!(
        events,
        vec![InputEvent::new(EV_KEY, KEY_A, 0), InputEvent::new(EV_KEY, KEY_B, 1)]
    );
}

#[test]
fn filtered_axis_window_bounds_are_inclusive() {
    let f = two_windows();
    assert_eq!(
        f.clone_set_value(0).to_evdev_events(),
        vec![InputEvent::new(EV_KEY, KEY_A, 1), InputEvent::new(EV_KEY, KEY_B, 0)]
    );
    assert_eq!(
        f.clone_set_value(1).to_evdev_events(),
        vec![InputEvent::new(EV_KEY, KEY_A, 0), InputEvent::new(EV_KEY, KEY_B, 1)]
    );
    assert_eq!(
        f.clone_set_value(-2).to_evdev_events(),
        vec![InputEvent::new(EV_KEY, KEY_A, 0), InputEvent::new(EV_KEY, KEY_B, 0)]
    );
}

#[test]
fn filtered_axis_keeps_calibration_and_codes() {
    let f = two_windows().clone_set_value(99);
    assert_eq!(f.axis_info, AbsInfo::new(99, -32768, 32767, 16, 128, 3));
    assert_eq!(f.axis_type, AbsoluteAxisType(ABS_X));
    assert_eq!(f.codes(), vec![KeyCode(KEY_A), KeyCode(KEY_B)]);
}

#[test]
fn filtered_axis_without_windows_emits_nothing() {
    let f = FilteredAbsAxisOutputEvent::new(AbsoluteAxisType(ABS_X), calibration(), vec![]);
    assert!(OutputEvent::FilteredAbsAxis(f).clone_set_value(5).to_evdev_events().is_empty());
}

#[test]
fn abs_axis_output_substitutes_value_only() {
    let a = AbsAxisOutputEvent { axis_type: AbsoluteAxisType(ABS_RX), axis_info: calibration() };
    let b = a.clone_set_value(-1234);
    assert_eq!(b.axis_type, AbsoluteAxisType(ABS_RX));
    assert_eq!(b.axis_info, AbsInfo::new(-1234, -32768, 32767, 16, 128, 3));
    assert_eq!(b.to_evdev_event(), InputEvent::new(EV_ABS, ABS_RX, -1234));
    assert_eq!(
        OutputEvent::AbsAxis(a).clone_set_value(42).to_evdev_events(),
        vec![InputEvent::new(EV_ABS, ABS_RX, 42)]
    );
}

#[test]
fn abs_info_clone_set_value_keeps_range() {
    let info = calibration().clone_set_value(-9);
    assert_eq!(info.value, -9);
    assert_eq!(info.minimum, -32768);
    assert_eq!(info.maximum, 32767);
    assert_eq!(info.fuzz, 16);
    assert_eq!(info.flat, 128);
    assert_eq!(info.resolution, 3);
}

#[test]
fn key_output_passes_value_through() {
    let k = KeyOutputEvent::new(KeyCode(KEY_B), 0);
    assert_eq!(k.code(), KeyCode(KEY_B));
    assert_eq!(k.value(), 0);
    let out = OutputEvent::Key(k).clone_set_value(2);
    assert_eq!(out.to_evdev_events(), vec![InputEvent::new(EV_KEY, KEY_B, 2)]);
    assert_eq!(KeyOutputEvent::from(KeyCode(KEY_A)), KeyOutputEvent::new(KeyCode(KEY_A), 0));
}

#[test]
fn sync_output_passes_value_through() {
    let s = SyncOutputEvent::new();
    assert_eq!(s.code(), 0);
    assert_eq!(s.value(), 0);
    let t = s.clone_set_value(5);
    assert_eq!(t.code(), 0);
    assert_eq!(t.value(), 5);
    assert_eq!(t.to_evdev_event(), InputEvent::new(EV_SYN, 0, 5));
    assert_eq!(
        OutputEvent::Synchronization(s).clone_set_value(1).to_evdev_events(),
        vec![InputEvent::new(EV_SYN, 0, 1)]
    );
}

#[test]
fn sync_output_keeps_its_code_when_value_changes() {
    let s = SyncOutputEvent { code: 1, value: 0 };
    let t = s.clone_set_value(9);
    assert_eq!(t.code(), 1);
    assert_eq!(t.value(), 9);
    assert_eq!(
        OutputEvent::Synchronization(s).clone_set_value(9).to_evdev_events(),
        vec![InputEvent::new(EV_SYN, 1, 9)]
    );
}
