use corne_rmk::event::Event;
use corne_rmk::event::ProcessResult;
use corne_rmk::joystick::JoystickProcessor;
use corne_rmk::joystick::KeyboardSide;
use corne_rmk::keymap::get_default_keymap;
use corne_rmk::keymap::KeyMap;
use corne_rmk::report::MouseReport;
use corne_rmk::report::Report;

fn identity_transform() -> Vec<Vec<i32>> {
    vec![vec![1000, 0], vec![0, 1000]]
}

#[test]
fn identity_transform_passes_values_through() {
    let km = KeyMap::new(get_default_keymap());
    let mut p = JoystickProcessor::new(
        identity_transform(),
        vec![0, 0],
        vec![0, 0],
        &km,
        KeyboardSide::Left,
    );
    let mut sink: Vec<Report> = Vec::new();
    let r = p.process(Event::Joystick(vec![50, -30]), &mut sink);
    assert!(matches!(r, ProcessResult::Stop));
    assert_eq!(sink.len(), 1);
    assert_eq!(
        sink[0],
        Report::Mouse(MouseReport { buttons: 0, x: 50, y: -30, wheel: 0, pan: 0 })
    );
}

#[test]
fn bias_cancels_matching_input() {
    let km = KeyMap::new(get_default_keymap());
    let mut p = JoystickProcessor::new(
        identity_transform(),
        vec![-50, 30],
        vec![0, 0],
        &km,
        KeyboardSide::Left,
    );
    let mut sink: Vec<Report> = Vec::new();
    let r = p.process(Event::Joystick(vec![50, -30]), &mut sink);
    assert!(matches!(r, ProcessResult::Stop));
    assert_eq!(sink.len(), 1);
    assert_eq!(
        sink[0],
        Report::Mouse(MouseReport { buttons: 0, x: 0, y: 0, wheel: 0, pan: 0 })
    );
}

#[test]
fn threshold_keeps_motion_beyond_it() {
    let km = KeyMap::new(get_default_keymap());
    // Dead-zone threshold of 150 output units on axis 0.
    let mut p = JoystickProcessor::new(
        identity_transform(),
        vec![0, 0],
        vec![150_000, 0],
        &km,
        KeyboardSide::Left,
    );
    let mut sink: Vec<Report> = Vec::new();
    p.process(Event::Joystick(vec![200, 0]), &mut sink);
    // A transformed value of 200 exceeds the threshold: it is kept,
    // then clamped to the report range.
    assert_eq!(sink.len(), 1);
    match sink[0] {
        Report::Mouse(m) => {
            assert_ne!(m.x, 0);
            assert_eq!(m.x, 127);
        }
    }
}

#[test]
fn threshold_zeroes_motion_below_it() {
    let km = KeyMap::new(get_default_keymap());
    let mut p = JoystickProcessor::new(
        identity_transform(),
        vec![0, 0],
        vec![150_000, 0],
        &km,
        KeyboardSide::Left,
    );
    let mut sink: Vec<Report> = Vec::new();
    p.process(Event::Joystick(vec![100, 0]), &mut sink);
    assert_eq!(sink.len(), 1);
    match sink[0] {
        Report::Mouse(m) => assert_eq!(m.x, 0),
    }
}

#[test]
fn quantization_clamps_high_deflection() {
    let km = KeyMap::new(get_default_keymap());
    // A transform that scales by exactly 1.0.
    let mut p = JoystickProcessor::new(
        identity_transform(),
        vec![0, 0],
        vec![0, 0],
        &km,
        KeyboardSide::Left,
    );
    let mut sink: Vec<Report> = Vec::new();
    p.process(Event::Joystick(vec![500, 0]), &mut sink);
    assert_eq!(sink.len(), 1);
    match sink[0] {
        Report::Mouse(m) => assert_eq!(m.x, 127),
    }
}

#[test]
fn quantization_clamps_negative_deflection() {
    let km = KeyMap::new(get_default_keymap());
    let mut p = JoystickProcessor::new(
        identity_transform(),
        vec![0, 0],
        vec![0, 0],
        &km,
        KeyboardSide::Left,
    );
    let mut sink: Vec<Report> = Vec::new();
    p.process(Event::Joystick(vec![-500, 0]), &mut sink);
    assert_eq!(sink.len(), 1);
    match sink[0] {
        Report::Mouse(m) => assert_eq!(m.x, -128),
    }
}

#[test]
fn bias_correction_saturates_at_boundaries() {
    let km = KeyMap::new(get_default_keymap());
    // A transform of 0.001 scales the corrected record straight into
    // the report range, so a wrapped correction would flip the sign.
    let mut p = JoystickProcessor::new(
        vec![vec![1, 0], vec![0, 1]],
        vec![100, -100],
        vec![0, 0],
        &km,
        KeyboardSide::Left,
    );
    let mut sink: Vec<Report> = Vec::new();
    p.process(Event::Joystick(vec![i16::MAX, i16::MIN]), &mut sink);
    assert_eq!(sink.len(), 1);
    match sink[0] {
        Report::Mouse(m) => {
            assert_eq!(m.x, 32); // 32767 clamped, not wrapped negative
            assert_eq!(m.y, -32); // -32768 clamped, not wrapped positive
        }
    }
}

#[test]
fn same_readings_give_same_report_twice() {
    let km = KeyMap::new(get_default_keymap());
    let mut p = JoystickProcessor::new(
        identity_transform(),
        vec![7, -3],
        vec![0, 0],
        &km,
        KeyboardSide::Left,
    );
    let mut sink: Vec<Report> = Vec::new();
    p.process(Event::Joystick(vec![40, 20]), &mut sink);
    p.process(Event::Joystick(vec![40, 20]), &mut sink);
    assert_eq!(sink.len(), 2);
    assert_eq!(sink[0], sink[1]);
    assert_eq!(
        sink[0],
        Report::Mouse(MouseReport { buttons: 0, x: 47, y: 17, wheel: 0, pan: 0 })
    );
}

#[test]
fn non_joystick_event_passes_through_unchanged() {
    let km = KeyMap::new(get_default_keymap());
    let mut p = JoystickProcessor::new(
        identity_transform(),
        vec![0, 0],
        vec![0, 0],
        &km,
        KeyboardSide::Left,
    );
    let mut sink: Vec<Report> = Vec::new();
    let r = p.process(Event::Battery(1234), &mut sink);
    match r {
        ProcessResult::Continue(Event::Battery(s)) => assert_eq!(s, 1234),
        _ => panic!("a battery event must pass through a joystick processor"),
    }
    assert!(sink.is_empty());
}

#[test]
fn right_side_suppresses_motion_fields() {
    let km = KeyMap::new(get_default_keymap());
    let mut p = JoystickProcessor::new(
        identity_transform(),
        vec![0, 0],
        vec![0, 0],
        &km,
        KeyboardSide::Right,
    );
    let mut sink: Vec<Report> = Vec::new();
    let r = p.process(Event::Joystick(vec![50, -30]), &mut sink);
    assert!(matches!(r, ProcessResult::Stop));
    assert_eq!(sink.len(), 1);
    assert_eq!(
        sink[0],
        Report::Mouse(MouseReport { buttons: 0, x: 0, y: 0, wheel: 0, pan: 0 })
    );
}

#[test]
fn processor_exposes_axis_count_and_keymap() {
    let km = KeyMap::new(get_default_keymap());
    let p = JoystickProcessor::new(
        identity_transform(),
        vec![0, 0],
        vec![0, 0],
        &km,
        KeyboardSide::Left,
    );
    assert_eq!(p.num_axes(), 2);
    let got = p.get_keymap();
    assert_eq!(got.action_at(0, 0, 0), km.action_at(0, 0, 0));
}
