use corne_rmk::battery::BatteryProcessor;
use corne_rmk::chain::process_chain;
use corne_rmk::chain::ChainProcessor;
use corne_rmk::event::Event;
use corne_rmk::event::KeyEvent;
use corne_rmk::joystick::JoystickProcessor;
use corne_rmk::joystick::KeyboardSide;
use corne_rmk::keymap::get_default_keymap;
use corne_rmk::keymap::KeyMap;
use corne_rmk::report::MouseReport;
use corne_rmk::report::Report;

fn left_joystick(km: &KeyMap) -> JoystickProcessor<'_> {
    JoystickProcessor::new(
        vec![vec![1000, 0], vec![0, 1000]],
        vec![0, 0],
        vec![0, 0],
        km,
        KeyboardSide::Left,
    )
}

#[test]
fn battery_event_passes_joystick_and_is_consumed_by_battery() {
    let km = KeyMap::new(get_default_keymap());
    let mut chain = vec![
        ChainProcessor::Joystick(left_joystick(&km)),
        ChainProcessor::Battery(BatteryProcessor::new(2000, 2806, &km)),
    ];
    let mut sink: Vec<Report> = Vec::new();
    let leftover = process_chain(&mut chain, Event::Battery(1234), &mut sink);
    // The joystick processor passed the event on; the battery
    // processor consumed it, so nothing exits the chain.
    assert!(leftover.is_none());
    assert!(sink.is_empty());
    match &chain[1] {
        ChainProcessor::Battery(b) => assert_eq!(b.last_sample(), Some(1234)),
        _ => panic!("the battery processor must keep its chain position"),
    }
}

#[test]
fn joystick_event_is_consumed_by_first_member() {
    let km = KeyMap::new(get_default_keymap());
    let mut chain = vec![
        ChainProcessor::Joystick(left_joystick(&km)),
        ChainProcessor::Battery(BatteryProcessor::new(2000, 2806, &km)),
    ];
    let mut sink: Vec<Report> = Vec::new();
    let leftover = process_chain(&mut chain, Event::Joystick(vec![5, 9]), &mut sink);
    assert!(leftover.is_none());
    assert_eq!(sink.len(), 1);
    assert_eq!(
        sink[0],
        Report::Mouse(MouseReport { buttons: 0, x: 5, y: 9, wheel: 0, pan: 0 })
    );
    match &chain[1] {
        ChainProcessor::Battery(b) => assert_eq!(b.last_sample(), None),
        _ => panic!("the battery processor must keep its chain position"),
    }
}

#[test]
fn unconsumed_event_exits_the_chain() {
    let km = KeyMap::new(get_default_keymap());
    let mut chain = vec![
        ChainProcessor::Joystick(left_joystick(&km)),
        ChainProcessor::Battery(BatteryProcessor::new(2000, 2806, &km)),
    ];
    let mut sink: Vec<Report> = Vec::new();
    let key = KeyEvent { row: 2, col: 5, pressed: true };
    let leftover = process_chain(&mut chain, Event::Key(key), &mut sink);
    match leftover {
        Some(Event::Key(e)) => assert_eq!(e, key),
        _ => panic!("a key event must exit this chain unconsumed"),
    }
    assert!(sink.is_empty());
}

#[test]
fn empty_chain_returns_every_event() {
    let mut chain: Vec<ChainProcessor<'_>> = Vec::new();
    let mut sink: Vec<Report> = Vec::new();
    let leftover = process_chain(&mut chain, Event::Battery(-7), &mut sink);
    match leftover {
        Some(Event::Battery(s)) => assert_eq!(s, -7),
        _ => panic!("an empty chain consumes nothing"),
    }
    assert!(sink.is_empty());
}

#[test]
fn chain_processes_events_in_arrival_order() {
    let km = KeyMap::new(get_default_keymap());
    let mut chain = vec![ChainProcessor::Joystick(left_joystick(&km))];
    let mut sink: Vec<Report> = Vec::new();
    process_chain(&mut chain, Event::Joystick(vec![1, 2]), &mut sink);
    process_chain(&mut chain, Event::Joystick(vec![3, 4]), &mut sink);
    assert_eq!(sink.len(), 2);
    assert_eq!(
        sink[0],
        Report::Mouse(MouseReport { buttons: 0, x: 1, y: 2, wheel: 0, pan: 0 })
    );
    assert_eq!(
        sink[1],
        Report::Mouse(MouseReport { buttons: 0, x: 3, y: 4, wheel: 0, pan: 0 })
    );
}
