use midy::midi::MidiMessage;
use midy::state::{midi_events, ApplicationState, Button, Message};

fn note_on(note: u8) -> MidiMessage {
    MidiMessage::NoteOn { channel: 0, note, velocity: 127 }
}

fn note_off(note: u8) -> MidiMessage {
    MidiMessage::NoteOff { channel: 0, note, velocity: 0 }
}

#[test]
fn initial_state_has_every_button_released() {
    let s = ApplicationState::init();
    for b in [Button::One, Button::Two, Button::Three, Button::Four] {
        assert!(!s.is_pressed(b));
    }
}

#[test]
fn single_press_yields_exactly_one_note_on() {
    let mut s = ApplicationState::init();
    let old = s.clone();
    s.update(Message { button: Button::Two, pressed: true });
    assert!(s.is_pressed(Button::Two));
    assert_eq!(midi_events(&old, &s), vec![note_on(61)]);
}

#[test]
fn single_release_yields_exactly_one_note_off() {
    let mut s = ApplicationState::init();
    s.update(Message { button: Button::Three, pressed: true });
    let old = s.clone();
    s.update(Message { button: Button::Three, pressed: false });
    assert_eq!(midi_events(&old, &s), vec![note_off(62)]);
}

#[test]
fn reasserting_the_current_state_yields_no_events() {
    let mut s = ApplicationState::init();
    s.update(Message { button: Button::One, pressed: true });
    let old = s.clone();
    // The button is already pressed; reasserting it changes nothing.
    s.update(Message { button: Button::One, pressed: true });
    assert_eq!(s, old);
    assert_eq!(midi_events(&old, &s), Vec::new());
    // Same for a released button.
    let old2 = s.clone();
    s.update(Message { button: Button::Four, pressed: false });
    assert_eq!(midi_events(&old2, &s), Vec::new());
}

#[test]
fn toggle_produces_note_on_then_note_off_across_two_updates() {
    let mut s = ApplicationState::init();
    let mut produced: Vec<MidiMessage> = Vec::new();

    let old1 = s.clone();
    s.update(Message { button: Button::One, pressed: true });
    produced.extend(midi_events(&old1, &s));

    let old2 = s.clone();
    s.update(Message { button: Button::One, pressed: false });
    produced.extend(midi_events(&old2, &s));

    assert_eq!(produced, vec![note_on(60), note_off(60)]);
}

#[test]
fn simultaneous_changes_are_reported_in_button_order() {
    let old = ApplicationState::init();
    let mut new = ApplicationState::init();
    new.update(Message { button: Button::Four, pressed: true });
    new.update(Message { button: Button::One, pressed: true });
    assert_eq!(midi_events(&old, &new), vec![note_on(60), note_on(63)]);
}
