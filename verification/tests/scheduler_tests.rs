use midy::midi::MidiMessage;
use midy::scheduler::{send_midi, usb_poll, Scheduler, UsbDeviceState, SEND_QUEUE_CAPACITY};
use midy::driver::MidiClass;
use midy::state::{Button, Message};

fn press(b: Button) -> Message {
    Message { button: b, pressed: true }
}

#[test]
fn send_task_discards_message_while_not_configured() {
    // Device not yet Configured: a Note On reaches the send task, no
    // transmission occurs, no error is raised, the message is gone.
    let mut midi = MidiClass::new(16, 16);
    let note = MidiMessage::note_on(0, 60, 127).unwrap();
    send_midi(UsbDeviceState::Default, &mut midi, note);
    assert!(midi.write_queue_is_empty());
    send_midi(UsbDeviceState::Addressed, &mut midi, note);
    send_midi(UsbDeviceState::Suspended, &mut midi, note);
    assert!(midi.write_queue_is_empty());
    // Once Configured the same message is transmitted.
    send_midi(UsbDeviceState::Configured, &mut midi, note);
    assert!(!midi.write_queue_is_empty());
}

#[test]
fn update_task_schedules_first_event_onto_send_queue() {
    let mut s = Scheduler::new(16, 16);
    s.set_device_state(UsbDeviceState::Configured);
    s.update(press(Button::One));
    // The derived Note On waits on the send task's queue, not yet outbound.
    assert!(s.midi.write_queue_is_empty());
    s.run_send();
    let sent = s.midi.write_queue_to_host(64).unwrap();
    assert_eq!(sent, vec![0x09, 0x90, 60, 0x7F]);
}

#[test]
fn update_task_drops_message_when_send_queue_is_full() {
    let mut s = Scheduler::new(16, 16);
    s.set_device_state(UsbDeviceState::Configured);
    // Fill the bounded work queue with alternating presses and releases.
    for i in 0..SEND_QUEUE_CAPACITY {
        s.update(Message { button: Button::One, pressed: i % 2 == 0 });
    }
    // This press's derived event is dropped: documented backpressure.
    s.update(press(Button::Two));
    for _ in 0..SEND_QUEUE_CAPACITY + 1 {
        s.run_send();
    }
    let sent = s.midi.write_queue_to_host(64).unwrap();
    // Five queued events flushed; nothing from the dropped sixth.
    assert_eq!(sent.len(), 4 * SEND_QUEUE_CAPACITY);
    assert_eq!(&sent[0..4], &[0x09, 0x90, 60, 0x7F]);
    assert_eq!(&sent[4..8], &[0x08, 0x80, 60, 0x00]);
}

#[test]
fn reasserting_state_schedules_nothing() {
    let mut s = Scheduler::new(16, 16);
    s.set_device_state(UsbDeviceState::Configured);
    s.update(press(Button::One));
    s.run_send();
    let _ = s.midi.write_queue_to_host(64).unwrap();
    // No actual flag change: the send queue stays empty.
    s.update(press(Button::One));
    s.run_send();
    assert!(s.midi.write_queue_is_empty());
}

#[test]
fn poll_flushes_outbound_and_decodes_inbound() {
    let mut midi = MidiClass::new(16, 16);
    send_midi(
        UsbDeviceState::Configured,
        &mut midi,
        MidiMessage::note_on(0, 0x40, 0x7F).unwrap(),
    );
    let received = vec![0x08u8, 0x80, 0x40, 0x00];
    let (wire, woke) = usb_poll(&mut midi, 64, true, &received);
    assert_eq!(wire, vec![0x09, 0x90, 0x40, 0x7F]);
    assert!(woke);
    let p = midi.dequeue().expect("inbound packet decoded");
    assert_eq!(
        midy::codec::decode(p),
        Some(MidiMessage::NoteOff { channel: 0, note: 0x40, velocity: 0 })
    );
}

#[test]
fn poll_without_bus_activity_reads_nothing() {
    let mut midi = MidiClass::new(16, 16);
    let received = vec![0x09u8, 0x90, 0x40, 0x7F];
    // The peripheral reported no event: mandatory poll done, nothing read.
    let (wire, woke) = usb_poll(&mut midi, 64, false, &received);
    assert_eq!(wire, Vec::<u8>::new());
    assert!(!woke);
    assert_eq!(midi.dequeue(), None);
}

#[test]
fn press_travels_from_button_to_wire() {
    let mut s = Scheduler::new(16, 16);
    s.set_device_state(UsbDeviceState::Configured);
    s.update(press(Button::Three));
    s.run_send();
    let (wire, woke) = s.usb_interrupt(64, false, &Vec::new());
    assert_eq!(wire, vec![0x09, 0x90, 62, 0x7F]);
    assert!(!woke);
    // Idle consumer has nothing: no host traffic arrived.
    assert_eq!(s.dequeue_received(), None);
}

#[test]
fn device_identity_is_fixed() {
    let c = midy::scheduler::configure_usb();
    assert_eq!(c.vid, 0x1ACC);
    assert_eq!(c.pid, 0x3801);
    assert_eq!(c.manufacturer, "jefffm");
    assert_eq!(c.product, "midy-rs");
    assert_eq!(c.serial_number, "1");
    assert_eq!(c.max_power_ma, 500);
}
