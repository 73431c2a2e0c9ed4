use midy::codec::{decode, encode, packet_from_bytes, packet_to_bytes, UsbMidiEventPacket};
use midy::midi::{MidiMessage, RangeError};

#[test]
fn note_on_encodes_to_expected_packet() {
    let m = MidiMessage::note_on(2, 0x40, 0x7F).unwrap();
    let p = encode(m);
    assert_eq!(p.cable, 0);
    assert_eq!(p.cin, 0x9);
    assert_eq!(p.midi0, 0x92);
    assert_eq!(p.midi1, 0x40);
    assert_eq!(p.midi2, 0x7F);
}

#[test]
fn note_off_encodes_to_expected_packet() {
    let m = MidiMessage::note_off(0, 60, 0).unwrap();
    let p = encode(m);
    assert_eq!(p.cin, 0x8);
    assert_eq!(p.midi0, 0x80);
    assert_eq!(p.midi1, 60);
    assert_eq!(p.midi2, 0);
}

#[test]
fn control_change_encodes_to_expected_packet() {
    let m = MidiMessage::control_change(15, 7, 100).unwrap();
    let p = encode(m);
    assert_eq!(p.cin, 0xB);
    assert_eq!(p.midi0, 0xBF);
    assert_eq!(p.midi1, 7);
    assert_eq!(p.midi2, 100);
}

#[test]
fn decode_encode_round_trips_every_variant() {
    let messages = vec![
        MidiMessage::note_on(0, 0, 0).unwrap(),
        MidiMessage::note_on(15, 127, 127).unwrap(),
        MidiMessage::note_off(3, 64, 1).unwrap(),
        MidiMessage::control_change(9, 11, 33).unwrap(),
    ];
    for m in messages {
        assert_eq!(decode(encode(m)), Some(m));
    }
}

#[test]
fn decode_rejects_mismatched_code_index() {
    // Note On status byte under a Note Off code index number: no guessing.
    let p = UsbMidiEventPacket { cable: 0, cin: 0x8, midi0: 0x90, midi1: 0x40, midi2: 0x7F };
    assert_eq!(decode(p), None);
}

#[test]
fn decode_rejects_unknown_code_index() {
    let p = UsbMidiEventPacket { cable: 0, cin: 0x4, midi0: 0x90, midi1: 0x40, midi2: 0x7F };
    assert_eq!(decode(p), None);
}

#[test]
fn decode_rejects_out_of_range_data_byte() {
    let p = UsbMidiEventPacket { cable: 0, cin: 0x9, midi0: 0x90, midi1: 0x80, midi2: 0x7F };
    assert_eq!(decode(p), None);
    let q = UsbMidiEventPacket { cable: 0, cin: 0x9, midi0: 0x90, midi1: 0x40, midi2: 0xFF };
    assert_eq!(decode(q), None);
}

#[test]
fn constructors_reject_out_of_range_fields() {
    assert_eq!(MidiMessage::note_on(16, 0, 0), Err(RangeError));
    assert_eq!(MidiMessage::note_on(0, 128, 0), Err(RangeError));
    assert_eq!(MidiMessage::note_off(0, 0, 128), Err(RangeError));
    assert_eq!(MidiMessage::control_change(255, 0, 0), Err(RangeError));
}

#[test]
fn packet_bytes_round_trip() {
    let p = UsbMidiEventPacket { cable: 1, cin: 0x9, midi0: 0x93, midi1: 0x21, midi2: 0x60 };
    let bytes = packet_to_bytes(p);
    assert_eq!(bytes, [0x19, 0x93, 0x21, 0x60]);
    let q = packet_from_bytes(bytes[0], bytes[1], bytes[2], bytes[3]);
    assert_eq!(q, p);
}

#[test]
fn packet_from_bytes_splits_header_nibbles() {
    let p = packet_from_bytes(0x09, 0x90, 0x40, 0x7F);
    assert_eq!(p.cable, 0);
    assert_eq!(p.cin, 0x9);
    assert_eq!(p.midi0, 0x90);
    assert_eq!(p.midi1, 0x40);
    assert_eq!(p.midi2, 0x7F);
}
