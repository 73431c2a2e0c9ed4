//! USB-MIDI packet codec: pure, stateless mappings between raw MIDI messages
//! and the fixed 4-byte USB-MIDI event packet, and between packets and raw
//! USB transfer bytes.
//!
//! A packet's code index number classifies the embedded MIDI message; a
//! packet whose status byte does not match its code index number decodes to
//! nothing rather than guessing.

use vstd::prelude::*;

use crate::midi::MidiMessage;

verus! {

/// Code index number for a Note Off message.
pub const CIN_NOTE_OFF: u8 = 0x8;

/// Code index number for a Note On message.
pub const CIN_NOTE_ON: u8 = 0x9;

/// Code index number for a Control Change message.
pub const CIN_CONTROL_CHANGE: u8 = 0xB;

/// The fixed 4-byte USB-MIDI wire unit: a 4-bit cable number, a 4-bit code
/// index number, and three embedded MIDI bytes (the third unused for 2-byte
/// MIDI messages).
#[derive(Clone, Copy, Debug, PartialEq, Eq, Structural)]
pub struct UsbMidiEventPacket {
    pub cable: u8,
    pub cin: u8,
    pub midi0: u8,
    pub midi1: u8,
    pub midi2: u8,
}

impl UsbMidiEventPacket {
    /// Cable number and code index number fit their 4-bit wire fields.
    pub open spec fn wf(self) -> bool {
        self.cable < 16 && self.cin < 16
    }
}

/// The packet a MIDI message encodes to, on the given virtual cable: the code
/// index number is the message's status-byte class, and the status byte packs
/// that class with the channel.
pub open spec fn spec_encode_on_cable(m: MidiMessage, cable: u8) -> UsbMidiEventPacket {
    match m {
        MidiMessage::NoteOn { channel, note, velocity } => UsbMidiEventPacket {
            cable,
            cin: CIN_NOTE_ON,
            midi0: (CIN_NOTE_ON * 16 + channel) as u8,
            midi1: note,
            midi2: velocity,
        },
        MidiMessage::NoteOff { channel, note, velocity } => UsbMidiEventPacket {
            cable,
            cin: CIN_NOTE_OFF,
            midi0: (CIN_NOTE_OFF * 16 + channel) as u8,
            midi1: note,
            midi2: velocity,
        },
        MidiMessage::ControlChange { channel, controller, value } => UsbMidiEventPacket {
            cable,
            cin: CIN_CONTROL_CHANGE,
            midi0: (CIN_CONTROL_CHANGE * 16 + channel) as u8,
            midi1: controller,
            midi2: value,
        },
    }
}

/// The packet a MIDI message encodes to on the default virtual cable 0.
pub open spec fn spec_encode(m: MidiMessage) -> UsbMidiEventPacket {
    spec_encode_on_cable(m, 0)
}

/// The packet carries a Note On: code index number and status nibble agree,
/// and both data bytes lie in the 7-bit space.
pub open spec fn matches_note_on(p: UsbMidiEventPacket) -> bool {
    p.cin == CIN_NOTE_ON && p.midi0 / 16 == CIN_NOTE_ON && p.midi1 < 128 && p.midi2 < 128
}

/// The packet carries a Note Off: code index number and status nibble agree,
/// and both data bytes lie in the 7-bit space.
pub open spec fn matches_note_off(p: UsbMidiEventPacket) -> bool {
    p.cin == CIN_NOTE_OFF && p.midi0 / 16 == CIN_NOTE_OFF && p.midi1 < 128 && p.midi2 < 128
}

/// The packet carries a Control Change: code index number and status nibble
/// agree, and both data bytes lie in the 7-bit space.
pub open spec fn matches_control_change(p: UsbMidiEventPacket) -> bool {
    p.cin == CIN_CONTROL_CHANGE && p.midi0 / 16 == CIN_CONTROL_CHANGE && p.midi1 < 128 && p.midi2
        < 128
}

/// The MIDI message a packet decodes to: the matching variant when exactly
/// its status/length pattern holds, nothing otherwise.
pub open spec fn spec_decode(p: UsbMidiEventPacket) -> Option<MidiMessage> {
    if matches_note_on(p) {
        Some(
            MidiMessage::NoteOn {
                channel: (p.midi0 % 16) as u8,
                note: p.midi1,
                velocity: p.midi2,
            },
        )
    } else if matches_note_off(p) {
        Some(
            MidiMessage::NoteOff {
                channel: (p.midi0 % 16) as u8,
                note: p.midi1,
                velocity: p.midi2,
            },
        )
    } else if matches_control_change(p) {
        Some(
            MidiMessage::ControlChange {
                channel: (p.midi0 % 16) as u8,
                controller: p.midi1,
                value: p.midi2,
            },
        )
    } else {
        None
    }
}

/// Encodes a MIDI message into a USB-MIDI event packet on virtual cable 0.
/// Deterministic and total over well-formed messages.
pub fn encode(m: MidiMessage) -> (p: UsbMidiEventPacket)
    requires
        m.wf(),
    ensures
        p == spec_encode(m),
        p.wf(),
{
    match m {
        MidiMessage::NoteOn { channel, note, velocity } => UsbMidiEventPacket {
            cable: 0,
            cin: CIN_NOTE_ON,
            midi0: CIN_NOTE_ON * 16 + channel,
            midi1: note,
            midi2: velocity,
        },
        MidiMessage::NoteOff { channel, note, velocity } => UsbMidiEventPacket {
            cable: 0,
            cin: CIN_NOTE_OFF,
            midi0: CIN_NOTE_OFF * 16 + channel,
            midi1: note,
            midi2: velocity,
        },
        MidiMessage::ControlChange { channel, controller, value } => UsbMidiEventPacket {
            cable: 0,
            cin: CIN_CONTROL_CHANGE,
            midi0: CIN_CONTROL_CHANGE * 16 + channel,
            midi1: controller,
            midi2: value,
        },
    }
}

/// Decodes a packet back into a MIDI message. Returns the matching variant
/// exactly when the packet's code index number agrees with its status nibble
/// and the data bytes lie in the 7-bit space; returns nothing otherwise, so
/// callers can probe variants against the same packet without a false
/// positive.
pub fn decode(p: UsbMidiEventPacket) -> (r: Option<MidiMessage>)
    ensures
        r == spec_decode(p),
        r matches Some(m) ==> m.wf(),
{
    let status_nibble = p.midi0 / 16;
    if p.cin == CIN_NOTE_ON && status_nibble == CIN_NOTE_ON && p.midi1 < 128 && p.midi2 < 128 {
        Some(MidiMessage::NoteOn { channel: p.midi0 % 16, note: p.midi1, velocity: p.midi2 })
    } else if p.cin == CIN_NOTE_OFF && status_nibble == CIN_NOTE_OFF && p.midi1 < 128 && p.midi2
        < 128 {
        Some(MidiMessage::NoteOff { channel: p.midi0 % 16, note: p.midi1, velocity: p.midi2 })
    } else if p.cin == CIN_CONTROL_CHANGE && status_nibble == CIN_CONTROL_CHANGE && p.midi1 < 128
        && p.midi2 < 128 {
        Some(
            MidiMessage::ControlChange {
                channel: p.midi0 % 16,
                controller: p.midi1,
                value: p.midi2,
            },
        )
    } else {
        None
    }
}

/// Round trip: decoding an encoded message gives the message back, for every
/// well-formed MIDI message.
pub proof fn lemma_encode_decode_round_trip(m: MidiMessage)
    requires
        m.wf(),
    ensures
        spec_decode(spec_encode(m)) == Some(m),
{
}

/// A packet matching no variant's status/length pattern decodes to nothing:
/// no panic, no false positive.
pub proof fn lemma_decode_rejects_mismatch(p: UsbMidiEventPacket)
    requires
        !matches_note_on(p),
        !matches_note_off(p),
        !matches_control_change(p),
    ensures
        spec_decode(p) is None,
{
}

/// The four raw transfer bytes of a packet: the cable and code index nibbles
/// packed into the header byte, then the three MIDI bytes.
pub open spec fn spec_packet_bytes(p: UsbMidiEventPacket) -> Seq<u8> {
    seq![(p.cable * 16 + p.cin) as u8, p.midi0, p.midi1, p.midi2]
}

/// The packet read from one 4-byte transfer unit: the header byte splits into
/// the cable and code index nibbles. Total: any four bytes form a packet.
pub open spec fn spec_packet_of_bytes(b0: u8, b1: u8, b2: u8, b3: u8) -> UsbMidiEventPacket {
    UsbMidiEventPacket { cable: (b0 / 16) as u8, cin: (b0 % 16) as u8, midi0: b1, midi1: b2, midi2: b3 }
}

/// Serializes a packet into its four raw transfer bytes.
pub fn packet_to_bytes(p: UsbMidiEventPacket) -> (r: [u8; 4])
    requires
        p.wf(),
    ensures
        r@ == spec_packet_bytes(p),
{
    let header = p.cable * 16 + p.cin;
    let r = [header, p.midi0, p.midi1, p.midi2];
    proof {
        assert(r@ =~= spec_packet_bytes(p));
    }
    r
}

/// Reads one packet out of a 4-byte transfer unit.
pub fn packet_from_bytes(b0: u8, b1: u8, b2: u8, b3: u8) -> (p: UsbMidiEventPacket)
    ensures
        p == spec_packet_of_bytes(b0, b1, b2, b3),
        p.wf(),
{
    UsbMidiEventPacket { cable: b0 / 16, cin: b0 % 16, midi0: b1, midi1: b2, midi2: b3 }
}

/// Wire round trip: reading back the four bytes a well-formed packet
/// serializes to gives the packet back.
pub proof fn lemma_packet_bytes_round_trip(p: UsbMidiEventPacket)
    requires
        p.wf(),
    ensures
        spec_packet_of_bytes(
            spec_packet_bytes(p)[0],
            spec_packet_bytes(p)[1],
            spec_packet_bytes(p)[2],
            spec_packet_bytes(p)[3],
        ) == p,
{
}

} // verus!
