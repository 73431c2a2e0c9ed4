//! Priority-tiered task logic.
//!
//! Four logical tasks share the driver and the application state under a
//! priority-ceiling discipline: on the single core each task runs to
//! completion and a resource's holder is never preempted by another of its
//! users, so every access is one of the atomic steps modelled here. The
//! functions in this module are those steps: the update task (priority 1),
//! the send task (priority 2), the USB interrupt poller (priority 3) and the
//! idle consumer (priority 0), each a run-to-completion function from the
//! shared state and one event to the next state.
//!
//! The hardware edges stay outside: the caller performs the endpoint I/O and
//! hands bytes in and out of these functions.

use vstd::prelude::*;

use crate::codec::UsbMidiEventPacket;
use crate::codec::encode;
use crate::codec::spec_encode;
use crate::driver::MidiClass;
use crate::driver::spec_leftover;
use crate::driver::spec_serialize;
use crate::driver::spec_units;
use crate::driver::spec_units_queued;
use crate::midi::MidiMessage;
use crate::queue::BoundedQueue;
use crate::state::ApplicationState;
use crate::state::Message;
use crate::state::midi_events;
use crate::state::spec_midi_events;
use crate::state::spec_update;

verus! {

/// Enumeration state of the USB device as the transport layer reports it;
/// the send path transmits only once the host has configured the device.
#[derive(Clone, Copy, Debug, PartialEq, Eq, Structural)]
pub enum UsbDeviceState {
    Default,
    Addressed,
    Configured,
    Suspended,
}

/// Capacity of the send task's bounded work queue: a derived MIDI message
/// that arrives while five are already waiting is dropped, a documented
/// backpressure policy rather than a fault.
pub const SEND_QUEUE_CAPACITY: usize = 5;

/// USB vendor identifier the device enumerates under.
pub const VID: u16 = 0x1ACC;

/// USB product identifier the device enumerates under.
pub const PID: u16 = 0x3801;

/// The identity the device advertises to the host during enumeration. The
/// transport collaborator hands these values to the USB stack's device
/// builder; the descriptors themselves are its concern.
pub struct UsbConfig {
    pub vid: u16,
    pub pid: u16,
    pub manufacturer: &'static str,
    pub product: &'static str,
    pub serial_number: &'static str,
    pub max_power_ma: u16,
}

/// Configures the USB device as seen by the operating system: the fixed
/// vendor/product identity, the descriptor strings and the declared maximum
/// power draw.
pub fn configure_usb() -> (c: UsbConfig)
    ensures
        c.vid == VID,
        c.pid == PID,
        c.manufacturer@ == "jefffm"@,
        c.product@ == "midy-rs"@,
        c.serial_number@ == "1"@,
        c.max_power_ma == 500,
{
    UsbConfig {
        vid: VID,
        pid: PID,
        manufacturer: "jefffm",
        product: "midy-rs",
        serial_number: "1",
        max_power_ma: 500,
    }
}

/// The send task, priority 2: transmits one MIDI message by queueing it on
/// the driver's outbound queue — but only when the device is Configured.
/// Before that the message is discarded silently: no transmission occurs and
/// no error is raised. A full outbound queue also drops the message, the
/// documented policy for a live stream where late data is worse than missing
/// data.
pub fn send_midi(device_state: UsbDeviceState, midi: &mut MidiClass, message: MidiMessage)
    requires
        old(midi).wf(),
        message.wf(),
    ensures
        final(midi).wf(),
        final(midi).inbound() == old(midi).inbound(),
        final(midi).buffered() == old(midi).buffered(),
        final(midi).out_cap() == old(midi).out_cap(),
        final(midi).in_cap() == old(midi).in_cap(),
        !(device_state is Configured) ==> final(midi).outbound() == old(midi).outbound(),
        device_state is Configured && old(midi).outbound().len() == old(midi).out_cap() ==> final(midi).outbound() == old(midi).outbound(),
        device_state is Configured && old(midi).outbound().len() < old(midi).out_cap() ==> final(midi).outbound() == old(midi).outbound().push(spec_encode(message)),
{
    if device_state == UsbDeviceState::Configured {
        let packet = encode(message);
        let _ = midi.enqueue_outbound(packet);
    }
}

/// The USB transport poller, priority 3, run from the interrupt path. One
/// invocation: flush at most one endpoint transfer's worth of outbound
/// packets (a transfer error is swallowed, the queue keeps the data), then —
/// only if the polled peripheral reported bus activity — decode the received
/// bytes into the inbound queue. Returns the bytes to put on the wire and
/// whether at least one inbound unit was newly queued, so the caller can wake
/// downstream consumers. No unbounded loop, no blocking wait.
pub fn usb_poll(midi: &mut MidiClass, max_transfer: usize, bus_activity: bool, received: &Vec<
    u8,
>) -> (r: (Vec<u8>, bool))
    requires
        old(midi).wf(),
    ensures
        final(midi).wf(),
        final(midi).out_cap() == old(midi).out_cap(),
        final(midi).in_cap() == old(midi).in_cap(),
        ({
            let budget = max_transfer as nat / 4;
            let k = spec_units_queued(old(midi).outbound().len(), budget);
            if old(midi).outbound().len() > 0 && budget == 0 {
                final(midi).outbound() == old(midi).outbound() && r.0@ == Seq::<u8>::empty()
            } else {
                final(midi).outbound() == old(midi).outbound().skip(k as int) && r.0@
                    == spec_serialize(old(midi).outbound().take(k as int))
            }
        }),
        !bus_activity ==> final(midi).inbound() == old(midi).inbound() && final(midi).buffered()
            == old(midi).buffered() && r.1 == false,
        bus_activity ==> ({
            let all = old(midi).buffered() + received@;
            let room = (old(midi).in_cap() - old(midi).inbound().len()) as nat;
            let queued = spec_units_queued(spec_units(all).len(), room);
            &&& final(midi).buffered() == spec_leftover(all)
            &&& final(midi).inbound() == old(midi).inbound() + spec_units(all).take(queued as int)
            &&& r.1 == (queued > 0)
        }),
{
    let wire: Vec<u8> = if !midi.write_queue_is_empty() {
        match midi.write_queue_to_host(max_transfer) {
            Ok(sent) => sent,
            Err(_) => Vec::new(),
        }
    } else {
        Vec::new()
    };
    proof {
        if old(midi).outbound().len() == 0 {
            assert(wire@ =~= spec_serialize(old(midi).outbound().take(0int)));
            assert(old(midi).outbound().skip(0int) =~= old(midi).outbound());
        }
    }
    if !bus_activity {
        return (wire, false);
    }
    let count = midi.read_to_queue(received);
    (wire, count > 0)
}

/// The four tasks' shared resources, owned in one place: the application
/// state, the queued class driver, the device's enumeration state and the
/// send task's bounded work queue. One instance is created at startup and
/// lives until power-off; each method below is one task's run-to-completion
/// step.
pub struct Scheduler {
    pub state: ApplicationState,
    pub midi: MidiClass,
    pub device_state: UsbDeviceState,
    pub send_queue: BoundedQueue<MidiMessage>,
}

impl Scheduler {
    /// Every shared resource is well formed: the driver respects its
    /// capacities, the send queue respects its fixed capacity, and every
    /// queued message is a well-formed MIDI message.
    pub open spec fn wf(&self) -> bool {
        &&& self.midi.wf()
        &&& self.send_queue.wf()
        &&& self.send_queue.cap() == SEND_QUEUE_CAPACITY
        &&& forall|i: int|
            0 <= i < self.send_queue@.len() ==> (#[trigger] self.send_queue@[i]).wf()
    }

    /// Startup: all buttons released, empty driver queues of the given
    /// capacities, device not yet enumerated, empty send queue.
    pub fn new(out_capacity: usize, in_capacity: usize) -> (s: Scheduler)
        ensures
            s.wf(),
            forall|b: crate::state::Button| !s.state.pressed(b),
            s.midi.outbound() == Seq::<UsbMidiEventPacket>::empty(),
            s.midi.inbound() == Seq::<UsbMidiEventPacket>::empty(),
            s.midi.buffered() == Seq::<u8>::empty(),
            s.midi.out_cap() == out_capacity,
            s.midi.in_cap() == in_capacity,
            s.device_state is Default,
            s.send_queue@ == Seq::<MidiMessage>::empty(),
    {
        Scheduler {
            state: ApplicationState::init(),
            midi: MidiClass::new(out_capacity, in_capacity),
            device_state: UsbDeviceState::Default,
            send_queue: BoundedQueue::new(SEND_QUEUE_CAPACITY),
        }
    }

    /// Records the enumeration state the transport layer reports.
    pub fn set_device_state(&mut self, device_state: UsbDeviceState)
        requires
            old(self).wf(),
        ensures
            final(self).wf(),
            final(self).device_state == device_state,
            final(self).state == old(self).state,
            final(self).midi == old(self).midi,
            final(self).send_queue == old(self).send_queue,
    {
        self.device_state = device_state;
    }

    /// The update task, priority 1: applies one hardware message to the
    /// application state and schedules the first derived MIDI message, if
    /// any, onto the send task's work queue. Only the first message of a
    /// delta is forwarded — any further ones are dropped, the explicit
    /// truncation policy — and a message arriving at a full work queue is
    /// dropped as documented backpressure.
    pub fn update(&mut self, message: Message)
        requires
            old(self).wf(),
        ensures
            final(self).wf(),
            final(self).state == spec_update(old(self).state, message),
            final(self).midi == old(self).midi,
            final(self).device_state == old(self).device_state,
            ({
                let events = spec_midi_events(old(self).state, spec_update(old(self).state, message));
                if events.len() == 0 {
                    final(self).send_queue@ == old(self).send_queue@
                } else if old(self).send_queue@.len() < SEND_QUEUE_CAPACITY {
                    final(self).send_queue@ == old(self).send_queue@.push(events[0])
                } else {
                    final(self).send_queue@ == old(self).send_queue@
                }
            }),
    {
        let old_state = self.state.clone();
        self.state.update(message);
        let effects = midi_events(&old_state, &self.state);
        if effects.len() > 0 {
            let _ = self.send_queue.enqueue(effects[0]);
        }
        proof {
            assert forall|i: int| 0 <= i < self.send_queue@.len() implies (
            #[trigger] self.send_queue@[i]).wf() by {
                if i < old(self).send_queue@.len() {
                    assert(self.send_queue@[i] == old(self).send_queue@[i]);
                }
            }
        }
    }

    /// Runs the send task, priority 2, once: takes the oldest scheduled MIDI
    /// message, if any, and transmits it as `send_midi` does — enqueued
    /// outbound only when the device is Configured, discarded otherwise.
    pub fn run_send(&mut self)
        requires
            old(self).wf(),
        ensures
            final(self).wf(),
            final(self).state == old(self).state,
            final(self).device_state == old(self).device_state,
            final(self).midi.inbound() == old(self).midi.inbound(),
            final(self).midi.buffered() == old(self).midi.buffered(),
            final(self).midi.out_cap() == old(self).midi.out_cap(),
            final(self).midi.in_cap() == old(self).midi.in_cap(),
            old(self).send_queue@.len() == 0 ==> final(self).send_queue@ == old(self).send_queue@
                && final(self).midi == old(self).midi,
            old(self).send_queue@.len() > 0 ==> ({
                let message = old(self).send_queue@[0];
                &&& final(self).send_queue@ == old(self).send_queue@.skip(1)
                &&& !(old(self).device_state is Configured) ==> final(self).midi.outbound() == old(self).midi.outbound()
                &&& old(self).device_state is Configured && old(self).midi.outbound().len() == old(self).midi.out_cap() ==> final(self).midi.outbound() == old(self).midi.outbound()
                &&& old(self).device_state is Configured && old(self).midi.outbound().len() < old(self).midi.out_cap() ==> final(self).midi.outbound() == old(self).midi.outbound().push(
                    spec_encode(message),
                )
            }),
    {
        if let Some(message) = self.send_queue.dequeue() {
            send_midi(self.device_state, &mut self.midi, message);
        }
    }

    /// The USB interrupt tasks, priority 3: one peripheral service pass, as
    /// `usb_poll` describes. Returns the bytes for the wire and whether an
    /// inbound unit was queued.
    pub fn usb_interrupt(&mut self, max_transfer: usize, bus_activity: bool, received: &Vec<
        u8,
    >) -> (r: (Vec<u8>, bool))
        requires
            old(self).wf(),
        ensures
            final(self).wf(),
            final(self).state == old(self).state,
            final(self).device_state == old(self).device_state,
            final(self).send_queue == old(self).send_queue,
            final(self).midi.out_cap() == old(self).midi.out_cap(),
            final(self).midi.in_cap() == old(self).midi.in_cap(),
            ({
                let budget = max_transfer as nat / 4;
                let k = spec_units_queued(old(self).midi.outbound().len(), budget);
                if old(self).midi.outbound().len() > 0 && budget == 0 {
                    final(self).midi.outbound() == old(self).midi.outbound() && r.0@
                        == Seq::<u8>::empty()
                } else {
                    final(self).midi.outbound() == old(self).midi.outbound().skip(k as int)
                        && r.0@ == spec_serialize(old(self).midi.outbound().take(k as int))
                }
            }),
            !bus_activity ==> final(self).midi.inbound() == old(self).midi.inbound() && final(self).midi.buffered() == old(self).midi.buffered() && r.1 == false,
            bus_activity ==> ({
                let all = old(self).midi.buffered() + received@;
                let room = (old(self).midi.in_cap() - old(self).midi.inbound().len()) as nat;
                let queued = spec_units_queued(spec_units(all).len(), room);
                &&& final(self).midi.buffered() == spec_leftover(all)
                &&& final(self).midi.inbound() == old(self).midi.inbound() + spec_units(all).take(
                    queued as int,
                )
                &&& r.1 == (queued > 0)
            }),
    {
        usb_poll(&mut self.midi, max_transfer, bus_activity, received)
    }

    /// The idle consumer, priority 0: drains one decoded inbound packet when
    /// no higher-priority work is pending.
    pub fn dequeue_received(&mut self) -> (r: Option<UsbMidiEventPacket>)
        requires
            old(self).wf(),
        ensures
            final(self).wf(),
            final(self).state == old(self).state,
            final(self).device_state == old(self).device_state,
            final(self).send_queue == old(self).send_queue,
            final(self).midi.outbound() == old(self).midi.outbound(),
            final(self).midi.buffered() == old(self).midi.buffered(),
            final(self).midi.out_cap() == old(self).midi.out_cap(),
            final(self).midi.in_cap() == old(self).midi.in_cap(),
            old(self).midi.inbound().len() == 0 ==> r is None && final(self).midi.inbound() == old(self).midi.inbound(),
            old(self).midi.inbound().len() > 0 ==> r == Some(old(self).midi.inbound()[0]) && final(self).midi.inbound() == old(self).midi.inbound().skip(1),
    {
        self.midi.dequeue()
    }
}

} // verus!
