//! Queued USB-MIDI class driver.
//!
//! Owns two bounded FIFOs of USB-MIDI event packets — outbound towards the
//! host, inbound from it — and exposes non-blocking enqueue/dequeue. The
//! transport edge is plain bytes: flushing hands back the bytes to put on the
//! wire, and reading takes the bytes the receive endpoint delivered.
//!
//! Overflow policy, explicit by design: a full outbound queue rejects the
//! newest packet (the caller may drop it — for a live MIDI stream late data
//! is worse than missing data), and inbound units that arrive while the
//! inbound queue is full are discarded. Partial trailing bytes of an inbound
//! transfer are buffered until a later transfer completes the 4-byte unit.

use vstd::prelude::*;

use crate::codec::UsbMidiEventPacket;
use crate::codec::packet_from_bytes;
use crate::codec::spec_packet_bytes;
use crate::codec::spec_packet_of_bytes;
use crate::queue::BoundedQueue;
use crate::queue::QueueFull;

verus! {

/// Transient USB transfer error. The endpoint could not take data right now;
/// the queue keeps everything unsent, to be retried on the next poll.
#[derive(Clone, Copy, Debug, PartialEq, Eq, Structural)]
pub enum UsbError {
    WouldBlock,
}

/// The raw transfer bytes of a sequence of packets, in queue order.
pub open spec fn spec_serialize(packets: Seq<UsbMidiEventPacket>) -> Seq<u8>
    decreases packets.len(),
{
    if packets.len() == 0 {
        Seq::<u8>::empty()
    } else {
        spec_packet_bytes(packets[0]) + spec_serialize(packets.skip(1))
    }
}

/// Serialization takes four bytes per packet.
pub proof fn lemma_serialize_len(packets: Seq<UsbMidiEventPacket>)
    ensures
        spec_serialize(packets).len() == 4 * packets.len(),
    decreases packets.len(),
{
    if packets.len() > 0 {
        lemma_serialize_len(packets.skip(1));
    }
}

/// Serializing one more packet appends its four bytes.
pub proof fn lemma_serialize_push(packets: Seq<UsbMidiEventPacket>, p: UsbMidiEventPacket)
    ensures
        spec_serialize(packets.push(p)) == spec_serialize(packets) + spec_packet_bytes(p),
    decreases packets.len(),
{
    if packets.len() == 0 {
        let one = packets.push(p);
        assert(one.skip(1) =~= Seq::<UsbMidiEventPacket>::empty());
        assert(spec_serialize(one.skip(1)) == Seq::<u8>::empty());
        assert(spec_serialize(one) == spec_packet_bytes(p) + Seq::<u8>::empty());
        assert(spec_serialize(packets.push(p)) =~= spec_serialize(packets) + spec_packet_bytes(p));
    } else {
        assert(packets.push(p).skip(1) =~= packets.skip(1).push(p));
        lemma_serialize_push(packets.skip(1), p);
        assert(spec_serialize(packets.push(p)) =~= spec_serialize(packets) + spec_packet_bytes(p));
    }
}

/// The byte at position `m` of a serialization is byte `m % 4` of packet
/// `m / 4`.
proof fn lemma_serialize_index(packets: Seq<UsbMidiEventPacket>, m: int)
    requires
        0 <= m < 4 * packets.len(),
    ensures
        spec_serialize(packets)[m] == spec_packet_bytes(packets[m / 4])[m % 4],
    decreases packets.len(),
{
    lemma_serialize_len(packets.skip(1));
    if m >= 4 {
        lemma_serialize_index(packets.skip(1), m - 4);
    }
}

/// Nothing is lost, duplicated or reordered on the way to the wire: the raw
/// bytes a sequence of well-formed packets serializes to split back into
/// whole units that are exactly those packets, in the same order.
pub proof fn lemma_units_of_serialize(packets: Seq<UsbMidiEventPacket>)
    requires
        forall|i: int| 0 <= i < packets.len() ==> (#[trigger] packets[i]).wf(),
    ensures
        spec_units(spec_serialize(packets)) == packets,
{
    lemma_serialize_len(packets);
    let bytes = spec_serialize(packets);
    assert forall|i: int| 0 <= i < packets.len() implies spec_units(bytes)[i] == packets[i] by {
        lemma_serialize_index(packets, 4 * i);
        lemma_serialize_index(packets, 4 * i + 1);
        lemma_serialize_index(packets, 4 * i + 2);
        lemma_serialize_index(packets, 4 * i + 3);
        crate::codec::lemma_packet_bytes_round_trip(packets[i]);
    }
    assert(spec_units(bytes) =~= packets);
}

/// The whole 4-byte units at the front of a byte sequence, each read as one
/// packet.
pub open spec fn spec_units(bytes: Seq<u8>) -> Seq<UsbMidiEventPacket> {
    Seq::new(
        bytes.len() / 4,
        |i: int| spec_packet_of_bytes(bytes[4 * i], bytes[4 * i + 1], bytes[4 * i + 2], bytes[4 * i + 3]),
    )
}

/// The trailing bytes of a byte sequence that do not fill a 4-byte unit.
pub open spec fn spec_leftover(bytes: Seq<u8>) -> Seq<u8> {
    bytes.skip(bytes.len() - bytes.len() % 4)
}

/// The number of whole inbound units actually queued: every decoded unit, up
/// to the room the inbound queue has left.
pub open spec fn spec_units_queued(units: nat, room: nat) -> nat {
    if units <= room {
        units
    } else {
        room
    }
}

/// The queued USB-MIDI class driver: outbound and inbound packet FIFOs plus
/// the buffer for a partial inbound unit.
pub struct MidiClass {
    out_queue: BoundedQueue<UsbMidiEventPacket>,
    in_queue: BoundedQueue<UsbMidiEventPacket>,
    partial: Vec<u8>,
}

impl MidiClass {
    /// Packets queued towards the host, oldest first.
    pub closed spec fn outbound(&self) -> Seq<UsbMidiEventPacket> {
        self.out_queue@
    }

    /// Decoded packets received from the host, oldest first.
    pub closed spec fn inbound(&self) -> Seq<UsbMidiEventPacket> {
        self.in_queue@
    }

    /// Bytes of a partial inbound unit, waiting for completion.
    pub closed spec fn buffered(&self) -> Seq<u8> {
        self.partial@
    }

    /// Capacity of the outbound queue.
    pub closed spec fn out_cap(&self) -> nat {
        self.out_queue.cap()
    }

    /// Capacity of the inbound queue.
    pub closed spec fn in_cap(&self) -> nat {
        self.in_queue.cap()
    }

    /// Well-formed driver: both queues respect their capacities, every queued
    /// outbound packet fits the wire nibbles, and at most three partial bytes
    /// are buffered.
    pub closed spec fn wf(&self) -> bool {
        &&& self.out_queue.wf()
        &&& self.in_queue.wf()
        &&& self.partial@.len() < 4
        &&& forall|i: int| 0 <= i < self.out_queue@.len() ==> (#[trigger] self.out_queue@[i]).wf()
    }

    /// Creates a driver with empty queues of the given fixed capacities.
    pub fn new(out_capacity: usize, in_capacity: usize) -> (c: MidiClass)
        ensures
            c.wf(),
            c.outbound() == Seq::<UsbMidiEventPacket>::empty(),
            c.inbound() == Seq::<UsbMidiEventPacket>::empty(),
            c.buffered() == Seq::<u8>::empty(),
            c.out_cap() == out_capacity,
            c.in_cap() == in_capacity,
    {
        MidiClass {
            out_queue: BoundedQueue::new(out_capacity),
            in_queue: BoundedQueue::new(in_capacity),
            partial: Vec::new(),
        }
    }

    /// Appends a packet to the outbound queue; never blocks, fails fast when
    /// the queue is full and then leaves the queued packets untouched.
    pub fn enqueue_outbound(&mut self, packet: UsbMidiEventPacket) -> (r: Result<(), QueueFull>)
        requires
            old(self).wf(),
            packet.wf(),
        ensures
            final(self).wf(),
            final(self).inbound() == old(self).inbound(),
            final(self).buffered() == old(self).buffered(),
            final(self).out_cap() == old(self).out_cap(),
            final(self).in_cap() == old(self).in_cap(),
            old(self).outbound().len() == old(self).out_cap() ==> r == Err::<(), QueueFull>(
                QueueFull,
            ) && final(self).outbound() == old(self).outbound(),
            old(self).outbound().len() < old(self).out_cap() ==> r == Ok::<(), QueueFull>(())
                && final(self).outbound() == old(self).outbound().push(packet),
    {
        let r = self.out_queue.enqueue(packet);
        proof {
            assert forall|i: int| 0 <= i < self.out_queue@.len() implies (
            #[trigger] self.out_queue@[i]).wf() by {
                if i < old(self).out_queue@.len() {
                    assert(self.out_queue@[i] == old(self).out_queue@[i]);
                }
            }
        }
        r
    }

    /// True exactly when no outbound packet is waiting.
    pub fn write_queue_is_empty(&self) -> (b: bool)
        ensures
            b == (self.outbound().len() == 0),
    {
        self.out_queue.is_empty()
    }

    /// Flushes as many queued outbound packets as one endpoint transfer of
    /// `max_transfer` bytes allows, returning the bytes to put on the wire;
    /// a partial flush leaves the remainder queued for the next call. When
    /// packets wait but the transfer has no room for even one, the error is
    /// reported and the queue retains all unsent data for retry.
    pub fn write_queue_to_host(&mut self, max_transfer: usize) -> (r: Result<Vec<u8>, UsbError>)
        requires
            old(self).wf(),
        ensures
            final(self).wf(),
            final(self).inbound() == old(self).inbound(),
            final(self).buffered() == old(self).buffered(),
            final(self).out_cap() == old(self).out_cap(),
            final(self).in_cap() == old(self).in_cap(),
            ({
                let budget = max_transfer as nat / 4;
                let k = spec_units_queued(old(self).outbound().len(), budget);
                if old(self).outbound().len() > 0 && budget == 0 {
                    &&& r matches Err(e) && e is WouldBlock
                    &&& final(self).outbound() == old(self).outbound()
                } else {
                    &&& r matches Ok(sent) && sent@ == spec_serialize(
                        old(self).outbound().take(k as int),
                    )
                    &&& final(self).outbound() == old(self).outbound().skip(k as int)
                }
            }),
            r matches Ok(sent) ==> sent@.len() <= max_transfer,
    {
        let budget = max_transfer / 4;
        if budget == 0 && self.out_queue.len() > 0 {
            return Err(UsbError::WouldBlock);
        }
        let k = if self.out_queue.len() <= budget {
            self.out_queue.len()
        } else {
            budget
        };
        let ghost pre = *old(self);
        let ghost whole = pre.outbound();
        let mut sent: Vec<u8> = Vec::new();
        let mut j: usize = 0;
        proof {
            assert(whole.take(0int) =~= Seq::<UsbMidiEventPacket>::empty());
        }
        while j < k
            invariant
                j <= k,
                k <= whole.len(),
                4 * k <= max_transfer,
                self.wf(),
                self.out_queue@ == whole.skip(j as int),
                self.in_queue == pre.in_queue,
                self.partial == pre.partial,
                self.out_queue.cap() == pre.out_cap(),
                sent@ == spec_serialize(whole.take(j as int)),
                forall|i: int| 0 <= i < whole.len() ==> (#[trigger] whole[i]).wf(),
            decreases k - j,
        {
            if let Some(p) = self.out_queue.dequeue() {
                proof {
                    assert(p == whole[j as int]);
                    assert(p.wf());
                    lemma_serialize_push(whole.take(j as int), p);
                    assert(whole.take(j as int).push(p) =~= whole.take(j as int + 1));
                }
                sent.push(p.cable * 16 + p.cin);
                sent.push(p.midi0);
                sent.push(p.midi1);
                sent.push(p.midi2);
                proof {
                    assert(sent@ =~= spec_serialize(whole.take(j as int + 1)));
                    assert(whole.skip(j as int).skip(1) =~= whole.skip(j as int + 1));
                }
            } else {
                proof {
                    assert(false);
                }
            }
            j = j + 1;
        }
        proof {
            lemma_serialize_len(whole.take(k as int));
        }
        Ok(sent)
    }

    /// Decodes the bytes an endpoint read delivered into whole 4-byte units,
    /// queues each decoded packet inbound, and returns how many were newly
    /// queued. Trailing bytes short of a unit stay buffered until a later
    /// call completes them; units arriving while the inbound queue is full
    /// are discarded.
    pub fn read_to_queue(&mut self, received: &Vec<u8>) -> (count: usize)
        requires
            old(self).wf(),
        ensures
            final(self).wf(),
            final(self).outbound() == old(self).outbound(),
            final(self).out_cap() == old(self).out_cap(),
            final(self).in_cap() == old(self).in_cap(),
            ({
                let all = old(self).buffered() + received@;
                let room = (old(self).in_cap() - old(self).inbound().len()) as nat;
                let queued = spec_units_queued(spec_units(all).len(), room);
                &&& final(self).buffered() == spec_leftover(all)
                &&& final(self).inbound() == old(self).inbound() + spec_units(all).take(
                    queued as int,
                )
                &&& count == queued
            }),
    {
        let ghost pre = *old(self);
        let ghost all = pre.buffered() + received@;
        let ghost room = (pre.in_cap() - pre.inbound().len()) as nat;
        let mut count: usize = 0;
        let mut i: usize = 0;
        proof {
            assert(pre.buffered() + received@.take(0int) =~= pre.buffered());
            assert(spec_units(pre.buffered()) =~= Seq::<UsbMidiEventPacket>::empty());
            assert(spec_leftover(pre.buffered()) =~= pre.buffered());
            assert(pre.inbound() + spec_units(pre.buffered()).take(0int) =~= pre.inbound());
        }
        while i < received.len()
            invariant
                i <= received.len(),
                self.wf(),
                self.out_queue == pre.out_queue,
                self.in_queue.cap() == pre.in_cap(),
                room == pre.in_cap() - pre.inbound().len(),
                ({
                    let seen = pre.buffered() + received@.take(i as int);
                    let queued = spec_units_queued(spec_units(seen).len(), room);
                    &&& self.partial@ == spec_leftover(seen)
                    &&& self.in_queue@ == pre.inbound() + spec_units(seen).take(
                        queued as int,
                    )
                    &&& count == queued
                }),
            decreases received.len() - i,
        {
            let ghost seen = pre.buffered() + received@.take(i as int);
            let ghost queued = spec_units_queued(spec_units(seen).len(), room);
            let b = received[i];
            self.partial.push(b);
            proof {
                assert(pre.buffered() + received@.take(i as int + 1) =~= seen.push(b));
            }
            let ghost seen1 = seen.push(b);
            if self.partial.len() == 4 {
                proof {
                    assert(seen.len() % 4 == 3);
                    assert(seen1.len() % 4 == 0);
                    assert(spec_units(seen1) =~= spec_units(seen).push(
                        spec_packet_of_bytes(
                            self.partial@[0],
                            self.partial@[1],
                            self.partial@[2],
                            self.partial@[3],
                        ),
                    ));
                    assert(spec_leftover(seen1) =~= Seq::<u8>::empty());
                }
                let p = packet_from_bytes(
                    self.partial[0],
                    self.partial[1],
                    self.partial[2],
                    self.partial[3],
                );
                self.partial.clear();
                match self.in_queue.enqueue(p) {
                    Ok(_) => {
                        proof {
                            assert(pre.inbound().len() + queued < pre.in_cap());
                            assert(count < room <= pre.in_cap() <= usize::MAX);
                        }
                        count = count + 1;
                        proof {
                            let queued1 = spec_units_queued(spec_units(seen1).len(), room);
                            assert(queued1 == queued + 1);
                            assert(spec_units(seen1).take(queued1 as int) =~= spec_units(
                                seen,
                            ).take(queued as int).push(p));
                        }
                    },
                    Err(_) => {
                        proof {
                            assert(self.in_queue@.len() == pre.in_cap());
                            let queued1 = spec_units_queued(spec_units(seen1).len(), room);
                            assert(queued1 == queued);
                            assert(spec_units(seen1).take(queued1 as int) =~= spec_units(
                                seen,
                            ).take(queued as int));
                        }
                    },
                }
            } else {
                proof {
                    assert(seen1.len() % 4 == self.partial@.len());
                    assert(spec_units(seen1) =~= spec_units(seen));
                    assert(spec_leftover(seen1) =~= self.partial@);
                }
            }
            i = i + 1;
        }
        proof {
            assert(received@.take(received@.len() as int) =~= received@);
        }
        count
    }

    /// Pops one decoded inbound packet, or nothing when the inbound queue is
    /// empty; non-blocking.
    pub fn dequeue(&mut self) -> (r: Option<UsbMidiEventPacket>)
        requires
            old(self).wf(),
        ensures
            final(self).wf(),
            final(self).outbound() == old(self).outbound(),
            final(self).buffered() == old(self).buffered(),
            final(self).out_cap() == old(self).out_cap(),
            final(self).in_cap() == old(self).in_cap(),
            old(self).inbound().len() == 0 ==> r is None && final(self).inbound() == old(self).inbound(),
            old(self).inbound().len() > 0 ==> r == Some(old(self).inbound()[0]) && final(self).inbound() == old(self).inbound().skip(1),
    {
        self.in_queue.dequeue()
    }
}

} // verus!
