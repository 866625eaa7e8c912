//! The control queue between the settings and the engine: a bounded
//! single-producer single-consumer ring that never blocks.

use rtrb::{Consumer, Producer};
use vstd::prelude::*;

use crate::stream_config::SupportedStreamConfig;

verus! {

/// Slots of the control queue.
pub const CONTROL_CAPACITY: usize = 64;

/// A command to the engine.
#[derive(Clone, Copy, PartialEq, Eq, Structural, Debug)]
pub enum AudioEngineEvent {
    /// Stop the stream and let go of the device.
    Disable,
    /// Replace whatever stream there is by one on the device at
    /// `device_index` among the output devices.
    Enable { device_index: usize, buffer_size: u32, config: SupportedStreamConfig },
}

/// Declares `rtrb::Producer`, the writing end of a ring, as a type whose
/// inside is not looked at.
#[verifier::external_type_specification]
#[verifier::external_body]
#[verifier::reject_recursive_types(T)]
pub struct ExProducer<T>(Producer<T>);

/// Declares `rtrb::Consumer`, the reading end of a ring, as a type whose
/// inside is not looked at.
#[verifier::external_type_specification]
#[verifier::external_body]
#[verifier::reject_recursive_types(T)]
pub struct ExConsumer<T>(Consumer<T>);

/// The commands that the ring has accepted from this producer so far,
/// oldest first: the record of its successful pushes. It says nothing of
/// what is in the ring now, which the consumer changes as it pleases.
pub uninterp spec fn accepted(tx: Producer<AudioEngineEvent>) -> Seq<AudioEngineEvent>;

/// The number of slots that the ring of this producer was made with. It
/// never changes.
pub uninterp spec fn capacity(tx: Producer<AudioEngineEvent>) -> nat;

/// The commands that this consumer has taken from the ring so far,
/// oldest first: the record of its successful pops.
pub uninterp spec fn taken(rx: Consumer<AudioEngineEvent>) -> Seq<AudioEngineEvent>;

/// Calls `rtrb::RingBuffer::new`, which allocates the ring with `slots`
/// slots and returns its two ends; nothing has passed through either yet.
/// The number of slots is kept small enough for the allocation's size to
/// be computed.
#[verifier::external_body]
fn ring_buffer(slots: usize) -> (ends: (Producer<AudioEngineEvent>, Consumer<AudioEngineEvent>))
    requires
        slots <= 65_536,
    ensures
        capacity(ends.0) == slots,
        accepted(ends.0).len() == 0,
        taken(ends.1).len() == 0,
{
    rtrb::RingBuffer::new(slots)
}

/// Calls `rtrb::Producer::push`, which moves the command into the ring
/// when a slot is free and hands it back when the ring is full. Whether a
/// slot is free depends on the consumer, so either may happen: a command
/// that was taken joins the record of the producer, one that was not
/// comes back as it was and leaves the record alone. The ring keeps the
/// number of slots it was made with.
#[verifier::external_body]
pub(crate) fn push_command(tx: &mut Producer<AudioEngineEvent>, command: AudioEngineEvent) -> (result:
    Result<(), AudioEngineEvent>)
    ensures
        capacity(*final(tx)) == capacity(*old(tx)),
        match result {
            Ok(_) => accepted(*final(tx)) == accepted(*old(tx)).push(command),
            Err(back) => back == command && accepted(*final(tx)) == accepted(*old(tx)),
        },
{
    match tx.push(command) {
        Ok(()) => Ok(()),
        Err(rtrb::PushError::Full(back)) => Err(back),
    }
}

/// Calls `rtrb::Consumer::pop`, which moves the oldest command out of the
/// ring, or reports at once that the ring is empty. What is in the ring
/// depends on the producer, so either may happen: a command that came out
/// joins the record of the consumer, an empty ring leaves it alone.
#[verifier::external_body]
pub(crate) fn pop_command(rx: &mut Consumer<AudioEngineEvent>) -> (result: Option<AudioEngineEvent>)
    ensures
        match result {
            Some(command) => taken(*final(rx)) == taken(*old(rx)).push(command),
            None => taken(*final(rx)) == taken(*old(rx)),
        },
{
    match rx.pop() {
        Ok(command) => Some(command),
        Err(rtrb::PopError::Empty) => None,
    }
}

/// A fresh control queue of `CONTROL_CAPACITY` slots: the end that the
/// settings write to and the end that the engine reads from.
pub fn control_channel() -> (ends: (Producer<AudioEngineEvent>, Consumer<AudioEngineEvent>))
    ensures
        capacity(ends.0) == CONTROL_CAPACITY,
        accepted(ends.0).len() == 0,
        taken(ends.1).len() == 0,
{
    ring_buffer(CONTROL_CAPACITY)
}

} // verus!
