//! Command dispatcher: a per-device, single-consumer command queue.
//! Commands are enqueued in issuance order and handed to the transport
//! strictly first-in-first-out by exactly one worker per device, so the
//! transport observes writes to one device in the order they were issued;
//! dispatch across different devices is independent.  A transport failure
//! is surfaced as a typed error to the command's originator and never
//! terminates the process; on disconnection every queued and in-flight
//! command is reported back as failed, never silently dropped.

use vstd::prelude::*;
use crate::encoder::{build_raw_frame, encode, spec_encode, CommandValue, EncodingError};
use crate::protocol::{frame_bytes, CharacteristicHandle, CommandIdentifier};

verus! {

/// A transport write/connect/read failure, surfaced to the caller.
#[derive(Clone, Copy, PartialEq, Eq, Structural, Debug)]
pub enum TransportError {
    /// The device's link is down; the command was not or will not be sent.
    Disconnected,
    /// The device rejected the write.
    WriteRejected,
    /// The link dropped while the command was in flight.
    LinkDropped,
    /// The transport gave up waiting for the write to complete.
    Timeout,
}

/// Where a queued command's bytes go: a framed family-A control command, or
/// a family-B raw write to one GATT characteristic.
#[derive(Clone, Copy, PartialEq, Eq, Structural, Debug)]
pub enum CommandTarget {
    /// A framed control command, addressed by its command identifier.
    Control(CommandIdentifier),
    /// A raw characteristic write, addressed by its handle.
    Characteristic(CharacteristicHandle),
}

/// One encoded command awaiting dispatch: where it goes and its
/// already-encoded payload bytes.
#[derive(Debug)]
pub struct QueuedCommand {
    pub target: CommandTarget,
    pub payload: Vec<u8>,
}

/// Mathematical model of a [`QueuedCommand`].
#[verifier::ext_equal]
pub struct CommandModel {
    pub target: CommandTarget,
    pub payload: Seq<u8>,
}

impl View for QueuedCommand {
    type V = CommandModel;

    open spec fn view(&self) -> CommandModel {
        CommandModel { target: self.target, payload: self.payload@ }
    }
}

/// The models of a command sequence, in order.
pub open spec fn models(s: Seq<QueuedCommand>) -> Seq<CommandModel> {
    s.map(|i: int, c: QueuedCommand| c@)
}

/// The per-device dispatcher: one FIFO queue of encoded commands and at
/// most one command in flight at the transport.  The ghost histories record
/// every command accepted and every command handed to the transport, each
/// in order.
pub struct Dispatcher {
    link_up: bool,
    queue: Vec<QueuedCommand>,
    in_flight: Option<QueuedCommand>,
    accepted: Ghost<Seq<CommandModel>>,
    handed: Ghost<Seq<CommandModel>>,
}

impl Dispatcher {
    /// Whether the device's link is up.
    pub closed spec fn is_link_up(self) -> bool {
        self.link_up
    }

    /// The commands waiting in the queue, front first.
    pub closed spec fn queued(self) -> Seq<CommandModel> {
        models(self.queue@)
    }

    /// The command currently at the transport, if any.
    pub closed spec fn in_flight_model(self) -> Option<CommandModel> {
        match self.in_flight {
            Some(c) => Some(c@),
            None => None,
        }
    }

    /// The in-flight command as a sequence of length zero or one.
    pub open spec fn in_flight_seq(self) -> Seq<CommandModel> {
        match self.in_flight_model() {
            Some(c) => seq![c],
            None => Seq::<CommandModel>::empty(),
        }
    }

    /// Every command this dispatcher accepted and still accounts for, in
    /// issuance order.  Commands abandoned at a disconnection leave the
    /// history together with their report.
    pub closed spec fn issued(self) -> Seq<CommandModel> {
        self.accepted@
    }

    /// Every command handed to the transport, in hand-off order.
    pub closed spec fn sent(self) -> Seq<CommandModel> {
        self.handed@
    }

    /// The dispatch discipline's invariant: the accepted commands are
    /// exactly those handed to the transport followed by those still
    /// queued, and a downed link holds nothing back silently.
    pub closed spec fn wf(self) -> bool {
        &&& self.issued() == self.sent() + self.queued()
        &&& (!self.link_up ==> self.queue@.len() == 0 && self.in_flight is None)
    }

    /// A fresh dispatcher for one device.
    pub fn new(link_up: bool) -> (r: Dispatcher)
        ensures
            r.wf(),
            r.is_link_up() == link_up,
            r.issued() == Seq::<CommandModel>::empty(),
            r.sent() == Seq::<CommandModel>::empty(),
            r.queued() == Seq::<CommandModel>::empty(),
            r.in_flight_model() is None,
    {
        let r = Dispatcher {
            link_up,
            queue: Vec::new(),
            in_flight: None,
            accepted: Ghost(Seq::empty()),
            handed: Ghost(Seq::empty()),
        };
        proof {
            assert(r.queued() =~= Seq::<CommandModel>::empty());
        }
        r
    }

    /// Accepts a command for dispatch.  While the link is up the command is
    /// appended to the device's queue, behind every command issued before
    /// it; while the link is down the command is refused at once with
    /// `Disconnected`, and the dispatcher is unchanged.
    pub fn issue(&mut self, cmd: QueuedCommand) -> (r: Result<(), TransportError>)
        requires
            old(self).wf(),
        ensures
            final(self).wf(),
            old(self).is_link_up() ==> ({
                &&& r is Ok
                &&& final(self).issued() == old(self).issued().push(cmd@)
                &&& final(self).queued() == old(self).queued().push(cmd@)
                &&& final(self).sent() == old(self).sent()
                &&& final(self).in_flight_model() == old(self).in_flight_model()
                &&& final(self).is_link_up()
            }),
            !old(self).is_link_up() ==> ({
                &&& r == Err::<(), TransportError>(TransportError::Disconnected)
                &&& *final(self) == *old(self)
            }),
    {
        if !self.link_up {
            return Err(TransportError::Disconnected);
        }
        let ghost old_queue = self.queue@;
        self.accepted = Ghost(self.accepted@.push(cmd@));
        self.queue.push(cmd);
        proof {
            assert(models(self.queue@) =~= models(old_queue).push(self.queue@.last()@));
        }
        Ok(())
    }

    /// Moves the front of the queue to the transport, if the transport is
    /// free and a command is waiting.  The command handed over is exactly
    /// the oldest queued one, so hand-off order equals issuance order.
    pub fn take_next(&mut self) -> (took: bool)
        requires
            old(self).wf(),
        ensures
            final(self).wf(),
            took <==> old(self).in_flight_model() is None && old(self).queued().len() > 0,
            took ==> ({
                &&& final(self).in_flight_model() == Some(old(self).queued()[0])
                &&& final(self).sent() == old(self).sent().push(old(self).queued()[0])
                &&& final(self).queued() == old(self).queued().drop_first()
                &&& final(self).issued() == old(self).issued()
                &&& final(self).is_link_up() == old(self).is_link_up()
            }),
            !took ==> *final(self) == *old(self),
    {
        if self.in_flight.is_some() {
            return false;
        }
        if self.queue.len() == 0 {
            proof {
                assert(self.queued().len() == 0);
            }
            return false;
        }
        let ghost old_queue = self.queue@;
        let cmd = self.queue.remove(0);
        self.handed = Ghost(self.handed@.push(cmd@));
        self.in_flight = Some(cmd);
        proof {
            assert(models(self.queue@) =~= models(old_queue).drop_first());
            assert(models(old_queue)[0] == old_queue[0]@);
            assert(self.issued() =~= self.sent() + self.queued());
        }
        true
    }

    /// The command currently at the transport, for the worker to write.
    pub fn current(&self) -> (r: Option<&QueuedCommand>)
        ensures
            r is Some <==> self.in_flight_model() is Some,
            r is Some ==> Some(r->Some_0@) == self.in_flight_model(),
    {
        match &self.in_flight {
            Some(c) => Some(c),
            None => None,
        }
    }

    /// Retires the in-flight command with the transport's outcome.  On
    /// success nothing is reported; on failure the command is handed back
    /// with its typed error, for the originator to observe — a failed write
    /// is never fatal and never silently dropped.
    pub fn complete(&mut self, outcome: Option<TransportError>) -> (r: Option<
        (QueuedCommand, TransportError),
    >)
        requires
            old(self).wf(),
            old(self).in_flight_model() is Some,
        ensures
            final(self).wf(),
            final(self).in_flight_model() is None,
            final(self).issued() == old(self).issued(),
            final(self).sent() == old(self).sent(),
            final(self).queued() == old(self).queued(),
            final(self).is_link_up() == old(self).is_link_up(),
            outcome is None ==> r is None,
            outcome matches Some(e) ==> (r matches Some(p) && p.0@ == old(self).in_flight_model()->Some_0
                && p.1 == e),
    {
        let cmd = self.in_flight.take();
        match (cmd, outcome) {
            (Some(c), Some(e)) => Some((c, e)),
            _ => None,
        }
    }

    /// Tears the dispatcher down when the device disconnects: the link is
    /// marked down and every in-flight and queued command is returned, in
    /// order, for the caller to report as `Disconnected` — abandoned, not
    /// silently dropped.
    pub fn link_lost(&mut self) -> (abandoned: Vec<QueuedCommand>)
        requires
            old(self).wf(),
        ensures
            final(self).wf(),
            !final(self).is_link_up(),
            final(self).in_flight_model() is None,
            final(self).queued() == Seq::<CommandModel>::empty(),
            final(self).issued() == final(self).sent(),
            final(self).sent() == old(self).sent(),
            models(abandoned@) == old(self).in_flight_seq() + old(self).queued(),
    {
        let mut abandoned: Vec<QueuedCommand> = Vec::new();
        let ghost old_inflight = self.in_flight_seq();
        let ghost old_queue = self.queue@;
        match self.in_flight.take() {
            Some(c) => {
                abandoned.push(c);
            },
            None => {},
        }
        let ghost head = abandoned@;
        abandoned.append(&mut self.queue);
        self.link_up = false;
        self.accepted = Ghost(self.handed@);
        proof {
            assert(models(head) =~= old_inflight);
            assert(models(abandoned@) =~= models(head) + models(old_queue));
            assert(self.queued() =~= Seq::<CommandModel>::empty());
            assert(self.issued() =~= self.sent() + self.queued());
        }
        abandoned
    }

    /// Marks the device's link up again after a reconnection.
    pub fn link_restored(&mut self)
        requires
            old(self).wf(),
        ensures
            final(self).wf(),
            final(self).is_link_up(),
            final(self).issued() == old(self).issued(),
            final(self).sent() == old(self).sent(),
            final(self).queued() == old(self).queued(),
            final(self).in_flight_model() == old(self).in_flight_model(),
    {
        self.link_up = true;
    }
}

/// Encodes a settings change into the command the dispatcher queues for
/// it: exactly the encoding table's bytes under the change's identifier.
/// A pair without a table entry is refused with the encoder's error.
pub fn prepare_command(id: CommandIdentifier, value: CommandValue) -> (r: Result<
    QueuedCommand,
    EncodingError,
>)
    ensures
        r is Ok <==> spec_encode(id, value) is Some,
        r is Ok ==> r->Ok_0.target == CommandTarget::Control(id) && r->Ok_0.payload@
            == spec_encode(id, value)->Some_0,
        r is Err ==> r == Result::<QueuedCommand, EncodingError>::Err(EncodingError::NoTableEntry),
{
    match encode(id, value) {
        Ok(payload) => Ok(QueuedCommand { target: CommandTarget::Control(id), payload }),
        Err(e) => Err(e),
    }
}

/// Builds the raw characteristic write the dispatcher queues for a
/// family-B settings change: the 13-byte frame around the payload byte,
/// addressed to the given characteristic.
pub fn prepare_raw_write(handle: CharacteristicHandle, payload_byte: u8) -> (r: QueuedCommand)
    ensures
        r.target == CommandTarget::Characteristic(handle),
        r.payload@ == frame_bytes(payload_byte),
{
    QueuedCommand { target: CommandTarget::Characteristic(handle), payload: build_raw_frame(payload_byte) }
}

/// Commands issued to one device reach the transport in issuance order:
/// at every reachable dispatcher state, the sequence handed to the
/// transport is a prefix of the sequence issued, in the same relative
/// order, and what was issued but not yet handed over is exactly the
/// queue's content, in order.  Per-device issuance is serialized through
/// the single queue, so this holds however many callers issue commands.
pub proof fn lemma_transport_order(d: Dispatcher)
    requires
        d.wf(),
    ensures
        d.issued() == d.sent() + d.queued(),
        d.sent() == d.issued().take(d.sent().len() as int),
{
    assert(d.sent() =~= (d.sent() + d.queued()).take(d.sent().len() as int));
}

} // verus!
