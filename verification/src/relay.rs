//! The result of a relay, out of the results of its two directions.
//!
//! A relay copies bytes from the client to the remote end and from the
//! remote end to the client, each direction on its own. The copying is the
//! driver's work; how the two ends are folded into one result is decided
//! here.

use vstd::prelude::*;
use crate::session::SessionError;

verus! {

/// How one direction of a relay ended.
#[derive(Clone, Copy, Debug, PartialEq, Eq, Structural)]
pub enum DirectionOutcome {
    /// The source reached its end after `bytes` bytes were copied.
    Finished { bytes: u64 },
    /// A read or a write failed.
    Failed,
    /// The unit of execution that ran the direction crashed.
    Panicked,
}

/// The result of a relay. The direction from the remote end to the client
/// is looked at first; a crash is an error of its own kind.
pub open spec fn spec_relay_result(
    client_to_remote: DirectionOutcome,
    remote_to_client: DirectionOutcome,
) -> Result<(u64, u64), SessionError> {
    match remote_to_client {
        DirectionOutcome::Panicked => Err(SessionError::PanicRecovery),
        DirectionOutcome::Failed => Err(SessionError::Transport),
        DirectionOutcome::Finished { bytes: back } => match client_to_remote {
            DirectionOutcome::Panicked => Err(SessionError::PanicRecovery),
            DirectionOutcome::Failed => Err(SessionError::Transport),
            DirectionOutcome::Finished { bytes: forth } => Ok((forth, back)),
        },
    }
}

/// Folds the outcomes of the two directions, both of which have ended, into
/// the result of the relay: the bytes copied from client to remote and from
/// remote to client, or the error.
pub fn relay_result(client_to_remote: DirectionOutcome, remote_to_client: DirectionOutcome) -> (result:
    Result<(u64, u64), SessionError>)
    ensures
        result == spec_relay_result(client_to_remote, remote_to_client),
{
    match remote_to_client {
        DirectionOutcome::Panicked => Err(SessionError::PanicRecovery),
        DirectionOutcome::Failed => Err(SessionError::Transport),
        DirectionOutcome::Finished { bytes: back } => match client_to_remote {
            DirectionOutcome::Panicked => Err(SessionError::PanicRecovery),
            DirectionOutcome::Failed => Err(SessionError::Transport),
            DirectionOutcome::Finished { bytes: forth } => Ok((forth, back)),
        },
    }
}

/// A relay succeeds exactly when both directions reached the end of their
/// source, and then it reports the two counts as they were.
pub proof fn relay_succeeds_when_both_finish(
    client_to_remote: DirectionOutcome,
    remote_to_client: DirectionOutcome,
)
    ensures
        spec_relay_result(client_to_remote, remote_to_client) is Ok <==> (client_to_remote is Finished
            && remote_to_client is Finished),
        spec_relay_result(client_to_remote, remote_to_client) is Ok ==> spec_relay_result(
            client_to_remote,
            remote_to_client,
        ) == Ok::<(u64, u64), SessionError>(
            (client_to_remote->bytes, remote_to_client->bytes),
        ),
        (client_to_remote is Panicked || remote_to_client is Panicked) ==> spec_relay_result(
            client_to_remote,
            remote_to_client,
        ) is Err,
{
}

/// Where the copying of one direction stands.
#[derive(Clone, Copy, Debug, PartialEq, Eq, Structural)]
pub enum CopyPhase {
    /// A read from the source is outstanding.
    Reading,
    /// The write of the chunk that was read, of `length` bytes, is
    /// outstanding.
    Writing { length: usize },
    /// The direction has ended.
    Done,
}

/// What the driver reports to a direction.
#[derive(Clone, Copy, Debug, PartialEq, Eq, Structural)]
pub enum CopyEvent {
    /// The read gave `length` bytes; none means that the source is at its
    /// end.
    Read { length: usize },
    /// The read failed.
    ReadFailed,
    /// The chunk was written to the destination, all of it.
    Written,
    /// The write failed.
    WriteFailed,
}

/// What a direction asks the driver to do next.
#[derive(Clone, Copy, Debug, PartialEq, Eq, Structural)]
pub enum CopyAction {
    /// Read a chunk from the source, then report `Read` or `ReadFailed`.
    Read,
    /// Write the chunk that was just read, of `length` bytes, to the
    /// destination, then report `Written` or `WriteFailed`.
    Write { length: usize },
    /// The direction is over, with `outcome`. Where `shutdown` is set, shut
    /// down the writing half of the destination and the reading half of the
    /// source, so that the peer sees the end of the stream while the other
    /// direction goes on.
    Finish { outcome: DirectionOutcome, shutdown: bool },
}

/// One direction of a relay: it reads a chunk, writes it whole, and only
/// then reads again, until the source is at its end or something fails.
#[derive(Clone, Copy, Debug, PartialEq, Eq, Structural)]
pub struct Direction {
    pub phase: CopyPhase,
    /// The bytes written so far. A count beyond the largest `u64` stays at
    /// the largest `u64`.
    pub copied: u64,
}

/// The sum of a count and the length of a chunk, held at the largest `u64`.
pub open spec fn spec_count(copied: u64, length: usize) -> u64 {
    if copied + length > u64::MAX {
        u64::MAX
    } else {
        (copied + length) as u64
    }
}

/// The direction ends with `outcome`.
pub open spec fn spec_finish(d: Direction, outcome: DirectionOutcome, shutdown: bool) -> (
    Direction,
    CopyAction,
) {
    (Direction { phase: CopyPhase::Done, copied: d.copied }, CopyAction::Finish { outcome, shutdown })
}

/// The transition function of a direction.
///
/// The end of the source and a failed read end the direction with a
/// shutdown; a failed write ends it without one. An event that the phase
/// does not wait for ends it as a failed write does.
pub open spec fn spec_copy_step(d: Direction, event: CopyEvent) -> (Direction, CopyAction) {
    match (d.phase, event) {
        (CopyPhase::Reading, CopyEvent::Read { length }) => if length == 0 {
            spec_finish(d, DirectionOutcome::Finished { bytes: d.copied }, true)
        } else {
            (
                Direction { phase: CopyPhase::Writing { length }, copied: d.copied },
                CopyAction::Write { length },
            )
        },
        (CopyPhase::Reading, CopyEvent::ReadFailed) => spec_finish(
            d,
            DirectionOutcome::Failed,
            true,
        ),
        (CopyPhase::Writing { length }, CopyEvent::Written) => (
            Direction { phase: CopyPhase::Reading, copied: spec_count(d.copied, length) },
            CopyAction::Read,
        ),
        _ => spec_finish(d, DirectionOutcome::Failed, false),
    }
}

/// What a direction has the driver write, chunk after chunk, in answer to a
/// sequence of events: the lengths of the chunks in the order of the writes.
pub open spec fn spec_writes(d: Direction, events: Seq<CopyEvent>) -> Seq<usize>
    decreases events.len(),
{
    if events.len() == 0 {
        Seq::empty()
    } else {
        let (next, action) = spec_copy_step(d, events[0]);
        let rest = spec_writes(next, events.drop_first());
        match action {
            CopyAction::Write { length } => seq![length] + rest,
            _ => rest,
        }
    }
}

impl Direction {
    /// Begins a direction. The first action is to read.
    pub fn start() -> (result: (Direction, CopyAction))
        ensures
            result.0 == (Direction { phase: CopyPhase::Reading, copied: 0 }),
            result.1 == CopyAction::Read,
    {
        (Direction { phase: CopyPhase::Reading, copied: 0 }, CopyAction::Read)
    }

    fn finish(&mut self, outcome: DirectionOutcome, shutdown: bool) -> (action: CopyAction)
        ensures
            (*final(self), action) == spec_finish(*old(self), outcome, shutdown),
    {
        self.phase = CopyPhase::Done;
        CopyAction::Finish { outcome, shutdown }
    }

    /// Takes the event that ended the last action and gives the next action.
    pub fn step(&mut self, event: CopyEvent) -> (action: CopyAction)
        ensures
            (*final(self), action) == spec_copy_step(*old(self), event),
    {
        match self.phase {
            CopyPhase::Reading => match event {
                CopyEvent::Read { length } => {
                    if length == 0 {
                        let bytes = self.copied;
                        self.finish(DirectionOutcome::Finished { bytes }, true)
                    } else {
                        self.phase = CopyPhase::Writing { length };
                        CopyAction::Write { length }
                    }
                },
                CopyEvent::ReadFailed => self.finish(DirectionOutcome::Failed, true),
                _ => self.finish(DirectionOutcome::Failed, false),
            },
            CopyPhase::Writing { length } => match event {
                CopyEvent::Written => {
                    let room: u64 = u64::MAX - self.copied;
                    if length as u64 > room {
                        self.copied = u64::MAX;
                    } else {
                        self.copied = self.copied + length as u64;
                    }
                    self.phase = CopyPhase::Reading;
                    CopyAction::Read
                },
                _ => self.finish(DirectionOutcome::Failed, false),
            },
            CopyPhase::Done => self.finish(DirectionOutcome::Failed, false),
        }
    }
}

/// Within one direction nothing is reordered and nothing is read ahead: a
/// chunk is handed to the destination as it was read, and a read is asked
/// for only when the chunk before it has been written whole. The count grows
/// by the length of each chunk written, and a direction that reaches the
/// end of its source reports that count.
pub proof fn chunks_are_written_before_the_next_read(d: Direction, event: CopyEvent)
    ensures
        spec_copy_step(d, event).1 is Write ==> d.phase == CopyPhase::Reading && event
            == (CopyEvent::Read { length: spec_copy_step(d, event).1->length }),
        spec_copy_step(d, event).1 is Read ==> d.phase is Writing && event == CopyEvent::Written
            && spec_copy_step(d, event).0.copied == spec_count(d.copied, d.phase->length),
        !(spec_copy_step(d, event).1 is Read) ==> spec_copy_step(d, event).0.copied == d.copied,
        spec_copy_step(d, event).1 is Finish <==> spec_copy_step(d, event).0.phase
            == CopyPhase::Done,
        (spec_copy_step(d, event).1 is Finish && spec_copy_step(d, event).1->outcome is Finished)
            ==> (d.phase == CopyPhase::Reading && event == (CopyEvent::Read { length: 0 })
            && spec_copy_step(d, event).1->outcome->bytes == d.copied && spec_copy_step(
            d,
            event,
        ).1->shutdown),
{
}

/// The events of a transport that works: for each chunk the read, then the
/// write.
pub open spec fn spec_transport_events(lengths: Seq<usize>) -> Seq<CopyEvent>
    decreases lengths.len(),
{
    if lengths.len() == 0 {
        Seq::empty()
    } else {
        seq![CopyEvent::Read { length: lengths[0] }, CopyEvent::Written] + spec_transport_events(
            lengths.drop_first(),
        )
    }
}

/// While the driver reports what a working transport reports, a chunk read
/// and then its write, the chunks written are the chunks read, each once
/// and in the order in which they came.
pub proof fn chunks_keep_their_order(d: Direction, lengths: Seq<usize>)
    requires
        d.phase == CopyPhase::Reading,
        forall|i: int| 0 <= i < lengths.len() ==> lengths[i] > 0,
    ensures
        spec_writes(d, spec_transport_events(lengths)) == lengths,
    decreases lengths.len(),
{
    let events = spec_transport_events(lengths);
    if lengths.len() == 0 {
        assert(spec_writes(d, events) =~= lengths);
    } else {
        let first = lengths[0];
        let after_read = spec_copy_step(d, events[0]).0;
        let after_write = spec_copy_step(after_read, CopyEvent::Written).0;
        let tail = events.drop_first();
        assert(tail[0] == CopyEvent::Written);
        assert(tail.drop_first() =~= spec_transport_events(lengths.drop_first()));
        chunks_keep_their_order(after_write, lengths.drop_first());
        assert(spec_writes(after_read, tail) == spec_writes(after_write, tail.drop_first()));
        assert(spec_writes(d, events) =~= seq![first] + spec_writes(after_read, tail));
        assert(seq![first] + lengths.drop_first() =~= lengths);
    }
}

} // verus!
