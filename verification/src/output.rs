//! The buffered output channel.
//!
//! Writes are queued in memory. A flush hands the queued bytes to the device
//! until all of them are out, however many writes that takes. The device
//! itself is not in here: a flush is a conversation in steps. The channel says
//! what to do next (`FlushStep`), the caller does it and reports what the
//! device answered (`WriteOutcome`).

use crate::termcodes::TermCode;
use vstd::prelude::*;

verus! {

/// What the device answered to one write of the unwritten bytes.
#[derive(Debug, PartialEq, Eq)]
pub enum WriteOutcome<E> {
    /// The device took this many bytes from the front.
    Written(usize),
    /// The write was interrupted before it took anything.
    Interrupted,
    /// The write failed with the device's own error.
    Failed(E),
}

/// Why a flush gave up.
#[derive(Debug, PartialEq, Eq)]
pub enum FlushError<E> {
    /// The device took no bytes, yet reported no error.
    WriteZero,
    /// The device's own error, as it was reported.
    Device(E),
}

/// What a flush asks of the caller next.
#[derive(Copy, Clone, Debug, PartialEq, Eq)]
pub enum FlushStep {
    /// Write the unwritten bytes to the device and report the outcome.
    Write,
    /// Every byte is out: flush the device itself. What it reports is the
    /// result of the flush.
    Sync,
}

/// The step a flush starts with, or goes on with, when `pending` is unwritten.
pub open spec fn first_step(pending: Seq<u8>) -> FlushStep {
    if pending.len() == 0 {
        FlushStep::Sync
    } else {
        FlushStep::Write
    }
}

/// The unwritten bytes once the device has answered a write of `pending`:
/// only what the device confirmed is gone.
pub open spec fn after_write<E>(pending: Seq<u8>, outcome: WriteOutcome<E>) -> Seq<u8> {
    match outcome {
        WriteOutcome::Written(n) => pending.skip(n as int),
        WriteOutcome::Interrupted => pending,
        WriteOutcome::Failed(_) => pending,
    }
}

/// How a flush goes on after the device's answer to a write of `pending`:
/// with a next step, or not at all.
pub open spec fn next_step<E>(pending: Seq<u8>, outcome: WriteOutcome<E>) -> Result<
    FlushStep,
    FlushError<E>,
> {
    match outcome {
        WriteOutcome::Written(n) => if n == 0 {
            Err(FlushError::WriteZero)
        } else {
            Ok(first_step(pending.skip(n as int)))
        },
        WriteOutcome::Interrupted => Ok(first_step(pending)),
        WriteOutcome::Failed(e) => Err(FlushError::Device(e)),
    }
}

/// Bytes queued for the device. Its view is the bytes not yet written, in
/// the order they were queued.
pub struct BufferedFile {
    buf: Vec<u8>,
    // How many bytes at the front of `buf` the device has already taken.
    written: usize,
}

impl View for BufferedFile {
    type V = Seq<u8>;

    closed spec fn view(&self) -> Seq<u8> {
        self.buf@.skip(self.written as int)
    }
}

impl BufferedFile {
    /// The invariant of the channel.
    pub closed spec fn wf(&self) -> bool {
        self.written <= self.buf@.len()
    }

    /// A channel with nothing queued.
    pub fn new() -> (channel: BufferedFile)
        ensures
            channel.wf(),
            channel@ == Seq::<u8>::empty(),
    {
        let channel = BufferedFile { buf: Vec::new(), written: 0 };
        assert(channel@ =~= Seq::<u8>::empty());
        channel
    }

    /// Queues `bytes` behind what is already queued, and returns how many
    /// were queued: all of them.
    pub fn write(&mut self, bytes: &[u8]) -> (count: usize)
        requires
            old(self).wf(),
        ensures
            final(self).wf(),
            final(self)@ == old(self)@ + bytes@,
            count == bytes@.len(),
    {
        self.buf.extend_from_slice(bytes);
        assert(self@ =~= old(self)@ + bytes@);
        bytes.len()
    }

    /// Queues a control sequence.
    pub fn emit<C: TermCode>(&mut self, code: &C)
        requires
            old(self).wf(),
        ensures
            final(self).wf(),
            final(self)@ == old(self)@ + code.code(),
    {
        code.write_to(&mut self.buf);
        assert(self@ =~= old(self)@ + code.code());
    }

    /// The bytes not yet written: what a `Write` step hands to the device.
    pub fn unwritten(&self) -> (bytes: &[u8])
        requires
            self.wf(),
        ensures
            bytes@ == self@,
    {
        let bytes = vstd::slice::slice_subrange(self.buf.as_slice(), self.written, self.buf.len());
        assert(bytes@ =~= self@);
        bytes
    }

    /// Starts a flush. With nothing queued there is nothing to write, and
    /// the flush goes straight to syncing the device.
    pub fn begin_flush(&self) -> (step: FlushStep)
        requires
            self.wf(),
        ensures
            step == first_step(self@),
    {
        if self.written < self.buf.len() {
            FlushStep::Write
        } else {
            FlushStep::Sync
        }
    }

    /// Takes the device's answer to a `Write` step and says how the flush
    /// goes on. Bytes that the device confirmed leave the queue, and no
    /// others: an interrupted write is tried again, a write of zero bytes or
    /// a failed one ends the flush with everything unconfirmed still queued.
    pub fn on_write<E>(&mut self, outcome: WriteOutcome<E>) -> (next: Result<
        FlushStep,
        FlushError<E>,
    >)
        requires
            old(self).wf(),
            outcome matches WriteOutcome::Written(n) ==> n <= old(self)@.len(),
        ensures
            final(self).wf(),
            final(self)@ == after_write(old(self)@, outcome),
            next == next_step(old(self)@, outcome),
    {
        let left: usize = self.buf.len() - self.written;
        assert(self@.len() == left);
        let next: Result<FlushStep, FlushError<E>> = match outcome {
            WriteOutcome::Written(n) => {
                if n == 0 {
                    Err(FlushError::WriteZero)
                } else {
                    self.written = self.written + n;
                    if n < left {
                        Ok(FlushStep::Write)
                    } else {
                        Ok(FlushStep::Sync)
                    }
                }
            },
            WriteOutcome::Interrupted => Ok(self.begin_flush()),
            WriteOutcome::Failed(e) => Err(FlushError::Device(e)),
        };
        assert(self@ =~= after_write(old(self)@, outcome));
        match &next {
            Ok(FlushStep::Write) => {},
            _ => {
                self.compact();
            },
        }
        next
    }

    /// Drops the bytes that the device has taken from the front of the
    /// buffer. The unwritten bytes stay as they are.
    fn compact(&mut self)
        requires
            old(self).wf(),
        ensures
            final(self).wf(),
            final(self)@ == old(self)@,
            final(self).written == 0,
    {
        if self.written > 0 {
            let rest = self.buf.split_off(self.written);
            self.buf = rest;
            self.written = 0;
        }
        assert(self@ =~= old(self)@);
    }
}

/// How far a flush has got.
pub struct FlushRun<E> {
    /// What is still queued.
    pub pending: Seq<u8>,
    /// How many writes the device was asked for.
    pub writes: nat,
    /// How many bytes the device confirmed, all writes together.
    pub confirmed: nat,
    /// Where the flush stands: at the step to take next, or failed.
    pub state: Result<FlushStep, FlushError<E>>,
}

/// True when the device never confirms more bytes than it was given, at any
/// point of a flush of `pending` that gets `answers` to its writes.
pub open spec fn answers_fit<E>(pending: Seq<u8>, answers: Seq<WriteOutcome<E>>) -> bool
    decreases answers.len(),
{
    if answers.len() == 0 {
        true
    } else {
        &&& answers[0] matches WriteOutcome::Written(n) ==> n <= pending.len()
        &&& answers_fit(after_write(pending, answers[0]), answers.drop_first())
    }
}

/// A flush of `pending` against a device that gives `answers` to the writes
/// it is asked for, one after the other. The flush asks for a write as long
/// as something is queued, the last answer was no failure, and there are
/// answers left.
pub open spec fn flush_run<E>(pending: Seq<u8>, answers: Seq<WriteOutcome<E>>) -> FlushRun<E>
    decreases answers.len(),
{
    if first_step(pending) == FlushStep::Sync || answers.len() == 0 {
        FlushRun { pending, writes: 0, confirmed: 0, state: Ok(first_step(pending)) }
    } else {
        let left = after_write(pending, answers[0]);
        let taken = (pending.len() - left.len()) as nat;
        let next = next_step(pending, answers[0]);
        if next == Ok::<FlushStep, FlushError<E>>(FlushStep::Write) {
            let rest = flush_run(left, answers.drop_first());
            FlushRun {
                pending: rest.pending,
                writes: rest.writes + 1,
                confirmed: rest.confirmed + taken,
                state: rest.state,
            }
        } else {
            FlushRun { pending: left, writes: 1, confirmed: taken, state: next }
        }
    }
}

/// A flush of nothing asks the device for no write and goes straight to the
/// sync, whatever the device would have answered. So does a flush that
/// follows a flush which got to the sync, when nothing was queued between
/// the two.
pub proof fn lemma_flush_is_idempotent<E>(
    pending: Seq<u8>,
    answers: Seq<WriteOutcome<E>>,
    later: Seq<WriteOutcome<E>>,
)
    requires
        answers_fit(pending, answers),
    ensures
        flush_run(Seq::<u8>::empty(), later).writes == 0,
        flush_run(Seq::<u8>::empty(), later).state == Ok::<FlushStep, FlushError<E>>(
            FlushStep::Sync,
        ),
        flush_run(pending, answers).state == Ok::<FlushStep, FlushError<E>>(FlushStep::Sync) ==> {
            &&& flush_run(pending, answers).pending.len() == 0
            &&& flush_run(flush_run(pending, answers).pending, later).writes == 0
            &&& flush_run(flush_run(pending, answers).pending, later).state == Ok::<
                FlushStep,
                FlushError<E>,
            >(FlushStep::Sync)
            &&& flush_run(flush_run(pending, answers).pending, later).pending.len() == 0
        },
    decreases answers.len(),
{
    if first_step(pending) == FlushStep::Sync || answers.len() == 0 {
    } else {
        lemma_flush_is_idempotent(after_write(pending, answers[0]), answers.drop_first(), later);
    }
}

/// However a flush ends, what is still queued is what was queued without
/// the bytes that the device confirmed: nothing is lost and nothing is sent
/// twice. The device is asked for one write per answer used, and for none
/// once a write failed.
pub proof fn lemma_flush_keeps_the_unconfirmed<E>(pending: Seq<u8>, answers: Seq<WriteOutcome<E>>)
    requires
        answers_fit(pending, answers),
    ensures
        flush_run(pending, answers).confirmed <= pending.len(),
        flush_run(pending, answers).pending == pending.skip(
            flush_run(pending, answers).confirmed as int,
        ),
        flush_run(pending, answers).writes <= answers.len(),
        flush_run(pending, answers).state == Ok::<FlushStep, FlushError<E>>(FlushStep::Sync)
            <==> flush_run(pending, answers).confirmed == pending.len(),
    decreases answers.len(),
{
    if first_step(pending) == FlushStep::Sync || answers.len() == 0 {
        assert(pending.skip(0) =~= pending);
    } else {
        let left = after_write(pending, answers[0]);
        let taken = (pending.len() - left.len()) as nat;
        lemma_flush_keeps_the_unconfirmed(left, answers.drop_first());
        assert(left =~= pending.skip(taken as int));
        let rest = flush_run(left, answers.drop_first());
        assert(left.skip(rest.confirmed as int) =~= pending.skip((rest.confirmed + taken) as int));
    }
}

/// A flush that ends with `WriteZero` ended on a write of zero bytes: the
/// last write that the device was asked for. That write took nothing from
/// the queue, and only what the writes before it confirmed has left it.
pub proof fn lemma_write_zero_keeps_queue<E>(pending: Seq<u8>, answers: Seq<WriteOutcome<E>>)
    requires
        answers_fit(pending, answers),
        flush_run(pending, answers).state == Err::<FlushStep, FlushError<E>>(
            FlushError::WriteZero,
        ),
    ensures
        1 <= flush_run(pending, answers).writes <= answers.len(),
        answers[flush_run(pending, answers).writes - 1] == WriteOutcome::<E>::Written(0),
        flush_run(pending, answers).pending == flush_run(
            pending,
            answers.take(flush_run(pending, answers).writes - 1),
        ).pending,
        flush_run(pending, answers).confirmed == flush_run(
            pending,
            answers.take(flush_run(pending, answers).writes - 1),
        ).confirmed,
        flush_run(pending, answers).pending == pending.skip(
            flush_run(pending, answers).confirmed as int,
        ),
        flush_run(pending, answers).confirmed < pending.len(),
    decreases answers.len(),
{
    lemma_flush_keeps_the_unconfirmed(pending, answers);
    let run = flush_run(pending, answers);
    let left = after_write(pending, answers[0]);
    let next = next_step(pending, answers[0]);
    if next == Ok::<FlushStep, FlushError<E>>(FlushStep::Write) {
        let tail = answers.drop_first();
        lemma_write_zero_keeps_queue(left, tail);
        let rest = flush_run(left, tail);
        assert(tail[rest.writes - 1] == answers[run.writes - 1]);
        let shorter = answers.take(run.writes - 1);
        assert(tail.take(rest.writes - 1) =~= shorter.drop_first());
        assert(shorter[0] == answers[0]);
    } else {
        assert(pending.skip(0) =~= pending);
        assert(answers.take(0).len() == 0);
    }
}

} // verus!
