//! The output forwarder: each non-empty read from one of the shell's output
//! streams becomes one chunk on the outbound queue, byte for byte.
use tokio::sync::mpsc::UnboundedSender;
use vstd::prelude::*;

use crate::channel::offer;

verus! {

/// The most bytes taken from a stream in one read.
pub const READ_BUFFER_SIZE: usize = 4096;

/// The bytes of a run of chunks, in order.
pub open spec fn concat(chunks: Seq<Seq<u8>>) -> Seq<u8>
    decreases chunks.len(),
{
    if chunks.len() == 0 {
        Seq::empty()
    } else {
        concat(chunks.drop_last()) + chunks.last()
    }
}

/// What one read of an output stream gave.
#[derive(Clone, Copy, Debug, PartialEq, Eq, Structural)]
pub enum ReadOutcome {
    /// This many bytes were placed at the start of the buffer; zero means
    /// the stream has ended.
    Bytes(usize),
    /// The read failed.
    Failed,
}

/// Why an output forwarder stopped.
#[derive(Clone, Copy, Debug, PartialEq, Eq, Structural)]
pub enum StopReason {
    /// The stream reached its end: the normal way to stop.
    EndOfStream,
    /// A read failed; it is not retried.
    ReadFailure,
}

/// What the output forwarder does with one read.
pub enum OutputAction {
    /// Push this chunk onto the outbound queue, then read again.
    Push(Vec<u8>),
    /// Stop reading this stream.
    Stop(StopReason),
}

/// What became of one read, once the forwarder has acted on it.
#[derive(Clone, Copy, Debug, PartialEq, Eq, Structural)]
pub enum OutputStep {
    /// A chunk was pushed; `delivered` is false when the receiving end of
    /// the outbound queue was gone and the chunk was dropped. Reading goes
    /// on either way, so that the shell never blocks on a full pipe.
    Forwarded { delivered: bool },
    /// The forwarder has stopped.
    Stopped(StopReason),
}

/// The decision for one read: a chunk of exactly the bytes read, or a stop
/// on end of stream or failure.
pub fn chunk_for(buf: &[u8], outcome: ReadOutcome) -> (r: OutputAction)
    requires
        outcome matches ReadOutcome::Bytes(n) ==> n <= buf@.len(),
    ensures
        match outcome {
            ReadOutcome::Bytes(n) => if n == 0 {
                r == OutputAction::Stop(StopReason::EndOfStream)
            } else {
                r matches OutputAction::Push(c) && c@ == buf@.subrange(0, n as int)
            },
            ReadOutcome::Failed => r == OutputAction::Stop(StopReason::ReadFailure),
        },
{
    match outcome {
        ReadOutcome::Bytes(n) => {
            if n == 0 {
                OutputAction::Stop(StopReason::EndOfStream)
            } else {
                let mut chunk: Vec<u8> = Vec::new();
                let mut i: usize = 0;
                while i < n
                    invariant
                        i <= n,
                        n <= buf@.len(),
                        chunk@ == buf@.subrange(0, i as int),
                    decreases n - i,
                {
                    chunk.push(buf[i]);
                    i = i + 1;
                }
                OutputAction::Push(chunk)
            }
        },
        ReadOutcome::Failed => OutputAction::Stop(StopReason::ReadFailure),
    }
}

/// The state of one output forwarder: the bytes read from its stream and the
/// chunks it has pushed, in order.
pub struct OutputForwarder {
    read: Ghost<Seq<u8>>,
    pushed: Ghost<Seq<Seq<u8>>>,
    stopped: Option<StopReason>,
}

impl OutputForwarder {
    /// The bytes read from the stream so far.
    pub closed spec fn read_bytes(&self) -> Seq<u8> {
        self.read@
    }

    /// The chunks pushed onto the outbound queue so far, whether or not its
    /// receiving end still took them.
    pub closed spec fn pushed(&self) -> Seq<Seq<u8>> {
        self.pushed@
    }

    /// Why the forwarder stopped, once it has.
    pub closed spec fn stop_reason(&self) -> Option<StopReason> {
        self.stopped
    }

    /// Every byte read is in exactly one pushed chunk, in order, and every
    /// chunk is one non-empty read.
    pub closed spec fn wf(&self) -> bool {
        &&& concat(self.pushed@) == self.read@
        &&& forall|i: int|
            0 <= i < self.pushed@.len() ==> 0 < #[trigger] self.pushed@[i].len()
                <= READ_BUFFER_SIZE
    }

    pub fn new() -> (r: OutputForwarder)
        ensures
            r.wf(),
            r.read_bytes() == Seq::<u8>::empty(),
            r.pushed() == Seq::<Seq<u8>>::empty(),
            r.stop_reason() is None,
    {
        OutputForwarder { read: Ghost(Seq::empty()), pushed: Ghost(Seq::empty()), stopped: None }
    }

    pub fn stopped(&self) -> (r: Option<StopReason>)
        ensures
            r == self.stop_reason(),
    {
        self.stopped
    }

    /// Acts on one read of the stream into `buf`: pushes a non-empty read
    /// onto `queue` as one chunk and goes on, even where the queue's
    /// receiving end is gone; stops on end of stream or on a failed read,
    /// pushing nothing.
    pub fn forward(&mut self, buf: &[u8], outcome: ReadOutcome, queue: &UnboundedSender<Vec<u8>>) -> (r: OutputStep)
        requires
            old(self).wf(),
            old(self).stop_reason() is None,
            buf@.len() <= READ_BUFFER_SIZE,
            outcome matches ReadOutcome::Bytes(n) ==> n <= buf@.len(),
        ensures
            final(self).wf(),
            match outcome {
                ReadOutcome::Bytes(n) => if n == 0 {
                    &&& r == OutputStep::Stopped(StopReason::EndOfStream)
                    &&& final(self).stop_reason() == Some(StopReason::EndOfStream)
                    &&& final(self).pushed() == old(self).pushed()
                    &&& final(self).read_bytes() == old(self).read_bytes()
                } else {
                    &&& r is Forwarded
                    &&& final(self).stop_reason() is None
                    &&& final(self).pushed() == old(self).pushed().push(buf@.subrange(0, n as int))
                    &&& final(self).read_bytes() == old(self).read_bytes() + buf@.subrange(0, n as int)
                },
                ReadOutcome::Failed => {
                    &&& r == OutputStep::Stopped(StopReason::ReadFailure)
                    &&& final(self).stop_reason() == Some(StopReason::ReadFailure)
                    &&& final(self).pushed() == old(self).pushed()
                    &&& final(self).read_bytes() == old(self).read_bytes()
                },
            },
    {
        match chunk_for(buf, outcome) {
            OutputAction::Push(chunk) => {
                proof {
                    let chunks = self.pushed@.push(chunk@);
                    assert(chunks.drop_last() =~= self.pushed@);
                    assert forall|i: int| 0 <= i < chunks.len() implies 0 < #[trigger] chunks[i].len()
                        <= READ_BUFFER_SIZE by {
                        if i < self.pushed@.len() {
                            assert(chunks[i] == self.pushed@[i]);
                        }
                    }
                    self.pushed@ = chunks;
                    self.read@ = self.read@ + chunk@;
                }
                let delivered = offer(queue, chunk).is_ok();
                OutputStep::Forwarded { delivered }
            },
            OutputAction::Stop(reason) => {
                self.stopped = Some(reason);
                OutputStep::Stopped(reason)
            },
        }
    }
}

/// No loss: every byte read from a stream lies in exactly one pushed chunk,
/// in the order read, and no pushed chunk is empty or longer than one read.
pub proof fn lemma_no_loss(f: &OutputForwarder)
    requires
        f.wf(),
    ensures
        concat(f.pushed()) == f.read_bytes(),
        forall|i: int| 0 <= i < f.pushed().len() ==> 0 < #[trigger] f.pushed()[i].len() <= READ_BUFFER_SIZE,
{
}

} // verus!
