//! The input forwarder: each inbound line becomes its UTF-8 bytes and one
//! newline, written to the shell's input in the order the lines arrived.
use vstd::prelude::*;
use vstd::utf8::encode_utf8;

verus! {

/// The byte that ends each line written to the shell.
pub const NEWLINE: u8 = 10;

/// The bytes written to the shell for one inbound line.
pub open spec fn line_of(text: Seq<char>) -> Seq<u8> {
    encode_utf8(text).push(NEWLINE)
}

/// The bytes written to the shell for a run of inbound lines, in order.
pub open spec fn lines_of(items: Seq<Seq<char>>) -> Seq<u8>
    decreases items.len(),
{
    if items.len() == 0 {
        Seq::empty()
    } else {
        lines_of(items.drop_last()) + line_of(items.last())
    }
}

/// The bytes that carry `input` to the shell: its UTF-8 encoding and a newline.
pub fn encode_line(input: &str) -> (r: Vec<u8>)
    ensures
        r@ == line_of(input@),
{
    let bytes = input.as_bytes();
    let mut out: Vec<u8> = Vec::new();
    let mut i: usize = 0;
    while i < bytes.len()
        invariant
            i <= bytes@.len(),
            bytes@ == encode_utf8(input@),
            out@ == bytes@.subrange(0, i as int),
        decreases bytes@.len() - i,
    {
        out.push(bytes[i]);
        i = i + 1;
    }
    out.push(NEWLINE);
    assert(bytes@.subrange(0, bytes@.len() as int) =~= bytes@);
    out
}

/// What the input forwarder is handed by its queue.
pub enum InboundEvent {
    /// One line of text to send to the shell.
    Item(String),
    /// Every sender of the queue is gone.
    QueueClosed,
}

/// What the input forwarder does next.
pub enum InputAction {
    /// Write these bytes to the shell's input, then flush.
    Write(Vec<u8>),
    /// Stop: nothing more will arrive.
    Stop,
}

/// Which half of a line's delivery failed.
#[derive(Clone, Copy, Debug, PartialEq, Eq, Structural)]
pub enum WriteFailure {
    Write,
    Flush,
}

/// What follows a write or a flush of the shell's input.
#[derive(Clone, Copy, Debug, PartialEq, Eq, Structural)]
pub enum FollowUp {
    /// Flush the shell's input.
    Flush,
    /// Wait for the next inbound line.
    NextItem,
    /// Report the failure, then wait for the next inbound line: a failure
    /// never ends the forwarder, and the line is not retried.
    ReportAndNextItem(WriteFailure),
}

/// The state of the input forwarder: the lines it has received and the
/// bytes it has asked to write, in order.
pub struct InputForwarder {
    received: Ghost<Seq<Seq<char>>>,
    written: Ghost<Seq<u8>>,
    finished: bool,
}

impl InputForwarder {
    /// The lines received so far, in order.
    pub closed spec fn received(&self) -> Seq<Seq<char>> {
        self.received@
    }

    /// The bytes handed out for writing so far, in order.
    pub closed spec fn written(&self) -> Seq<u8> {
        self.written@
    }

    /// Whether the queue has closed.
    pub closed spec fn is_finished(&self) -> bool {
        self.finished
    }

    /// What was written is exactly the received lines, each followed by a
    /// newline, in the order received.
    pub closed spec fn wf(&self) -> bool {
        self.written@ == lines_of(self.received@)
    }

    pub fn new() -> (r: InputForwarder)
        ensures
            r.wf(),
            r.received() == Seq::<Seq<char>>::empty(),
            r.written() == Seq::<u8>::empty(),
            !r.is_finished(),
    {
        InputForwarder { received: Ghost(Seq::empty()), written: Ghost(Seq::empty()), finished: false }
    }

    pub fn finished(&self) -> (r: bool)
        ensures
            r == self.is_finished(),
    {
        self.finished
    }

    /// Decides what to do with what the queue handed over: a line is written
    /// with its newline; a closed queue ends the forwarder.
    pub fn step(&mut self, event: InboundEvent) -> (r: InputAction)
        requires
            old(self).wf(),
            !old(self).is_finished(),
        ensures
            final(self).wf(),
            match event {
                InboundEvent::Item(text) => {
                    &&& r matches InputAction::Write(bytes) && bytes@ == line_of(text@)
                    &&& final(self).received() == old(self).received().push(text@)
                    &&& final(self).written() == old(self).written() + line_of(text@)
                    &&& !final(self).is_finished()
                },
                InboundEvent::QueueClosed => {
                    &&& r is Stop
                    &&& final(self).received() == old(self).received()
                    &&& final(self).written() == old(self).written()
                    &&& final(self).is_finished()
                },
            },
    {
        match event {
            InboundEvent::Item(text) => {
                let bytes = encode_line(text.as_str());
                proof {
                    let items = self.received@.push(text@);
                    assert(items.drop_last() =~= self.received@);
                    self.received@ = items;
                    self.written@ = self.written@ + bytes@;
                }
                InputAction::Write(bytes)
            },
            InboundEvent::QueueClosed => {
                self.finished = true;
                InputAction::Stop
            },
        }
    }

    /// What follows a write of a line: a flush when it succeeded, else a
    /// report and the next line.
    pub fn after_write(&self, succeeded: bool) -> (r: FollowUp)
        ensures
            succeeded ==> r == FollowUp::Flush,
            !succeeded ==> r == FollowUp::ReportAndNextItem(WriteFailure::Write),
    {
        if succeeded {
            FollowUp::Flush
        } else {
            FollowUp::ReportAndNextItem(WriteFailure::Write)
        }
    }

    /// What follows a flush: the next line, after a report when it failed.
    pub fn after_flush(&self, succeeded: bool) -> (r: FollowUp)
        ensures
            succeeded ==> r == FollowUp::NextItem,
            !succeeded ==> r == FollowUp::ReportAndNextItem(WriteFailure::Flush),
    {
        if succeeded {
            FollowUp::NextItem
        } else {
            FollowUp::ReportAndNextItem(WriteFailure::Flush)
        }
    }
}

/// The bytes written to the shell are the inbound lines, each with one
/// newline appended, concatenated in the order they were enqueued.
pub proof fn lemma_lines_in_order(f: &InputForwarder)
    requires
        f.wf(),
    ensures
        f.written() == lines_of(f.received()),
{
}

} // verus!
