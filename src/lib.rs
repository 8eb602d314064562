//! A bridge between a shell process and a single remote user: inbound text
//! lines go to the shell's input, and what the shell prints comes back as
//! byte chunks on one outbound queue.
//!
//! The decisions of each forwarder are state machines whose ghost state
//! records what has been read, received and handed on, so that ordering and
//! no-loss guarantees are stated and proved here. The asynchronous loops
//! that perform the reads and writes drive these machines.
use vstd::prelude::*;

pub mod channel;
pub mod input;
pub mod output;
pub mod relay;
pub mod terminal;

verus! {

} // verus!
