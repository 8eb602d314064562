//! The facade: the handle through which callers send lines to the shell,
//! and the wiring of the queues to the shell's three streams.
use tokio::sync::mpsc::{UnboundedReceiver, UnboundedSender};
use vstd::prelude::*;

use crate::channel::{new_queue, offer};

verus! {

/// One of the shell's standard streams.
#[derive(Clone, Copy, Debug, PartialEq, Eq, Structural)]
pub enum StreamName {
    Stdin,
    Stdout,
    Stderr,
}

/// Why a session could not be opened.
#[derive(Clone, Copy, Debug, PartialEq, Eq, Structural)]
pub enum OpenError {
    /// The shell was started, but this stream's handle was absent.
    MissingStream(StreamName),
}

/// What the forwarders of one session own: the shell's three streams, the
/// receiving end of the inbound queue and a sending end of the outbound one.
pub struct Session<I, O, E> {
    pub stdin: I,
    pub stdout: O,
    pub stderr: E,
    pub input_queue: UnboundedReceiver<String>,
    pub output_queue: UnboundedSender<Vec<u8>>,
}

/// A cheap, cloneable handle that sends lines to the shell's input.
#[derive(Clone)]
pub struct Terminal {
    stdin_tx: UnboundedSender<String>,
}

impl Terminal {
    /// Wires a session from the stream handles of a freshly started shell:
    /// the three must all be present, and the first absent one, in the order
    /// stdin, stdout, stderr, is the error. On success it returns the handle,
    /// the receiving end of the outbound queue, and what the forwarders own.
    pub fn open<I, O, E>(stdin: Option<I>, stdout: Option<O>, stderr: Option<E>) -> (r: Result<
        (Terminal, UnboundedReceiver<Vec<u8>>, Session<I, O, E>),
        OpenError,
    >)
        ensures
            stdin is None ==> r matches Err(OpenError::MissingStream(StreamName::Stdin)),
            stdin is Some && stdout is None ==> r matches Err(
                OpenError::MissingStream(StreamName::Stdout),
            ),
            stdin is Some && stdout is Some && stderr is None ==> r matches Err(
                OpenError::MissingStream(StreamName::Stderr),
            ),
            stdin is Some && stdout is Some && stderr is Some ==> (r matches Ok((_, _, s))
                && s.stdin == stdin->Some_0 && s.stdout == stdout->Some_0 && s.stderr
                == stderr->Some_0),
    {
        let stdin = match stdin {
            Some(s) => s,
            None => return Err(OpenError::MissingStream(StreamName::Stdin)),
        };
        let stdout = match stdout {
            Some(s) => s,
            None => return Err(OpenError::MissingStream(StreamName::Stdout)),
        };
        let stderr = match stderr {
            Some(s) => s,
            None => return Err(OpenError::MissingStream(StreamName::Stderr)),
        };
        let (output_queue, output_rx) = new_queue::<Vec<u8>>();
        let (stdin_tx, input_queue) = new_queue::<String>();
        let session = Session { stdin, stdout, stderr, input_queue, output_queue };
        Ok((Terminal { stdin_tx }, output_rx, session))
    }

    /// Queues `input`, unchanged, as one line for the shell. It never blocks;
    /// where the session has ended, the line comes back as the error, so the
    /// caller can report it.
    pub fn write(&self, input: &str) -> (r: Result<(), String>)
        ensures
            r is Err ==> r->Err_0@ == input@,
    {
        offer(&self.stdin_tx, input.to_owned())
    }
}

} // verus!
