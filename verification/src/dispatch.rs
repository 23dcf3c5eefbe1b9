use vstd::prelude::*;
use crate::error::AgentError;

verus! {

/// What a freshly accepted connection is for, fixed by the first byte the
/// peer sends and never re-read.
#[derive(Clone, Copy, Debug, PartialEq, Eq, Structural)]
pub enum ConnectionKind {
    /// Carries warnings and the final status that decides the exit.
    Control,
    /// The peer pulls bytes from a local source through this connection.
    Input,
    /// The peer pushes bytes into a local sink through this connection.
    Output,
}

/// The meaning of a connection-type tag: 0 is control, 1 is input, 2 is
/// output, and every other byte is a protocol violation.
pub open spec fn classify_spec(tag: u8) -> Result<ConnectionKind, AgentError> {
    if tag == 0 {
        Ok(ConnectionKind::Control)
    } else if tag == 1 {
        Ok(ConnectionKind::Input)
    } else if tag == 2 {
        Ok(ConnectionKind::Output)
    } else {
        Err(AgentError::Protocol)
    }
}

/// Classifies a connection by its leading type tag. On any tag other than
/// 0, 1 or 2 no handler may run: the connection is aborted with a
/// protocol error that is fatal for the whole process.
pub fn classify(tag: u8) -> (r: Result<ConnectionKind, AgentError>)
    ensures
        r == classify_spec(tag),
{
    match tag {
        0u8 => Ok(ConnectionKind::Control),
        1u8 => Ok(ConnectionKind::Input),
        2u8 => Ok(ConnectionKind::Output),
        _ => Err(AgentError::Protocol),
    }
}

/// What the listener loop must do once one connection's handler has
/// finished.
#[derive(Clone, Copy, Debug, PartialEq, Eq, Structural)]
pub enum Verdict {
    /// A control session reported success: exit immediately with status 0,
    /// abandoning every other in-flight connection.
    ExitSuccess,
    /// An input or output relay completed: keep accepting connections.
    KeepGoing,
    /// Some handler failed: log the error, flush, exit with status 1.
    Fatal(AgentError),
}

/// The termination policy: a control session that returns Ok ends the
/// process successfully at once; any error anywhere is fatal; a completed
/// relay changes nothing.
pub open spec fn verdict_spec(kind: ConnectionKind, outcome: Result<(), AgentError>) -> Verdict {
    match outcome {
        Ok(_) => if kind is Control {
            Verdict::ExitSuccess
        } else {
            Verdict::KeepGoing
        },
        Err(e) => Verdict::Fatal(e),
    }
}

/// Decides, from one handler's outcome, whether the process goes on
/// accepting connections or terminates, and how. This is the single place
/// the termination policy lives.
pub fn connection_verdict(kind: ConnectionKind, outcome: Result<(), AgentError>) -> (v: Verdict)
    ensures
        v == verdict_spec(kind, outcome),
{
    match outcome {
        Ok(_) => match kind {
            ConnectionKind::Control => Verdict::ExitSuccess,
            _ => Verdict::KeepGoing,
        },
        Err(e) => Verdict::Fatal(e),
    }
}

/// The process exit status a verdict calls for: 0 on a successful control
/// session, 1 on any failure, and none while work goes on.
pub open spec fn verdict_exit_spec(v: Verdict) -> Option<i32> {
    match v {
        Verdict::ExitSuccess => Some(0),
        Verdict::KeepGoing => None,
        Verdict::Fatal(_) => Some(1),
    }
}

/// Maps a verdict to the exit status the process must terminate with, or
/// `None` when the listener should keep accepting.
pub fn verdict_exit(v: &Verdict) -> (code: Option<i32>)
    ensures
        code == verdict_exit_spec(*v),
{
    match v {
        Verdict::ExitSuccess => Some(0),
        Verdict::KeepGoing => None,
        Verdict::Fatal(_) => Some(1),
    }
}

} // verus!
