use vstd::prelude::*;
use crate::dispatch::{verdict_exit_spec, verdict_spec, ConnectionKind};
use crate::error::AgentError;

verus! {

/// Where a control session stands in its grammar
/// `Frame* Frame(empty) u8(status)`.
#[derive(Clone, Copy, Debug, PartialEq, Eq, Structural)]
pub enum ControlState {
    /// Expecting a frame: a non-empty warning, or the empty terminator.
    AwaitFrame,
    /// The empty terminator arrived; exactly one status byte must follow.
    AwaitStatus,
    /// The status byte arrived; nothing more is read.
    Done,
}

/// The outcome a reported status byte stands for: 0 is success, anything
/// else means the peer failed and the failure carries the status.
pub open spec fn status_outcome_spec(status: u8) -> Result<(), AgentError> {
    if status == 0 {
        Ok(())
    } else {
        Err(AgentError::RemoteFailure(status))
    }
}

/// One control session: consumes a sequence of warning frames terminated
/// by an empty frame, then exactly one status byte. The state pins the
/// order down: the terminator is always read before the status, and the
/// warnings collected are exactly the non-empty frames fed before it, in
/// order.
pub struct ControlSession {
    /// Position in the session grammar.
    pub state: ControlState,
    /// Every warning received so far, oldest first; each is to be logged.
    pub warnings: Vec<String>,
}

impl ControlSession {
    /// A fresh session: no warnings yet, first frame still to come.
    pub fn new() -> (s: Self)
        ensures
            s.state is AwaitFrame,
            s.warnings@ == Seq::<String>::empty(),
    {
        ControlSession { state: ControlState::AwaitFrame, warnings: Vec::new() }
    }

    /// True while the session still expects a frame.
    pub fn wants_frame(&self) -> (b: bool)
        ensures
            b == (self.state is AwaitFrame),
    {
        match self.state {
            ControlState::AwaitFrame => true,
            _ => false,
        }
    }

    /// True once the warning sequence is terminated and only the status
    /// byte is still owed.
    pub fn wants_status(&self) -> (b: bool)
        ensures
            b == (self.state is AwaitStatus),
    {
        match self.state {
            ControlState::AwaitStatus => true,
            _ => false,
        }
    }

    /// Feeds the next received frame. A non-empty frame is one more
    /// warning and leaves the session expecting frames; the empty frame
    /// terminates the warning sequence and the status byte is owed next.
    pub fn on_frame(&mut self, msg: String)
        requires
            old(self).state is AwaitFrame,
        ensures
            msg@.len() == 0 ==> final(self).state is AwaitStatus && final(self).warnings@ == old(
                self,
            ).warnings@,
            msg@.len() != 0 ==> final(self).state is AwaitFrame && final(self).warnings@ == old(
                self,
            ).warnings@.push(msg),
    {
        if msg.as_str().is_empty() {
            self.state = ControlState::AwaitStatus;
        } else {
            self.warnings.push(msg);
        }
    }

    /// Feeds the status byte that ends the session: status 0 reports
    /// success, any other value is the peer's failure, fatal for the
    /// process. The warnings are left untouched.
    pub fn on_status(&mut self, status: u8) -> (r: Result<(), AgentError>)
        requires
            old(self).state is AwaitStatus,
        ensures
            final(self).state is Done,
            final(self).warnings@ == old(self).warnings@,
            r == status_outcome_spec(status),
    {
        self.state = ControlState::Done;
        if status == 0 {
            Ok(())
        } else {
            Err(AgentError::RemoteFailure(status))
        }
    }
}

/// A non-zero status on the control connection is fatal: the session's
/// outcome is the peer's reported failure, the listener's verdict on it is
/// fatal, and the process must terminate with exit status 1 - whatever
/// other connections are still mid-transfer.
pub proof fn lemma_nonzero_status_exits_failure(status: u8)
    requires
        status != 0,
    ensures
        status_outcome_spec(status) == Err::<(), AgentError>(AgentError::RemoteFailure(status)),
        verdict_exit_spec(verdict_spec(ConnectionKind::Control, status_outcome_spec(status)))
            == Some(1i32),
{
}

/// A zero status on the control connection ends the process successfully
/// at once: the verdict on it calls for exit status 0, regardless of other
/// connections still open.
pub proof fn lemma_zero_status_exits_success()
    ensures
        status_outcome_spec(0) == Ok::<(), AgentError>(()),
        verdict_exit_spec(verdict_spec(ConnectionKind::Control, status_outcome_spec(0)))
            == Some(0i32),
{
}

} // verus!
