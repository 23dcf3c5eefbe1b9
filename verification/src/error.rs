use vstd::prelude::*;

verus! {

/// Every failure the relay can hit, as a closed enum: no error is retried
/// or recovered, each one is fatal to the whole process.
#[derive(Clone, Copy, Debug, PartialEq, Eq, Structural)]
pub enum AgentError {
    /// A read, write or open failed, or the stream ended before a full
    /// frame or status byte arrived.
    Io,
    /// The peer broke the wire protocol: an unknown connection-type tag,
    /// or a frame whose payload is not valid UTF-8.
    Protocol,
    /// The control connection reported a non-zero status byte.
    RemoteFailure(u8),
    /// Invoking the launcher failed.
    Launch,
}

impl AgentError {
    /// The message that is logged for this error before the process exits.
    pub open spec fn describe_spec(self) -> Seq<char> {
        match self {
            AgentError::Io => "an i/o operation failed"@,
            AgentError::Protocol => "protocol error: malformed data received from the app"@,
            AgentError::RemoteFailure(_) => "an error has occurred in the app"@,
            AgentError::Launch => "failed to invoke the launcher"@,
        }
    }

    pub fn describe(&self) -> (s: String)
        ensures
            s@ == self.describe_spec(),
    {
        match self {
            AgentError::Io => "an i/o operation failed".to_owned(),
            AgentError::Protocol => "protocol error: malformed data received from the app".to_owned(),
            AgentError::RemoteFailure(_) => "an error has occurred in the app".to_owned(),
            AgentError::Launch => "failed to invoke the launcher".to_owned(),
        }
    }
}

} // verus!
