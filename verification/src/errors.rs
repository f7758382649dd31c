use vstd::prelude::*;

verus! {

/// Why a host operation could not be carried out.
#[derive(Debug, Clone, PartialEq, Eq)]
pub enum BrokerError {
    UnsupportedPlatform,
    SpawnFailed,
    CommandTimedOut,
    OutputReadFailed,
    OutputTooLarge,
    CommandFailed(&'static str),
}

/// The human-readable text of an error.
pub open spec fn spec_message(e: BrokerError) -> Seq<char> {
    match e {
        BrokerError::UnsupportedPlatform => "Windows host required"@,
        BrokerError::SpawnFailed => "host command could not be started"@,
        BrokerError::CommandTimedOut => "host command timed out"@,
        BrokerError::OutputReadFailed => "host command output could not be read"@,
        BrokerError::OutputTooLarge => "host command output exceeded the limit"@,
        BrokerError::CommandFailed(operation) => "host operation failed: "@ + operation@,
    }
}

impl BrokerError {
    /// The text that describes this error to a user.
    pub fn message(&self) -> (text: String)
        ensures
            text@ == spec_message(*self),
    {
        match self {
            BrokerError::UnsupportedPlatform => String::from_str("Windows host required"),
            BrokerError::SpawnFailed => String::from_str("host command could not be started"),
            BrokerError::CommandTimedOut => String::from_str("host command timed out"),
            BrokerError::OutputReadFailed => String::from_str(
                "host command output could not be read",
            ),
            BrokerError::OutputTooLarge => String::from_str(
                "host command output exceeded the limit",
            ),
            BrokerError::CommandFailed(operation) => String::from_str(
                "host operation failed: ",
            ).concat(operation),
        }
    }
}

} // verus!
