use vstd::prelude::*;
use vstd::utf8::{valid_utf8, decode_utf8};
use crate::commands::CommandOutput;
use crate::errors::BrokerError;
use crate::inspect::Outcome;

verus! {

/// The most bytes that the broker keeps of what a host command prints on one stream.
pub const MAX_OUTPUT_BYTES: usize = 64 * 1024;

/// How long the broker waits for a host command, in seconds, before it kills it.
pub const COMMAND_TIMEOUT_SECS: u64 = 8;

/// How many bytes to read from a stream: one more than is kept, so that too much output
/// shows.
pub fn read_limit() -> (n: u64)
    ensures
        n == MAX_OUTPUT_BYTES + 1,
{
    (MAX_OUTPUT_BYTES + 1) as u64
}

/// Checks what was read from one output stream of a host command, at most `read_limit()`
/// bytes: `None` when the read failed. Output longer than `MAX_OUTPUT_BYTES` is refused.
pub fn read_bounded(read: Option<Vec<u8>>) -> (r: Result<Vec<u8>, BrokerError>)
    ensures
        match read {
            None => r matches Err(BrokerError::OutputReadFailed),
            Some(bytes) => if bytes.len() > MAX_OUTPUT_BYTES {
                r matches Err(BrokerError::OutputTooLarge)
            } else {
                r matches Ok(kept) && kept@ == bytes@
            },
        },
{
    match read {
        None => Err(BrokerError::OutputReadFailed),
        Some(bytes) => {
            if bytes.len() > MAX_OUTPUT_BYTES {
                Err(BrokerError::OutputTooLarge)
            } else {
                Ok(bytes)
            }
        },
    }
}

/// The text that `String::from_utf8_lossy` makes of `bytes`.
pub uninterp spec fn utf8_lossy(bytes: Seq<u8>) -> Seq<char>;

/// Calls `String::from_utf8_lossy` and takes the text as a `String`. The contract claims that
/// the text is a function of the bytes alone, and that valid UTF-8 is decoded as it is;
/// what replaces invalid sequences (U+FFFD) is not stated.
#[verifier::external_body]
fn lossy_text(bytes: &[u8]) -> (text: String)
    ensures
        text@ == utf8_lossy(bytes@),
        valid_utf8(bytes@) ==> text@ == decode_utf8(bytes@),
{
    String::from_utf8_lossy(bytes).into_owned()
}

/// The outcome of a host command from how its wait ended (`None`: it timed out, its exit
/// status otherwise: `true` for success) and what was read from its two streams.
pub fn finish_command(
    exit_success: Option<bool>,
    stdout: Result<Vec<u8>, BrokerError>,
    stderr: Result<Vec<u8>, BrokerError>,
) -> (r: Outcome)
    ensures
        match exit_success {
            None => r matches Err(BrokerError::CommandTimedOut),
            Some(success) => match (stdout, stderr) {
                (Err(e), _) => r == Err::<CommandOutput, BrokerError>(e),
                (Ok(_), Err(e)) => r == Err::<CommandOutput, BrokerError>(e),
                (Ok(out), Ok(err)) => r matches Ok(output) && output.success == success
                    && output.stdout@ == utf8_lossy(out@) && output.stderr@ == utf8_lossy(err@),
            },
        },
{
    match exit_success {
        None => Err(BrokerError::CommandTimedOut),
        Some(success) => {
            let out = match stdout {
                Ok(bytes) => bytes,
                Err(e) => {
                    return Err(e);
                },
            };
            let err = match stderr {
                Ok(bytes) => bytes,
                Err(e) => {
                    return Err(e);
                },
            };
            Ok(
                CommandOutput {
                    success,
                    stdout: lossy_text(out.as_slice()),
                    stderr: lossy_text(err.as_slice()),
                },
            )
        },
    }
}

} // verus!
