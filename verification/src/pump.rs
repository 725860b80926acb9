//! The reader of one session: what to do with each result of reading from the
//! session's terminal.

use crate::event::TerminalOutput;
use vstd::prelude::*;
use vstd::string::StringExecFns;

verus! {

/// The number of bytes to ask the terminal for in one read.
pub const READ_BUFFER_SIZE: usize = 4096;

/// The text that `String::from_utf8_lossy` makes of `bytes`: the decoded
/// characters, with U+FFFD in place of each sequence that is not UTF-8.
pub uninterp spec fn utf8_lossy(bytes: Seq<u8>) -> Seq<char>;

/// What the reader does after a read.
#[derive(Debug, Clone, PartialEq, Eq)]
pub enum PumpStep {
    /// Report the output and read again.
    Emit(TerminalOutput),
    /// Read no more: the terminal is closed or broken.
    Stop,
}

/// Decodes with `String::from_utf8_lossy`.
///
/// Trusted: the text is the one that this function of the standard library
/// makes of the bytes, and depends on nothing else.
#[verifier::external_body]
pub(crate) fn decode_lossy(bytes: &[u8]) -> (text: String)
    ensures
        text@ == utf8_lossy(bytes@),
{
    String::from_utf8_lossy(bytes).into_owned()
}

/// What a read gave, as a value: the bytes, or nothing if reading failed.
pub open spec fn bytes_read(read: Option<&[u8]>) -> Option<Seq<u8>> {
    match read {
        Some(bytes) => Some(bytes@),
        None => None,
    }
}

/// The read ends the reader: reading failed, or it gave no bytes, which
/// means that the terminal is closed.
pub open spec fn asks_to_stop(read: Option<Seq<u8>>) -> bool {
    match read {
        Some(bytes) => bytes.len() == 0,
        None => true,
    }
}

/// The report of `bytes` that the terminal of session `session_id` printed.
pub fn output_of(session_id: &str, bytes: &[u8]) -> (out: TerminalOutput)
    ensures
        out.id@ == session_id@,
        out.data@ == utf8_lossy(bytes@),
{
    TerminalOutput { id: String::from_str(session_id), data: decode_lossy(bytes) }
}

/// What the reader of the session `session_id` does after a read. `read`
/// holds the bytes that were read, or nothing if reading failed. Bytes are
/// reported as text; a closed or broken terminal ends the reader.
pub fn read_step(session_id: &str, read: Option<&[u8]>) -> (step: PumpStep)
    ensures
        asks_to_stop(bytes_read(read)) ==> step == PumpStep::Stop,
        !asks_to_stop(bytes_read(read)) ==> {
            &&& step matches PumpStep::Emit(out)
            &&& out.id@ == session_id@
            &&& out.data@ == utf8_lossy(read->0@)
        },
{
    match read {
        Some(bytes) => {
            if bytes.len() > 0 {
                PumpStep::Emit(output_of(session_id, bytes))
            } else {
                PumpStep::Stop
            }
        },
        None => PumpStep::Stop,
    }
}

} // verus!
