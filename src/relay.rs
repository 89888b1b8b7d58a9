use vstd::prelude::*;
use vstd::utf8::{decode_utf8, valid_utf8};

verus! {

/// Size of the buffer that the relay reads the terminal's output into.
pub const RELAY_BUFFER_SIZE: usize = 4096;

/// What one read of a session's output side produced.
pub enum ReadOutcome {
    /// These bytes were read; an empty read means end of stream.
    Data(Vec<u8>),
    /// The read failed.
    Failed,
}

/// Output of one session, as handed to the event sink.
pub struct OutputEvent {
    pub session_id: u32,
    pub data: String,
}

/// What the relay does after a read.
pub enum RelayAction {
    /// Hand this event to the sink and read again.
    Emit(OutputEvent),
    /// Leave the loop: end of stream or a failed read.
    Stop,
}

/// The text that a permissive UTF-8 decoding gives for these bytes, with
/// each invalid sequence replaced by U+FFFD.
pub uninterp spec fn lossy_text_of(bytes: Seq<u8>) -> Seq<char>;

/// Relies on `String::from_utf8_lossy`: its result depends on the bytes
/// alone, and bytes that are valid UTF-8 decode to exactly their characters.
#[verifier::external_body]
fn decode_lossy(bytes: &[u8]) -> (r: String)
    ensures
        r@ == lossy_text_of(bytes@),
        valid_utf8(bytes@) ==> r@ == decode_utf8(bytes@),
{
    String::from_utf8_lossy(bytes).into_owned()
}

/// Decides what the relay of session `session_id` does with one read: an
/// empty read or a failed one ends the relay; otherwise the bytes, decoded
/// permissively, are emitted under the session's identifier.
pub fn relay_step(session_id: u32, outcome: &ReadOutcome) -> (r: RelayAction)
    ensures
        match outcome {
            ReadOutcome::Data(bytes) => if bytes@.len() == 0 {
                r is Stop
            } else {
                &&& r matches RelayAction::Emit(ev)
                &&& ev.session_id == session_id
                &&& ev.data@ == lossy_text_of(bytes@)
                &&& valid_utf8(bytes@) ==> ev.data@ == decode_utf8(bytes@)
            },
            ReadOutcome::Failed => r is Stop,
        },
{
    match outcome {
        ReadOutcome::Data(bytes) => {
            if bytes.len() == 0 {
                RelayAction::Stop
            } else {
                let data = decode_lossy(bytes.as_slice());
                RelayAction::Emit(OutputEvent { session_id, data })
            }
        },
        ReadOutcome::Failed => RelayAction::Stop,
    }
}

} // verus!
