//! The recognition engine's boundary: what the driver hands it and what it
//! accepts back.
//!
//! The engine itself is an external collaborator: the surrounding program
//! loads the model, runs the decode call on the captured samples and reads
//! the segments out. The decisions live here: how many samples a byte
//! buffer holds, whether the engine's outcomes are accepted, and the
//! ordered transcript built from the segments.

use vstd::prelude::*;

use crate::config::SAMPLE_BYTES;
use crate::error::EngineError;

verus! {

/// The engine's distinguished success status for the decode call.
pub const ENGINE_SUCCESS: i32 = 0;

/// How many whole samples a captured byte buffer holds under the fixed
/// 32-bit format: the count the driver hands to the engine's decode call.
pub fn sample_count(buffer: &Vec<u8>) -> (n: usize)
    ensures
        n == buffer@.len() / (SAMPLE_BYTES as nat),
{
    buffer.len() / 4
}

/// Whether the engine loaded the model: a failed load is fatal and
/// surfaces as `EngineError::ModelLoad`.
pub fn accept_model_load(loaded: bool) -> (r: Result<(), EngineError>)
    ensures
        r is Ok <==> loaded,
        !loaded ==> r == Err::<(), EngineError>(EngineError::ModelLoad),
{
    if loaded {
        Ok(())
    } else {
        Err(EngineError::ModelLoad)
    }
}

/// An ordered transcript: the engine's text segments in the engine's own
/// time order.
pub struct Transcript {
    segments: Vec<String>,
}

impl View for Transcript {
    type V = Seq<String>;

    closed spec fn view(&self) -> Seq<String> {
        self.segments@
    }
}

impl Transcript {
    /// The transcript made of the given segments, in the given order.
    pub fn from_segments(segments: Vec<String>) -> (t: Transcript)
        ensures
            t@ == segments@,
    {
        Transcript { segments }
    }

    /// How many segments the transcript holds. Never negative: a
    /// transcript always has a well-defined, non-negative segment count.
    pub fn segment_count(&self) -> (n: usize)
        ensures
            n == self@.len(),
    {
        self.segments.len()
    }

    /// The segment at `index`, in the engine's order.
    pub fn segment(&self, index: usize) -> (s: &String)
        requires
            index < self@.len(),
        ensures
            *s == self@[index as int],
    {
        &self.segments[index]
    }
}

/// Interpret the engine's decode outcome: the decode call's status and the
/// segments read out afterwards. Success — exactly the distinguished
/// status — yields the transcript of those segments in order; any other
/// status is fatal and carries the engine's code.
pub fn collect_transcript(status: i32, segments: Vec<String>) -> (r: Result<
    Transcript,
    EngineError,
>)
    ensures
        r is Ok <==> status == ENGINE_SUCCESS,
        status == ENGINE_SUCCESS ==> (r matches Ok(t) && t@ == segments@),
        status != ENGINE_SUCCESS ==> r == Err::<Transcript, EngineError>(
            EngineError::Decode(status),
        ),
{
    if status == ENGINE_SUCCESS {
        Ok(Transcript::from_segments(segments))
    } else {
        Err(EngineError::Decode(status))
    }
}

} // verus!
