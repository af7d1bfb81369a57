//! Error taxonomy of the pipeline and the native backend's status codes.
//!
//! The native audio backend reports every operation's outcome as an `i32`
//! status: a distinguished value signals success, every other value is an
//! error code. The library keeps the raw code and distinguishes the two
//! codes its callers act on: the code for "no usable backend" and the code
//! for "operation invalid in the current state".

use vstd::prelude::*;

verus! {

/// The backend's distinguished success status.
pub const STATUS_SUCCESS: i32 = 0;

/// The backend's status for an operation that its current state refuses,
/// such as starting a device that is already started.
pub const STATUS_INVALID_OPERATION: i32 = -3;

/// The backend's status for "no capture backend is available".
pub const STATUS_NO_BACKEND: i32 = -102;

/// A failure of the native audio backend, carrying the raw status code
/// where it is not one of the two distinguished ones.
#[derive(Clone, Copy, Debug, PartialEq, Eq, Structural)]
pub enum BackendError {
    /// No audio backend could be initialized.
    NoBackend,
    /// The operation is not permitted in the device's current state.
    InvalidState,
    /// Any other native failure, with the backend's raw status code.
    Native(i32),
}

/// A failure while reading or writing the scratch artifact that carries the
/// captured samples between the capture and transcription phases.
#[derive(Clone, Copy, Debug, PartialEq, Eq, Structural)]
pub enum IoError {
    ReadFailed,
    WriteFailed,
}

/// A failure of the speech-recognition engine.
#[derive(Clone, Copy, Debug, PartialEq, Eq, Structural)]
pub enum EngineError {
    /// The model file could not be loaded.
    ModelLoad,
    /// Decoding failed; carries the engine's raw status code.
    Decode(i32),
}

/// A failure anywhere in the pipeline. Every variant is fatal: the driver
/// aborts the remaining steps on the first one.
#[derive(Clone, Copy, Debug, PartialEq, Eq, Structural)]
pub enum PipelineError {
    Backend(BackendError),
    Io(IoError),
    Engine(EngineError),
}

/// The error that a native status code denotes.
pub open spec fn status_error(code: i32) -> BackendError {
    if code == STATUS_NO_BACKEND {
        BackendError::NoBackend
    } else if code == STATUS_INVALID_OPERATION {
        BackendError::InvalidState
    } else {
        BackendError::Native(code)
    }
}

/// Map a native status code to the library's result convention: the
/// distinguished success status is `Ok`, every other code is the error it
/// denotes.
pub fn check(code: i32) -> (r: Result<(), BackendError>)
    ensures
        r is Ok <==> code == STATUS_SUCCESS,
        code == STATUS_SUCCESS ==> r == Ok::<(), BackendError>(()),
        code != STATUS_SUCCESS ==> r == Err::<(), BackendError>(status_error(code)),
{
    if code == STATUS_SUCCESS {
        Ok(())
    } else if code == STATUS_NO_BACKEND {
        Err(BackendError::NoBackend)
    } else if code == STATUS_INVALID_OPERATION {
        Err(BackendError::InvalidState)
    } else {
        Err(BackendError::Native(code))
    }
}

} // verus!
