//! The capture device's lifecycle: the core state machine of the library.
//!
//! A `Device` wraps a native capture device that is bound to a `Context`
//! and exclusively owns the `CallbackState` registered in its
//! configuration. The native calls themselves (context init, device init,
//! start, stop, uninit) are made by the surrounding program; their status
//! codes are fed into the verified state machine here, which decides what
//! each outcome means and keeps the lifecycle invariants:
//!
//! * the device moves along `Initialized -> Started <-> Stopped ->
//!   Uninitialized`, and `Uninitialized` is terminal;
//! * starting a device that is already started is refused with
//!   `InvalidState`, never silently accepted, and so is stopping a device
//!   that is not started;
//! * the callback state is owned by the device from initialization until
//!   teardown and is surrendered exactly at teardown, never before;
//! * the captured buffer grows only by whole samples and only while the
//!   device is started, and is read only once the device is stopped.

use vstd::prelude::*;

use crate::config::{CallbackState, Config, SAMPLE_BYTES};
use crate::error::{status_error, BackendError, STATUS_SUCCESS};

verus! {

/// An address-stable handle to the native audio backend. A value of this
/// type witnesses that the backend's context-init call succeeded.
pub struct Context {}

impl Context {
    /// Interpret the status of the backend's context-init call: the
    /// distinguished success status yields the context, every other code
    /// is the error it denotes — in particular, the "no backend" code
    /// yields `BackendError::NoBackend`.
    pub fn init(status: i32) -> (r: Result<Context, BackendError>)
        ensures
            r is Ok <==> status == STATUS_SUCCESS,
            status != STATUS_SUCCESS ==> r == Err::<Context, BackendError>(status_error(status)),
    {
        if status == STATUS_SUCCESS {
            Ok(Context {})
        } else {
            Err(crate::error::check(status).unwrap_err())
        }
    }
}

/// Where a device stands in its life.
#[derive(Clone, Copy, Debug, PartialEq, Eq, Structural)]
pub enum DeviceState {
    /// Initialized and idle; never started yet or not currently running.
    Initialized,
    /// The backend's audio thread is running and may invoke the callback.
    Started,
    /// Explicitly stopped; no further callback invocations occur.
    Stopped,
    /// Torn down. Terminal: no operation is permitted any more.
    Uninitialized,
}

/// The mathematical model of a capture device: its lifecycle state,
/// whether it still owns its callback state, and the bytes captured so far.
pub struct DeviceModel {
    pub state: DeviceState,
    pub callback_held: bool,
    pub buffer: Seq<u8>,
}

impl DeviceModel {
    /// The lifecycle invariants: the callback state is held exactly until
    /// teardown, and the buffer holds only whole samples.
    pub open spec fn wf(&self) -> bool {
        &&& self.callback_held <==> self.state != DeviceState::Uninitialized
        &&& self.buffer.len() % (SAMPLE_BYTES as nat) == 0
    }
}

/// What a start request returns: refused outright when the device is
/// already started; otherwise the backend's status decides.
pub open spec fn start_result(m: DeviceModel, status: i32) -> Result<(), BackendError> {
    if m.state == DeviceState::Started {
        Err(BackendError::InvalidState)
    } else if status == STATUS_SUCCESS {
        Ok(())
    } else {
        Err(status_error(status))
    }
}

/// The device after a start request: it moves to `Started` exactly when
/// the request was permitted and the backend succeeded.
pub open spec fn start_step(m: DeviceModel, status: i32) -> DeviceModel {
    if m.state != DeviceState::Started && status == STATUS_SUCCESS {
        DeviceModel { state: DeviceState::Started, ..m }
    } else {
        m
    }
}

/// What a stop request returns: refused outright when the device is not
/// started (stopping an idle or already-stopped device is an error, not a
/// silent no-op); otherwise the backend's status decides.
pub open spec fn stop_result(m: DeviceModel, status: i32) -> Result<(), BackendError> {
    if m.state != DeviceState::Started {
        Err(BackendError::InvalidState)
    } else if status == STATUS_SUCCESS {
        Ok(())
    } else {
        Err(status_error(status))
    }
}

/// The device after a stop request: it moves to `Stopped` exactly when the
/// request was permitted and the backend succeeded.
pub open spec fn stop_step(m: DeviceModel, status: i32) -> DeviceModel {
    if m.state == DeviceState::Started && status == STATUS_SUCCESS {
        DeviceModel { state: DeviceState::Stopped, ..m }
    } else {
        m
    }
}

/// The device after one callback invocation captured `block`.
pub open spec fn capture_step(m: DeviceModel, block: Seq<u8>) -> DeviceModel {
    DeviceModel { buffer: m.buffer + block, ..m }
}

/// The device after teardown: terminal, with the callback state — and the
/// buffer it carries — surrendered.
pub open spec fn uninit_step(m: DeviceModel) -> DeviceModel {
    DeviceModel {
        state: DeviceState::Uninitialized,
        callback_held: false,
        buffer: Seq::empty(),
    }
}

/// A capture device: the native device handle's verified counterpart. It
/// exclusively owns the callback state from initialization to teardown,
/// in the heap cell the configuration registered it in — the cell's
/// address never changes, because the native side keeps a raw pointer to
/// the state.
pub struct Device {
    state: DeviceState,
    callback: Box<CallbackState>,
}

impl View for Device {
    type V = DeviceModel;

    closed spec fn view(&self) -> DeviceModel {
        DeviceModel {
            state: self.state,
            callback_held: self.state != DeviceState::Uninitialized,
            buffer: self.callback.buffer(),
        }
    }
}

impl Device {
    /// Bind a configuration to a context and interpret the status of the
    /// backend's device-init call. On success the device owns the callback
    /// state that the configuration registered, with whatever bytes it
    /// already held, and stands `Initialized`. On failure the configuration
    /// and its callback state are dropped and the error carries the
    /// backend's code.
    pub fn init(ctx: &Context, config: Config, status: i32) -> (r: Result<Device, BackendError>)
        requires
            config.has_callback(),
            config.wf(),
        ensures
            r is Ok <==> status == STATUS_SUCCESS,
            status == STATUS_SUCCESS ==> (r matches Ok(d) && d@ == (DeviceModel {
                state: DeviceState::Initialized,
                callback_held: true,
                buffer: config.pending_buffer(),
            }) && d@.wf()),
            status != STATUS_SUCCESS ==> r == Err::<Device, BackendError>(status_error(status)),
    {
        let mut config = config;
        if status == STATUS_SUCCESS {
            let callback = config.take_callback().unwrap();
            Ok(Device { state: DeviceState::Initialized, callback })
        } else {
            Err(crate::error::check(status).unwrap_err())
        }
    }

    /// The device's current lifecycle state.
    pub fn state(&self) -> (s: DeviceState)
        ensures
            s == self@.state,
    {
        self.state
    }

    /// Whether the lifecycle permits issuing a native start call now.
    pub fn can_start(&self) -> (b: bool)
        requires
            self@.state != DeviceState::Uninitialized,
        ensures
            b == (self@.state != DeviceState::Started),
    {
        !matches!(self.state, DeviceState::Started)
    }

    /// Whether the lifecycle permits issuing a native stop call now.
    pub fn can_stop(&self) -> (b: bool)
        requires
            self@.state != DeviceState::Uninitialized,
        ensures
            b == (self@.state == DeviceState::Started),
    {
        matches!(self.state, DeviceState::Started)
    }

    /// A start request. When the device is already `Started` the request
    /// is refused with `InvalidState` — never silently accepted — and the
    /// backend's status is ignored; the caller need not have issued the
    /// native call (`can_start` says so beforehand). Otherwise `status` is
    /// the native start call's outcome: success moves the device to
    /// `Started`, any other code leaves it unchanged and surfaces as the
    /// error that code denotes. The captured buffer and the ownership of
    /// the callback state never change.
    pub fn start(&mut self, status: i32) -> (r: Result<(), BackendError>)
        requires
            old(self)@.state != DeviceState::Uninitialized,
        ensures
            r == start_result(old(self)@, status),
            final(self)@ == start_step(old(self)@, status),
            old(self)@.state == DeviceState::Started ==> r == Err::<(), BackendError>(
                BackendError::InvalidState,
            ) && final(self)@ == old(self)@,
            final(self)@.state != DeviceState::Uninitialized,
            final(self)@.buffer == old(self)@.buffer,
            old(self)@.wf() ==> final(self)@.wf(),
    {
        match self.state {
            DeviceState::Started => Err(BackendError::InvalidState),
            _ => {
                let r = crate::error::check(status);
                if r.is_ok() {
                    self.state = DeviceState::Started;
                }
                r
            },
        }
    }

    /// A stop request. When the device is not `Started` the request is
    /// refused with `InvalidState` (an explicit error, not a silent no-op)
    /// and the backend's status is ignored; the caller need not have issued
    /// the native call (`can_stop` says so beforehand). Otherwise `status`
    /// is the native stop call's outcome: success moves the device to
    /// `Stopped` — after which the backend promises no further callback
    /// invocations — any other code leaves it unchanged and surfaces as
    /// the error that code denotes. The captured buffer and the ownership
    /// of the callback state never change.
    pub fn stop(&mut self, status: i32) -> (r: Result<(), BackendError>)
        requires
            old(self)@.state != DeviceState::Uninitialized,
        ensures
            r == stop_result(old(self)@, status),
            final(self)@ == stop_step(old(self)@, status),
            old(self)@.state != DeviceState::Started ==> r == Err::<(), BackendError>(
                BackendError::InvalidState,
            ) && final(self)@ == old(self)@,
            final(self)@.state != DeviceState::Uninitialized,
            final(self)@.buffer == old(self)@.buffer,
            old(self)@.wf() ==> final(self)@.wf(),
    {
        match self.state {
            DeviceState::Started => {
                let r = crate::error::check(status);
                if r.is_ok() {
                    self.state = DeviceState::Stopped;
                }
                r
            },
            _ => Err(BackendError::InvalidState),
        }
    }

    /// One callback invocation: the trampoline recovered the callback
    /// state from the device's opaque user-data pointer and forwards one
    /// captured block of whole samples. Only the buffer changes, and only
    /// while the device is `Started` — the backend serializes invocations
    /// and stops them once a stop request has returned.
    pub fn on_capture_block(&mut self, block: &[u8])
        requires
            old(self)@.state == DeviceState::Started,
            old(self)@.wf(),
            block@.len() % (SAMPLE_BYTES as nat) == 0,
        ensures
            final(self)@ == capture_step(old(self)@, block@),
            final(self)@.state == old(self)@.state,
            final(self)@.buffer == old(self)@.buffer + block@,
            final(self)@.wf(),
    {
        self.callback.append_block(block);
    }

    /// Read the captured bytes. Permitted only once the device is
    /// `Stopped`: the return of a successful stop request is the sole
    /// synchronization point after which no callback writes the buffer.
    pub fn captured(&self) -> (b: &Vec<u8>)
        requires
            self@.state == DeviceState::Stopped,
        ensures
            b@ == self@.buffer,
    {
        self.callback.bytes()
    }

    /// Teardown: the caller has invoked the native device-uninit call,
    /// which cannot fail. The device becomes `Uninitialized` — terminal,
    /// every further operation is refused by its precondition, so teardown
    /// happens at most once per device — and only now is the callback
    /// state surrendered, carrying the captured bytes. The native side has
    /// dropped its pointer, so the cell may now be released.
    pub fn uninit(&mut self) -> (cb: Box<CallbackState>)
        requires
            old(self)@.state != DeviceState::Uninitialized,
        ensures
            final(self)@ == uninit_step(old(self)@),
            final(self)@.state == DeviceState::Uninitialized,
            !final(self)@.callback_held,
            cb.buffer() == old(self)@.buffer,
            old(self)@.wf() ==> cb.wf(),
    {
        self.state = DeviceState::Uninitialized;
        let mut taken = Box::new(CallbackState::new());
        core::mem::swap(&mut taken, &mut self.callback);
        taken
    }
}

} // verus!
