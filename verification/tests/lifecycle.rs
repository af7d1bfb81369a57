use whisper::config::{CallbackState, DeviceType, SampleFormat};
use whisper::device::{Context, Device, DeviceState};
use whisper::error::{check, BackendError, STATUS_SUCCESS};
use whisper::pipeline::{capture_profile, SAMPLE_RATE};

fn fresh_device() -> Device {
    let ctx = Context::init(STATUS_SUCCESS).unwrap();
    let config = capture_profile();
    Device::init(&ctx, config, STATUS_SUCCESS).unwrap()
}

#[test]
fn context_init_succeeds_on_success_status() {
    assert!(Context::init(STATUS_SUCCESS).is_ok());
}

#[test]
fn context_init_maps_no_backend_code() {
    let r = Context::init(-102);
    assert_eq!(r.err().unwrap(), BackendError::NoBackend);
}

#[test]
fn context_init_fails_on_any_error_code() {
    let r = Context::init(-1);
    assert_eq!(r.err().unwrap(), BackendError::Native(-1));
}

#[test]
fn device_init_starts_initialized_and_empty() {
    let d = fresh_device();
    assert_eq!(d.state(), DeviceState::Initialized);
}

#[test]
fn device_init_failure_carries_native_code() {
    let ctx = Context::init(STATUS_SUCCESS).unwrap();
    let config = capture_profile();
    let r = Device::init(&ctx, config, -103);
    assert_eq!(r.err().unwrap(), BackendError::Native(-103));
}

#[test]
fn immediate_stop_yields_empty_buffer() {
    let mut d = fresh_device();
    d.start(STATUS_SUCCESS).unwrap();
    d.stop(STATUS_SUCCESS).unwrap();
    assert_eq!(d.captured().len(), 0);
}

#[test]
fn start_while_started_is_invalid_state() {
    let mut d = fresh_device();
    d.start(STATUS_SUCCESS).unwrap();
    assert!(!d.can_start());
    let again = d.start(STATUS_SUCCESS);
    assert_eq!(again.err().unwrap(), BackendError::InvalidState);
    assert_eq!(d.state(), DeviceState::Started);
}

#[test]
fn stop_while_initialized_is_invalid_state() {
    let mut d = fresh_device();
    assert!(!d.can_stop());
    let r = d.stop(STATUS_SUCCESS);
    assert_eq!(r.err().unwrap(), BackendError::InvalidState);
    assert_eq!(d.state(), DeviceState::Initialized);
}

#[test]
fn stop_while_stopped_is_invalid_state() {
    let mut d = fresh_device();
    d.start(STATUS_SUCCESS).unwrap();
    d.stop(STATUS_SUCCESS).unwrap();
    let r = d.stop(STATUS_SUCCESS);
    assert_eq!(r.err().unwrap(), BackendError::InvalidState);
    assert_eq!(d.state(), DeviceState::Stopped);
}

#[test]
fn start_failure_leaves_device_idle() {
    let mut d = fresh_device();
    let r = d.start(-8);
    assert_eq!(r.err().unwrap(), BackendError::Native(-8));
    assert_eq!(d.state(), DeviceState::Initialized);
}

#[test]
fn stop_failure_leaves_device_started() {
    let mut d = fresh_device();
    d.start(STATUS_SUCCESS).unwrap();
    let r = d.stop(-1);
    assert_eq!(r.err().unwrap(), BackendError::Native(-1));
    assert_eq!(d.state(), DeviceState::Started);
}

#[test]
fn device_can_be_restarted_after_stop() {
    let mut d = fresh_device();
    d.start(STATUS_SUCCESS).unwrap();
    d.stop(STATUS_SUCCESS).unwrap();
    assert!(d.can_start());
    d.start(STATUS_SUCCESS).unwrap();
    assert_eq!(d.state(), DeviceState::Started);
    d.stop(STATUS_SUCCESS).unwrap();
    assert_eq!(d.state(), DeviceState::Stopped);
}

#[test]
fn captured_blocks_are_kept_in_order() {
    let mut d = fresh_device();
    d.start(STATUS_SUCCESS).unwrap();
    d.on_capture_block(&[1, 2, 3, 4]);
    d.on_capture_block(&[5, 6, 7, 8, 9, 10, 11, 12]);
    d.stop(STATUS_SUCCESS).unwrap();
    assert_eq!(d.captured().as_slice(), &[1, 2, 3, 4, 5, 6, 7, 8, 9, 10, 11, 12]);
}

#[test]
fn buffer_length_stays_whole_samples() {
    let mut d = fresh_device();
    d.start(STATUS_SUCCESS).unwrap();
    d.on_capture_block(&[0; 4]);
    d.on_capture_block(&[0; 16]);
    d.on_capture_block(&[]);
    d.stop(STATUS_SUCCESS).unwrap();
    assert_eq!(d.captured().len() % 4, 0);
    assert_eq!(d.captured().len(), 20);
}

#[test]
fn teardown_surrenders_callback_state_with_buffer() {
    let mut d = fresh_device();
    d.start(STATUS_SUCCESS).unwrap();
    d.on_capture_block(&[9, 9, 9, 9]);
    d.stop(STATUS_SUCCESS).unwrap();
    let cb: Box<CallbackState> = d.uninit();
    assert_eq!(d.state(), DeviceState::Uninitialized);
    assert_eq!(cb.bytes().as_slice(), &[9, 9, 9, 9]);
}

#[test]
fn teardown_works_without_any_start() {
    let mut d = fresh_device();
    let cb = d.uninit();
    assert_eq!(d.state(), DeviceState::Uninitialized);
    assert_eq!(cb.len(), 0);
}

#[test]
fn check_maps_each_status_code() {
    assert!(check(STATUS_SUCCESS).is_ok());
    assert_eq!(check(-3).err().unwrap(), BackendError::InvalidState);
    assert_eq!(check(-102).err().unwrap(), BackendError::NoBackend);
    assert_eq!(check(-7).err().unwrap(), BackendError::Native(-7));
}

#[test]
fn capture_profile_is_fixed_mono_f32_16khz() {
    let c = capture_profile();
    assert_eq!(c.device_type, DeviceType::Capture);
    assert_eq!(c.sample_format, SampleFormat::F32);
    assert_eq!(c.channel_count, 1);
    assert_eq!(c.sample_rate, SAMPLE_RATE);
    assert!(c.callback.is_some());
}
