//! The driver's fixed capture profile.
//!
//! The pipeline records with one fixed profile: a capture device, 32-bit
//! float samples, one channel, 16 kHz, with a freshly registered callback
//! state. The driver builds this configuration, initializes the device
//! from it, starts it, waits for the external stop signal, stops, and
//! hands the captured buffer to the recognition engine; any failing step
//! aborts the rest.

use vstd::prelude::*;

use crate::config::{CallbackState, Config, DeviceType, SampleFormat};

verus! {

/// The fixed sample rate of the capture profile, in hertz.
pub const SAMPLE_RATE: u32 = 16000;

/// The configuration the driver records with: capture, 32-bit float,
/// mono, 16 kHz, with a fresh (empty) callback state registered.
pub fn capture_profile() -> (c: Config)
    ensures
        c.device_type == DeviceType::Capture,
        c.sample_format == SampleFormat::F32,
        c.channel_count == 1,
        c.sample_rate == SAMPLE_RATE,
        c.has_callback(),
        c.pending_buffer() == Seq::<u8>::empty(),
        c.wf(),
{
    let mut c = Config::init(DeviceType::Capture);
    c.set_sample_format(SampleFormat::F32);
    c.set_channel_count(1);
    c.set_sample_rate(SAMPLE_RATE);
    c.set_data_callback(CallbackState::new());
    c
}

} // verus!
