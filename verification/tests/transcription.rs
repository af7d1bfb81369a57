use whisper::config::{block_bytes, CallbackState, Config, DeviceType, SampleFormat};
use whisper::error::EngineError;
use whisper::transcript::{accept_model_load, collect_transcript, sample_count, ENGINE_SUCCESS};

#[test]
fn sample_count_is_bytes_over_four() {
    assert_eq!(sample_count(&vec![0u8; 8]), 2);
    assert_eq!(sample_count(&vec![0u8; 64000]), 16000);
    assert_eq!(sample_count(&Vec::new()), 0);
}

#[test]
fn silence_buffer_gives_non_negative_segment_count() {
    // A second of silence under the fixed profile, decoded to no segments:
    // the transcript still reports a well-defined, non-negative count.
    let silence = vec![0u8; 64000];
    let n = sample_count(&silence);
    assert_eq!(n, 16000);
    let t = collect_transcript(ENGINE_SUCCESS, Vec::new()).unwrap();
    assert_eq!(t.segment_count(), 0);
}

#[test]
fn collect_transcript_keeps_segment_order() {
    let segments = vec![String::from("first"), String::from("second")];
    let t = collect_transcript(ENGINE_SUCCESS, segments).unwrap();
    assert_eq!(t.segment_count(), 2);
    assert_eq!(t.segment(0), "first");
    assert_eq!(t.segment(1), "second");
}

#[test]
fn collect_transcript_fails_on_decode_error() {
    let r = collect_transcript(3, vec![String::from("ignored")]);
    assert_eq!(r.err().unwrap(), EngineError::Decode(3));
}

#[test]
fn model_load_failure_is_fatal() {
    assert_eq!(accept_model_load(false).err().unwrap(), EngineError::ModelLoad);
    assert!(accept_model_load(true).is_ok());
}

#[test]
fn block_bytes_is_four_per_frame() {
    assert_eq!(block_bytes(0), 0);
    assert_eq!(block_bytes(3), 12);
    assert_eq!(block_bytes(u32::MAX), u64::from(u32::MAX) * 4);
}

#[test]
fn callback_state_appends_whole_blocks() {
    let mut cb = CallbackState::new();
    assert_eq!(cb.len(), 0);
    cb.append_block(&[1, 2, 3, 4]);
    cb.append_block(&[5, 6, 7, 8]);
    assert_eq!(cb.bytes().as_slice(), &[1, 2, 3, 4, 5, 6, 7, 8]);
    assert_eq!(cb.len() % 4, 0);
}

#[test]
fn config_defaults_leave_choices_to_backend() {
    let c = Config::init(DeviceType::Capture);
    assert_eq!(c.device_type, DeviceType::Capture);
    assert_eq!(c.sample_format, SampleFormat::Unknown);
    assert_eq!(c.channel_count, 0);
    assert_eq!(c.sample_rate, 0);
    assert!(c.callback.is_none());
}

#[test]
fn config_setters_change_one_field_each() {
    let mut c = Config::init(DeviceType::Capture);
    c.set_sample_format(SampleFormat::F32);
    c.set_channel_count(1);
    c.set_sample_rate(16000);
    assert_eq!(c.sample_format, SampleFormat::F32);
    assert_eq!(c.channel_count, 1);
    assert_eq!(c.sample_rate, 16000);
    assert_eq!(c.device_type, DeviceType::Capture);
}

#[test]
fn registered_callback_moves_into_config() {
    let mut c = Config::init(DeviceType::Capture);
    let mut cb = CallbackState::new();
    cb.append_block(&[1, 2, 3, 4]);
    c.set_data_callback(cb);
    assert!(c.callback.is_some());
    let taken = c.take_callback().unwrap();
    assert!(c.callback.is_none());
    assert_eq!(taken.bytes().as_slice(), &[1, 2, 3, 4]);
}
