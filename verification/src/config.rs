//! Device configuration and the callback state it registers.
//!
//! A `Config` is a transient value describing the device to open: its type,
//! sample format, channel count and sample rate, plus an optionally
//! registered `CallbackState`. The native backend stores a raw pointer to
//! the callback state for the device's whole lifetime, so once registered
//! the state must stay at a fixed address; the verified model expresses the
//! matching ownership rule: the state moves from the configuration into the
//! capture device when the device is initialized, and the device owns it
//! until teardown.

use vstd::prelude::*;

verus! {

/// Number of bytes in one captured sample under the fixed 32-bit format.
pub const SAMPLE_BYTES: u64 = 4;

/// The kind of device the backend is asked to open.
#[derive(Clone, Copy, Debug, PartialEq, Eq, Structural)]
pub enum DeviceType {
    Capture,
    Playback,
    Duplex,
    Loopback,
}

/// The sample format the device is asked to deliver. `Unknown` leaves the
/// choice to the backend.
#[derive(Clone, Copy, Debug, PartialEq, Eq, Structural)]
pub enum SampleFormat {
    Unknown,
    U8,
    S16,
    S24,
    S32,
    F32,
}

/// The state the backend's callback runs against: it owns the append-only
/// buffer of captured bytes. The per-block handler of this library appends
/// each captured block to that buffer; the buffer only ever grows by whole
/// samples, so its length stays a multiple of `SAMPLE_BYTES`.
pub struct CallbackState {
    buffer: Vec<u8>,
}

impl CallbackState {
    /// The bytes captured so far.
    pub closed spec fn buffer(&self) -> Seq<u8> {
        self.buffer@
    }

    /// The buffer holds only whole samples.
    pub open spec fn wf(&self) -> bool {
        self.buffer().len() % (SAMPLE_BYTES as nat) == 0
    }

    /// A fresh state with nothing captured.
    pub fn new() -> (s: CallbackState)
        ensures
            s.buffer() == Seq::<u8>::empty(),
            s.wf(),
    {
        CallbackState { buffer: Vec::new() }
    }

    /// The per-block handler: append one captured block, made of whole
    /// samples, to the buffer.
    pub fn append_block(&mut self, block: &[u8])
        requires
            old(self).wf(),
            block@.len() % (SAMPLE_BYTES as nat) == 0,
        ensures
            final(self).buffer() == old(self).buffer() + block@,
            final(self).wf(),
    {
        let ghost prev = self.buffer@;
        let mut i: usize = 0;
        while i < block.len()
            invariant
                i <= block@.len(),
                self.buffer@ == prev + block@.take(i as int),
            decreases block@.len() - i,
        {
            self.buffer.push(block[i]);
            i = i + 1;
            proof {
                assert(prev + block@.take(i - 1) + seq![block@[i - 1]]
                    =~= prev + block@.take(i as int));
            }
        }
        proof {
            assert(block@.take(block@.len() as int) =~= block@);
            let n = SAMPLE_BYTES as nat;
            assert((prev.len() + block@.len()) % n == 0) by {
                vstd::arithmetic::div_mod::lemma_add_mod_noop(
                    prev.len() as int,
                    block@.len() as int,
                    n as int,
                );
            }
        }
    }

    /// How many bytes have been captured.
    pub fn len(&self) -> (n: usize)
        ensures
            n == self.buffer().len(),
    {
        self.buffer.len()
    }

    /// Read access to the captured bytes.
    pub fn bytes(&self) -> (b: &Vec<u8>)
        ensures
            b@ == self.buffer(),
    {
        &self.buffer
    }
}

/// The number of bytes in a captured block of `frame_count` mono frames
/// under the fixed 32-bit format: the size the trampoline hands to the
/// per-block handler.
pub fn block_bytes(frame_count: u32) -> (n: u64)
    ensures
        n == frame_count * SAMPLE_BYTES,
        n % SAMPLE_BYTES == 0,
{
    frame_count as u64 * SAMPLE_BYTES
}

/// A transient description of the device to open, consumed when a capture
/// device is initialized from it.
pub struct Config {
    /// The kind of device to open.
    pub device_type: DeviceType,
    /// The sample format to deliver; `Unknown` lets the backend choose.
    pub sample_format: SampleFormat,
    /// The number of interleaved channels; `0` lets the backend choose.
    pub channel_count: u32,
    /// The sample rate in hertz; `0` lets the backend choose.
    pub sample_rate: u32,
    /// The callback state registered so far; moved into the capture device
    /// when one is initialized from this configuration. It sits in its own
    /// heap cell, whose address never changes afterwards: the native side
    /// keeps a raw pointer to it for the device's whole lifetime.
    pub callback: Option<Box<CallbackState>>,
}

impl Config {
    /// Whether a callback state has been registered.
    pub open spec fn has_callback(&self) -> bool {
        self.callback is Some
    }

    /// The bytes already held by the registered callback state.
    pub open spec fn pending_buffer(&self) -> Seq<u8> {
        self.callback->Some_0.buffer()
    }

    /// The registered callback state holds only whole samples.
    pub open spec fn wf(&self) -> bool {
        self.has_callback() ==> self.pending_buffer().len() % (SAMPLE_BYTES as nat) == 0
    }

    /// A configuration for the given device type with the backend's
    /// defaults for format, channels and rate, and no callback registered.
    pub fn init(device_type: DeviceType) -> (c: Config)
        ensures
            c.device_type == device_type,
            c.sample_format == SampleFormat::Unknown,
            c.channel_count == 0,
            c.sample_rate == 0,
            !c.has_callback(),
            c.wf(),
    {
        Config {
            device_type,
            sample_format: SampleFormat::Unknown,
            channel_count: 0,
            sample_rate: 0,
            callback: None,
        }
    }

    /// Ask for a sample format.
    pub fn set_sample_format(&mut self, format: SampleFormat)
        ensures
            *final(self) == (Config { sample_format: format, ..*old(self) }),
    {
        self.sample_format = format;
    }

    /// Ask for a channel count.
    pub fn set_channel_count(&mut self, channels: u32)
        ensures
            *final(self) == (Config { channel_count: channels, ..*old(self) }),
    {
        self.channel_count = channels;
    }

    /// Ask for a sample rate.
    pub fn set_sample_rate(&mut self, rate: u32)
        ensures
            *final(self) == (Config { sample_rate: rate, ..*old(self) }),
    {
        self.sample_rate = rate;
    }

    /// Register the callback state the device will own, relocating it into
    /// its own heap cell. At device-init time the cell is moved into the
    /// device; the native side keeps a raw pointer to the state, and the
    /// cell's address never changes until teardown.
    pub fn set_data_callback(&mut self, state: CallbackState)
        ensures
            final(self).has_callback(),
            final(self).pending_buffer() == state.buffer(),
            final(self).device_type == old(self).device_type,
            final(self).sample_format == old(self).sample_format,
            final(self).channel_count == old(self).channel_count,
            final(self).sample_rate == old(self).sample_rate,
    {
        self.callback = Some(Box::new(state));
    }

    /// Surrender the registered callback state's heap cell, leaving none
    /// registered.
    pub fn take_callback(&mut self) -> (s: Option<Box<CallbackState>>)
        ensures
            !final(self).has_callback(),
            old(self).has_callback() ==> (s matches Some(cb) && cb.buffer()
                == old(self).pending_buffer()),
            !old(self).has_callback() ==> s is None,
            final(self).device_type == old(self).device_type,
            final(self).sample_format == old(self).sample_format,
            final(self).channel_count == old(self).channel_count,
            final(self).sample_rate == old(self).sample_rate,
    {
        self.callback.take()
    }
}

} // verus!
