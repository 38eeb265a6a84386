use vstd::prelude::*;

verus! {

/// Default capture sample rate, in Hz.
pub const SAMPLE_RATE: u32 = 44100;

/// Default number of samples in each emitted block (about 46 ms at 44.1 kHz).
pub const BUFFER_SIZE: usize = 2048;

/// Default channel count requested from the device.
pub const CHANNELS: u16 = 1;

/// Capture configuration: fixed for the lifetime of one capture session.
#[derive(Debug, Clone, Copy, PartialEq, Eq, Structural)]
pub struct AudioConfig {
    pub sample_rate: u32,
    pub channels: u16,
    /// Samples per emitted block.
    pub buffer_size: usize,
}

impl AudioConfig {
    /// Every field is positive.
    pub open spec fn is_valid(&self) -> bool {
        self.sample_rate > 0 && self.channels > 0 && self.buffer_size > 0
    }

    /// Checks the configuration before a stream is opened with it.
    pub fn validate(&self) -> (r: bool)
        ensures
            r == self.is_valid(),
    {
        self.sample_rate > 0 && self.channels > 0 && self.buffer_size > 0
    }
}

/// The default configuration: 44.1 kHz, mono, blocks of 2048 samples.
pub open spec fn default_config() -> AudioConfig {
    AudioConfig { sample_rate: SAMPLE_RATE, channels: CHANNELS, buffer_size: BUFFER_SIZE }
}

impl Default for AudioConfig {
    fn default() -> (r: Self)
        ensures
            r == default_config(),
            r.is_valid(),
    {
        AudioConfig { sample_rate: SAMPLE_RATE, channels: CHANNELS, buffer_size: BUFFER_SIZE }
    }
}

} // verus!
