//! The format of captured audio.

use vstd::prelude::*;

verus! {

/// The tag of plain floating-point samples.
pub const TAG_IEEE_FLOAT: u16 = 3;

/// The tag of formats that say more in an extension.
pub const TAG_EXTENSIBLE: u16 = 65534;

/// The size of the extension in bytes.
pub const EXTENSION_SIZE: u16 = 22;

/// The sub-format of floating-point samples.
pub const SUBTYPE_IEEE_FLOAT: u128 = 0x00000003_0000_0010_8000_00aa00389b71;

/// The front left and the front right speaker.
pub const FRONT_SPEAKERS: u32 = 3;

/// A wave format as the system describes it. The last three fields count only
/// with the tag and the size of an extension.
#[derive(Debug, Clone, Copy, PartialEq, Eq, Structural)]
pub struct WaveFormat {
    pub format_tag: u16,
    pub channels: u16,
    pub samples_per_sec: u32,
    pub avg_bytes_per_sec: u32,
    pub block_align: u16,
    pub bits_per_sample: u16,
    pub cb_size: u16,
    pub valid_bits_per_sample: u16,
    pub channel_mask: u32,
    pub sub_format: u128,
}

/// The format of captured audio.
#[derive(Debug, Clone, Copy, PartialEq, Eq, Structural)]
pub struct AudioFormat {
    pub sample_rate: u32,
    pub channels: u32,
    pub float32: bool,
    pub bits_per_sample: u32,
}

/// Two channels of floating-point samples at 48 kHz.
pub open spec fn stereo_float() -> AudioFormat {
    AudioFormat { sample_rate: 48000, channels: 2, float32: true, bits_per_sample: 32 }
}

impl Default for AudioFormat {
    fn default() -> (format: Self)
        ensures
            format == stereo_float(),
    {
        AudioFormat { sample_rate: 48000, channels: 2, float32: true, bits_per_sample: 32 }
    }
}

impl WaveFormat {
    /// Whether the samples are floating-point numbers.
    pub open spec fn is_float(self) -> bool {
        ||| self.format_tag == TAG_IEEE_FLOAT
        ||| {
            &&& self.format_tag == TAG_EXTENSIBLE
            &&& self.cb_size >= EXTENSION_SIZE
            &&& self.sub_format == SUBTYPE_IEEE_FLOAT
        }
    }
}

impl AudioFormat {
    /// The bytes of one frame: of one sample of every channel. A product that does
    /// not fit in 32 bits is cut off.
    pub fn bytes_per_frame(&self) -> (bytes: u32)
        ensures
            bytes == (self.channels * (self.bits_per_sample / 8)) % 0x1_0000_0000,
            self.channels * (self.bits_per_sample / 8) <= u32::MAX ==> bytes == self.channels * (
            self.bits_per_sample / 8),
    {
        let sample: u32 = self.bits_per_sample / 8;
        assert(0 <= self.channels * sample) by (nonlinear_arith)
            requires
                0 <= self.channels,
                0 <= sample,
        ;
        self.channels.wrapping_mul(sample)
    }

    /// What the system's description of a format says. Without a description
    /// nothing is known but that samples have 32 bits.
    pub fn from_wave_format(wf: Option<&WaveFormat>) -> (format: Self)
        ensures
            format == (match wf {
                Some(wf) => AudioFormat {
                    sample_rate: wf.samples_per_sec,
                    channels: wf.channels as u32,
                    float32: wf.is_float(),
                    bits_per_sample: wf.bits_per_sample as u32,
                },
                None => AudioFormat {
                    sample_rate: 0,
                    channels: 0,
                    float32: true,
                    bits_per_sample: 32,
                },
            }),
    {
        match wf {
            None => AudioFormat { sample_rate: 0, channels: 0, float32: true, bits_per_sample: 32 },
            Some(wf) => {
                let mut format = AudioFormat {
                    sample_rate: wf.samples_per_sec,
                    channels: wf.channels as u32,
                    float32: false,
                    bits_per_sample: wf.bits_per_sample as u32,
                };
                if wf.format_tag == TAG_IEEE_FLOAT {
                    format.float32 = true;
                } else if wf.format_tag == TAG_EXTENSIBLE && wf.cb_size >= EXTENSION_SIZE {
                    if wf.sub_format == SUBTYPE_IEEE_FLOAT {
                        format.float32 = true;
                    }
                }
                format
            },
        }
    }
}

/// The description of two channels of floating-point samples at 48 kHz.
pub open spec fn stereo_float_wave() -> WaveFormat {
    WaveFormat {
        format_tag: TAG_EXTENSIBLE,
        channels: 2,
        samples_per_sec: 48000,
        avg_bytes_per_sec: 384000,
        block_align: 8,
        bits_per_sample: 32,
        cb_size: EXTENSION_SIZE,
        valid_bits_per_sample: 32,
        channel_mask: FRONT_SPEAKERS,
        sub_format: SUBTYPE_IEEE_FLOAT,
    }
}

/// The format in which the audio of a process is asked for.
pub fn process_loopback_format() -> (wf: WaveFormat)
    ensures
        wf == stereo_float_wave(),
{
    WaveFormat {
        format_tag: TAG_EXTENSIBLE,
        channels: 2,
        samples_per_sec: 48000,
        avg_bytes_per_sec: 384000,
        block_align: 8,
        bits_per_sample: 32,
        cb_size: EXTENSION_SIZE,
        valid_bits_per_sample: 32,
        channel_mask: FRONT_SPEAKERS,
        sub_format: SUBTYPE_IEEE_FLOAT,
    }
}

/// Samples are floating-point numbers exactly if the plain tag or the sub-format of an
/// extension that is really there says so.
pub proof fn law_floats_are_recognised(wf: WaveFormat)
    ensures
        wf.format_tag == 3 ==> wf.is_float(),
        wf.format_tag == 65534 ==> (wf.is_float() <==> wf.cb_size >= 22 && wf.sub_format
            == 0x00000003_0000_0010_8000_00aa00389b71),
        wf.format_tag != 3 && wf.format_tag != 65534 ==> !wf.is_float(),
{
}

/// What the audio of a process is asked for in: an extensible format of floats for two
/// front speakers, whose sizes agree with one another, and whose rate and channels are
/// those that a stream has before it is set up.
pub proof fn law_process_audio_is_stereo_float(wf: WaveFormat, format: AudioFormat)
    requires
        wf == stereo_float_wave(),
        format == stereo_float(),
    ensures
        wf.is_float(),
        wf.format_tag == 65534,
        wf.cb_size == 22,
        wf.sub_format == 0x00000003_0000_0010_8000_00aa00389b71,
        wf.channel_mask == 0x1 + 0x2,
        wf.channels == 2,
        wf.samples_per_sec == 48000,
        wf.bits_per_sample == 32,
        wf.valid_bits_per_sample == wf.bits_per_sample,
        wf.block_align * 8 == wf.channels * wf.bits_per_sample,
        wf.avg_bytes_per_sec == wf.samples_per_sec * wf.block_align,
        format.channels == wf.channels,
        format.sample_rate == wf.samples_per_sec,
        format.bits_per_sample == wf.bits_per_sample,
        format.float32,
{
}

} // verus!
