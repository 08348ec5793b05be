//! Audio quality settings: the profiles that match the player's quality
//! levels and the encoding each of them asks for.

use vstd::prelude::*;
use vstd::string::*;

verus! {

/// An audio quality level, named as the player names its levels.
#[derive(Clone, Copy, Debug, PartialEq, Eq, Structural)]
pub enum QualityProfile {
    Low,
    Normal,
    High,
    VeryHigh,
    Lossless,
}

impl QualityProfile {
    /// The profile's name: "low", "normal", "high", "very-high" or
    /// "lossless" (its textual form).
    pub open spec fn name(self) -> Seq<char> {
        match self {
            QualityProfile::Low => "low"@,
            QualityProfile::Normal => "normal"@,
            QualityProfile::High => "high"@,
            QualityProfile::VeryHigh => "very-high"@,
            QualityProfile::Lossless => "lossless"@,
        }
    }

    /// The container format: "flac" for lossless, "opus" otherwise.
    pub open spec fn format_name(self) -> Seq<char> {
        if self == QualityProfile::Lossless {
            "flac"@
        } else {
            "opus"@
        }
    }

    /// The ffmpeg encoder of the container format: "flac" for lossless,
    /// "libopus" otherwise.
    pub open spec fn encoder_name(self) -> Seq<char> {
        if self == QualityProfile::Lossless {
            "flac"@
        } else {
            "libopus"@
        }
    }

    /// The bit rate in kbit/s: 24, 64, 96 and 128 from low to very high;
    /// none for lossless.
    pub open spec fn bitrate_kbps(self) -> Option<u32> {
        match self {
            QualityProfile::Low => Some(24u32),
            QualityProfile::Normal => Some(64u32),
            QualityProfile::High => Some(96u32),
            QualityProfile::VeryHigh => Some(128u32),
            QualityProfile::Lossless => None,
        }
    }

    /// The sample rate in Hz: 44100 for every profile.
    pub open spec fn rate_hz(self) -> u32 {
        44100
    }

    /// The number of channels: 2 for every profile.
    pub open spec fn channel_count(self) -> u32 {
        2
    }

    /// The profile's name as a `String` (see `name`).
    pub fn to_string(&self) -> (s: String)
        ensures
            s@ == self.name(),
    {
        match self {
            QualityProfile::Low => String::from_str("low"),
            QualityProfile::Normal => String::from_str("normal"),
            QualityProfile::High => String::from_str("high"),
            QualityProfile::VeryHigh => String::from_str("very-high"),
            QualityProfile::Lossless => String::from_str("lossless"),
        }
    }

    /// The container format (see `format_name`).
    pub fn format(&self) -> (f: &'static str)
        ensures
            f@ == self.format_name(),
    {
        match self {
            QualityProfile::Lossless => "flac",
            _ => "opus",
        }
    }

    /// The ffmpeg encoder (see `encoder_name`).
    pub fn encoder(&self) -> (e: &'static str)
        ensures
            e@ == self.encoder_name(),
    {
        match self {
            QualityProfile::Lossless => "flac",
            _ => "libopus",
        }
    }

    /// The bit rate in kbit/s (see `bitrate_kbps`).
    pub fn bitrate(&self) -> (b: Option<u32>)
        ensures
            b == self.bitrate_kbps(),
    {
        match self {
            QualityProfile::Low => Some(24),
            QualityProfile::Normal => Some(64),
            QualityProfile::High => Some(96),
            QualityProfile::VeryHigh => Some(128),
            QualityProfile::Lossless => None,
        }
    }

    /// The sample rate in Hz (see `rate_hz`).
    pub fn sample_rate(&self) -> (r: u32)
        ensures
            r == self.rate_hz(),
            r == 44100,
    {
        44100
    }

    /// The number of channels (see `channel_count`).
    pub fn channels(&self) -> (c: u32)
        ensures
            c == self.channel_count(),
            c == 2,
    {
        2
    }
}

/// The audio settings of the recorder.
#[derive(Clone, Copy, Debug, PartialEq, Eq, Structural)]
pub struct AudioConfig {
    pub quality: QualityProfile,
}

impl AudioConfig {
    /// The container format of the configured quality.
    pub fn format(&self) -> (f: &'static str)
        ensures
            f@ == (if self.quality == QualityProfile::Lossless {
                "flac"@
            } else {
                "opus"@
            }),
    {
        self.quality.format()
    }

    /// The ffmpeg encoder of the configured quality.
    pub fn encoder(&self) -> (e: &'static str)
        ensures
            e@ == self.quality.encoder_name(),
    {
        self.quality.encoder()
    }

    /// The bit rate of the configured quality.
    pub fn bitrate(&self) -> (b: Option<u32>)
        ensures
            b == (match self.quality {
                QualityProfile::Low => Some(24u32),
                QualityProfile::Normal => Some(64u32),
                QualityProfile::High => Some(96u32),
                QualityProfile::VeryHigh => Some(128u32),
                QualityProfile::Lossless => None,
            }),
    {
        self.quality.bitrate()
    }

    /// The sample rate of the configured quality.
    pub fn sample_rate(&self) -> (r: u32)
        ensures
            r == 44100,
    {
        self.quality.sample_rate()
    }

    /// The channel count of the configured quality.
    pub fn channels(&self) -> (c: u32)
        ensures
            c == 2,
    {
        self.quality.channels()
    }
}

impl Default for AudioConfig {
    /// Very high quality.
    fn default() -> (c: Self)
        ensures
            c.quality == QualityProfile::VeryHigh,
    {
        AudioConfig { quality: QualityProfile::VeryHigh }
    }
}

} // verus!
