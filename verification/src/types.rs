//! What the audio classes share: channels, sample widths, feedback periods and volumes.
use vstd::prelude::*;

verus! {

/// The greatest logical channel number: there are twelve audio channels.
pub const MAX_AUDIO_CHANNEL_INDEX: usize = 12;

/// The number of logical channels: the audio channels and the master channel.
pub const MAX_AUDIO_CHANNEL_COUNT: usize = 13;

/// An audio channel, by the place of its speaker.
#[derive(Copy, Clone, Eq, PartialEq, Debug, Structural)]
pub enum Channel {
    LeftFront,
    RightFront,
    CenterFront,
    Lfe,
    LeftSurround,
    RightSurround,
    LeftOfCenter,
    RightOfCenter,
    Surround,
    SideLeft,
    SideRight,
    Top,
}

/// A bit of the wChannelConfig field.
#[derive(Copy, Clone, Eq, PartialEq, Debug, Structural)]
pub enum ChannelConfig {
    LeftFront,
    RightFront,
    CenterFront,
    Lfe,
    LeftSurround,
    RightSurround,
    LeftOfCenter,
    RightOfCenter,
    Surround,
    SideLeft,
    SideRight,
    Top,
}

impl ChannelConfig {
    /// The bit as a number.
    pub open spec fn spec_bits(self) -> u16 {
        match self {
            ChannelConfig::LeftFront => 0x0001,
            ChannelConfig::RightFront => 0x0002,
            ChannelConfig::CenterFront => 0x0004,
            ChannelConfig::Lfe => 0x0008,
            ChannelConfig::LeftSurround => 0x0010,
            ChannelConfig::RightSurround => 0x0020,
            ChannelConfig::LeftOfCenter => 0x0040,
            ChannelConfig::RightOfCenter => 0x0080,
            ChannelConfig::Surround => 0x0100,
            ChannelConfig::SideLeft => 0x0200,
            ChannelConfig::SideRight => 0x0400,
            ChannelConfig::Top => 0x0800,
        }
    }

    /// The bit as a number.
    pub fn bits(self) -> (bits: u16)
        ensures
            bits == self.spec_bits(),
    {
        match self {
            ChannelConfig::LeftFront => 0x0001,
            ChannelConfig::RightFront => 0x0002,
            ChannelConfig::CenterFront => 0x0004,
            ChannelConfig::Lfe => 0x0008,
            ChannelConfig::LeftSurround => 0x0010,
            ChannelConfig::RightSurround => 0x0020,
            ChannelConfig::LeftOfCenter => 0x0040,
            ChannelConfig::RightOfCenter => 0x0080,
            ChannelConfig::Surround => 0x0100,
            ChannelConfig::SideLeft => 0x0200,
            ChannelConfig::SideRight => 0x0400,
            ChannelConfig::Top => 0x0800,
        }
    }
}

impl Channel {
    /// The position of the channel's bit in wChannelConfig.
    pub open spec fn position(self) -> u16 {
        match self {
            Channel::LeftFront => 0,
            Channel::RightFront => 1,
            Channel::CenterFront => 2,
            Channel::Lfe => 3,
            Channel::LeftSurround => 4,
            Channel::RightSurround => 5,
            Channel::LeftOfCenter => 6,
            Channel::RightOfCenter => 7,
            Channel::Surround => 8,
            Channel::SideLeft => 9,
            Channel::SideRight => 10,
            Channel::Top => 11,
        }
    }

    /// The channel's wChannelConfig bit.
    pub open spec fn spec_channel_config(self) -> ChannelConfig {
        match self {
            Channel::LeftFront => ChannelConfig::LeftFront,
            Channel::RightFront => ChannelConfig::RightFront,
            Channel::CenterFront => ChannelConfig::CenterFront,
            Channel::Lfe => ChannelConfig::Lfe,
            Channel::LeftSurround => ChannelConfig::LeftSurround,
            Channel::RightSurround => ChannelConfig::RightSurround,
            Channel::LeftOfCenter => ChannelConfig::LeftOfCenter,
            Channel::RightOfCenter => ChannelConfig::RightOfCenter,
            Channel::Surround => ChannelConfig::Surround,
            Channel::SideLeft => ChannelConfig::SideLeft,
            Channel::SideRight => ChannelConfig::SideRight,
            Channel::Top => ChannelConfig::Top,
        }
    }

    /// The channel's wChannelConfig bit.
    pub fn get_channel_config(&self) -> (config: ChannelConfig)
        ensures
            config == self.spec_channel_config(),
    {
        match self {
            Channel::LeftFront => ChannelConfig::LeftFront,
            Channel::RightFront => ChannelConfig::RightFront,
            Channel::CenterFront => ChannelConfig::CenterFront,
            Channel::Lfe => ChannelConfig::Lfe,
            Channel::LeftSurround => ChannelConfig::LeftSurround,
            Channel::RightSurround => ChannelConfig::RightSurround,
            Channel::LeftOfCenter => ChannelConfig::LeftOfCenter,
            Channel::RightOfCenter => ChannelConfig::RightOfCenter,
            Channel::Surround => ChannelConfig::Surround,
            Channel::SideLeft => ChannelConfig::SideLeft,
            Channel::SideRight => ChannelConfig::SideRight,
            Channel::Top => ChannelConfig::Top,
        }
    }

    /// The channel's bit stands at the channel's position.
    pub proof fn bit_at_position(self)
        ensures
            self.position() < MAX_AUDIO_CHANNEL_INDEX,
            self.spec_channel_config().spec_bits() == 1u16 << self.position(),
    {
        let position = self.position();
        assert(1u16 << 0u16 == 0x0001 && 1u16 << 1u16 == 0x0002 && 1u16 << 2u16 == 0x0004 && 1u16
            << 3u16 == 0x0008 && 1u16 << 4u16 == 0x0010 && 1u16 << 5u16 == 0x0020 && 1u16 << 6u16
            == 0x0040 && 1u16 << 7u16 == 0x0080 && 1u16 << 8u16 == 0x0100 && 1u16 << 9u16 == 0x0200
            && 1u16 << 10u16 == 0x0400 && 1u16 << 11u16 == 0x0800) by (bit_vector);
    }
}

/// The bits of all of `channels`.
pub open spec fn channel_bits(channels: Seq<Channel>) -> u16
    decreases channels.len(),
{
    if channels.len() == 0 {
        0
    } else {
        channel_bits(channels.drop_last()) | channels.last().spec_channel_config().spec_bits()
    }
}

/// The width of an audio sample.
#[derive(Copy, Clone, Eq, PartialEq, Debug, Structural)]
pub enum SampleWidth {
    Width2Byte,
    Width3Byte,
    Width4Byte,
}

impl SampleWidth {
    /// The number of bytes of a sample.
    pub open spec fn byte_count(self) -> nat {
        match self {
            SampleWidth::Width2Byte => 2,
            SampleWidth::Width3Byte => 3,
            SampleWidth::Width4Byte => 4,
        }
    }

    /// The number of bytes of a sample.
    pub fn in_byte(self) -> (bytes: u8)
        ensures
            bytes == self.byte_count(),
    {
        match self {
            SampleWidth::Width2Byte => 2,
            SampleWidth::Width3Byte => 3,
            SampleWidth::Width4Byte => 4,
        }
    }

    /// The number of bits of a sample.
    pub fn in_bit(self) -> (bits: u8)
        ensures
            bits == 8 * self.byte_count(),
    {
        8 * self.in_byte()
    }
}

/// How often a new feedback value is available, as a number of frames.
#[derive(Copy, Clone, Eq, PartialEq, Debug, Structural)]
pub enum FeedbackRefresh {
    Period2Frames,
    Period4Frames,
    Period8Frames,
    Period16Frames,
    Period32Frames,
    Period64Frames,
    Period128Frames,
    Period256Frames,
    Period512Frames,
}

impl FeedbackRefresh {
    /// The bRefresh exponent: the period is this power of two, in frames.
    pub open spec fn spec_exponent(self) -> u8 {
        match self {
            FeedbackRefresh::Period2Frames => 1,
            FeedbackRefresh::Period4Frames => 2,
            FeedbackRefresh::Period8Frames => 3,
            FeedbackRefresh::Period16Frames => 4,
            FeedbackRefresh::Period32Frames => 5,
            FeedbackRefresh::Period64Frames => 6,
            FeedbackRefresh::Period128Frames => 7,
            FeedbackRefresh::Period256Frames => 8,
            FeedbackRefresh::Period512Frames => 9,
        }
    }

    /// The bRefresh exponent: the period is this power of two, in frames.
    pub fn exponent(self) -> (exponent: u8)
        ensures
            exponent == self.spec_exponent(),
    {
        match self {
            FeedbackRefresh::Period2Frames => 1,
            FeedbackRefresh::Period4Frames => 2,
            FeedbackRefresh::Period8Frames => 3,
            FeedbackRefresh::Period16Frames => 4,
            FeedbackRefresh::Period32Frames => 5,
            FeedbackRefresh::Period64Frames => 6,
            FeedbackRefresh::Period128Frames => 7,
            FeedbackRefresh::Period256Frames => 8,
            FeedbackRefresh::Period512Frames => 9,
        }
    }
}

/// The volume of an audio channel.
#[derive(Copy, Clone, Eq, PartialEq, Debug, Structural)]
pub enum Volume {
    /// The channel is muted.
    Muted,
    /// The volume in units of 1/256 dB.
    DeciBel8q8(i16),
}

} // verus!
