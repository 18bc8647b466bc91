//! The settings of the feature unit.
use vstd::prelude::*;

#[allow(unused_imports)]
use crate::function::FeatureUnitControls;
use crate::types::{Volume, MAX_AUDIO_CHANNEL_COUNT, MAX_AUDIO_CHANNEL_INDEX};

verus! {

// Volume settings go from -25600 to 0, in steps of 256.
// Therefore, the volume settings are 8q8 values in units of dB.
pub const VOLUME_STEPS_PER_DB: i16 = 256;

pub const MIN_VOLUME_DB: i16 = -100;

pub const MAX_VOLUME_DB: i16 = 0;

/// Audio settings for the feature unit: the mute state and the volume of each logical channel,
/// where channel zero is the master channel.
#[derive(Clone, Copy, Debug)]
pub struct AudioSettings {
    muted: [bool; MAX_AUDIO_CHANNEL_COUNT],
    volume_8q8_db: [i16; MAX_AUDIO_CHANNEL_COUNT],
}

/// The mute state and the volume, in units of 1/256 dB, of each logical channel.
#[verifier::ext_equal]
pub struct SettingsView {
    pub muted: Seq<bool>,
    pub volume: Seq<int>,
}

impl SettingsView {
    /// Every logical channel has a mute state and a volume.
    pub open spec fn wf(self) -> bool {
        &&& self.muted.len() == MAX_AUDIO_CHANNEL_COUNT
        &&& self.volume.len() == MAX_AUDIO_CHANNEL_COUNT
        &&& forall|i: int|
            0 <= i < self.volume.len() ==> i16::MIN <= #[trigger] self.volume[i] <= i16::MAX
    }

    /// What holds before the host has set anything: nothing is muted, every volume is the highest.
    pub open spec fn initial() -> SettingsView {
        SettingsView {
            muted: Seq::new(MAX_AUDIO_CHANNEL_COUNT as nat, |i: int| false),
            volume: Seq::new(
                MAX_AUDIO_CHANNEL_COUNT as nat,
                |i: int| MAX_VOLUME_DB * VOLUME_STEPS_PER_DB,
            ),
        }
    }

    /// Whether nothing is set but `controls`, on the master channel and on `channel_count` others.
    pub open spec fn within(self, controls: FeatureUnitControls, channel_count: nat) -> bool {
        &&& forall|i: int|
            0 <= i < self.muted.len() && #[trigger] self.muted[i] ==> controls.mute && i
                <= channel_count
        &&& forall|i: int|
            0 <= i < self.volume.len() && #[trigger] self.volume[i] != MAX_VOLUME_DB
                * VOLUME_STEPS_PER_DB ==> controls.volume && i <= channel_count
    }

    /// Whether a stream of `channel_count` channels is silent: the master channel is muted, or
    /// every audio channel is.
    pub open spec fn stream_muted(self, channel_count: nat) -> bool {
        self.muted[0] || forall|channel: int|
            1 <= channel <= channel_count ==> #[trigger] self.muted[channel]
    }

    /// The volume of logical channel `channel`.
    pub open spec fn channel_volume(self, channel: int) -> Volume {
        if self.muted[channel] {
            Volume::Muted
        } else {
            Volume::DeciBel8q8(self.volume[channel] as i16)
        }
    }
}

impl View for AudioSettings {
    type V = SettingsView;

    closed spec fn view(&self) -> SettingsView {
        SettingsView {
            muted: self.muted@,
            volume: self.volume_8q8_db@.map_values(|v: i16| v as int),
        }
    }
}

impl Default for AudioSettings {
    fn default() -> (settings: Self)
        ensures
            settings@ == SettingsView::initial(),
    {
        let settings = AudioSettings {
            muted: [false; MAX_AUDIO_CHANNEL_COUNT],
            volume_8q8_db: [MAX_VOLUME_DB * VOLUME_STEPS_PER_DB; MAX_AUDIO_CHANNEL_COUNT],
        };
        assert(settings@ =~= SettingsView::initial());
        settings
    }
}

impl AudioSettings {
    /// There are settings for every logical channel.
    pub proof fn view_wf(&self)
        ensures
            self@.wf(),
    {
    }

    /// The mute state of a logical channel.
    pub fn channel_muted(&self, channel: usize) -> (muted: bool)
        requires
            channel < MAX_AUDIO_CHANNEL_COUNT,
        ensures
            muted == self@.muted[channel as int],
    {
        self.muted[channel]
    }

    /// The volume setting of a logical channel, whether muted or not.
    pub fn volume_8q8(&self, channel: usize) -> (volume: i16)
        requires
            channel < MAX_AUDIO_CHANNEL_COUNT,
        ensures
            volume == self@.volume[channel as int],
    {
        self.volume_8q8_db[channel]
    }

    /// Set the mute state of a logical channel.
    pub fn set_muted(&mut self, channel: usize, muted: bool)
        requires
            channel < MAX_AUDIO_CHANNEL_COUNT,
        ensures
            final(self)@ == (SettingsView {
                muted: old(self)@.muted.update(channel as int, muted),
                ..old(self)@
            }),
    {
        self.muted[channel] = muted;
        assert(self@.volume =~= old(self)@.volume);
    }

    /// Set the volume of a logical channel.
    pub fn set_volume_8q8(&mut self, channel: usize, volume: i16)
        requires
            channel < MAX_AUDIO_CHANNEL_COUNT,
        ensures
            final(self)@ == (SettingsView {
                volume: old(self)@.volume.update(channel as int, volume as int),
                ..old(self)@
            }),
    {
        self.volume_8q8_db[channel] = volume;
        assert(self@.volume =~= old(self)@.volume.update(channel as int, volume as int));
    }

    /// Whether a stream of `channel_count` channels is silent: the master channel is muted, or
    /// every audio channel is.
    pub fn stream_muted(&self, channel_count: usize) -> (muted: bool)
        requires
            channel_count <= MAX_AUDIO_CHANNEL_INDEX,
        ensures
            muted == self@.stream_muted(channel_count as nat),
    {
        if self.muted[0] {
            return true;
        }
        let mut channel: usize = 1;
        while channel <= channel_count
            invariant
                1 <= channel <= channel_count + 1,
                channel_count <= MAX_AUDIO_CHANNEL_INDEX,
                !self@.muted[0],
                forall|i: int| 1 <= i < channel ==> #[trigger] self@.muted[i],
            decreases channel_count + 1 - channel,
        {
            if !self.muted[channel] {
                assert(!self@.muted[channel as int]);
                return false;
            }
            channel += 1;
        }
        true
    }

    /// The volume of a logical channel.
    pub fn channel_volume(&self, channel: usize) -> (volume: Volume)
        requires
            channel < MAX_AUDIO_CHANNEL_COUNT,
        ensures
            volume == self@.channel_volume(channel as int),
    {
        if self.muted[channel] {
            Volume::Muted
        } else {
            Volume::DeciBel8q8(self.volume_8q8_db[channel])
        }
    }
}

} // verus!
