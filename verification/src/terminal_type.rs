//! The terminal types of USB Audio Class 1.0.
use vstd::prelude::*;

verus! {

/// What a terminal of an audio function stands for.
#[derive(Copy, Clone, Eq, PartialEq, Debug, Structural)]
pub enum TerminalType {
    UsbUndefined,
    UsbStreaming,
    UsbVendor,
    InUndefined,
    InMicrophone,
    InDesktopMicrophone,
    InPersonalMicrophone,
    InOmniDirectionalMicrophone,
    InMicrophoneArray,
    InProcessingMicrophoneArray,
    OutUndefined,
    OutSpeaker,
    OutHeadphones,
    OutHeadMountedDisplayAudio,
    OutDesktopSpeaker,
    OutRoomSpeaker,
    OutCommunicationSpeaker,
    OutLowFrequencyEffectsSpeaker,
    ExtUndefined,
    ExtAnalogConnector,
    ExtDigitalAudioInterface,
    ExtLineConnector,
    ExtLegacyAudioConnector,
    ExtSpdifConnector,
    Ext1394DaStream,
    Ext1394DvStreamSoundtrack,
}

impl TerminalType {
    /// The wTerminalType code.
    pub open spec fn spec_code(self) -> u16 {
        match self {
            TerminalType::UsbUndefined => 0x0100,
            TerminalType::UsbStreaming => 0x0101,
            TerminalType::UsbVendor => 0x01ff,
            TerminalType::InUndefined => 0x0200,
            TerminalType::InMicrophone => 0x0201,
            TerminalType::InDesktopMicrophone => 0x0202,
            TerminalType::InPersonalMicrophone => 0x0203,
            TerminalType::InOmniDirectionalMicrophone => 0x0204,
            TerminalType::InMicrophoneArray => 0x0205,
            TerminalType::InProcessingMicrophoneArray => 0x0206,
            TerminalType::OutUndefined => 0x0300,
            TerminalType::OutSpeaker => 0x0301,
            TerminalType::OutHeadphones => 0x0302,
            TerminalType::OutHeadMountedDisplayAudio => 0x0303,
            TerminalType::OutDesktopSpeaker => 0x0304,
            TerminalType::OutRoomSpeaker => 0x0305,
            TerminalType::OutCommunicationSpeaker => 0x0306,
            TerminalType::OutLowFrequencyEffectsSpeaker => 0x0307,
            TerminalType::ExtUndefined => 0x0600,
            TerminalType::ExtAnalogConnector => 0x0601,
            TerminalType::ExtDigitalAudioInterface => 0x0602,
            TerminalType::ExtLineConnector => 0x0603,
            TerminalType::ExtLegacyAudioConnector => 0x0604,
            TerminalType::ExtSpdifConnector => 0x0605,
            TerminalType::Ext1394DaStream => 0x0606,
            TerminalType::Ext1394DvStreamSoundtrack => 0x0607,
        }
    }

    /// The wTerminalType code.
    pub fn code(self) -> (code: u16)
        ensures
            code == self.spec_code(),
    {
        match self {
            TerminalType::UsbUndefined => 0x0100,
            TerminalType::UsbStreaming => 0x0101,
            TerminalType::UsbVendor => 0x01ff,
            TerminalType::InUndefined => 0x0200,
            TerminalType::InMicrophone => 0x0201,
            TerminalType::InDesktopMicrophone => 0x0202,
            TerminalType::InPersonalMicrophone => 0x0203,
            TerminalType::InOmniDirectionalMicrophone => 0x0204,
            TerminalType::InMicrophoneArray => 0x0205,
            TerminalType::InProcessingMicrophoneArray => 0x0206,
            TerminalType::OutUndefined => 0x0300,
            TerminalType::OutSpeaker => 0x0301,
            TerminalType::OutHeadphones => 0x0302,
            TerminalType::OutHeadMountedDisplayAudio => 0x0303,
            TerminalType::OutDesktopSpeaker => 0x0304,
            TerminalType::OutRoomSpeaker => 0x0305,
            TerminalType::OutCommunicationSpeaker => 0x0306,
            TerminalType::OutLowFrequencyEffectsSpeaker => 0x0307,
            TerminalType::ExtUndefined => 0x0600,
            TerminalType::ExtAnalogConnector => 0x0601,
            TerminalType::ExtDigitalAudioInterface => 0x0602,
            TerminalType::ExtLineConnector => 0x0603,
            TerminalType::ExtLegacyAudioConnector => 0x0604,
            TerminalType::ExtSpdifConnector => 0x0605,
            TerminalType::Ext1394DaStream => 0x0606,
            TerminalType::Ext1394DvStreamSoundtrack => 0x0607,
        }
    }
}

} // verus!
