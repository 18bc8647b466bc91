//! The codes of USB Audio Class 1.0.
use vstd::prelude::*;

verus! {

/// Release 1.0 of the audio device class, in binary coded decimal.
pub const ADC_VERSION: u16 = 0x0100;

/// Audio interface class code.
pub const USB_AUDIO_CLASS: u8 = 0x01;

/// Audio interface subclass code of the control interface.
pub const USB_AUDIOCONTROL_SUBCLASS: u8 = 0x01;

/// Audio interface subclass code of a streaming interface.
pub const USB_AUDIOSTREAMING_SUBCLASS: u8 = 0x02;

/// Audio interface protocol code.
pub const PROTOCOL_NONE: u8 = 0x00;

/// Class-specific interface descriptor type.
pub const CS_INTERFACE: u8 = 0x24;

/// Class-specific endpoint descriptor type.
pub const CS_ENDPOINT: u8 = 0x25;

/// AudioControl interface descriptor subtypes.
pub const HEADER_SUBTYPE: u8 = 0x01;

pub const INPUT_TERMINAL: u8 = 0x02;

pub const OUTPUT_TERMINAL: u8 = 0x03;

pub const FEATURE_UNIT: u8 = 0x06;

/// AudioStreaming interface (and endpoint) descriptor subtypes.
pub const AS_GENERAL: u8 = 0x01;

pub const FORMAT_TYPE: u8 = 0x02;

/// Format type code of Type I (PCM-like) streams.
pub const FORMAT_TYPE_I: u8 = 0x01;

/// Audio data format tag of PCM.
pub const PCM: u16 = 0x0001;

/// Class-specific request codes.
pub const SET_CUR: u8 = 0x01;

pub const GET_CUR: u8 = 0x81;

pub const GET_MIN: u8 = 0x82;

pub const GET_MAX: u8 = 0x83;

pub const GET_RES: u8 = 0x84;

/// Feature unit control selectors.
pub const FU_CONTROL_UNDEFINED: u8 = 0x00;

pub const MUTE_CONTROL: u8 = 0x01;

pub const VOLUME_CONTROL: u8 = 0x02;

/// Endpoint control selector of the sampling frequency.
pub const SAMPLING_FREQ_CONTROL: u8 = 0x01;

} // verus!
