//! An audio function: its descriptors and its feedback endpoint.
use vstd::prelude::*;

use crate::builder::{
    Builder, Direction, EndpointInfo, EndpointRequest, EndpointType, SynchronizationType, UsageType,
    DESCRIPTOR_HEADER_SIZE, MAX_INTERFACE_COUNT,
};
#[allow(unused_imports)]
use crate::builder::{BuilderView, Call};
#[allow(unused_imports)]
use crate::bytes::byte_at;
use crate::bytes::{high_byte, low_byte, u24_to_le};
use crate::class_codes::{
    ADC_VERSION, AS_GENERAL, CS_ENDPOINT, CS_INTERFACE, FEATURE_UNIT, FORMAT_TYPE, FORMAT_TYPE_I,
    FU_CONTROL_UNDEFINED, HEADER_SUBTYPE, INPUT_TERMINAL, MUTE_CONTROL, OUTPUT_TERMINAL, PCM,
    PROTOCOL_NONE, SAMPLING_FREQ_CONTROL, USB_AUDIOCONTROL_SUBCLASS, USB_AUDIOSTREAMING_SUBCLASS,
    USB_AUDIO_CLASS, VOLUME_CONTROL,
};
#[allow(unused_imports)]
use crate::fixed_vec::body_bytes;
use crate::fixed_vec::{
    body_as_slice, body_extend, body_from_slice, body_new, body_push, MAX_SAMPLE_RATE_COUNT,
};
use crate::terminal_type::TerminalType;
#[allow(unused_imports)]
use crate::types::channel_bits;
use crate::types::{Channel, FeedbackRefresh, SampleWidth, MAX_AUDIO_CHANNEL_INDEX};

verus! {

/// Unit ids, unique within a function.
pub const INPUT_UNIT_ID: u8 = 0x01;

pub const FEATURE_UNIT_ID: u8 = 0x02;

pub const OUTPUT_UNIT_ID: u8 = 0x03;

/// Which feature unit controls the host is offered. With neither, no feature unit is described.
#[derive(Debug, Clone, Copy, PartialEq, Eq, Structural)]
pub struct FeatureUnitControls {
    /// A mute control on the master channel and on each audio channel.
    pub mute: bool,
    /// A volume control on the master channel and on each audio channel.
    pub volume: bool,
}

impl FeatureUnitControls {
    /// Mute and volume.
    pub open spec fn spec_all() -> FeatureUnitControls {
        FeatureUnitControls { mute: true, volume: true }
    }

    /// No feature unit.
    pub open spec fn spec_none() -> FeatureUnitControls {
        FeatureUnitControls { mute: false, volume: false }
    }

    /// Mute and volume.
    pub fn all() -> (controls: FeatureUnitControls)
        ensures
            controls == FeatureUnitControls::spec_all(),
    {
        FeatureUnitControls { mute: true, volume: true }
    }

    /// No feature unit.
    pub fn none() -> (controls: FeatureUnitControls)
        ensures
            controls == FeatureUnitControls::spec_none(),
    {
        FeatureUnitControls { mute: false, volume: false }
    }

    /// The bmaControls byte for one channel: a bit for each control.
    pub open spec fn spec_bitmap(self) -> u8 {
        ((if self.mute { MUTE_CONTROL as int } else { 0 }) + (if self.volume {
            VOLUME_CONTROL as int
        } else {
            0
        })) as u8
    }

    /// The bmaControls byte for one channel.
    pub fn bitmap(&self) -> (controls: u8)
        ensures
            controls == self.spec_bitmap(),
    {
        assert(0u8 | 1u8 == 1 && 0u8 | 2u8 == 2 && 1u8 | 2u8 == 3) by (bit_vector);
        let mut controls: u8 = FU_CONTROL_UNDEFINED;
        if self.mute {
            controls |= MUTE_CONTROL;
        }
        if self.volume {
            controls |= VOLUME_CONTROL;
        }
        controls
    }
}

/// Maximum allowed sampling rate (3 bytes) in Hz.
pub const MAX_SAMPLE_RATE_HZ: u32 = 0xFFFFFF;

/// The length of the body of the class-specific AC interface header descriptor.
pub const HEADER_LEN: usize = 7;

/// An audio function: Input Terminal -> [Feature Unit] -> Output Terminal, carrying a PCM
/// stream of `channels` at `sample_width` and any of `sample_rates_hz`. One terminal is the USB
/// stream.
#[derive(Clone, Copy, Debug)]
pub struct AudioFunction<'a> {
    pub channels: &'a [Channel],
    pub sample_width: SampleWidth,
    pub sample_rates_hz: &'a [u32],
    /// What the Input Terminal is.
    pub input_terminal: TerminalType,
    /// What the Output Terminal is.
    pub output_terminal: TerminalType,
    /// The Feature Unit's controls on the master channel and on each
    /// channel, or `None` for no Feature Unit at all.
    pub feature_unit: Option<(FeatureUnitControls, FeatureUnitControls)>,
}

/// What an `AudioFunction` says.
#[verifier::ext_equal]
pub struct FunctionView {
    pub channels: Seq<Channel>,
    pub sample_width: SampleWidth,
    pub sample_rates_hz: Seq<u32>,
    pub input_terminal: TerminalType,
    pub output_terminal: TerminalType,
    pub feature_unit: Option<(FeatureUnitControls, FeatureUnitControls)>,
}

impl<'a> View for AudioFunction<'a> {
    type V = FunctionView;

    open spec fn view(&self) -> FunctionView {
        FunctionView {
            channels: self.channels@,
            sample_width: self.sample_width,
            sample_rates_hz: self.sample_rates_hz@,
            input_terminal: self.input_terminal,
            output_terminal: self.output_terminal,
            feature_unit: self.feature_unit,
        }
    }
}

/// The length of descriptors with the given bodies, headers included.
pub open spec fn total_length(bodies: Seq<Seq<u8>>) -> nat
    decreases bodies.len(),
{
    if bodies.len() == 0 {
        0
    } else {
        total_length(bodies.drop_last()) + bodies.last().len() + DESCRIPTOR_HEADER_SIZE as nat
    }
}

/// The steps that describe class-specific interface descriptors with the given bodies.
pub open spec fn interface_descriptors(bodies: Seq<Seq<u8>>) -> Seq<Call> {
    bodies.map_values(
        |body: Seq<u8>| Call::Descriptor { descriptor_type: CS_INTERFACE, body },
    )
}

/// The rates one after the other, three bytes each, least significant first.
pub open spec fn rate_bytes(rates: Seq<u32>) -> Seq<u8> {
    Seq::new(3 * rates.len(), |i: int| byte_at(rates[i / 3] as nat, (i % 3) as nat))
}

/// A stream's sample rates can be described: there are at most ten, of three bytes each.
pub open spec fn valid_rates(rates: Seq<u32>) -> bool {
    &&& rates.len() <= MAX_SAMPLE_RATE_COUNT
    &&& forall|i: int| 0 <= i < rates.len() ==> #[trigger] rates[i] <= MAX_SAMPLE_RATE_HZ
}

impl FunctionView {
    /// The function can be described: its channels differ from each other, and its sample rates
    /// are at most ten, of three bytes each.
    pub open spec fn wf(self) -> bool {
        &&& self.channels.no_duplicates()
        &&& valid_rates(self.sample_rates_hz)
    }

    /// Input Terminal Descriptor.
    pub open spec fn input_terminal_body(self) -> Seq<u8> {
        let terminal_type = self.input_terminal.spec_code();
        let channel_config = channel_bits(self.channels);
        seq![
            INPUT_TERMINAL,
            INPUT_UNIT_ID,
            (terminal_type % 256) as u8,
            (terminal_type / 256) as u8,
            0x00u8,
            self.channels.len() as u8,
            (channel_config % 256) as u8,
            (channel_config / 256) as u8,
            0x00u8,
            0x00u8,
        ]
    }

    /// Feature Unit Descriptor: the controls on the master channel, then those on
    /// each channel.
    pub open spec fn feature_unit_body(
        self,
        master: FeatureUnitControls,
        per_channel: FeatureUnitControls,
    ) -> Seq<u8> {
        seq![FEATURE_UNIT, FEATURE_UNIT_ID, INPUT_UNIT_ID, 1u8, master.spec_bitmap()] + Seq::new(
            self.channels.len(),
            |i: int| per_channel.spec_bitmap(),
        ) + seq![0x00u8]
    }

    /// The unit that the Output Terminal is connected to: the feature unit, or the input terminal
    /// directly.
    pub open spec fn output_source(self) -> u8 {
        if self.feature_unit is Some {
            FEATURE_UNIT_ID
        } else {
            INPUT_UNIT_ID
        }
    }

    /// Output Terminal Descriptor.
    pub open spec fn output_terminal_body(self) -> Seq<u8> {
        let terminal_type = self.output_terminal.spec_code();
        seq![
            OUTPUT_TERMINAL,
            OUTPUT_UNIT_ID,
            (terminal_type % 256) as u8,
            (terminal_type / 256) as u8,
            0x00u8,
            self.output_source(),
            0x00u8,
        ]
    }

    /// The bodies of the terminals and units, in the order of the signal.
    pub open spec fn unit_bodies(self) -> Seq<Seq<u8>> {
        match self.feature_unit {
            Some((master, per_channel)) => seq![
                self.input_terminal_body(),
                self.feature_unit_body(master, per_channel),
                self.output_terminal_body(),
            ],
            None => seq![self.input_terminal_body(), self.output_terminal_body()],
        }
    }

    /// Class-specific AC Interface Descriptor; wTotalLength counts itself and every
    /// unit, headers included.
    pub open spec fn header_body(self, streaming_interface: u8) -> Seq<u8> {
        let length = HEADER_LEN + DESCRIPTOR_HEADER_SIZE + total_length(self.unit_bodies());
        seq![
            HEADER_SUBTYPE,
            (ADC_VERSION % 256) as u8,
            (ADC_VERSION / 256) as u8,
            (length % 256) as u8,
            (length / 256) as u8,
            0x01u8,
            streaming_interface,
        ]
    }

    /// The bodies of the class-specific AudioControl interface descriptors: the
    /// header, then each terminal and unit.
    pub open spec fn ac_bodies(self, streaming_interface: u8) -> Seq<Seq<u8>> {
        seq![self.header_body(streaming_interface)] + self.unit_bodies()
    }

    /// The terminal that is the USB stream.
    pub open spec fn terminal_link(self) -> u8 {
        if self.input_terminal == TerminalType::UsbStreaming {
            INPUT_UNIT_ID
        } else {
            OUTPUT_UNIT_ID
        }
    }

    /// Class-specific AS Interface Descriptor: the stream connects to the USB terminal.
    pub open spec fn general_body(self) -> Seq<u8> {
        seq![
            AS_GENERAL,
            self.terminal_link(),
            0x00u8,
            (PCM % 256) as u8,
            (PCM / 256) as u8,
        ]
    }

    /// Type I Format Type Descriptor, with discrete sample rates.
    pub open spec fn format_body(self) -> Seq<u8> {
        seq![
            FORMAT_TYPE,
            FORMAT_TYPE_I,
            self.channels.len() as u8,
            self.sample_width.byte_count() as u8,
            (8 * self.sample_width.byte_count()) as u8,
            self.sample_rates_hz.len() as u8,
        ] + rate_bytes(self.sample_rates_hz)
    }

    /// The bodies of the class-specific AudioStreaming interface descriptors: the
    /// general one, linking to the USB streaming terminal, and the format.
    pub open spec fn as_bodies(self) -> Seq<Seq<u8>> {
        seq![self.general_body(), self.format_body()]
    }
}

/// The steps that describe an isochronous audio data endpoint: the standard descriptor, pointing
/// at the synch endpoint if there is one, and the class-specific one with its sampling frequency
/// control.
pub open spec fn as_endpoint_calls(endpoint: EndpointInfo, feedback: Option<EndpointInfo>) -> Seq<
    Call,
> {
    seq![
        Call::EndpointDescriptor {
            endpoint,
            synchronization_type: SynchronizationType::Asynchronous,
            usage_type: UsageType::DataEndpoint,
            extra_fields: seq![
                0x00u8,
                match feedback {
                    Some(feedback) => feedback.addr,
                    None => 0x00u8,
                },
            ],
        },
        Call::Descriptor {
            descriptor_type: CS_ENDPOINT,
            body: seq![AS_GENERAL, SAMPLING_FREQ_CONTROL, 0x02u8, 0x00u8, 0x00u8],
        },
    ]
}

/// The step that describes a synch endpoint.
pub open spec fn feedback_call(endpoint: EndpointInfo, refresh: FeedbackRefresh) -> Call {
    Call::EndpointDescriptor {
        endpoint,
        synchronization_type: SynchronizationType::NoSynchronization,
        usage_type: UsageType::FeedbackEndpoint,
        extra_fields: seq![refresh.spec_exponent(), 0x00u8],
    }
}

/// The steps that describe the interfaces of an audio function: the interface association with
/// the control interface and its descriptors, and the streaming interface behind it. Alternate
/// setting 0 of the latter is zero-bandwidth and has nothing in it; alternate setting 1 carries
/// the stream.
pub open spec fn interface_calls(function: FunctionView, control_interface: u8) -> Seq<Call> {
    let streaming_interface = (control_interface + 1) as u8;
    let control = Call::AltSetting {
        class: USB_AUDIO_CLASS,
        subclass: USB_AUDIOCONTROL_SUBCLASS,
        protocol: PROTOCOL_NONE,
    };
    let streaming = Call::AltSetting {
        class: USB_AUDIO_CLASS,
        subclass: USB_AUDIOSTREAMING_SUBCLASS,
        protocol: PROTOCOL_NONE,
    };
    seq![
        Call::Function {
            class: USB_AUDIO_CLASS,
            subclass: USB_AUDIOCONTROL_SUBCLASS,
            protocol: PROTOCOL_NONE,
        },
        Call::Interface { number: control_interface },
        control,
    ] + interface_descriptors(function.ac_bodies(streaming_interface)) + seq![
        Call::Interface { number: streaming_interface },
        streaming,
        streaming,
    ] + interface_descriptors(function.as_bodies())
}

/// There are only twelve channels to tell apart.
pub proof fn unique_channels_bounded(channels: Seq<Channel>)
    requires
        channels.no_duplicates(),
    ensures
        channels.len() <= MAX_AUDIO_CHANNEL_INDEX,
{
    let positions = channels.map_values(|channel: Channel| channel.position() as int);
    assert forall|i: int, j: int|
        0 <= i < positions.len() && 0 <= j < positions.len() && i != j implies positions[i]
        != positions[j] by {
        assert(channels[i] != channels[j]);
    }
    assert(positions.no_duplicates());
    positions.unique_seq_to_set();
    let all = vstd::set_lib::set_int_range(0, MAX_AUDIO_CHANNEL_INDEX as int);
    vstd::set_lib::lemma_int_range(0, MAX_AUDIO_CHANNEL_INDEX as int);
    assert(positions.to_set().subset_of(all)) by {
        assert forall|p: int| positions.to_set().contains(p) implies all.contains(p) by {
            let i = choose|i: int| 0 <= i < positions.len() && positions[i] == p;
            channels[i].bit_at_position();
        }
    }
    vstd::set_lib::lemma_len_subset(positions.to_set(), all);
}

/// Whether the sample rates are at most ten, of three bytes each.
pub(crate) fn are_valid_rates(rates: &[u32]) -> (valid: bool)
    ensures
        valid == valid_rates(rates@),
{
    if rates.len() > MAX_SAMPLE_RATE_COUNT {
        return false;
    }
    let mut i: usize = 0;
    while i < rates.len()
        invariant
            i <= rates@.len(),
            forall|j: int| 0 <= j < i ==> #[trigger] rates@[j] <= MAX_SAMPLE_RATE_HZ,
        decreases rates@.len() - i,
    {
        if rates[i] > MAX_SAMPLE_RATE_HZ {
            return false;
        }
        i += 1;
    }
    true
}

/// Whether the channels differ from each other.
pub(crate) fn are_distinct(channels: &[Channel]) -> (distinct: bool)
    ensures
        distinct == channels@.no_duplicates(),
{
    let mut i: usize = 0;
    while i < channels.len()
        invariant
            i <= channels@.len(),
            forall|j: int, k: int| 0 <= j < k < i ==> channels@[j] != channels@[k],
        decreases channels@.len() - i,
    {
        let mut j: usize = 0;
        while j < i
            invariant
                j <= i < channels@.len(),
                forall|k: int| 0 <= k < j ==> channels@[k] != channels@[i as int],
            decreases i - j,
        {
            if channels[j] == channels[i] {
                return false;
            }
            j += 1;
        }
        i += 1;
    }
    true
}

impl<'a> AudioFunction<'a> {
    /// Describe the interfaces of an audio function, and return the number of its control interface.
    pub fn describe_interfaces(&self, builder: &mut Builder) -> (control_interface: u8)
        requires
            self@.wf(),
            old(builder)@.interface_count + 2 <= MAX_INTERFACE_COUNT,
        ensures
            control_interface == old(builder)@.interface_count,
            final(builder)@ == (BuilderView {
                interface_count: old(builder)@.interface_count + 2,
                calls: old(builder)@.calls + interface_calls(self@, control_interface),
            }),
    {
        // The class and subclass fields of the IAD aren't required to match the class and subclass fields of
        // the interfaces in the interface collection that the IAD describes. Microsoft recommends that
        // the first interface of the collection has class and subclass fields that match the class and
        // subclass fields of the IAD.
        builder.function(USB_AUDIO_CLASS, USB_AUDIOCONTROL_SUBCLASS, PROTOCOL_NONE);

        // Audio control interface (mandatory)
        let control_interface: u8 = builder.interface();
        let streaming_interface: u8 = control_interface + 1;
        builder.alt_setting(USB_AUDIO_CLASS, USB_AUDIOCONTROL_SUBCLASS, PROTOCOL_NONE);
        self.write_ac_interface_descriptors(builder, streaming_interface);

        // Audio streaming interface: alternate setting 0 is zero-bandwidth
        // and has nothing in it; alternate setting 1 carries the stream.
        builder.interface();
        builder.alt_setting(USB_AUDIO_CLASS, USB_AUDIOSTREAMING_SUBCLASS, PROTOCOL_NONE);
        builder.alt_setting(USB_AUDIO_CLASS, USB_AUDIOSTREAMING_SUBCLASS, PROTOCOL_NONE);
        self.write_as_interface_descriptors(builder);
        assert(builder@.calls =~= old(builder)@.calls + interface_calls(self@, control_interface));
        control_interface
    }

    /// Write the class-specific AudioControl interface descriptors:
    /// the header, then each terminal and unit. `streaming_interface` is the
    /// AudioStreaming interface's number.
    pub fn write_ac_interface_descriptors(&self, alt: &mut Builder, streaming_interface: u8)
        requires
            self@.channels.no_duplicates(),
        ensures
            final(alt)@ == old(alt)@.extend(
                interface_descriptors(self@.ac_bodies(streaming_interface)),
            ),
    {
        proof {
            unique_channels_bounded(self@.channels);
        }
        // Input Terminal Descriptor
        let terminal_type: u16 = self.input_terminal.code();
        let channel_config: u16 = self.channel_config();
        let input_terminal: [u8; 10] = [
            INPUT_TERMINAL,  // bDescriptorSubtype
            INPUT_UNIT_ID,  // bTerminalID
            low_byte(terminal_type),
            high_byte(terminal_type),  // wTerminalType
            0x00,  // bAssocTerminal (none)
            self.channels.len() as u8,  // bNrChannels
            low_byte(channel_config),
            high_byte(channel_config),  // wChannelConfig
            0x00,  // iChannelNames (none)
            0x00,  // iTerminal (none)
        ];
        assert(input_terminal@ =~= self@.input_terminal_body());

        // Feature Unit Descriptor
        let mut feature_unit = body_new();
        if let Some((master, per_channel)) = self.feature_unit {
            let head: [u8; 5] = [
                FEATURE_UNIT,  // bDescriptorSubtype (Feature Unit)
                FEATURE_UNIT_ID,  // bUnitID
                INPUT_UNIT_ID,  // bSourceID
                1,  // bControlSize (one byte per control)
                master.bitmap(),  // Master controls
            ];
            body_extend(&mut feature_unit, &head).unwrap();
            let mut channel: usize = 0;
            while channel < self.channels.len()
                invariant
                    channel <= self.channels@.len() <= MAX_AUDIO_CHANNEL_INDEX,
                    head@.len() == 5,
                    body_bytes(feature_unit) == head@ + Seq::new(
                        channel as nat,
                        |i: int| per_channel.spec_bitmap(),
                    ),
                decreases self.channels@.len() - channel,
            {
                body_push(&mut feature_unit, per_channel.bitmap()).unwrap();
                channel += 1;
                assert(body_bytes(feature_unit) =~= head@ + Seq::new(
                    channel as nat,
                    |i: int| per_channel.spec_bitmap(),
                ));
            }
            body_push(&mut feature_unit, 0x00).unwrap();  // iFeature (none)
            assert(body_bytes(feature_unit) =~= self@.feature_unit_body(
                master,
                per_channel,
            ));
        }

        // Output Terminal Descriptor
        let terminal_type: u16 = self.output_terminal.code();
        let output_terminal: [u8; 7] = [
            OUTPUT_TERMINAL,  // bDescriptorSubtype
            OUTPUT_UNIT_ID,  // bTerminalID
            low_byte(terminal_type),
            high_byte(terminal_type),  // wTerminalType
            0x00,  // bAssocTerminal (none)
            // bSourceID: the feature unit, or the input terminal directly
            if self.feature_unit.is_some() {
                FEATURE_UNIT_ID
            } else {
                INPUT_UNIT_ID
            },
            0x00,  // iTerminal (none)
        ];
        assert(output_terminal@ =~= self@.output_terminal_body());

        // Class-specific AC Interface Descriptor; wTotalLength counts
        // itself and every unit, headers included.
        let mut total: usize = HEADER_LEN + DESCRIPTOR_HEADER_SIZE;
        total += input_terminal.len() + DESCRIPTOR_HEADER_SIZE;
        total += output_terminal.len() + DESCRIPTOR_HEADER_SIZE;
        if self.feature_unit.is_some() {
            total += body_as_slice(&feature_unit).len() + DESCRIPTOR_HEADER_SIZE;
        }
        proof {
            self@.total_length_of_units();
        }
        let header: [u8; 7] = [
            HEADER_SUBTYPE,  // bDescriptorSubtype (Header)
            low_byte(ADC_VERSION),
            high_byte(ADC_VERSION),  // bcdADC
            low_byte(total as u16),
            high_byte(total as u16),  // wTotalLength
            0x01,  // bInCollection (1 streaming interface)
            streaming_interface,  // baInterfaceNr
        ];
        assert(header@ =~= self@.header_body(streaming_interface));

        alt.descriptor(CS_INTERFACE, &header);
        alt.descriptor(CS_INTERFACE, &input_terminal);
        if self.feature_unit.is_some() {
            alt.descriptor(CS_INTERFACE, body_as_slice(&feature_unit));
        }
        alt.descriptor(CS_INTERFACE, &output_terminal);
        assert(alt@.calls =~= old(alt)@.calls + interface_descriptors(
            self@.ac_bodies(streaming_interface),
        ));
    }

    /// Write the class-specific AudioStreaming interface descriptors:
    /// the general one, linking to the USB streaming terminal, and the format.
    pub fn write_as_interface_descriptors(&self, alt: &mut Builder)
        requires
            valid_rates(self@.sample_rates_hz),
        ensures
            final(alt)@ == old(alt)@.extend(interface_descriptors(self@.as_bodies())),
    {
        // Class-specific AS Interface Descriptor: the stream connects to the USB terminal.
        let terminal_link: u8 = if self.input_terminal == TerminalType::UsbStreaming {
            INPUT_UNIT_ID
        } else {
            OUTPUT_UNIT_ID
        };
        let general: [u8; 5] = [
            AS_GENERAL,  // bDescriptorSubtype
            terminal_link,  // bTerminalLink
            0x00,  // bDelay (none)
            low_byte(PCM),
            high_byte(PCM),  // wFormatTag (PCM format)
        ];
        assert(general@ =~= self@.general_body());
        alt.descriptor(CS_INTERFACE, &general);

        // Type I Format Type Descriptor
        let head: [u8; 6] = [
            FORMAT_TYPE,  // bDescriptorSubtype
            FORMAT_TYPE_I,  // bFormatType
            self.channels.len() as u8,  // bNrChannels
            self.sample_width.in_byte(),  // bSubframeSize
            self.sample_width.in_bit(),  // bBitResolution
            self.sample_rates_hz.len() as u8,  // bSamFreqType (discrete)
        ];
        let mut format = body_from_slice(&head).unwrap();
        let mut i: usize = 0;
        assert(body_bytes(format) =~= head@ + rate_bytes(
            self.sample_rates_hz@.take(0),
        ));
        while i < self.sample_rates_hz.len()
            invariant
                i <= self.sample_rates_hz@.len() <= MAX_SAMPLE_RATE_COUNT,
                head@.len() == 6,
                body_bytes(format) == head@ + rate_bytes(
                    self.sample_rates_hz@.take(i as int),
                ),
            decreases self.sample_rates_hz@.len() - i,
        {
            let rate: [u8; 3] = u24_to_le(self.sample_rates_hz[i]);
            body_extend(&mut format, &rate).unwrap();
            i += 1;
            assert(rate_bytes(self.sample_rates_hz@.take(i as int)) =~= rate_bytes(
                self.sample_rates_hz@.take(i - 1),
            ) + rate@);
            assert(body_bytes(format) =~= head@ + rate_bytes(
                self.sample_rates_hz@.take(i as int),
            ));
        }
        assert(self.sample_rates_hz@.take(i as int) =~= self.sample_rates_hz@);
        assert(body_bytes(format) =~= self@.format_body());
        alt.descriptor(CS_INTERFACE, body_as_slice(&format));
        assert(alt@.calls =~= old(alt)@.calls + interface_descriptors(self@.as_bodies()));
    }

    /// Write the isochronous audio data endpoint's descriptors: the standard
    /// one, pointing at the synch endpoint if there is one, and
    /// the class-specific one with its sampling frequency control.
    pub fn write_as_endpoint_descriptors(
        alt: &mut Builder,
        endpoint: &EndpointInfo,
        feedback: Option<&Feedback>,
    )
        ensures
            final(alt)@ == old(alt)@.extend(
                as_endpoint_calls(
                    *endpoint,
                    match feedback {
                        Some(feedback) => Some(feedback.info()),
                        None => None,
                    },
                ),
            ),
    {
        let synch_address: u8 = match feedback {
            Some(feedback) => feedback.address(),
            None => 0x00,
        };
        let extra_fields: [u8; 2] = [
            0x00,  // bRefresh (0)
            synch_address,  // bSynchAddress (the feedback endpoint, or none)
        ];
        alt.endpoint_descriptor(
            endpoint,
            SynchronizationType::Asynchronous,
            UsageType::DataEndpoint,
            &extra_fields,
        );
        let body: [u8; 5] = [
            AS_GENERAL,  // bDescriptorSubtype (General)
            SAMPLING_FREQ_CONTROL,  // bmAttributes (support sampling frequency control)
            0x02,  // bLockDelayUnits (PCM)
            0x00,
            0x00,  // wLockDelay (0)
        ];
        alt.descriptor(CS_ENDPOINT, &body);
        let ghost calls = as_endpoint_calls(
            *endpoint,
            match feedback {
                Some(feedback) => Some(feedback.info()),
                None => None,
            },
        );
        assert(extra_fields@ =~= seq![0x00u8, synch_address]);
        assert(body@ =~= seq![AS_GENERAL, SAMPLING_FREQ_CONTROL, 0x02u8, 0x00u8, 0x00u8]);
        assert(alt@.calls =~~= old(alt)@.calls + calls);
    }

    /// The wChannelConfig bitmap.
    pub fn channel_config(&self) -> (channel_config: u16)
        requires
            self@.channels.no_duplicates(),
        ensures
            channel_config == channel_bits(self@.channels),
    {
        let mut channel_config: u16 = 0;
        let mut i: usize = 0;
        while i < self.channels.len()
            invariant
                i <= self.channels@.len(),
                channel_config == channel_bits(self.channels@.take(i as int)),
            decreases self.channels@.len() - i,
        {
            let channel: u16 = self.channels[i].get_channel_config().bits();
            channel_config |= channel;
            i += 1;
            assert(self.channels@.take(i as int).drop_last() =~= self.channels@.take(i - 1));
        }
        assert(self.channels@.take(i as int) =~= self.channels@);
        channel_config
    }
}

impl FunctionView {
    /// The length of the terminals and units, headers included.
    pub proof fn total_length_of_units(self)
        ensures
            total_length(self.unit_bodies()) == match self.feature_unit {
                Some(_) => 12 + (8 + self.channels.len()) + 9,
                None => 12 + 9,
            },
    {
        let bodies = self.unit_bodies();
        reveal_with_fuel(total_length, 4);
        assert(bodies.drop_last().last() == bodies[bodies.len() - 2]);
        if self.feature_unit is Some {
            assert(bodies.drop_last().drop_last().last() == bodies[0]);
            assert(bodies.drop_last().drop_last().drop_last() =~= Seq::empty());
        } else {
            assert(bodies.drop_last().drop_last() =~= Seq::empty());
        }
    }
}

/// The isochronous synch endpoint: used for writing sample rate
/// feedback to the host.
#[derive(Clone, Copy, Debug)]
pub struct Feedback {
    feedback_endpoint: EndpointInfo,
}

impl Feedback {
    /// The endpoint.
    pub closed spec fn info(self) -> EndpointInfo {
        self.feedback_endpoint
    }

    /// The synch endpoint that the USB driver is to allocate: isochronous IN, 24-bit packets.
    pub open spec fn request() -> EndpointRequest {
        EndpointRequest {
            direction: Direction::In,
            ep_type: EndpointType::Isochronous,
            max_packet_size: 4,
            interval_ms: 1,
        }
    }

    /// The synch endpoint that the USB driver is to allocate: isochronous IN, 24-bit packets.
    pub fn allocate() -> (request: EndpointRequest)
        ensures
            request == Feedback::request(),
    {
        EndpointRequest {
            direction: Direction::In,
            ep_type: EndpointType::Isochronous,
            max_packet_size: 4,  // Feedback packets are 24 bit (10.14 format).
            interval_ms: 1,
        }
    }

    /// The synch endpoint, as the USB driver has allocated it.
    pub fn new(feedback_endpoint: EndpointInfo) -> (feedback: Feedback)
        ensures
            feedback.info() == feedback_endpoint,
    {
        Feedback { feedback_endpoint }
    }

    /// The endpoint's address, for the audio data endpoint's bSynchAddress.
    pub fn address(&self) -> (address: u8)
        ensures
            address == self.info().addr,
    {
        self.feedback_endpoint.addr
    }

    /// Write the endpoint's standard descriptor. It goes after
    /// the audio data endpoint's, hence a separate step.
    pub fn write_descriptor(&self, alt: &mut Builder, refresh: FeedbackRefresh)
        ensures
            final(alt)@ == old(alt)@.push(feedback_call(self.info(), refresh)),
    {
        let extra_fields: [u8; 2] = [
            refresh.exponent(),  // bRefresh
            0x00,  // bSynchAddress (none)
        ];
        assert(extra_fields@ =~= seq![refresh.spec_exponent(), 0x00u8]);
        alt.endpoint_descriptor(
            &self.feedback_endpoint,
            SynchronizationType::NoSynchronization,
            UsageType::FeedbackEndpoint,
            &extra_fields,
        );
    }
}

} // verus!
