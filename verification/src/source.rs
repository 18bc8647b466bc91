//! USB Audio Class 1.0 - Audio source device (device to host), e.g. a microphone.
//!
//! Configured through [`Config`]; built and used like [`super::speaker::Speaker`].
use vstd::prelude::*;

use crate::builder::{
    Builder, BuilderView, Call, Direction, EndpointInfo, EndpointRequest, EndpointType,
    MAX_INTERFACE_COUNT,
};
use crate::control::{max_rate, Control, ControlMonitor, ControlView, State};
#[allow(unused_imports)]
use crate::control::{highest, highest_is_greatest, initial_steps};
use crate::function::{
    are_distinct, are_valid_rates, AudioFunction, FeatureUnitControls, Feedback, FunctionView,
};
#[allow(unused_imports)]
use crate::function::{
    as_endpoint_calls, feedback_call, interface_calls, unique_channels_bounded, valid_rates,
};
#[allow(unused_imports)]
use crate::sync::PollStep;
use crate::terminal_type::TerminalType;
use crate::types::{Channel, FeedbackRefresh, SampleWidth};

verus! {

/// Everything the audio source advertises to the host.
#[derive(Clone, Copy, Debug)]
pub struct Config<'d> {
    /// The supported sample rates in Hz, as discrete values. At least one, at
    /// most ten. The first is the one reported before the host sets any.
    pub sample_rates_hz: &'d [u32],
    /// The audio sample resolution.
    pub sample_width: SampleWidth,
    /// The audio channels, in stream order (up to 12). Entries must be unique.
    /// One entry is a mono stream.
    pub channels: &'d [Channel],
    /// What the Input Terminal is; the host shows the device by it.
    pub input_terminal: TerminalType,
    /// Which Feature Unit controls the host gets; [`FeatureUnitControls::none`]
    /// leaves the Feature Unit out of the function altogether.
    pub feature_unit: FeatureUnitControls,
    /// Whether a synch (feedback) endpoint is allocated beside the stream, and
    /// how often the host should read it. A source rarely wants one: its
    /// stream is declared asynchronous either way, and the host follows its rate.
    pub feedback: Option<FeedbackRefresh>,
}

/// What a `Config` says.
#[verifier::ext_equal]
pub struct ConfigView {
    pub sample_rates_hz: Seq<u32>,
    pub sample_width: SampleWidth,
    pub channels: Seq<Channel>,
    pub input_terminal: TerminalType,
    pub feature_unit: FeatureUnitControls,
    pub feedback: Option<FeedbackRefresh>,
}

impl<'d> View for Config<'d> {
    type V = ConfigView;

    open spec fn view(&self) -> ConfigView {
        ConfigView {
            sample_rates_hz: self.sample_rates_hz@,
            sample_width: self.sample_width,
            channels: self.channels@,
            input_terminal: self.input_terminal,
            feature_unit: self.feature_unit,
            feedback: self.feedback,
        }
    }
}

impl ConfigView {
    /// Between one and ten sample rates, of three bytes each, and between one and twelve
    /// channels, all different.
    pub open spec fn wf(self) -> bool {
        &&& 1 <= self.sample_rates_hz.len()
        &&& valid_rates(self.sample_rates_hz)
        &&& 1 <= self.channels.len()
        &&& self.channels.no_duplicates()
    }

    /// Terminal topology:
    /// Input terminal (e.g. a microphone) -> [Feature Unit (mute and volume)] -> Output terminal
    /// (USB stream). The Feature Unit only if any control was asked for; the same controls on the
    /// master and every channel.
    pub open spec fn function(self) -> FunctionView {
        FunctionView {
            channels: self.channels,
            sample_width: self.sample_width,
            sample_rates_hz: self.sample_rates_hz,
            input_terminal: self.input_terminal,
            output_terminal: TerminalType::UsbStreaming,
            feature_unit: if self.feature_unit == FeatureUnitControls::spec_none() {
                None
            } else {
                Some((self.feature_unit, self.feature_unit))
            },
        }
    }

    /// The number of bytes of one sample of every channel.
    pub open spec fn frame_bytes(self) -> nat {
        self.channels.len() * self.sample_width.byte_count()
    }

    /// One millisecond of samples at the fastest rate, plus one sample of slack.
    pub open spec fn packet_bytes(self) -> nat {
        (highest(self.sample_rates_hz) * self.frame_bytes() + 999) as nat / 1000
            + self.frame_bytes()
    }

    /// The endpoint of the stream that the USB driver is to allocate. The packet size is a 16-bit
    /// field: of a larger one only the low bits are kept.
    pub open spec fn stream_request(self) -> EndpointRequest {
        EndpointRequest {
            direction: Direction::In,
            ep_type: EndpointType::Isochronous,
            max_packet_size: (self.packet_bytes() % 0x10000) as u16,
            interval_ms: 1,
        }
    }
}

/// The steps that describe the endpoints of a source: the audio data endpoint, then the synch
/// endpoint, if there is one.
pub open spec fn source_endpoint_calls(
    streaming_endpoint: EndpointInfo,
    feedback: Option<(EndpointInfo, FeedbackRefresh)>,
) -> Seq<Call> {
    match feedback {
        Some((endpoint, refresh)) => as_endpoint_calls(
            streaming_endpoint,
            Some(endpoint),
        ) + seq![feedback_call(endpoint, refresh)],
        None => as_endpoint_calls(streaming_endpoint, None),
    }
}

impl<'d> Config<'d> {
    /// A microphone with a mute control, no volume control and no feedback
    /// endpoint: the common case.
    pub fn new(
        sample_rates_hz: &'d [u32],
        sample_width: SampleWidth,
        channels: &'d [Channel],
    ) -> (config: Self)
        ensures
            config@ == (ConfigView {
                sample_rates_hz: sample_rates_hz@,
                sample_width,
                channels: channels@,
                input_terminal: TerminalType::InMicrophone,
                feature_unit: FeatureUnitControls { mute: true, volume: false },
                feedback: None,
            }),
    {
        Config {
            sample_rates_hz,
            sample_width,
            channels,
            input_terminal: TerminalType::InMicrophone,
            feature_unit: FeatureUnitControls { mute: true, volume: false },
            feedback: None,
        }
    }

    /// Whether an audio source can be made of it: there are between one and ten sample rates, of
    /// three bytes each, and between one and twelve channels, all different.
    pub fn is_valid(&self) -> (valid: bool)
        ensures
            valid == self@.wf(),
    {
        self.sample_rates_hz.len() >= 1 && are_valid_rates(self.sample_rates_hz)
            && self.channels.len() >= 1 && are_distinct(self.channels)
    }
}

/// Implementation of the USB audio class 1.0, source side.
pub struct AudioSource<'d> {
    /// The audio stream toward the host.
    pub stream: Stream,
    /// The synch (feedback) endpoint, if [`Config::feedback`] asked for one.
    pub feedback: Option<Feedback>,
    /// Control Monitor
    pub control_monitor: ControlMonitor<'d>,
}

impl<'d> AudioSource<'d> {
    /// The endpoints that the USB driver is to allocate, in this order: that of the stream and,
    /// if the configuration asks for one, that of the feedback.
    ///
    /// The streaming endpoint's packet size is one full-speed frame (1 ms) of
    /// samples at the highest sample rate, plus one sample: the source's clock
    /// is its own, and it is allowed to get a sample ahead of the host.
    pub fn endpoint_requests(config: Config<'_>) -> (requests: (
        EndpointRequest,
        Option<EndpointRequest>,
    ))
        requires
            config@.wf(),
        ensures
            requests.0 == config@.stream_request(),
            requests.0.direction == Direction::In,
            requests.0.ep_type == EndpointType::Isochronous,
            requests.0.interval_ms == 1,
            requests.1 == match config@.feedback {
                Some(_) => Some(Feedback::request()),
                None => None,
            },
            requests.1 matches Some(feedback) ==> feedback.direction == Direction::In
                && feedback.ep_type == EndpointType::Isochronous && feedback.max_packet_size == 4
                && feedback.interval_ms == 1,
    {
        proof {
            unique_channels_bounded(config@.channels);
        }
        // One millisecond of samples at the fastest rate, plus one sample of slack.
        let channel_count: u32 = config.channels.len() as u32;
        let width: u32 = config.sample_width.in_byte() as u32;
        assert(channel_count * width <= 48) by (nonlinear_arith)
            requires
                channel_count <= 12,
                width <= 4,
        ;
        let frame_bytes: u32 = channel_count * width;
        let max_rate_hz: u32 = max_rate(config.sample_rates_hz);
        proof {
            highest_is_greatest(config@.sample_rates_hz);
        }
        assert(max_rate_hz * frame_bytes <= 0xFFFFFF * 48) by (nonlinear_arith)
            requires
                max_rate_hz <= 0xFFFFFF,
                frame_bytes <= 48,
        ;
        let packet_bytes: u32 = (max_rate_hz * frame_bytes + 999) / 1000 + frame_bytes;
        assert(packet_bytes == config@.packet_bytes());
        assert(packet_bytes as u16 == packet_bytes % 0x10000) by (bit_vector);
        let max_packet_size: u16 = packet_bytes as u16;

        (
            EndpointRequest {
                direction: Direction::In,
                ep_type: EndpointType::Isochronous,
                max_packet_size,
                interval_ms: 1,
            },
            match config.feedback {
                Some(_) => Some(Feedback::allocate()),
                None => None,
            },
        )
    }

    /// Creates a new [`AudioSource`] device, and the control handler, to be registered with the
    /// USB device. `streaming_endpoint` is the endpoint of the stream and `feedback_endpoint` that
    /// of the feedback, which is there if the configuration asks for one, as the USB driver has
    /// allocated them.
    pub fn new(
        builder: &mut Builder,
        state: &'d mut State<'d>,
        config: Config<'d>,
        streaming_endpoint: EndpointInfo,
        feedback_endpoint: Option<EndpointInfo>,
    ) -> (result: (AudioSource<'d>, &'d mut Control<'d>))
        requires
            config@.wf(),
            config@.feedback is Some <==> feedback_endpoint is Some,
            old(builder)@.interface_count + 2 <= MAX_INTERFACE_COUNT,
        ensures
            final(builder)@ == (BuilderView {
                interface_count: old(builder)@.interface_count + 2,
                calls: old(builder)@.calls + interface_calls(
                    config@.function(),
                    old(builder)@.interface_count as u8,
                ) + source_endpoint_calls(
                    streaming_endpoint,
                    match config@.feedback {
                        Some(refresh) => Some((feedback_endpoint->0, refresh)),
                        None => None,
                    },
                ),
            }),
            result.0.stream.info() == streaming_endpoint,
            result.0.feedback is Some <==> feedback_endpoint is Some,
            result.0.feedback matches Some(feedback) ==> feedback.info() == feedback_endpoint->0,
            result.0.control_monitor.channels() == config@.channels,
            result.0.control_monitor.sample_rates_hz() == config@.sample_rates_hz,
            result.0.control_monitor.shared() == result.1.shared(),
            result.0.control_monitor.history() == result.1.history(),
            result.0.control_monitor.polls() == seq![PollStep::Clear],
            result.0.control_monitor.taken() == initial_steps().len(),
            result.0.control_monitor.wf(),
            result.1@ == (ControlView {
                control_interface_number: old(builder)@.interface_count as u8,
                streaming_endpoint_address: streaming_endpoint.addr,
                controls: config@.feature_unit,
                channels: config@.channels,
                sample_rates_hz: config@.sample_rates_hz,
            }),
            result.1.state() == result.1@.initial(),
            result.1.steps() == initial_steps(),
            result.1.wf(),
    {
        proof {
            unique_channels_bounded(config@.channels);
        }
        // Terminal topology:
        // Input terminal (e.g. a microphone) -> [Feature Unit (mute and volume)] -> Output terminal (USB stream)
        let function = AudioFunction {
            channels: config.channels,
            sample_width: config.sample_width,
            sample_rates_hz: config.sample_rates_hz,
            input_terminal: config.input_terminal,
            output_terminal: TerminalType::UsbStreaming,
            // The Feature Unit only if any control was asked for; the same controls on the master and every channel.
            feature_unit: if config.feature_unit != FeatureUnitControls::none() {
                Some((config.feature_unit, config.feature_unit))
            } else {
                None
            },
        };
        let control_interface: u8 = function.describe_interfaces(builder);

        let feedback = match feedback_endpoint {
            Some(endpoint) => Some(Feedback::new(endpoint)),
            None => None,
        };
        // The audio data endpoint's descriptors point at the synch endpoint; the synch endpoint's go after.
        AudioFunction::write_as_endpoint_descriptors(
            builder,
            &streaming_endpoint,
            feedback.as_ref(),
        );
        if let (Some(feedback), Some(refresh)) = (&feedback, config.feedback) {
            feedback.write_descriptor(builder, refresh);
        }
        assert(builder@.calls =~= old(builder)@.calls + interface_calls(
            config@.function(),
            control_interface,
        ) + source_endpoint_calls(
            streaming_endpoint,
            match config@.feedback {
                Some(refresh) => Some((feedback_endpoint->0, refresh)),
                None => None,
            },
        ));

        let (control, control_monitor) = state.register(
            config.channels,
            config.sample_rates_hz,
            config.feature_unit,
            control_interface,
            streaming_endpoint.addr,
        );
        (AudioSource { stream: Stream { streaming_endpoint }, feedback, control_monitor }, control)
    }
}

/// Used for writing audio frames.
#[derive(Clone, Copy, Debug)]
pub struct Stream {
    streaming_endpoint: EndpointInfo,
}

impl Stream {
    /// The endpoint of the stream.
    pub closed spec fn info(self) -> EndpointInfo {
        self.streaming_endpoint
    }

    /// The endpoint to write audio frames to.
    pub fn endpoint(&self) -> (endpoint: EndpointInfo)
        ensures
            endpoint == self.info(),
    {
        self.streaming_endpoint
    }
}

} // verus!
