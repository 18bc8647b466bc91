//! USB Audio Class 1.0 - Speaker device
//!
//! Provides a class with a single audio streaming interface (host to device),
//! that advertises itself as a speaker. Includes explicit sample rate feedback.
//!
//! Various aspects of the audio stream can be configured, for example:
//! - sample rate
//! - sample resolution
//! - audio channel count and assignment
//!
//! The class provides volume and mute controls for each channel.
use vstd::prelude::*;

use crate::builder::{
    Builder, BuilderView, Direction, EndpointInfo, EndpointRequest, EndpointType,
    MAX_INTERFACE_COUNT,
};
use crate::control::{Control, ControlMonitor, ControlView, State};
#[allow(unused_imports)]
use crate::control::initial_steps;
use crate::function::{
    are_distinct, are_valid_rates, AudioFunction, FeatureUnitControls, Feedback, FunctionView,
};
#[allow(unused_imports)]
use crate::function::{
    as_endpoint_calls, feedback_call, interface_calls, unique_channels_bounded, valid_rates,
};
#[allow(unused_imports)]
use crate::sync::PollStep;
use crate::terminal_type::TerminalType;
use crate::types::{Channel, FeedbackRefresh, SampleWidth};

verus! {

/// Implementation of the USB audio class 1.0.
pub struct Speaker<'d> {
    /// Stream
    pub stream: Stream,
    /// Feedback
    pub feedback: Feedback,
    /// Control Monitor
    pub control_monitor: ControlMonitor<'d>,
}

/// Terminal topology:
/// Input terminal (receives audio stream) -> Feature Unit (mute and volume) -> Output terminal
/// (e.g. towards speaker). Mute and volume control on every channel; the master channel has none
/// of its own.
pub open spec fn speaker_function(
    resolution: SampleWidth,
    sample_rates_hz: Seq<u32>,
    channels: Seq<Channel>,
) -> FunctionView {
    FunctionView {
        channels,
        sample_width: resolution,
        sample_rates_hz,
        input_terminal: TerminalType::UsbStreaming,
        output_terminal: TerminalType::OutSpeaker,
        feature_unit: Some((FeatureUnitControls::spec_none(), FeatureUnitControls::spec_all())),
    }
}

impl<'d> Speaker<'d> {
    /// The endpoint of the stream that the USB driver is to allocate.
    pub open spec fn stream_request(max_packet_size: u16) -> EndpointRequest {
        EndpointRequest {
            direction: Direction::Out,
            ep_type: EndpointType::Isochronous,
            max_packet_size,
            interval_ms: 1,
        }
    }

    /// The endpoints that the USB driver is to allocate, in this order: that of the stream and
    /// that of the feedback.
    ///
    /// The packet size should be chosen, based on the expected transfer size of samples per (micro)frame.
    /// For example, a stereo stream at 32 bit resolution and 48 kHz sample rate yields packets of 384 byte for
    /// full-speed USB (1 ms frame interval) or 48 byte for high-speed USB (125 us microframe interval).
    /// When using feedback, the packet size varies and thus, the `max_packet_size` should be increased (e.g. to double).
    pub fn endpoint_requests(max_packet_size: u16) -> (requests: (EndpointRequest, EndpointRequest))
        ensures
            requests.0 == Speaker::stream_request(max_packet_size),
            requests.0.max_packet_size == max_packet_size,
            requests.0.direction == Direction::Out,
            requests.0.ep_type == EndpointType::Isochronous,
            requests.0.interval_ms == 1,
            requests.1 == Feedback::request(),
            requests.1.max_packet_size == 4,
            requests.1.direction == Direction::In,
            requests.1.ep_type == EndpointType::Isochronous,
            requests.1.interval_ms == 1,
    {
        (
            EndpointRequest {
                direction: Direction::Out,
                ep_type: EndpointType::Isochronous,
                max_packet_size,
                interval_ms: 1,
            },
            Feedback::allocate(),
        )
    }

    /// Whether a speaker can be made of these: there are at most ten sample rates, of three bytes
    /// each, and the channels are all different.
    pub fn is_valid(sample_rates_hz: &[u32], channels: &[Channel]) -> (valid: bool)
        ensures
            valid == (valid_rates(sample_rates_hz@) && channels@.no_duplicates()),
    {
        are_valid_rates(sample_rates_hz) && are_distinct(channels)
    }

    /// Creates a new [`Speaker`] device, split into a stream, feedback, and a control change notifier,
    /// and the control handler, to be registered with the USB device.
    ///
    /// # Arguments
    ///
    /// * `builder` - The builder for the class.
    /// * `state` - The internal state of the class.
    /// * `streaming_endpoint` - The endpoint of the stream, as the USB driver has allocated it.
    /// * `feedback_endpoint` - The endpoint of the feedback, as the USB driver has allocated it.
    /// * `resolution` - The audio sample resolution.
    /// * `sample_rates_hz` - The supported sample rates in Hz (at most ten).
    /// * `channels` - The advertised audio channels (up to 12). Entries must be unique.
    /// * `feedback_refresh_period` - The refresh period for the feedback value.
    pub fn new(
        builder: &mut Builder,
        state: &'d mut State<'d>,
        streaming_endpoint: EndpointInfo,
        feedback_endpoint: EndpointInfo,
        resolution: SampleWidth,
        sample_rates_hz: &[u32],
        channels: &'d [Channel],
        feedback_refresh_period: FeedbackRefresh,
    ) -> (result: (Speaker<'d>, &'d mut Control<'d>))
        requires
            channels@.no_duplicates(),
            valid_rates(sample_rates_hz@),
            old(builder)@.interface_count + 2 <= MAX_INTERFACE_COUNT,
        ensures
            final(builder)@ == (BuilderView {
                interface_count: old(builder)@.interface_count + 2,
                calls: old(builder)@.calls + interface_calls(
                    speaker_function(resolution, sample_rates_hz@, channels@),
                    old(builder)@.interface_count as u8,
                ) + as_endpoint_calls(streaming_endpoint, Some(feedback_endpoint))
                    + seq![
                    feedback_call(feedback_endpoint, feedback_refresh_period),
                ],
            }),
            result.0.stream.info() == streaming_endpoint,
            result.0.feedback.info() == feedback_endpoint,
            result.0.control_monitor.channels() == channels@,
            result.0.control_monitor.sample_rates_hz() == sample_rates_hz@,
            result.0.control_monitor.shared() == result.1.shared(),
            result.0.control_monitor.history() == result.1.history(),
            result.0.control_monitor.polls() == seq![PollStep::Clear],
            result.0.control_monitor.taken() == initial_steps().len(),
            result.0.control_monitor.wf(),
            result.1@ == (ControlView {
                control_interface_number: old(builder)@.interface_count as u8,
                streaming_endpoint_address: streaming_endpoint.addr,
                controls: FeatureUnitControls::spec_all(),
                channels: channels@,
                sample_rates_hz: sample_rates_hz@,
            }),
            result.1.state() == result.1@.initial(),
            result.1.steps() == initial_steps(),
            result.1.wf(),
    {
        proof {
            unique_channels_bounded(channels@);
        }
        // Terminal topology:
        // Input terminal (receives audio stream) -> Feature Unit (mute and volume) -> Output terminal (e.g. towards speaker)
        let function = AudioFunction {
            channels,
            sample_width: resolution,
            sample_rates_hz,
            input_terminal: TerminalType::UsbStreaming,
            output_terminal: TerminalType::OutSpeaker,
            // Mute and volume control on every channel; the master channel has none of its own.
            feature_unit: Some((FeatureUnitControls::none(), FeatureUnitControls::all())),
        };
        let control_interface: u8 = function.describe_interfaces(builder);

        let feedback = Feedback::new(feedback_endpoint);
        // The audio data endpoint's descriptors point at the synch endpoint; the synch endpoint's go after.
        AudioFunction::write_as_endpoint_descriptors(builder, &streaming_endpoint, Some(&feedback));
        feedback.write_descriptor(builder, feedback_refresh_period);
        assert(builder@.calls =~= old(builder)@.calls + interface_calls(
            function@,
            control_interface,
        ) + as_endpoint_calls(streaming_endpoint, Some(feedback_endpoint)) + seq![
            feedback_call(feedback_endpoint, feedback_refresh_period),
        ]);

        let (control, control_monitor) = state.register(
            channels,
            sample_rates_hz,
            FeatureUnitControls::all(),
            control_interface,
            streaming_endpoint.addr,
        );
        (Speaker { stream: Stream { streaming_endpoint }, feedback, control_monitor }, control)
    }
}

/// Used for reading audio frames.
#[derive(Clone, Copy, Debug)]
pub struct Stream {
    streaming_endpoint: EndpointInfo,
}

impl Stream {
    /// The endpoint of the stream.
    pub closed spec fn info(self) -> EndpointInfo {
        self.streaming_endpoint
    }

    /// The endpoint to read audio frames from.
    pub fn endpoint(&self) -> (endpoint: EndpointInfo)
        ensures
            endpoint == self.info(),
    {
        self.streaming_endpoint
    }
}

} // verus!
