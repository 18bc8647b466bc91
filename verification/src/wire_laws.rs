//! What the host and the device see, byte by byte and number by number: the values of the fields of
//! every descriptor, what a request with given fields does, and what the monitor then reads.
use core::task::Waker;
use vstd::prelude::*;

use crate::builder::{
    BuilderCall, BuilderView, Call, Direction, EndpointInfo, EndpointType, SynchronizationType,
    UsageType, MAX_DESCRIPTOR_BODY, MAX_INTERFACE_COUNT,
};
#[allow(unused_imports)]
use crate::bytes::{byte_at, i16_bytes, i16_bytes_round_trip, i16_of, le_bytes, u24_of};
#[allow(unused_imports)]
use crate::control::{
    highest, highest_is_greatest, initial_rate, initial_steps, is_logical_channel, logical_channel,
    logical_channel_is_unique, lowest, lowest_is_least, notice, poll_steps, reset_steps, shows,
};
use crate::control::{Control, ControlMonitor, ControlState, ControlView};
#[allow(unused_imports)]
use crate::function::{
    as_endpoint_calls, feedback_call, interface_calls, interface_descriptors, rate_bytes,
    total_length, unique_channels_bounded, valid_rates,
};
use crate::function::{AudioFunction, FeatureUnitControls, Feedback, FunctionView};
#[allow(unused_imports)]
use crate::laws::channel_config_tells_the_channels;
#[allow(unused_imports)]
use crate::request::{buffer_after, reply_len, reply_of};
use crate::request::{InResponse, OutResponse, Recipient, Reply, Request, RequestType};
use crate::settings::SettingsView;
#[allow(unused_imports)]
use crate::source::source_endpoint_calls;
use crate::source::{Config, ConfigView};
#[allow(unused_imports)]
use crate::speaker::speaker_function;
use crate::speaker::Speaker;
#[allow(unused_imports)]
use crate::sync::{is_offered, raised_since};
use crate::sync::{History, PollStep, Published, Polled, SharedControl, Step};
use crate::terminal_type::TerminalType;
#[allow(unused_imports)]
use crate::types::channel_bits;
use crate::types::{Channel, FeedbackRefresh, SampleWidth, Volume};

verus! {

/// A number of three bytes is their sum by powers of 256, the first counting least.
pub proof fn three_bytes_are_their_sum(b0: u8, b1: u8, b2: u8)
    ensures
        u24_of(b0, b1, b2) == b0 + 256 * b1 + 65536 * b2,
{
}

/// A number of two bytes is their sum by powers of 256, less 65536 where the top bit is set.
pub proof fn two_bytes_are_their_twos_complement(b0: u8, b1: u8)
    ensures
        i16_of(b0, b1) == b0 + 256 * b1 - (if b1 >= 128 { 65536int } else { 0int }),
{
}

/// The bytes of a number add up to it, as far as they go.
pub proof fn bytes_add_up(value: nat, signed: i16)
    ensures
        le_bytes(value, 3).len() == 3,
        le_bytes(value, 3)[0] + 256 * le_bytes(value, 3)[1] + 65536 * le_bytes(value, 3)[2] == value
            % 16777216,
        i16_bytes(signed).len() == 2,
        i16_bytes(signed)[0] + 256 * i16_bytes(signed)[1] == signed + (if signed < 0 {
            65536int
        } else {
            0int
        }),
{
}

/// A sample takes as many bytes as the name of its width says.
pub proof fn sample_takes_its_width(width: SampleWidth)
    ensures
        width.byte_count() == match width {
            SampleWidth::Width2Byte => 2nat,
            SampleWidth::Width3Byte => 3nat,
            SampleWidth::Width4Byte => 4nat,
        },
{
}

/// A feedback period is two to the power of its exponent, in frames.
pub proof fn feedback_period_is_a_power_of_two(refresh: FeedbackRefresh)
    ensures
        vstd::arithmetic::power2::pow2(refresh.spec_exponent() as nat) == match refresh {
            FeedbackRefresh::Period2Frames => 2nat,
            FeedbackRefresh::Period4Frames => 4nat,
            FeedbackRefresh::Period8Frames => 8nat,
            FeedbackRefresh::Period16Frames => 16nat,
            FeedbackRefresh::Period32Frames => 32nat,
            FeedbackRefresh::Period64Frames => 64nat,
            FeedbackRefresh::Period128Frames => 128nat,
            FeedbackRefresh::Period256Frames => 256nat,
            FeedbackRefresh::Period512Frames => 512nat,
        },
{
    vstd::arithmetic::power2::lemma2_to64();
}

/// A terminal's code is that of its kind: two bytes, of which the high one tells USB, input, output
/// and external terminals apart.
pub proof fn terminal_codes(terminal: TerminalType)
    ensures
        terminal.spec_code() == match terminal {
            TerminalType::UsbUndefined => 256 + 0x00,
            TerminalType::UsbStreaming => 256 + 0x01,
            TerminalType::UsbVendor => 256 + 0xff,
            TerminalType::InUndefined => 2 * 256 + 0,
            TerminalType::InMicrophone => 2 * 256 + 1,
            TerminalType::InDesktopMicrophone => 2 * 256 + 2,
            TerminalType::InPersonalMicrophone => 2 * 256 + 3,
            TerminalType::InOmniDirectionalMicrophone => 2 * 256 + 4,
            TerminalType::InMicrophoneArray => 2 * 256 + 5,
            TerminalType::InProcessingMicrophoneArray => 2 * 256 + 6,
            TerminalType::OutUndefined => 3 * 256 + 0,
            TerminalType::OutSpeaker => 3 * 256 + 1,
            TerminalType::OutHeadphones => 3 * 256 + 2,
            TerminalType::OutHeadMountedDisplayAudio => 3 * 256 + 3,
            TerminalType::OutDesktopSpeaker => 3 * 256 + 4,
            TerminalType::OutRoomSpeaker => 3 * 256 + 5,
            TerminalType::OutCommunicationSpeaker => 3 * 256 + 6,
            TerminalType::OutLowFrequencyEffectsSpeaker => 3 * 256 + 7,
            TerminalType::ExtUndefined => 6 * 256 + 0,
            TerminalType::ExtAnalogConnector => 6 * 256 + 1,
            TerminalType::ExtDigitalAudioInterface => 6 * 256 + 2,
            TerminalType::ExtLineConnector => 6 * 256 + 3,
            TerminalType::ExtLegacyAudioConnector => 6 * 256 + 4,
            TerminalType::ExtSpdifConnector => 6 * 256 + 5,
            TerminalType::Ext1394DaStream => 6 * 256 + 6,
            TerminalType::Ext1394DvStreamSoundtrack => 6 * 256 + 7,
        },
{
}

/// Every channel has its own bit of wChannelConfig, in the order in which the class lists them.
pub proof fn channel_bit(channel: Channel)
    ensures
        channel.position() == match channel {
            Channel::LeftFront => 0int,
            Channel::RightFront => 1int,
            Channel::CenterFront => 2int,
            Channel::Lfe => 3int,
            Channel::LeftSurround => 4int,
            Channel::RightSurround => 5int,
            Channel::LeftOfCenter => 6int,
            Channel::RightOfCenter => 7int,
            Channel::Surround => 8int,
            Channel::SideLeft => 9int,
            Channel::SideRight => 10int,
            Channel::Top => 11int,
        },
        channel.spec_channel_config().spec_bits() == vstd::arithmetic::power2::pow2(
            channel.position() as nat,
        ),
{
    vstd::arithmetic::power2::lemma2_to64();
}

/// The controls of a feature unit as a byte: mute is the lowest bit, volume the next.
pub proof fn control_bits(controls: FeatureUnitControls)
    ensures
        controls.spec_bitmap() == (if controls.mute { 1int } else { 0int }) + (if controls.volume {
            2int
        } else {
            0int
        }),
        FeatureUnitControls::spec_all().mute && FeatureUnitControls::spec_all().volume,
        !FeatureUnitControls::spec_none().mute && !FeatureUnitControls::spec_none().volume,
{
}

/// In every state, and so before and after every request and reset, the volume of a channel goes from
/// -25600 to 0 in steps of 256: the replies to the requests for the minimum, the maximum and the
/// resolution are the two bytes of these numbers.
pub proof fn volume_range_never_changes(
    view: ControlView,
    state: ControlState,
    other: ControlState,
    req: Request,
    channel: u8,
)
    requires
        view.controls.volume,
        channel <= view.channels.len(),
        req.request_type == RequestType::Class,
        req.recipient == Recipient::Interface,
        req.value == 0x0200 + channel,
        req.index == 0x0200 + view.control_interface_number,
    ensures
        req.request == 0x82 ==> view.control_in(state, req) == Some(
            Reply::Accepted(seq![0x00u8, 0x9Cu8]),
        ),
        req.request == 0x83 ==> view.control_in(state, req) == Some(
            Reply::Accepted(seq![0x00u8, 0x00u8]),
        ),
        req.request == 0x84 ==> view.control_in(state, req) == Some(
            Reply::Accepted(seq![0x00u8, 0x01u8]),
        ),
        0x82 <= req.request <= 0x84 ==> view.control_in(state, req) == view.control_in(other, req),
        i16_of(0x00, 0x9C) == -25600 && i16_of(0x00, 0x00) == 0 && i16_of(0x00, 0x01) == 256,
{
    assert(i16_bytes(-25600i16) =~= seq![0x00u8, 0x9Cu8]);
    assert(i16_bytes(0i16) =~= seq![0x00u8, 0x00u8]);
    assert(i16_bytes(256i16) =~= seq![0x00u8, 0x01u8]);
}

/// The reply to a request for the current volume is two bytes that add up to the volume of that
/// channel, and the one to a request for the mute state is one byte that says it.
pub proof fn current_settings_are_replied(
    view: ControlView,
    state: ControlState,
    req: Request,
    channel: u8,
)
    requires
        view.wf(),
        state.wf(),
        channel <= view.channels.len(),
        req.request_type == RequestType::Class,
        req.recipient == Recipient::Interface,
        req.request == 0x81,
        req.index == 0x0200 + view.control_interface_number,
    ensures
        view.controls.volume && req.value == 0x0200 + channel ==> match view.control_in(state, req) {
            Some(Reply::Accepted(bytes)) => {
                let volume = state.settings.volume[channel as int];
                &&& bytes.len() == 2
                &&& bytes[0] + 256 * bytes[1] == volume || bytes[0] + 256 * bytes[1] == volume
                    + 65536
                &&& bytes[1] >= 128 <==> volume < 0
            },
            _ => false,
        },
        view.controls.mute && req.value == 0x0100 + channel ==> match view.control_in(state, req) {
            Some(Reply::Accepted(bytes)) => {
                &&& bytes.len() == 1
                &&& bytes[0] == 1 <==> state.settings.muted[channel as int]
                &&& bytes[0] == 0 <==> !state.settings.muted[channel as int]
            },
            _ => false,
        },
{
}

/// The sampling frequency is replied as three bytes that add up to it: the current one, the lowest
/// and the highest of those that the stream offers, and one as the resolution. Without any, the
/// lowest and the highest are zero.
#[verifier::spinoff_prover]
pub proof fn rates_are_replied(view: ControlView, state: ControlState, req: Request)
    requires
        req.request_type == RequestType::Class,
        req.recipient == Recipient::Endpoint,
        req.value / 256 == 1,
        req.index % 256 == view.streaming_endpoint_address,
        forall|i: int|
            0 <= i < view.sample_rates_hz.len() ==> #[trigger] view.sample_rates_hz[i] < 16777216,
        state.sample_rate_hz < 16777216,
    ensures
        0x81 <= req.request <= 0x84 ==> match view.control_in(state, req) {
            Some(Reply::Accepted(bytes)) => {
                let rate = bytes[0] + 256 * bytes[1] + 65536 * bytes[2];
                let rates = view.sample_rates_hz;
                &&& bytes.len() == 3
                &&& req.request == 0x81 ==> rate == state.sample_rate_hz
                &&& req.request == 0x82 && rates.len() > 0 ==> (exists|i: int|
                    0 <= i < rates.len() && #[trigger] rates[i] == rate) && (forall|i: int|
                    0 <= i < rates.len() ==> rate <= #[trigger] rates[i])
                &&& req.request == 0x83 && rates.len() > 0 ==> (exists|i: int|
                    0 <= i < rates.len() && #[trigger] rates[i] == rate) && (forall|i: int|
                    0 <= i < rates.len() ==> #[trigger] rates[i] <= rate)
                &&& 0x82 <= req.request <= 0x83 && rates.len() == 0 ==> rate == 0
                &&& req.request == 0x84 ==> rate == 1
            },
            _ => false,
        },
{
    let rates = view.sample_rates_hz;
    if req.request == 0x81 {
        assert(view.control_in(state, req) == Some(
            Reply::Accepted(le_bytes(state.sample_rate_hz as nat, 3)),
        ));
        three_bytes_add_up(state.sample_rate_hz as nat);
    } else if req.request == 0x82 {
        assert(view.control_in(state, req) == Some(
            Reply::Accepted(le_bytes(lowest(rates) as nat, 3)),
        ));
        if rates.len() > 0 {
            lowest_is_least(rates);
            let k = choose|k: int| 0 <= k < rates.len() && rates[k] == lowest(rates);
            assert(rates[k] < 16777216);
        }
        three_bytes_add_up(lowest(rates) as nat);
    } else if req.request == 0x83 {
        assert(view.control_in(state, req) == Some(
            Reply::Accepted(le_bytes(highest(rates) as nat, 3)),
        ));
        if rates.len() > 0 {
            highest_is_greatest(rates);
            let k = choose|k: int| 0 <= k < rates.len() && rates[k] == highest(rates);
            assert(rates[k] < 16777216);
        }
        three_bytes_add_up(highest(rates) as nat);
    } else if req.request == 0x84 {
        assert(view.control_in(state, req) == Some(Reply::Accepted(le_bytes(1, 3))));
        three_bytes_add_up(1);
    }
}

/// The three bytes of a number below 2^24 add up to it.
proof fn three_bytes_add_up(value: nat)
    requires
        value < 16777216,
    ensures
        le_bytes(value, 3).len() == 3,
        le_bytes(value, 3)[0] + 256 * le_bytes(value, 3)[1] + 65536 * le_bytes(value, 3)[2] == value,
{
    bytes_add_up(value, 0);
}

/// Which requests are left to other handlers, by the fields of the setup packet: all but class
/// requests to the control interface or to the streaming endpoint.
pub proof fn handled_requests(view: ControlView, state: ControlState, req: Request, data: Seq<u8>)
    ensures
        view.control_out_response(req, data) is None <==> !(req.request_type == RequestType::Class
            && (req.recipient == Recipient::Interface && req.index % 256
            == view.control_interface_number || req.recipient == Recipient::Endpoint && req.index
            % 256 == view.streaming_endpoint_address)),
        view.control_in(state, req) is None <==> !(req.request_type == RequestType::Class && (
        req.recipient == Recipient::Interface && req.index % 256 == view.control_interface_number
            || req.recipient == Recipient::Endpoint && req.index % 256
            == view.streaming_endpoint_address)),
{
}

/// Which requests to set something are accepted, by the fields of the setup packet and the data.
pub proof fn accepted_settings(view: ControlView, req: Request, data: Seq<u8>)
    requires
        req.request_type == RequestType::Class,
    ensures
        req.recipient == Recipient::Interface ==> (view.control_out_response(req, data) == Some(
            OutResponse::Accepted,
        ) <==> {
            &&& req.index == 512 + view.control_interface_number
            &&& req.request == 0x01
            &&& req.value % 256 <= view.channels.len()
            &&& req.value / 256 == 1 && view.controls.mute && data.len() >= 1 || req.value / 256 == 2
                && view.controls.volume && data.len() >= 2
        }),
        req.recipient == Recipient::Endpoint ==> (view.control_out_response(req, data) == Some(
            OutResponse::Accepted,
        ) <==> {
            &&& req.index % 256 == view.streaming_endpoint_address
            &&& req.value / 256 == 1
            &&& data.len() >= 3
            &&& exists|i: int|
                0 <= i < view.sample_rates_hz.len() && #[trigger] view.sample_rates_hz[i] == data[0]
                    + 256 * data[1] + 65536 * data[2]
        }),
{
    if data.len() >= 3 {
        let rate = u24_of(data[0], data[1], data[2]);
        if view.sample_rates_hz.contains(rate) {
            let i = choose|i: int|
                0 <= i < view.sample_rates_hz.len() && view.sample_rates_hz[i] == rate;
            assert(view.sample_rates_hz[i] == data[0] + 256 * data[1] + 65536 * data[2]);
        }
    }
}

/// Which requests for something are accepted, by the fields of the setup packet.
pub proof fn accepted_questions(view: ControlView, state: ControlState, req: Request)
    requires
        req.request_type == RequestType::Class,
    ensures
        req.recipient == Recipient::Interface ==> (view.control_in(state, req) is Some && view.control_in(
            state,
            req,
        )->0 is Accepted <==> {
            &&& req.index == 512 + view.control_interface_number
            &&& req.value % 256 <= view.channels.len()
            &&& req.value / 256 == 1 && view.controls.mute && req.request == 0x81 || req.value / 256
                == 2 && view.controls.volume && 0x81 <= req.request <= 0x84
        }),
        req.recipient == Recipient::Endpoint ==> (view.control_in(state, req) is Some && view.control_in(
            state,
            req,
        )->0 is Accepted <==> {
            &&& req.index % 256 == view.streaming_endpoint_address
            &&& req.value / 256 == 1
            &&& 0x81 <= req.request <= 0x84
        }),
{
}

/// What an accepted mute request does: the channel of the low byte of its value is muted by any
/// byte but zero, and nothing else changes.
pub proof fn mute_request_mutes_its_channel(
    view: ControlView,
    state: ControlState,
    req: Request,
    data: Seq<u8>,
    channel: int,
)
    requires
        view.wf(),
        state.wf(),
        view.control_out_response(req, data) == Some(OutResponse::Accepted),
        req.recipient == Recipient::Interface,
        req.value / 256 == 1,
        0 <= channel < 13,
    ensures
        ({
            let after = view.control_out_state(state, req, data);
            &&& after.wf()
            &&& after.settings.muted[channel] == (if channel == req.value % 256 {
                data[0] != 0
            } else {
                state.settings.muted[channel]
            })
            &&& after.settings.volume[channel] == state.settings.volume[channel]
            &&& after.sample_rate_hz == state.sample_rate_hz
        }),
{
}

/// What an accepted volume request does: the channel of the low byte of its value gets the two's
/// complement number of the first two bytes, and nothing else changes.
pub proof fn volume_request_sets_its_channel(
    view: ControlView,
    state: ControlState,
    req: Request,
    data: Seq<u8>,
    channel: int,
)
    requires
        view.wf(),
        state.wf(),
        view.control_out_response(req, data) == Some(OutResponse::Accepted),
        req.recipient == Recipient::Interface,
        req.value / 256 == 2,
        0 <= channel < 13,
    ensures
        ({
            let after = view.control_out_state(state, req, data);
            &&& after.wf()
            &&& after.settings.volume[channel] == (if channel == req.value % 256 {
                data[0] + 256 * data[1] - (if data[1] >= 128 { 65536int } else { 0int })
            } else {
                state.settings.volume[channel]
            })
            &&& after.settings.muted[channel] == state.settings.muted[channel]
            &&& after.sample_rate_hz == state.sample_rate_hz
        }),
{
}

/// What an accepted request for a sample rate does: the rate is the number of the first three bytes,
/// and no setting changes.
pub proof fn rate_request_sets_the_rate(
    view: ControlView,
    state: ControlState,
    req: Request,
    data: Seq<u8>,
)
    requires
        view.control_out_response(req, data) == Some(OutResponse::Accepted),
        req.recipient == Recipient::Endpoint,
    ensures
        view.control_out_state(state, req, data).sample_rate_hz == data[0] + 256 * data[1] + 65536
            * data[2],
        view.control_out_state(state, req, data).settings == state.settings,
{
}

/// A request that is not accepted leaves every mute state, every volume and the sample rate, and has
/// nothing stored, flagged or woken.
pub proof fn unaccepted_request_does_nothing(
    view: ControlView,
    state: ControlState,
    req: Request,
    data: Seq<u8>,
)
    requires
        view.control_out_response(req, data) != Some(OutResponse::Accepted),
    ensures
        view.control_out_state(state, req, data).settings.muted == state.settings.muted,
        view.control_out_state(state, req, data).settings.volume == state.settings.volume,
        view.control_out_state(state, req, data).sample_rate_hz == state.sample_rate_hz,
        view.control_out_steps(req, data).len() == 0,
{
}

/// What holds at first and after a reset: no channel is muted, every volume is zero, and the sample
/// rate is the first of the stream's, or zero if it has none.
pub proof fn what_holds_at_first(view: ControlView, channel: int)
    requires
        0 <= channel < 13,
    ensures
        view.initial().settings.muted.len() == 13,
        view.initial().settings.volume.len() == 13,
        !view.initial().settings.muted[channel],
        view.initial().settings.volume[channel] == 0,
        view.sample_rates_hz.len() > 0 ==> view.initial().sample_rate_hz == view.sample_rates_hz[0],
        view.sample_rates_hz.len() == 0 ==> view.initial().sample_rate_hz == 0,
{
}

/// What is done to the cells, in order: at first the settings and the rate are stored; a reset stores
/// both again, and an accepted request one of them, and then the flag is set and the waker woken.
pub proof fn steps_in_order(view: ControlView, req: Request, data: Seq<u8>)
    ensures
        initial_steps() == seq![Step::StoreSettings, Step::StoreRate],
        reset_steps() == seq![Step::StoreSettings, Step::StoreRate, Step::Raise, Step::Wake],
        view.control_out_response(req, data) == Some(OutResponse::Accepted) && req.recipient
            == Recipient::Interface ==> view.control_out_steps(req, data) == seq![
            Step::StoreSettings,
            Step::Raise,
            Step::Wake,
        ],
        view.control_out_response(req, data) == Some(OutResponse::Accepted) && req.recipient
            == Recipient::Endpoint ==> view.control_out_steps(req, data) == seq![
            Step::StoreRate,
            Step::Raise,
            Step::Wake,
        ],
{
}

/// What a poll does, in order: one that is ready ends with the flag found set, and cleared; one that
/// is not has its waker registered, and the flag found clear before and after.
pub proof fn poll_in_order(late: bool, waker: Waker)
    ensures
        ({
            let ready = poll_steps(true, late, waker);
            let pending = poll_steps(false, late, waker);
            &&& ready.len() >= 2
            &&& ready[ready.len() - 2] == PollStep::Found(true)
            &&& ready[ready.len() - 1] == PollStep::Clear
            &&& !late ==> ready.len() == 2
            &&& late ==> ready.len() == 4 && ready[0] == PollStep::Found(false) && ready[1]
                == PollStep::Register(waker)
            &&& pending.len() == 3
            &&& pending[0] == PollStep::Found(false)
            &&& pending[1] == PollStep::Register(waker)
            &&& pending[2] == PollStep::Found(false)
        }),
{
}

/// A reply stands at the front of the buffer, and the rest of the buffer is as it was. Without an
/// accepted reply all of it is.
pub proof fn reply_stands_at_the_front(buf: Seq<u8>, data: Seq<u8>, i: int)
    requires
        data.len() <= buf.len(),
        0 <= i < buf.len(),
    ensures
        reply_len(Some(Reply::Accepted(data))) == data.len(),
        reply_len(Some(Reply::Rejected)) == 0,
        reply_len(None) == 0,
        buffer_after(buf, Some(Reply::Accepted(data))).len() == buf.len(),
        buffer_after(buf, Some(Reply::Accepted(data)))[i] == if i < data.len() {
            data[i]
        } else {
            buf[i]
        },
        buffer_after(buf, Some(Reply::Rejected)) == buf,
        buffer_after(buf, None) == buf,
{
}

/// What an answer says is what it holds.
pub proof fn answer_says_what_it_holds(data: &[u8])
    ensures
        reply_of(Some(InResponse::Accepted(data))) == Some(Reply::Accepted(data@)),
        reply_of(Some(InResponse::Rejected)) == Some(Reply::Rejected),
        reply_of(None) is None,
{
}

/// A stream is muted if its master channel is; otherwise one channel that is not muted is enough for
/// it not to be, and it is if there is none.
pub proof fn when_a_stream_is_muted(settings: SettingsView, channel_count: nat, channel: int)
    ensures
        settings.muted[0] ==> settings.stream_muted(channel_count),
        !settings.muted[0] && 1 <= channel <= channel_count && !settings.muted[channel]
            ==> !settings.stream_muted(channel_count),
        (forall|c: int| 1 <= c <= channel_count ==> #[trigger] settings.muted[c])
            ==> settings.stream_muted(channel_count),
        settings.stream_muted(channel_count) && !settings.muted[0] && 1 <= channel <= channel_count
            ==> settings.muted[channel],
{
}

/// A channel is heard at its volume, unless it is muted; and at first no channel is muted, and every
/// volume is zero.
pub proof fn what_a_channel_is_heard_at(settings: SettingsView, channel: int)
    ensures
        settings.muted[channel] ==> settings.channel_volume(channel) == Volume::Muted,
        !settings.muted[channel] && -32768 <= settings.volume[channel] <= 32767 ==> match settings.channel_volume(
            channel,
        ) {
            Volume::Muted => false,
            Volume::DeciBel8q8(volume) => volume == settings.volume[channel],
        },
        0 <= channel < 13 ==> !SettingsView::initial().muted[channel]
            && SettingsView::initial().volume[channel] == 0,
        SettingsView::initial().muted.len() == 13 && SettingsView::initial().volume.len() == 13,
{
}

/// A handler in good order has put on record what the host has set and all that it has done, in cells
/// that are made for its stream; the sets of what the host can set and has set agree.
pub proof fn handler_in_good_order(control: Control<'_>, i: nat, channel: int)
    requires
        control.wf(),
        0 <= channel < 13,
    ensures
        control@.channels.len() <= 12,
        control@.sample_rates_hz.len() <= 10,
        control.history().states[control.steps().len()] == control.state(),
        i < control.steps().len() ==> control.history().log[i] == control.steps()[i as int],
        control.shared().limits().controls == control@.controls,
        control.shared().limits().channel_count == control@.channels.len(),
        control.state().settings.muted.len() == 13,
        control.state().settings.volume.len() == 13,
        control.state().settings.muted[channel] ==> control@.controls.mute && channel
            <= control@.channels.len(),
        control.state().settings.volume[channel] != 0 ==> control@.controls.volume && channel
            <= control@.channels.len(),
{
}

/// A monitor in good order reads cells that are made for its channels, and names their rates.
pub proof fn monitor_in_good_order(monitor: ControlMonitor<'_>)
    requires
        monitor.wf(),
    ensures
        monitor.channels().len() <= 12,
        monitor.shared().limits().channel_count == monitor.channels().len(),
        monitor.sample_rates_hz() == monitor.shared().rates(),
{
}

/// The channels of a stream have the logical channels one, two and so on, in stream order, and no
/// other channel has one.
pub proof fn logical_channels_follow_the_stream(channels: Seq<Channel>, i: int, logical: int)
    requires
        channels.no_duplicates(),
        0 <= i < channels.len(),
    ensures
        logical_channel(channels, channels[i]) == i + 1,
        is_logical_channel(channels, channels[i], logical) <==> logical == i + 1,
{
    assert(is_logical_channel(channels, channels[i], i + 1));
    logical_channel_is_unique(channels, channels[i], i + 1);
    if is_logical_channel(channels, channels[i], logical) {
        logical_channel_is_unique(channels, channels[i], logical);
    }
}

/// The logical channel of a channel is its first place in the stream, counted from one.
pub proof fn logical_channel_is_the_first_place(
    channels: Seq<Channel>,
    channel: Channel,
    logical: int,
    earlier: int,
)
    requires
        is_logical_channel(channels, channel, logical),
        0 <= earlier < logical - 1,
    ensures
        1 <= logical <= channels.len(),
        channels[logical - 1] == channel,
        channels[earlier] != channel,
{
}

/// The device reads the volume of a channel by its place in the stream: what the host sets on logical
/// channel `i + 1` is the volume of the channel at place `i`, unless that one is muted.
pub proof fn volume_reaches_the_channel_at_its_place(
    monitor: ControlMonitor<'_>,
    view: ControlView,
    state: ControlState,
    req: Request,
    data: Seq<u8>,
    i: int,
)
    requires
        view.wf(),
        state.wf(),
        monitor.channels() == view.channels,
        view.channels.no_duplicates(),
        0 <= i < view.channels.len(),
        view.controls.volume,
        req.request_type == RequestType::Class,
        req.recipient == Recipient::Interface,
        req.request == 0x01,
        req.value == 0x0200 + i + 1,
        req.index == 0x0200 + view.control_interface_number,
        data.len() >= 2,
    ensures
        view.control_out_response(req, data) == Some(OutResponse::Accepted),
        match monitor.volume_in(
            view.control_out_state(state, req, data).settings,
            view.channels[i],
        ) {
            Some(Volume::Muted) => state.settings.muted[i + 1],
            Some(Volume::DeciBel8q8(volume)) => !state.settings.muted[i + 1] && volume == data[0]
                + 256 * data[1] - (if data[1] >= 128 { 65536int } else { 0int }),
            None => false,
        },
{
    logical_channels_follow_the_stream(view.channels, i, i + 1);
    assert(monitor.channels().contains(view.channels[i]));
    volume_request_sets_its_channel(view, state, req, data, i + 1);
}

/// The device reads a channel as muted by its place in the stream: a mute request with a byte other
/// than zero on logical channel `i + 1` mutes the channel at place `i`, and one with zero gives back
/// its volume.
pub proof fn mute_reaches_the_channel_at_its_place(
    monitor: ControlMonitor<'_>,
    view: ControlView,
    state: ControlState,
    req: Request,
    data: Seq<u8>,
    i: int,
)
    requires
        view.wf(),
        state.wf(),
        monitor.channels() == view.channels,
        view.channels.no_duplicates(),
        0 <= i < view.channels.len(),
        view.controls.mute,
        req.request_type == RequestType::Class,
        req.recipient == Recipient::Interface,
        req.request == 0x01,
        req.value == 0x0100 + i + 1,
        req.index == 0x0200 + view.control_interface_number,
        data.len() >= 1,
    ensures
        view.control_out_response(req, data) == Some(OutResponse::Accepted),
        match monitor.volume_in(
            view.control_out_state(state, req, data).settings,
            view.channels[i],
        ) {
            Some(Volume::Muted) => data[0] != 0,
            Some(Volume::DeciBel8q8(volume)) => data[0] == 0 && volume == state.settings.volume[i
                + 1],
            None => false,
        },
{
    logical_channels_follow_the_stream(view.channels, i, i + 1);
    assert(monitor.channels().contains(view.channels[i]));
    mute_request_mutes_its_channel(view, state, req, data, i + 1);
}

/// No request about another logical channel, or about the sample rate, and no request that is not
/// accepted, changes what the device reads of the channel at place `i`.
pub proof fn other_requests_leave_the_channel_at_its_place(
    monitor: ControlMonitor<'_>,
    view: ControlView,
    state: ControlState,
    req: Request,
    data: Seq<u8>,
    i: int,
)
    requires
        view.wf(),
        state.wf(),
        monitor.channels() == view.channels,
        view.channels.no_duplicates(),
        0 <= i < view.channels.len(),
        req.recipient != Recipient::Interface || req.value % 256 != i + 1
            || view.control_out_response(req, data) != Some(OutResponse::Accepted),
    ensures
        monitor.volume_in(view.control_out_state(state, req, data).settings, view.channels[i])
            == monitor.volume_in(state.settings, view.channels[i]),
{
    logical_channels_follow_the_stream(view.channels, i, i + 1);
    assert(monitor.channels().contains(view.channels[i]));
}

/// The device reads no volume of a channel that the stream does not have, and the full volume, not
/// muted, of every channel that it has before the host has set anything.
pub proof fn volumes_at_first(monitor: ControlMonitor<'_>, view: ControlView, channel: Channel)
    requires
        view.wf(),
        monitor.channels() == view.channels,
        view.channels.no_duplicates(),
    ensures
        view.channels.contains(channel) ==> monitor.volume_in(view.initial().settings, channel)
            == Some(Volume::DeciBel8q8(0)),
        !view.channels.contains(channel) ==> monitor.volume_in(view.initial().settings, channel)
            is None,
{
    if view.channels.contains(channel) {
        let i = choose|i: int| 0 <= i < view.channels.len() && view.channels[i] == channel;
        logical_channels_follow_the_stream(view.channels, i, i + 1);
    }
}

/// What the monitor can read is not older than the notice that it took last, and keeps to what the
/// host is offered.
pub proof fn readings_are_bounded(monitor: ControlMonitor<'_>, k: nat, channel: int)
    requires
        monitor.can_read(k),
        0 <= channel < 13,
    ensures
        k >= monitor.taken(),
        ({
            let settings = monitor.history().states[k].settings;
            let limits = monitor.shared().limits();
            &&& settings.muted.len() == 13
            &&& settings.volume.len() == 13
            &&& settings.muted[channel] ==> limits.controls.mute && channel <= limits.channel_count
            &&& settings.volume[channel] != 0 ==> limits.controls.volume && channel
                <= limits.channel_count
            &&& -32768 <= settings.volume[channel] <= 32767
        }),
{
}

/// What is read of a history behind some steps is there behind these, or later; and where the flag is
/// said to be set, there is a step that sets it.
pub proof fn histories_are_read_forward(
    history: History,
    from: nat,
    to: nat,
    settings: SettingsView,
    rate: u32,
)
    ensures
        history.settings_since(from, settings) <==> exists|k: nat|
            k >= from && (#[trigger] history.states[k]).settings == settings,
        history.rate_since(from, rate) <==> exists|k: nat|
            k >= from && (#[trigger] history.states[k]).sample_rate_hz == rate,
        history.raised_since(from) <==> exists|i: nat|
            i >= from && #[trigger] history.log[i] == Step::Raise,
        history.raised_between(from, to) <==> exists|i: nat|
            i >= from && i < to && #[trigger] history.log[i] == Step::Raise,
{
}

/// What a history shows between two steps, it shows behind each step between them.
pub proof fn history_shows_each_step(
    history: History,
    from: nat,
    to: nat,
    state: ControlState,
    n: nat,
)
    requires
        shows(history, from, to, state),
        from < n <= to,
    ensures
        history.states[n] == state,
{
}

/// One more step is put behind the others, and leaves what the cells hold and which cells they are.
pub proof fn one_more_step(published: Published, step: Step, polled: Polled, poll: PollStep, taken: nat)
    ensures
        published.after(step).steps == published.steps + seq![step],
        published.after(step).state == published.state,
        published.after(step).history == published.history,
        published.after(step).shared == published.shared,
        published.on_record() <==> published.history.states[published.steps.len()]
            == published.state,
        published.steps.len() > 0 && published.step_on_record() ==> published.on_record()
            && published.history.log[(published.steps.len() - 1) as nat]
            == published.steps[published.steps.len() - 1],
        polled.after(poll).steps == polled.steps + seq![poll],
        polled.after(poll).taken == polled.taken,
        polled.after(poll).history == polled.history,
        polled.after(poll).shared == polled.shared,
        polled.cleared(taken).steps == polled.steps + seq![PollStep::Clear],
        polled.cleared(taken).taken == taken,
        polled.cleared(taken).history == polled.history,
        polled.cleared(taken).shared == polled.shared,
{
}

/// The flag was set since some steps if and only if one of the later ones set it.
pub proof fn raised_by_a_later_step(steps: Seq<Step>, taken: nat)
    ensures
        raised_since(steps, taken) <==> exists|i: int|
            taken <= i < steps.len() && #[trigger] steps[i] == Step::Raise,
{
}

/// A rate is offered if it is one of the stream's; a stream without rates offers zero alone. What can
/// be set are the offered controls, on the master channel and on the channels of the stream.
pub proof fn what_is_offered(
    view: ControlView,
    shared: SharedControl,
    settings: SettingsView,
    rate: u32,
)
    ensures
        is_offered(view.sample_rates_hz, rate) <==> view.sample_rates_hz.contains(rate)
            || view.sample_rates_hz.len() == 0 && rate == 0,
        view.limits().controls == view.controls,
        view.limits().channel_count == view.channels.len(),
        shared.limits() == view.limits() ==> shared.allows(settings) == view.allows(settings),
        view.allows(settings) <==> {
            &&& forall|c: int|
                0 <= c < settings.muted.len() && #[trigger] settings.muted[c] ==> view.controls.mute
                    && c <= view.channels.len()
            &&& forall|c: int|
                0 <= c < settings.volume.len() && #[trigger] settings.volume[c] != 0
                    ==> view.controls.volume && c <= view.channels.len()
        },
{
}

/// What a configuration says is what its fields hold, and it is valid if there are one to ten rates of
/// at most 24 bits, and one or more channels, all different.
pub proof fn what_a_configuration_says(config: Config<'_>)
    ensures
        config@.sample_rates_hz == config.sample_rates_hz@,
        config@.sample_width == config.sample_width,
        config@.channels == config.channels@,
        config@.input_terminal == config.input_terminal,
        config@.feature_unit == config.feature_unit,
        config@.feedback == config.feedback,
        config@.wf() <==> {
            let rates = config.sample_rates_hz@;
            let channels = config.channels@;
            &&& 1 <= rates.len() <= 10
            &&& forall|i: int| 0 <= i < rates.len() ==> #[trigger] rates[i] < 16777216
            &&& 1 <= channels.len()
            &&& forall|i: int, j: int|
                0 <= i < channels.len() && 0 <= j < channels.len() && i != j
                    ==> #[trigger] channels[i] != #[trigger] channels[j]
        },
{
}

/// What an audio function says is what its fields hold; there can be ten rates of at most 24 bits.
pub proof fn what_a_function_says(function: AudioFunction<'_>, rates: Seq<u32>)
    ensures
        function@.channels == function.channels@,
        function@.sample_width == function.sample_width,
        function@.sample_rates_hz == function.sample_rates_hz@,
        function@.input_terminal == function.input_terminal,
        function@.output_terminal == function.output_terminal,
        function@.feature_unit == function.feature_unit,
        function@.wf() <==> valid_rates(function@.sample_rates_hz)
            && function@.channels.no_duplicates(),
        valid_rates(rates) <==> rates.len() <= 10 && forall|i: int|
            0 <= i < rates.len() ==> #[trigger] rates[i] < 16777216,
{
}

/// What is asked of a device is put behind what was asked before, and says what it was asked with. An
/// interface number and the length of a descriptor, header included, are bytes.
pub proof fn what_is_asked_of_a_device(builder: BuilderView, call: Call, calls: Seq<Call>)
    ensures
        builder.push(call).calls == builder.calls + seq![call],
        builder.push(call).interface_count == builder.interface_count,
        builder.extend(calls).calls == builder.calls + calls,
        builder.extend(calls).interface_count == builder.interface_count,
        MAX_INTERFACE_COUNT == 256 && MAX_DESCRIPTOR_BODY == 253,
        forall|class: u8, subclass: u8, protocol: u8|
            #[trigger] (BuilderCall::Function { class, subclass, protocol })@ == (Call::Function {
                class,
                subclass,
                protocol,
            }),
        forall|number: u8| #[trigger] (BuilderCall::Interface { number })@ == (Call::Interface {
            number,
        }),
        forall|class: u8, subclass: u8, protocol: u8|
            #[trigger] (BuilderCall::AltSetting { class, subclass, protocol })@
                == (Call::AltSetting { class, subclass, protocol }),
        forall|descriptor_type: u8, body: Vec<u8>|
            #[trigger] (BuilderCall::Descriptor { descriptor_type, body })@ == (Call::Descriptor {
                descriptor_type,
                body: body@,
            }),
{
}

/// The endpoint of a source's stream: isochronous, to the host, once a frame. With `f` the bytes of one
/// sample of every channel, a packet holds a millisecond at the fastest rate and one sample more, and
/// so does it at every rate. Of a size that does not fit in 16 bits the low 16 are kept.
pub proof fn packets_of_a_source(config: ConfigView, fastest: int, i: int)
    requires
        config.wf(),
        0 <= fastest < config.sample_rates_hz.len(),
        forall|j: int|
            0 <= j < config.sample_rates_hz.len() ==> #[trigger] config.sample_rates_hz[j]
                <= config.sample_rates_hz[fastest],
        0 <= i < config.sample_rates_hz.len(),
    ensures
        ({
            let f = config.channels.len() * (match config.sample_width {
                SampleWidth::Width2Byte => 2int,
                SampleWidth::Width3Byte => 3int,
                SampleWidth::Width4Byte => 4int,
            });
            let size = (config.sample_rates_hz[fastest] * f + 999) / 1000 + f;
            let request = config.stream_request();
            &&& request.direction == Direction::In
            &&& request.ep_type == EndpointType::Isochronous
            &&& request.interval_ms == 1
            &&& request.max_packet_size == size % 65536
            &&& size < 65536 ==> request.max_packet_size == size && 1000 * request.max_packet_size
                >= config.sample_rates_hz[i] * f + 1000 * f
        }),
{
    let rates = config.sample_rates_hz;
    highest_is_greatest(rates);
    let k = choose|k: int| 0 <= k < rates.len() && rates[k] == highest(rates);
    assert(rates[k] <= rates[fastest]);
    assert(rates[fastest] <= highest(rates));
    let f = config.frame_bytes() as int;
    let rate = rates[i] as int;
    let max = rates[fastest] as int;
    assert(0 <= rate * f <= max * f) by (nonlinear_arith)
        requires
            0 <= rate <= max,
            f >= 0,
    ;
}

/// The endpoint of a speaker's stream: isochronous, from the host, once a frame, with the packet size
/// that was asked for. That of a feedback: isochronous, to the host, once a frame, for four bytes.
pub proof fn endpoints_as_asked_for(max_packet_size: u16)
    ensures
        Speaker::stream_request(max_packet_size).max_packet_size == max_packet_size,
        Speaker::stream_request(max_packet_size).direction == Direction::Out,
        Speaker::stream_request(max_packet_size).ep_type == EndpointType::Isochronous,
        Speaker::stream_request(max_packet_size).interval_ms == 1,
        Feedback::request().max_packet_size == 4,
        Feedback::request().direction == Direction::In,
        Feedback::request().ep_type == EndpointType::Isochronous,
        Feedback::request().interval_ms == 1,
{
}

/// The descriptors of the endpoints: the data endpoint is asynchronous and names the address of the
/// synch endpoint, or zero; it has a sampling frequency control; and the synch endpoint, behind it,
/// tells its period.
pub proof fn endpoints_are_described(
    streaming: EndpointInfo,
    feedback: EndpointInfo,
    refresh: FeedbackRefresh,
)
    ensures
        ({
            let control = Call::Descriptor {
                descriptor_type: 0x25,
                body: seq![0x01u8, 0x01u8, 0x02u8, 0x00u8, 0x00u8],
            };
            let alone = Call::EndpointDescriptor {
                endpoint: streaming,
                synchronization_type: SynchronizationType::Asynchronous,
                usage_type: UsageType::DataEndpoint,
                extra_fields: seq![0x00u8, 0x00u8],
            };
            let paired = Call::EndpointDescriptor {
                endpoint: streaming,
                synchronization_type: SynchronizationType::Asynchronous,
                usage_type: UsageType::DataEndpoint,
                extra_fields: seq![0x00u8, feedback.addr],
            };
            let exponent = match refresh {
                FeedbackRefresh::Period2Frames => 1u8,
                FeedbackRefresh::Period4Frames => 2u8,
                FeedbackRefresh::Period8Frames => 3u8,
                FeedbackRefresh::Period16Frames => 4u8,
                FeedbackRefresh::Period32Frames => 5u8,
                FeedbackRefresh::Period64Frames => 6u8,
                FeedbackRefresh::Period128Frames => 7u8,
                FeedbackRefresh::Period256Frames => 8u8,
                FeedbackRefresh::Period512Frames => 9u8,
            };
            let synch = Call::EndpointDescriptor {
                endpoint: feedback,
                synchronization_type: SynchronizationType::NoSynchronization,
                usage_type: UsageType::FeedbackEndpoint,
                extra_fields: seq![exponent, 0x00u8],
            };
            &&& as_endpoint_calls(streaming, None) == seq![alone, control]
            &&& as_endpoint_calls(streaming, Some(feedback)) == seq![paired, control]
            &&& feedback_call(feedback, refresh) == synch
            &&& source_endpoint_calls(streaming, None) == seq![alone, control]
            &&& source_endpoint_calls(streaming, Some((feedback, refresh))) == seq![
                paired,
                control,
                synch,
            ]
        }),
{
    let control = Call::Descriptor {
        descriptor_type: 0x25,
        body: seq![0x01u8, 0x01u8, 0x02u8, 0x00u8, 0x00u8],
    };
    let alone = Call::EndpointDescriptor {
        endpoint: streaming,
        synchronization_type: SynchronizationType::Asynchronous,
        usage_type: UsageType::DataEndpoint,
        extra_fields: seq![0x00u8, 0x00u8],
    };
    let paired = Call::EndpointDescriptor {
        endpoint: streaming,
        synchronization_type: SynchronizationType::Asynchronous,
        usage_type: UsageType::DataEndpoint,
        extra_fields: seq![0x00u8, feedback.addr],
    };
    let exponent = match refresh {
        FeedbackRefresh::Period2Frames => 1u8,
        FeedbackRefresh::Period4Frames => 2u8,
        FeedbackRefresh::Period8Frames => 3u8,
        FeedbackRefresh::Period16Frames => 4u8,
        FeedbackRefresh::Period32Frames => 5u8,
        FeedbackRefresh::Period64Frames => 6u8,
        FeedbackRefresh::Period128Frames => 7u8,
        FeedbackRefresh::Period256Frames => 8u8,
        FeedbackRefresh::Period512Frames => 9u8,
    };
    let synch = Call::EndpointDescriptor {
        endpoint: feedback,
        synchronization_type: SynchronizationType::NoSynchronization,
        usage_type: UsageType::FeedbackEndpoint,
        extra_fields: seq![exponent, 0x00u8],
    };
    assert(as_endpoint_calls(streaming, None) =~~= seq![alone, control]);
    assert(as_endpoint_calls(streaming, Some(feedback)) =~~= seq![paired, control]);
    assert(feedback_call(feedback, refresh) =~~= synch);
    assert(source_endpoint_calls(streaming, Some((feedback, refresh))) =~~= seq![
        paired,
        control,
        synch,
    ]);
}

/// The bodies of two descriptors, one after the other, are as many steps, each with its body.
proof fn described_one_by_one(bodies: Seq<Seq<u8>>, i: int)
    requires
        0 <= i < bodies.len(),
    ensures
        interface_descriptors(bodies).len() == bodies.len(),
        interface_descriptors(bodies)[i] == (Call::Descriptor {
            descriptor_type: 0x24,
            body: bodies[i],
        }),
{
}

/// How an audio function without a feature unit is described: the association, the control interface
/// with header, input and output terminal, and the streaming interface with an empty alternate setting
/// and one with the general and the format descriptor.
pub proof fn function_without_feature_unit_is_described(function: FunctionView, interface: u8)
    requires
        function.wf(),
        function.feature_unit is None,
        interface < 255,
    ensures
        ({
            let calls = interface_calls(function, interface);
            let input = function.input_terminal.spec_code();
            let output = function.output_terminal.spec_code();
            let bits = channel_bits(function.channels);
            let count = function.channels.len() as u8;
            let next = (interface + 1) as u8;
            let link = if function.input_terminal == TerminalType::UsbStreaming { 1u8 } else { 3u8 };
            &&& calls.len() == 11
            &&& calls[0] == Call::Function { class: 1, subclass: 1, protocol: 0 }
            &&& calls[1] == Call::Interface { number: interface }
            &&& calls[2] == Call::AltSetting { class: 1, subclass: 1, protocol: 0 }
            &&& calls[3] == Call::Descriptor {
                descriptor_type: 0x24,
                body: seq![1u8, 0u8, 1u8, 30u8, 0u8, 1u8, next],
            }
            &&& calls[4] == Call::Descriptor {
                descriptor_type: 0x24,
                body: seq![
                    2u8,
                    1u8,
                    (input % 256) as u8,
                    (input / 256) as u8,
                    0u8,
                    count,
                    (bits % 256) as u8,
                    (bits / 256) as u8,
                    0u8,
                    0u8,
                ],
            }
            &&& calls[5] == Call::Descriptor {
                descriptor_type: 0x24,
                body: seq![3u8, 3u8, (output % 256) as u8, (output / 256) as u8, 0u8, 1u8, 0u8],
            }
            &&& calls[6] == Call::Interface { number: next }
            &&& calls[7] == Call::AltSetting { class: 1, subclass: 2, protocol: 0 }
            &&& calls[8] == Call::AltSetting { class: 1, subclass: 2, protocol: 0 }
            &&& calls[9] == Call::Descriptor {
                descriptor_type: 0x24,
                body: seq![1u8, link, 0u8, 1u8, 0u8],
            }
            &&& calls[10] is Descriptor && calls[10]->descriptor_type == 0x24
        }),
{
    let next = (interface + 1) as u8;
    unique_channels_bounded(function.channels);
    function.total_length_of_units();
    let ac = function.ac_bodies(next);
    described_one_by_one(ac, 0);
    described_one_by_one(ac, 1);
    described_one_by_one(ac, 2);
    described_one_by_one(function.as_bodies(), 0);
    described_one_by_one(function.as_bodies(), 1);
    assert(ac[0] =~= seq![1u8, 0u8, 1u8, 30u8, 0u8, 1u8, next]);
}

/// How an audio function with a feature unit is described: as without, but that the feature unit
/// stands between the terminals, with a byte of controls for the master channel and for each other.
pub proof fn function_with_feature_unit_is_described(
    function: FunctionView,
    master: FeatureUnitControls,
    per_channel: FeatureUnitControls,
    interface: u8,
)
    requires
        function.wf(),
        function.feature_unit == Some((master, per_channel)),
        interface < 255,
    ensures
        ({
            let calls = interface_calls(function, interface);
            let input = function.input_terminal.spec_code();
            let output = function.output_terminal.spec_code();
            let bits = channel_bits(function.channels);
            let count = function.channels.len() as u8;
            let next = (interface + 1) as u8;
            let link = if function.input_terminal == TerminalType::UsbStreaming { 1u8 } else { 3u8 };
            let on_master = ((if master.mute { 1int } else { 0int }) + (if master.volume {
                2int
            } else {
                0int
            })) as u8;
            let on_channel = ((if per_channel.mute { 1int } else { 0int }) + (if per_channel.volume {
                2int
            } else {
                0int
            })) as u8;
            &&& calls.len() == 12
            &&& calls[0] == Call::Function { class: 1, subclass: 1, protocol: 0 }
            &&& calls[1] == Call::Interface { number: interface }
            &&& calls[2] == Call::AltSetting { class: 1, subclass: 1, protocol: 0 }
            &&& calls[3] == Call::Descriptor {
                descriptor_type: 0x24,
                body: seq![1u8, 0u8, 1u8, (38 + count) as u8, 0u8, 1u8, next],
            }
            &&& calls[4] == Call::Descriptor {
                descriptor_type: 0x24,
                body: seq![
                    2u8,
                    1u8,
                    (input % 256) as u8,
                    (input / 256) as u8,
                    0u8,
                    count,
                    (bits % 256) as u8,
                    (bits / 256) as u8,
                    0u8,
                    0u8,
                ],
            }
            &&& calls[5] == Call::Descriptor {
                descriptor_type: 0x24,
                body: seq![6u8, 2u8, 1u8, 1u8, on_master] + Seq::new(
                    function.channels.len(),
                    |i: int| on_channel,
                ) + seq![0u8],
            }
            &&& calls[6] == Call::Descriptor {
                descriptor_type: 0x24,
                body: seq![3u8, 3u8, (output % 256) as u8, (output / 256) as u8, 0u8, 2u8, 0u8],
            }
            &&& calls[7] == Call::Interface { number: next }
            &&& calls[8] == Call::AltSetting { class: 1, subclass: 2, protocol: 0 }
            &&& calls[9] == Call::AltSetting { class: 1, subclass: 2, protocol: 0 }
            &&& calls[10] == Call::Descriptor {
                descriptor_type: 0x24,
                body: seq![1u8, link, 0u8, 1u8, 0u8],
            }
            &&& calls[11] is Descriptor && calls[11]->descriptor_type == 0x24
        }),
{
    let next = (interface + 1) as u8;
    let count = function.channels.len() as u8;
    unique_channels_bounded(function.channels);
    function.total_length_of_units();
    let ac = function.ac_bodies(next);
    described_one_by_one(ac, 0);
    described_one_by_one(ac, 1);
    described_one_by_one(ac, 2);
    described_one_by_one(ac, 3);
    described_one_by_one(function.as_bodies(), 0);
    described_one_by_one(function.as_bodies(), 1);
    assert(ac[0] =~= seq![1u8, 0u8, 1u8, (38 + count) as u8, 0u8, 1u8, next]);
    let on_master = ((if master.mute { 1int } else { 0int }) + (if master.volume {
        2int
    } else {
        0int
    })) as u8;
    let on_channel = ((if per_channel.mute { 1int } else { 0int }) + (if per_channel.volume {
        2int
    } else {
        0int
    })) as u8;
    assert(ac[2] =~= seq![6u8, 2u8, 1u8, 1u8, on_master] + Seq::new(
        function.channels.len(),
        |i: int| on_channel,
    ) + seq![0u8]);
}

/// The last step that describes the interfaces of a function is its format: the number of channels,
/// the bytes and the bits of a sample, the number of rates, and each rate in three bytes, in order.
pub proof fn format_is_described_last(function: FunctionView, interface: u8, i: int)
    requires
        function.wf(),
        interface < 255,
    ensures
        match interface_calls(function, interface).last() {
            Call::Descriptor { descriptor_type, body } => {
                let width = match function.sample_width {
                    SampleWidth::Width2Byte => 2int,
                    SampleWidth::Width3Byte => 3int,
                    SampleWidth::Width4Byte => 4int,
                };
                let rates = function.sample_rates_hz;
                &&& descriptor_type == 0x24
                &&& body.len() == 6 + 3 * rates.len()
                &&& body[0] == 2
                &&& body[1] == 1
                &&& body[2] == function.channels.len()
                &&& body[3] == width
                &&& body[4] == 8 * width
                &&& body[5] == rates.len()
                &&& 0 <= i < rates.len() ==> body[6 + 3 * i] + 256 * body[7 + 3 * i] + 65536
                    * body[8 + 3 * i] == rates[i]
            },
            _ => false,
        },
{
    unique_channels_bounded(function.channels);
    let body = function.format_body();
    described_one_by_one(function.as_bodies(), 1);
    assert(interface_calls(function, interface).last() == interface_descriptors(
        function.as_bodies(),
    )[1]);
    if 0 <= i < function.sample_rates_hz.len() {
        assert(function.sample_rates_hz[i] <= 0xFFFFFF);
        assert((3 * i) / 3 == i && (3 * i + 1) / 3 == i && (3 * i + 2) / 3 == i);
        assert((3 * i) % 3 == 0 && (3 * i + 1) % 3 == 1 && (3 * i + 2) % 3 == 2);
        assert(body[6 + 3 * i] == byte_at(function.sample_rates_hz[i] as nat, 0));
        assert(body[7 + 3 * i] == byte_at(function.sample_rates_hz[i] as nat, 1));
        assert(body[8 + 3 * i] == byte_at(function.sample_rates_hz[i] as nat, 2));
    }
}

/// What a source describes is what it is configured with: its channels, sample width, rates and input
/// terminal, a USB stream as output terminal, and a feature unit, with the same controls on every
/// channel, if it is configured with any control.
pub proof fn source_describes_its_configuration(config: ConfigView)
    ensures
        config.function().channels == config.channels,
        config.function().sample_width == config.sample_width,
        config.function().sample_rates_hz == config.sample_rates_hz,
        config.function().input_terminal == config.input_terminal,
        config.function().output_terminal == TerminalType::UsbStreaming,
        config.feature_unit.mute || config.feature_unit.volume ==> config.function().feature_unit
            == Some((config.feature_unit, config.feature_unit)),
        !config.feature_unit.mute && !config.feature_unit.volume ==> config.function().feature_unit
            is None,
{
}

/// What a speaker describes is what it is made with: its channels, sample width and rates, a USB stream
/// as input and a speaker as output terminal, and a feature unit with mute and volume on every channel
/// but the master channel.
pub proof fn speaker_describes_what_it_is_made_with(
    resolution: SampleWidth,
    sample_rates_hz: Seq<u32>,
    channels: Seq<Channel>,
)
    ensures
        ({
            let function = speaker_function(resolution, sample_rates_hz, channels);
            &&& function.channels == channels
            &&& function.sample_width == resolution
            &&& function.sample_rates_hz == sample_rates_hz
            &&& function.input_terminal == TerminalType::UsbStreaming
            &&& function.output_terminal == TerminalType::OutSpeaker
            &&& match function.feature_unit {
                Some((master, per_channel)) => !master.mute && !master.volume && per_channel.mute
                    && per_channel.volume,
                None => false,
            }
        }),
{
}

/// The host finds in the last descriptor of a source's interfaces how many rates, channels and bytes a
/// sample has, and each rate of the configuration.
pub proof fn source_tells_every_rate(config: ConfigView, interface: u8, i: int)
    requires
        config.wf(),
        interface < 255,
        0 <= i < config.sample_rates_hz.len(),
    ensures
        match interface_calls(config.function(), interface).last() {
            Call::Descriptor { descriptor_type, body } => {
                let width = match config.sample_width {
                    SampleWidth::Width2Byte => 2int,
                    SampleWidth::Width3Byte => 3int,
                    SampleWidth::Width4Byte => 4int,
                };
                &&& descriptor_type == 0x24
                &&& body.len() == 6 + 3 * config.sample_rates_hz.len()
                &&& body[0] == 2
                &&& body[1] == 1
                &&& body[2] == config.channels.len()
                &&& body[3] == width
                &&& body[4] == 8 * width
                &&& body[5] == config.sample_rates_hz.len()
                &&& body[6 + 3 * i] + 256 * body[7 + 3 * i] + 65536 * body[8 + 3 * i]
                    == config.sample_rates_hz[i]
            },
            _ => false,
        },
{
    source_describes_its_configuration(config);
    format_is_described_last(config.function(), interface, i);
}

/// A source accepts a sample rate if and only if its descriptors list it: the three bytes that the host
/// sends stand among those of the format.
pub proof fn source_accepts_the_rates_that_it_lists(
    config: ConfigView,
    view: ControlView,
    interface: u8,
    req: Request,
    data: Seq<u8>,
)
    requires
        config.wf(),
        interface < 255,
        view.sample_rates_hz == config.sample_rates_hz,
        req.request_type == RequestType::Class,
        req.recipient == Recipient::Endpoint,
        req.value / 256 == 1,
        req.index % 256 == view.streaming_endpoint_address,
        data.len() >= 3,
    ensures
        match interface_calls(config.function(), interface).last() {
            Call::Descriptor { body, .. } => {
                view.control_out_response(req, data) == Some(OutResponse::Accepted) <==> exists|
                    i: int,
                |
                    0 <= i < body[5] && #[trigger] body[6 + 3 * i] == data[0] && body[7 + 3 * i]
                        == data[1] && body[8 + 3 * i] == data[2]
            },
            _ => false,
        },
{
    source_tells_every_rate(config, interface, 0);
    listed_rates_are_accepted(config.function(), view, interface, req, data);
}

/// A speaker accepts a sample rate if and only if its descriptors list it: the three bytes that the host
/// sends stand among those of the format.
pub proof fn speaker_accepts_the_rates_that_it_lists(
    resolution: SampleWidth,
    view: ControlView,
    interface: u8,
    req: Request,
    data: Seq<u8>,
)
    requires
        view.channels.no_duplicates(),
        valid_rates(view.sample_rates_hz),
        interface < 255,
        req.request_type == RequestType::Class,
        req.recipient == Recipient::Endpoint,
        req.value / 256 == 1,
        req.index % 256 == view.streaming_endpoint_address,
        data.len() >= 3,
    ensures
        match interface_calls(
            speaker_function(resolution, view.sample_rates_hz, view.channels),
            interface,
        ).last() {
            Call::Descriptor { body, .. } => {
                &&& body[5] == view.sample_rates_hz.len()
                &&& view.control_out_response(req, data) == Some(OutResponse::Accepted) <==> exists|
                    i: int,
                |
                    0 <= i < body[5] && #[trigger] body[6 + 3 * i] == data[0] && body[7 + 3 * i]
                        == data[1] && body[8 + 3 * i] == data[2]
            },
            _ => false,
        },
{
    let function = speaker_function(resolution, view.sample_rates_hz, view.channels);
    format_is_described_last(function, interface, 0);
    listed_rates_are_accepted(function, view, interface, req, data);
}

/// A handler accepts a sample rate if and only if the format of its function lists it.
proof fn listed_rates_are_accepted(
    function: FunctionView,
    view: ControlView,
    interface: u8,
    req: Request,
    data: Seq<u8>,
)
    requires
        function.wf(),
        interface < 255,
        view.sample_rates_hz == function.sample_rates_hz,
        req.request_type == RequestType::Class,
        req.recipient == Recipient::Endpoint,
        req.value / 256 == 1,
        req.index % 256 == view.streaming_endpoint_address,
        data.len() >= 3,
    ensures
        match interface_calls(function, interface).last() {
            Call::Descriptor { body, .. } => {
                view.control_out_response(req, data) == Some(OutResponse::Accepted) <==> exists|
                    i: int,
                |
                    0 <= i < body[5] && #[trigger] body[6 + 3 * i] == data[0] && body[7 + 3 * i]
                        == data[1] && body[8 + 3 * i] == data[2]
            },
            _ => false,
        },
{
    let rates = function.sample_rates_hz;
    let body = interface_calls(function, interface).last()->Descriptor_body;
    format_is_described_last(function, interface, 0);
    accepted_settings(view, req, data);
    if view.control_out_response(req, data) == Some(OutResponse::Accepted) {
        let i = choose|i: int|
            0 <= i < rates.len() && #[trigger] rates[i] == data[0] + 256 * data[1] + 65536 * data[2];
        format_is_described_last(function, interface, i);
        assert(body[6 + 3 * i] == data[0]);
        assert(body[7 + 3 * i] == data[1] && body[8 + 3 * i] == data[2]);
    }
    if exists|i: int|
        0 <= i < body[5] && #[trigger] body[6 + 3 * i] == data[0] && body[7 + 3 * i] == data[1]
            && body[8 + 3 * i] == data[2] {
        let i = choose|i: int|
            0 <= i < body[5] && #[trigger] body[6 + 3 * i] == data[0] && body[7 + 3 * i] == data[1]
                && body[8 + 3 * i] == data[2];
        format_is_described_last(function, interface, i);
        assert(rates[i] == data[0] + 256 * data[1] + 65536 * data[2]);
    }
}

/// The bits of wChannelConfig, each worth a power of two, are those of the stream's channels: the
/// input terminal of a function tells which channels the stream has.
pub proof fn input_terminal_tells_the_channels(
    function: FunctionView,
    interface: u8,
    channel: Channel,
)
    requires
        function.wf(),
        interface < 255,
    ensures
        match interface_calls(function, interface)[4] {
            Call::Descriptor { body, .. } => {
                let bits = (body[6] + 256 * body[7]) as u16;
                let bit = match channel {
                    Channel::LeftFront => 0x0001u16,
                    Channel::RightFront => 0x0002u16,
                    Channel::CenterFront => 0x0004u16,
                    Channel::Lfe => 0x0008u16,
                    Channel::LeftSurround => 0x0010u16,
                    Channel::RightSurround => 0x0020u16,
                    Channel::LeftOfCenter => 0x0040u16,
                    Channel::RightOfCenter => 0x0080u16,
                    Channel::Surround => 0x0100u16,
                    Channel::SideLeft => 0x0200u16,
                    Channel::SideRight => 0x0400u16,
                    Channel::Top => 0x0800u16,
                };
                &&& body[5] == function.channels.len()
                &&& bits & bit != 0 <==> function.channels.contains(channel)
                &&& bits < 0x1000
            },
            _ => false,
        },
{
    unique_channels_bounded(function.channels);
    channel_config_tells_the_channels(function.channels, channel);
    match function.feature_unit {
        Some((master, per_channel)) => function_with_feature_unit_is_described(
            function,
            master,
            per_channel,
            interface,
        ),
        None => function_without_feature_unit_is_described(function, interface),
    }
    let bits = channel_bits(function.channels);
    let body = interface_calls(function, interface)[4]->Descriptor_body;
    assert(body[6] + 256 * body[7] == bits);
}

} // verus!
