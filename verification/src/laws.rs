//! What holds of the control handler over any sequence of requests, and of the descriptors.
use vstd::prelude::*;

use crate::builder::{Call, EndpointInfo, DESCRIPTOR_HEADER_SIZE, MAX_DESCRIPTOR_BODY};
#[allow(unused_imports)]
use crate::bytes::{
    i16_bytes, i16_bytes_round_trip, i16_round_trip, le_bytes, u24_bytes_round_trip, u24_of,
    u24_round_trip,
};
use crate::class_codes::{
    CS_ENDPOINT, CS_INTERFACE, FEATURE_UNIT, GET_CUR, GET_MAX, GET_MIN, MUTE_CONTROL,
    SAMPLING_FREQ_CONTROL, SET_CUR, VOLUME_CONTROL,
};
#[allow(unused_imports)]
use crate::control::{
    highest, highest_is_greatest, initial_rate, initial_steps, lowest, lowest_is_least, notice, reset_steps,
    shows, ControlState, ControlView,
};
#[allow(unused_imports)]
use crate::function::{
    interface_calls, total_length, unique_channels_bounded, FeatureUnitControls, FunctionView,
    FEATURE_UNIT_ID, INPUT_UNIT_ID, OUTPUT_UNIT_ID,
};
use crate::request::{OutResponse, Recipient, Reply, Request, RequestType};
use crate::settings::SettingsView;
#[allow(unused_imports)]
use crate::source::{source_endpoint_calls, ConfigView};
#[allow(unused_imports)]
use crate::speaker::speaker_function;
#[allow(unused_imports)]
use crate::sync::{is_offered, raised_since, History, Step};
use crate::terminal_type::TerminalType;
#[allow(unused_imports)]
use crate::types::{channel_bits, Channel, FeedbackRefresh, SampleWidth, Volume};

verus! {

/// What can change what the host has set.
pub enum HostEvent {
    /// A request that carries data to the device.
    Out { req: Request, data: Seq<u8> },
    /// A bus reset.
    Reset,
}

/// What the host has set after `events`, one after the other.
pub open spec fn state_after(view: ControlView, events: Seq<HostEvent>) -> ControlState
    decreases events.len(),
{
    if events.len() == 0 {
        view.initial()
    } else {
        let before = state_after(view, events.drop_last());
        match events.last() {
            HostEvent::Out { req, data } => view.control_out_state(before, req, data),
            HostEvent::Reset => view.initial(),
        }
    }
}

/// The request that asks for what `req` sets.
pub open spec fn read_request(req: Request) -> Request {
    Request { request: GET_CUR, ..req }
}

/// The bytes in which an accepted setting reads back: a mute state as zero or one, a volume or a
/// sample rate as it was sent.
pub open spec fn read_back(req: Request, data: Seq<u8>) -> Seq<u8> {
    if req.recipient == Recipient::Endpoint {
        seq![data[0], data[1], data[2]]
    } else if req.selector() == MUTE_CONTROL {
        seq![if data[0] != 0 { 1u8 } else { 0u8 }]
    } else {
        seq![data[0], data[1]]
    }
}

/// All that the handler has done to the cells that the monitor reads after `events`, one after the
/// other.
pub open spec fn steps_after(view: ControlView, events: Seq<HostEvent>) -> Seq<Step>
    decreases events.len(),
{
    if events.len() == 0 {
        initial_steps()
    } else {
        steps_after(view, events.drop_last()) + match events.last() {
            HostEvent::Out { req, data } => view.control_out_steps(req, data),
            HostEvent::Reset => reset_steps(),
        }
    }
}

/// A request to the streaming endpoint about its sampling frequency.
pub open spec fn rate_request(view: ControlView, request: u8) -> Request {
    Request {
        request_type: RequestType::Class,
        recipient: Recipient::Endpoint,
        request,
        value: (256 * SAMPLING_FREQ_CONTROL) as u16,
        index: view.streaming_endpoint_address as u16,
    }
}

/// A request to the feature unit about a control of a logical channel.
pub open spec fn feature_request(
    view: ControlView,
    request: u8,
    selector: u8,
    channel: u8,
) -> Request {
    Request {
        request_type: RequestType::Class,
        recipient: Recipient::Interface,
        request,
        value: (256 * selector + channel) as u16,
        index: (256 * FEATURE_UNIT_ID + view.control_interface_number) as u16,
    }
}

/// What the host sets, it reads back.
pub proof fn accepted_setting_reads_back(
    view: ControlView,
    state: ControlState,
    req: Request,
    data: Seq<u8>,
)
    requires
        view.wf(),
        state.wf(),
        view.control_out_response(req, data) == Some(OutResponse::Accepted),
    ensures
        view.control_in(view.control_out_state(state, req, data), read_request(req)) == Some(
            Reply::Accepted(read_back(req, data)),
        ),
{
    if req.recipient == Recipient::Endpoint {
        u24_bytes_round_trip(data[0], data[1], data[2]);
    } else if req.selector() == VOLUME_CONTROL {
        i16_bytes_round_trip(data[0], data[1]);
    }
}

/// A request that is rejected, or left to other handlers, changes nothing, touches none of the cells
/// that the monitor reads, and wakes nobody.
pub proof fn refused_setting_changes_nothing(
    view: ControlView,
    state: ControlState,
    req: Request,
    data: Seq<u8>,
)
    requires
        view.control_out_response(req, data) != Some(OutResponse::Accepted),
    ensures
        view.control_out_state(state, req, data) == state,
        view.control_out_steps(req, data) == Seq::<Step>::empty(),
{
}

/// An accepted setting is stored where the monitor reads it, once, before the monitor is told of it,
/// and the monitor is told by its flag before its waker is woken: also of a setting that was already
/// there.
pub proof fn accepted_setting_is_told(view: ControlView, req: Request, data: Seq<u8>)
    requires
        view.control_out_response(req, data) == Some(OutResponse::Accepted),
    ensures
        view.control_out_steps(req, data) == seq![
            if req.recipient == Recipient::Endpoint {
                Step::StoreRate
            } else {
                Step::StoreSettings
            },
            Step::Raise,
            Step::Wake,
        ],
{
}

/// The monitor is never left untold: where what the host has set is not what it was at first, the
/// last that the handler has done was to set the flag and to wake. Before the host has had a setting
/// accepted, nothing has told the monitor of a change.
pub proof fn monitor_is_told_of_every_change(view: ControlView, events: Seq<HostEvent>)
    ensures
        steps_after(view, events) == initial_steps() && state_after(view, events) == view.initial()
            || notice().is_suffix_of(steps_after(view, events)),
    decreases events.len(),
{
    if events.len() > 0 {
        let rest = events.drop_last();
        monitor_is_told_of_every_change(view, rest);
        let before = steps_after(view, rest);
        match events.last() {
            HostEvent::Out { req, data } => {
                if view.control_out_response(req, data) == Some(OutResponse::Accepted) {
                    accepted_setting_is_told(view, req, data);
                    assert(notice().is_suffix_of(before + view.control_out_steps(req, data)));
                } else {
                    refused_setting_changes_nothing(view, state_after(view, rest), req, data);
                    assert(before + view.control_out_steps(req, data) =~= before);
                }
            },
            HostEvent::Reset => {
                assert(notice().is_suffix_of(before + reset_steps()));
            },
        }
    }
}

/// Whether an event changes something: a reset, or a request that is accepted.
pub open spec fn is_change(view: ControlView, event: HostEvent) -> bool {
    match event {
        HostEvent::Out { req, data } => view.control_out_response(req, data) == Some(
            OutResponse::Accepted,
        ),
        HostEvent::Reset => true,
    }
}

/// Whether the monitor is ready depends on nothing but the changes since it last took notice: with
/// one or more of them, a poll finds the flag set, and with none it does not. `taken` is what the
/// monitor counts when it has taken notice of all of `before`, as it has of nothing at first.
pub proof fn poll_is_ready_iff_something_changed(
    view: ControlView,
    before: Seq<HostEvent>,
    more: Seq<HostEvent>,
    taken: nat,
)
    requires
        taken == steps_after(view, before).len(),
    ensures
        steps_after(view, before).len() <= steps_after(view, before + more).len(),
        raised_since(steps_after(view, before + more), taken) <==> exists|i: int|
            0 <= i < more.len() && is_change(view, #[trigger] more[i]),
    decreases more.len(),
{
    let steps = steps_after(view, before + more);
    if more.len() == 0 {
        assert(before + more =~= before);
    } else {
        let rest = more.drop_last();
        let last = more[more.len() - 1];
        poll_is_ready_iff_something_changed(view, before, rest, taken);
        assert((before + more).drop_last() =~= before + rest);
        let earlier = steps_after(view, before + rest);
        assert(forall|i: int| 0 <= i < rest.len() ==> rest[i] == more[i]);
        if is_change(view, last) {
            if let HostEvent::Out { req, data } = last {
                accepted_setting_is_told(view, req, data);
            }
            assert(steps[steps.len() - 2] == Step::Raise);
        } else {
            assert(steps =~= earlier);
            if raised_since(steps, taken) {
                let i = choose|i: int|
                    0 <= i < rest.len() && is_change(view, #[trigger] rest[i]);
                assert(is_change(view, more[i]));
            }
            if exists|i: int| 0 <= i < more.len() && is_change(view, #[trigger] more[i]) {
                let i = choose|i: int|
                    0 <= i < more.len() && is_change(view, #[trigger] more[i]);
                assert(is_change(view, rest[i]));
            }
        }
    }
}

/// Whether `history` is that of a handler to which `events` happen, one after the other. Behind each
/// event the cells hold what the host has set. Within an event they hold the new settings from the
/// first step on, and the sample rate of before or the new one.
pub open spec fn is_history(
    view: ControlView,
    events: Seq<HostEvent>,
    history: History,
) -> bool {
    &&& forall|i: int|
        0 <= i <= events.len() ==> history.states[(#[trigger] steps_after(
            view,
            events.take(i),
        )).len()] == state_after(view, events.take(i))
    &&& forall|i: int, n: nat|
        #![trigger events.take(i), history.states[n]]
        0 <= i < events.len() && steps_after(view, events.take(i)).len() < n <= steps_after(
            view,
            events.take(i + 1),
        ).len() ==> {
            let before = state_after(view, events.take(i));
            let after = state_after(view, events.take(i + 1));
            &&& history.states[n].settings == after.settings
            &&& history.states[n].sample_rate_hz == before.sample_rate_hz
                || history.states[n].sample_rate_hz == after.sample_rate_hz
        }
}

/// A handler to which nothing has happened yet has a history of no events.
pub proof fn history_starts(view: ControlView, history: History)
    requires
        history.states[initial_steps().len()] == view.initial(),
    ensures
        is_history(view, seq![], history),
{
    assert(Seq::<HostEvent>::empty().take(0) =~= seq![]);
}

/// What a request or a reset puts on record makes a history of one more event.
pub proof fn history_goes_on(
    view: ControlView,
    events: Seq<HostEvent>,
    event: HostEvent,
    history: History,
)
    requires
        is_history(view, events, history),
        ({
            let from = steps_after(view, events).len();
            let to = steps_after(view, events.push(event)).len();
            let before = state_after(view, events);
            let after = state_after(view, events.push(event));
            &&& history.states[to] == after
            &&& match event {
                HostEvent::Out { .. } => shows(history, from, to, after),
                HostEvent::Reset => {
                    &&& history.states[from + 1] == (ControlState {
                        settings: after.settings,
                        ..before
                    })
                    &&& shows(history, from + 1, to, after)
                },
            }
        }),
    ensures
        is_history(view, events.push(event), history),
{
    let all = events.push(event);
    assert(all.take(events.len() as int) =~= events);
    assert(all.take(all.len() as int) =~= all);
    assert(events.take(events.len() as int) =~= events);
    assert(forall|i: int|
        0 <= i <= events.len() ==> #[trigger] all.take(i) =~= events.take(i));
    assert forall|i: int, n: nat|
        #![trigger all.take(i), history.states[n]]
        0 <= i < all.len() && steps_after(view, all.take(i)).len() < n <= steps_after(
            view,
            all.take(i + 1),
        ).len() implies {
        let before = state_after(view, all.take(i));
        let after = state_after(view, all.take(i + 1));
        &&& history.states[n].settings == after.settings
        &&& history.states[n].sample_rate_hz == before.sample_rate_hz
            || history.states[n].sample_rate_hz == after.sample_rate_hz
    } by {
        if i < events.len() {
            assert(all.take(i) == events.take(i));
            assert(all.take(i + 1) == events.take(i + 1));
        }
    }
}

/// What the monitor reads is not older than the notice that it took last. `events` are all that
/// happen until the reading, and the monitor has taken notice of the first `noticed` of them: then it
/// reads the settings as they are behind these and some that follow, and likewise the sample rate.
/// Where none follow, what it reads is what the host has set.
pub proof fn reading_is_not_older_than_the_notice(
    view: ControlView,
    events: Seq<HostEvent>,
    history: History,
    noticed: int,
    k: nat,
)
    requires
        is_history(view, events, history),
        0 <= noticed <= events.len(),
        steps_after(view, events.take(noticed)).len() <= k <= steps_after(view, events).len(),
    ensures
        exists|m: int|
            noticed <= m <= events.len() && history.states[k].settings == (#[trigger] state_after(
                view,
                events.take(m),
            )).settings,
        exists|m: int|
            noticed <= m <= events.len() && history.states[k].sample_rate_hz
                == (#[trigger] state_after(view, events.take(m))).sample_rate_hz,
        noticed == events.len() ==> history.states[k] == state_after(view, events),
    decreases events.len() - noticed,
{
    assert(events.take(events.len() as int) =~= events);
    let behind = steps_after(view, events.take(noticed)).len();
    let there = state_after(view, events.take(noticed));
    if k == behind {
        assert(history.states[k] == there);
    } else {
        let next = state_after(view, events.take(noticed + 1));
        if k <= steps_after(view, events.take(noticed + 1)).len() {
            assert(history.states[k].settings == next.settings);
            assert(history.states[k].sample_rate_hz == there.sample_rate_hz
                || history.states[k].sample_rate_hz == next.sample_rate_hz);
        } else {
            reading_is_not_older_than_the_notice(view, events, history, noticed + 1, k);
        }
    }
}

/// Two accepted settings of different controls, or of different channels, leave the same settings
/// in either order.
pub proof fn settings_of_different_controls_commute(
    view: ControlView,
    settings: SettingsView,
    req1: Request,
    data1: Seq<u8>,
    req2: Request,
    data2: Seq<u8>,
)
    requires
        view.wf(),
        settings.wf(),
        view.interface_set_response(req1, data1) == Some(OutResponse::Accepted),
        view.interface_set_response(req2, data2) == Some(OutResponse::Accepted),
        req1.value != req2.value,
    ensures
        view.interface_set_settings(
            view.interface_set_settings(settings, req1, data1),
            req2,
            data2,
        ) == view.interface_set_settings(
            view.interface_set_settings(settings, req2, data2),
            req1,
            data1,
        ),
{
    assert(req1.channel() != req2.channel() || req1.selector() != req2.selector());
    let one = view.interface_set_settings(
        view.interface_set_settings(settings, req1, data1),
        req2,
        data2,
    );
    let other = view.interface_set_settings(
        view.interface_set_settings(settings, req2, data2),
        req1,
        data1,
    );
    assert(one =~= other);
}

/// Of two accepted settings of one control, the later one stands, as if there had been no other.
pub proof fn later_setting_stands(
    view: ControlView,
    settings: SettingsView,
    req1: Request,
    data1: Seq<u8>,
    req2: Request,
    data2: Seq<u8>,
)
    requires
        view.wf(),
        settings.wf(),
        view.interface_set_response(req1, data1) == Some(OutResponse::Accepted),
        view.interface_set_response(req2, data2) == Some(OutResponse::Accepted),
        req1.value == req2.value,
    ensures
        view.interface_set_settings(
            view.interface_set_settings(settings, req1, data1),
            req2,
            data2,
        ) == view.interface_set_settings(settings, req2, data2),
{
    assert(view.interface_set_settings(
        view.interface_set_settings(settings, req1, data1),
        req2,
        data2,
    ) =~= view.interface_set_settings(settings, req2, data2));
}

/// For the sampling frequency only the endpoint, the control selector and the first three bytes
/// count: the request code, the low byte of the value, the high byte of the index and the bytes
/// after the third have no influence.
pub proof fn rate_depends_on_three_bytes(
    view: ControlView,
    rate: u32,
    req1: Request,
    data1: Seq<u8>,
    req2: Request,
    data2: Seq<u8>,
)
    requires
        req1.target() == req2.target(),
        req1.selector() == req2.selector(),
        data1.len() >= 3,
        data2.len() >= 3,
        data1.take(3) == data2.take(3),
    ensures
        view.endpoint_set_response(req1, data1) == view.endpoint_set_response(req2, data2),
        view.endpoint_set_rate(rate, req1, data1) == view.endpoint_set_rate(rate, req2, data2),
        view.endpoint_set_steps(req1, data1) == view.endpoint_set_steps(req2, data2),
{
    assert(forall|i: int| 0 <= i < 3 ==> data1[i] == data1.take(3)[i]);
    assert(forall|i: int| 0 <= i < 3 ==> data2[i] == data2.take(3)[i]);
}

/// An accepted setting of the feature unit reads back: a volume as the two bytes that were sent,
/// neither clamped nor rounded, and a mute state as one byte, zero or one.
pub proof fn feature_setting_reads_back(
    view: ControlView,
    settings: SettingsView,
    req: Request,
    data: Seq<u8>,
    get: Request,
)
    requires
        view.wf(),
        settings.wf(),
        view.interface_set_response(req, data) == Some(OutResponse::Accepted),
        get.request == GET_CUR,
        get.value == req.value,
        get.index == req.index,
    ensures
        view.interface_get(view.interface_set_settings(settings, req, data), get) == Some(
            Reply::Accepted(
                if req.selector() == MUTE_CONTROL {
                    seq![if data[0] != 0 { 1u8 } else { 0u8 }]
                } else {
                    seq![data[0], data[1]]
                },
            ),
        ),
{
    if req.selector() == VOLUME_CONTROL {
        i16_bytes_round_trip(data[0], data[1]);
    }
}

/// A channel that is offered a mute control, and that was not muted since the last reset, reads as
/// not muted.
pub proof fn unset_mute_reads_as_zero(view: ControlView, get: Request)
    requires
        view.wf(),
        get.target() == view.control_interface_number,
        get.entity() == FEATURE_UNIT_ID,
        view.has_channel(get.channel()),
        get.selector() == MUTE_CONTROL,
        view.controls.mute,
        get.request == GET_CUR,
    ensures
        view.interface_get(view.initial().settings, get) == Some(Reply::Accepted(seq![0u8])),
{
}

/// An accepted sample rate reads back as the three bytes that were sent. It is one of the rates that
/// the stream offers, and so are the minimum and the maximum that are reported, between which it lies.
pub proof fn rate_reads_back(view: ControlView, rate: u32, req: Request, data: Seq<u8>, get: Request)
    requires
        view.endpoint_set_response(req, data) == Some(OutResponse::Accepted),
        get.selector() == SAMPLING_FREQ_CONTROL,
        get.index == req.index,
    ensures
        ({
            let set = view.endpoint_set_rate(rate, req, data);
            let min = lowest(view.sample_rates_hz);
            let max = highest(view.sample_rates_hz);
            &&& get.request == GET_CUR ==> view.endpoint_get(set, get) == Some(
                Reply::Accepted(data.take(3)),
            )
            &&& get.request == GET_MIN ==> view.endpoint_get(set, get) == Some(
                Reply::Accepted(le_bytes(min as nat, 3)),
            )
            &&& get.request == GET_MAX ==> view.endpoint_get(set, get) == Some(
                Reply::Accepted(le_bytes(max as nat, 3)),
            )
            &&& min <= set <= max
            &&& view.sample_rates_hz.contains(set)
            &&& view.sample_rates_hz.contains(min)
            &&& view.sample_rates_hz.contains(max)
        }),
{
    u24_bytes_round_trip(data[0], data[1], data[2]);
    assert(seq![data[0], data[1], data[2]] =~= data.take(3));
    lowest_is_least(view.sample_rates_hz);
    highest_is_greatest(view.sample_rates_hz);
}

/// Setting one control leaves every other one as it was: the other controls of the same channel,
/// those of other channels, and the sampling frequency beside the feature unit.
pub proof fn setting_leaves_other_controls(
    view: ControlView,
    state: ControlState,
    req: Request,
    data: Seq<u8>,
    get: Request,
)
    requires
        view.wf(),
        state.wf(),
        get.recipient != req.recipient || (req.recipient == Recipient::Interface && (get.channel()
            != req.channel() || get.selector() != req.selector())),
    ensures
        view.control_in(view.control_out_state(state, req, data), get) == view.control_in(
            state,
            get,
        ),
{
}

/// Whatever the host has sent, every logical channel has its settings, nothing is set but what the
/// host is offered, and the sample rate is one that the stream offers.
pub proof fn state_stays_valid(view: ControlView, events: Seq<HostEvent>)
    requires
        view.wf(),
    ensures
        state_after(view, events).wf(),
        view.allows(state_after(view, events).settings),
        is_offered(view.sample_rates_hz, state_after(view, events).sample_rate_hz),
    decreases events.len(),
{
    if events.len() > 0 {
        state_stays_valid(view, events.drop_last());
        let before = state_after(view, events.drop_last());
        if let HostEvent::Out { req, data } = events.last() {
            if view.sample_rates_hz.len() == 0 && req.recipient == Recipient::Endpoint {
                assert(!view.sample_rates_hz.contains(
                    u24_of(data[0], data[1], data[2]),
                ));
            }
        }
    }
    if view.sample_rates_hz.len() > 0 {
        assert(view.sample_rates_hz[0] == view.initial().sample_rate_hz);
    }
}

/// After a reset nothing is muted, every volume is the highest, and the sample rate is the first
/// that the stream offers, whatever the host had set.
pub proof fn reset_forgets(view: ControlView, events: Seq<HostEvent>)
    ensures
        state_after(view, events.push(HostEvent::Reset)) == view.initial(),
        state_after(view, events.push(HostEvent::Reset)).settings == SettingsView::initial(),
        view.sample_rates_hz.len() > 0 ==> state_after(
            view,
            events.push(HostEvent::Reset),
        ).sample_rate_hz == view.sample_rates_hz[0],
{
}

/// The first rate that the stream offers is the one reported before the host sets any.
pub proof fn first_rate_is_reported_first(view: ControlView)
    requires
        view.sample_rates_hz.len() > 0,
    ensures
        view.control_in(state_after(view, seq![]), rate_request(view, GET_CUR)) == Some(
            Reply::Accepted(le_bytes(view.sample_rates_hz[0] as nat, 3)),
        ),
{
}

/// Whether an event can change the answer to `get`: a reset, or a request to set the same control.
pub open spec fn touches(event: HostEvent, get: Request) -> bool {
    match event {
        HostEvent::Out { req, .. } => req.recipient == get.recipient && (req.recipient
            == Recipient::Interface ==> req.channel() == get.channel() && req.selector()
            == get.selector()),
        HostEvent::Reset => true,
    }
}

/// What the host has set stays set until a reset, or until it sets the same control again.
pub proof fn setting_persists(
    view: ControlView,
    events: Seq<HostEvent>,
    later: Seq<HostEvent>,
    get: Request,
)
    requires
        view.wf(),
        forall|i: int| 0 <= i < later.len() ==> !touches(#[trigger] later[i], get),
    ensures
        view.control_in(state_after(view, events + later), get) == view.control_in(
            state_after(view, events),
            get,
        ),
    decreases later.len(),
{
    if later.len() == 0 {
        assert(events + later =~= events);
    } else {
        let rest = later.drop_last();
        assert forall|i: int| 0 <= i < rest.len() implies !touches(#[trigger] rest[i], get) by {
            assert(rest[i] == later[i]);
        }
        setting_persists(view, events, rest, get);
        assert((events + later).drop_last() =~= events + rest);
        assert((events + later).last() == later[later.len() - 1]);
        state_stays_valid(view, events + rest);
        if let HostEvent::Out { req, data } = later.last() {
            if req.recipient == get.recipient && req.recipient != Recipient::Interface {
                assert(touches(later[later.len() - 1], get));
            } else {
                setting_leaves_other_controls(
                    view,
                    state_after(view, events + rest),
                    req,
                    data,
                    get,
                );
            }
        }
    }
}

/// Whether an event sets the sample rate: a reset, or a request for another one that is accepted.
pub open spec fn sets_rate(view: ControlView, event: HostEvent) -> bool {
    match event {
        HostEvent::Out { req, data } => req.recipient == Recipient::Endpoint
            && view.control_out_response(req, data) == Some(OutResponse::Accepted),
        HostEvent::Reset => true,
    }
}

/// The sample rate stays what it is until an event sets it.
pub proof fn rate_stays_until_set(
    view: ControlView,
    events: Seq<HostEvent>,
    later: Seq<HostEvent>,
)
    requires
        forall|i: int| 0 <= i < later.len() ==> !sets_rate(view, #[trigger] later[i]),
    ensures
        state_after(view, events + later).sample_rate_hz == state_after(
            view,
            events,
        ).sample_rate_hz,
    decreases later.len(),
{
    if later.len() == 0 {
        assert(events + later =~= events);
    } else {
        let rest = later.drop_last();
        assert forall|i: int| 0 <= i < rest.len() implies !sets_rate(
            view,
            #[trigger] rest[i],
        ) by {
            assert(rest[i] == later[i]);
        }
        rate_stays_until_set(view, events, rest);
        assert((events + later).drop_last() =~= events + rest);
        assert(!sets_rate(view, later[later.len() - 1]));
    }
}

/// The sample rate is the one of the last request that was accepted since the last reset; if there
/// was none, it is the first that the stream offers, zero if it offers none.
pub proof fn rate_is_the_last_accepted(
    view: ControlView,
    events: Seq<HostEvent>,
    last: HostEvent,
    later: Seq<HostEvent>,
)
    requires
        forall|i: int| 0 <= i < later.len() ==> !sets_rate(view, #[trigger] later[i]),
        sets_rate(view, last),
    ensures
        state_after(view, events.push(last) + later).sample_rate_hz == match last {
            HostEvent::Out { data, .. } => u24_of(data[0], data[1], data[2]),
            HostEvent::Reset => initial_rate(view.sample_rates_hz),
        },
        state_after(view, later).sample_rate_hz == initial_rate(view.sample_rates_hz),
{
    rate_stays_until_set(view, events.push(last), later);
    assert(events.push(last).drop_last() =~= events);
    rate_stays_until_set(view, seq![], later);
    assert(Seq::<HostEvent>::empty() + later =~= later);
}

/// Every rate that the stream offers can be set, and is then the current one.
pub proof fn offered_rate_can_be_set(view: ControlView, state: ControlState, rate: u32)
    requires
        view.sample_rates_hz.contains(rate),
        rate < 0x1000000,
    ensures
        view.control_out_response(
            rate_request(view, SET_CUR),
            le_bytes(rate as nat, 3),
        ) == Some(OutResponse::Accepted),
        view.control_out_state(
            state,
            rate_request(view, SET_CUR),
            le_bytes(rate as nat, 3),
        ).sample_rate_hz == rate,
{
    u24_round_trip(rate);
}

/// No other rate can be set.
pub proof fn other_rate_is_rejected(view: ControlView, rate: u32)
    requires
        !view.sample_rates_hz.contains(rate),
        rate < 0x1000000,
    ensures
        view.control_out_response(
            rate_request(view, SET_CUR),
            le_bytes(rate as nat, 3),
        ) == Some(OutResponse::Rejected),
{
    u24_round_trip(rate);
}

/// The sample rate lies between the minimum and the maximum that the endpoint reports, whatever
/// the host has sent.
pub proof fn rate_is_in_reported_range(view: ControlView, events: Seq<HostEvent>)
    requires
        view.wf(),
    ensures
        ({
            let rate = state_after(view, events).sample_rate_hz;
            let min = lowest(view.sample_rates_hz);
            let max = highest(view.sample_rates_hz);
            &&& min <= rate <= max
            &&& view.control_in(state_after(view, events), rate_request(view, GET_CUR)) == Some(
                Reply::Accepted(le_bytes(rate as nat, 3)),
            )
            &&& view.control_in(state_after(view, events), rate_request(view, GET_MIN)) == Some(
                Reply::Accepted(le_bytes(min as nat, 3)),
            )
            &&& view.control_in(state_after(view, events), rate_request(view, GET_MAX)) == Some(
                Reply::Accepted(le_bytes(max as nat, 3)),
            )
        }),
{
    state_stays_valid(view, events);
    if view.sample_rates_hz.len() > 0 {
        lowest_is_least(view.sample_rates_hz);
        highest_is_greatest(view.sample_rates_hz);
    }
}

/// A request that is not a class request to the control interface or to the streaming endpoint is
/// left to other handlers.
pub proof fn foreign_request_is_left_alone(
    view: ControlView,
    state: ControlState,
    req: Request,
    data: Seq<u8>,
)
    ensures
        view.control_out_response(req, data) is None <==> !addressed(view, req),
        view.control_in(state, req) is None <==> !addressed(view, req),
{
}

/// Whether a request is addressed to the handler.
pub open spec fn addressed(view: ControlView, req: Request) -> bool {
    &&& req.request_type == RequestType::Class
    &&& (req.recipient == Recipient::Interface && req.target() == view.control_interface_number)
        || (req.recipient == Recipient::Endpoint && req.target() == view.streaming_endpoint_address)
}

/// A control that the host is not offered can be neither set nor read.
pub proof fn missing_control_is_rejected(
    view: ControlView,
    state: ControlState,
    req: Request,
    data: Seq<u8>,
)
    requires
        addressed(view, req),
        req.recipient == Recipient::Interface,
        req.selector() == MUTE_CONTROL ==> !view.controls.mute,
        req.selector() == VOLUME_CONTROL ==> !view.controls.volume,
    ensures
        view.control_out_response(req, data) == Some(OutResponse::Rejected),
        view.control_in(state, req) == Some(Reply::Rejected),
{
}

/// A control that the host is offered can be set on the master channel and on every channel of
/// the stream, and on no other.
pub proof fn offered_control_can_be_set(view: ControlView, channel: u8, data: Seq<u8>)
    requires
        data.len() >= 2,
    ensures
        view.controls.mute ==> (view.control_out_response(
            feature_request(view, SET_CUR, MUTE_CONTROL, channel),
            data,
        ) == Some(OutResponse::Accepted) <==> channel <= view.channels.len()),
        view.controls.volume ==> (view.control_out_response(
            feature_request(view, SET_CUR, VOLUME_CONTROL, channel),
            data,
        ) == Some(OutResponse::Accepted) <==> channel <= view.channels.len()),
{
}

/// Muting the master channel mutes the stream, and so does muting its last audible channel.
pub proof fn muting_mutes_the_stream(view: ControlView, state: ControlState, channel: u8, on: u8)
    requires
        view.wf(),
        state.wf(),
        view.controls.mute,
        channel <= view.channels.len(),
        on != 0,
        channel == 0 || forall|i: int|
            1 <= i <= view.channels.len() && i != channel ==> #[trigger] state.settings.muted[i],
    ensures
        view.control_out_state(
            state,
            feature_request(view, SET_CUR, MUTE_CONTROL, channel),
            seq![on],
        ).settings.stream_muted(view.channels.len()),
{
}

/// A stream whose master channel is not muted is heard once one of its channels is unmuted.
pub proof fn unmuting_a_channel_unmutes_the_stream(
    view: ControlView,
    state: ControlState,
    channel: u8,
)
    requires
        view.wf(),
        state.wf(),
        view.controls.mute,
        1 <= channel <= view.channels.len(),
        !state.settings.muted[0],
    ensures
        !view.control_out_state(
            state,
            feature_request(view, SET_CUR, MUTE_CONTROL, channel),
            seq![0u8],
        ).settings.stream_muted(view.channels.len()),
{
    let settings = view.control_out_state(
        state,
        feature_request(view, SET_CUR, MUTE_CONTROL, channel),
        seq![0u8],
    ).settings;
    assert(!settings.muted[channel as int]);
}

/// A stream whose host is offered no mute control is not muted, and without a volume control a
/// channel that is not muted has the highest volume.
pub proof fn missing_control_keeps_its_default(
    view: ControlView,
    settings: SettingsView,
    channel: int,
)
    requires
        view.wf(),
        settings.wf(),
        view.allows(settings),
        1 <= channel <= view.channels.len(),
    ensures
        !view.controls.mute ==> !settings.stream_muted(view.channels.len()),
        !view.controls.volume ==> settings.channel_volume(channel)
            == if settings.muted[channel] {
            Volume::Muted
        } else {
            Volume::DeciBel8q8(0)
        },
{
    assert(!view.controls.mute ==> !settings.muted[channel]);
}

/// What a channel is heard at depends on its own settings alone: no request about the master
/// channel, about another channel or about the sample rate changes it.
pub proof fn volume_is_the_channels_own(
    view: ControlView,
    state: ControlState,
    req: Request,
    data: Seq<u8>,
    channel: int,
)
    requires
        view.wf(),
        state.wf(),
        1 <= channel <= view.channels.len(),
        req.recipient != Recipient::Interface || req.channel() != channel,
    ensures
        view.control_out_state(state, req, data).settings.channel_volume(channel)
            == state.settings.channel_volume(channel),
{
}

/// To mute a channel and to unmute it again gives back its volume.
pub proof fn unmuting_gives_back_the_volume(
    view: ControlView,
    state: ControlState,
    channel: u8,
    on: u8,
)
    requires
        view.wf(),
        state.wf(),
        view.controls.mute,
        channel <= view.channels.len(),
        on != 0,
    ensures
        ({
            let req = feature_request(view, SET_CUR, MUTE_CONTROL, channel);
            let muted = view.control_out_state(state, req, seq![on]);
            let unmuted = view.control_out_state(muted, req, seq![0u8]);
            &&& muted.settings.channel_volume(channel as int) == Volume::Muted
            &&& unmuted.settings.channel_volume(channel as int) == Volume::DeciBel8q8(
                state.settings.volume[channel as int] as i16,
            )
        }),
{
}

/// The volume that the host sets on a channel is the volume of that channel, unless it is muted.
pub proof fn volume_is_what_was_set(
    view: ControlView,
    state: ControlState,
    channel: u8,
    volume: i16,
)
    requires
        view.wf(),
        state.wf(),
        view.controls.volume,
        channel <= view.channels.len(),
    ensures
        view.control_out_state(
            state,
            feature_request(view, SET_CUR, VOLUME_CONTROL, channel),
            i16_bytes(volume),
        ).settings.channel_volume(channel as int) == if state.settings.muted[channel as int] {
            Volume::Muted
        } else {
            Volume::DeciBel8q8(volume)
        },
{
    i16_round_trip(volume);
}

/// wTotalLength is the length of all class-specific AudioControl descriptors, headers included.
pub proof fn total_length_counts_every_descriptor(function: FunctionView, streaming_interface: u8)
    requires
        function.channels.no_duplicates(),
    ensures
        ({
            let header = function.header_body(streaming_interface);
            header[3] + 256 * header[4] == total_length(
                function.ac_bodies(streaming_interface),
            )
        }),
{
    unique_channels_bounded(function.channels);
    function.total_length_of_units();
    total_length_of_first(function.header_body(streaming_interface), function.unit_bodies());
}

/// A descriptor in front of others adds its own length.
proof fn total_length_of_first(first: Seq<u8>, rest: Seq<Seq<u8>>)
    ensures
        total_length(seq![first] + rest) == first.len() + DESCRIPTOR_HEADER_SIZE
            + total_length(rest),
    decreases rest.len(),
{
    let all = seq![first] + rest;
    if rest.len() == 0 {
        assert(all.drop_last() =~= Seq::empty());
        assert(total_length(all.drop_last()) == 0);
    } else {
        assert(all.drop_last() =~= seq![first] + rest.drop_last());
        total_length_of_first(first, rest.drop_last());
    }
}

/// The length of every descriptor fits in the one byte that its header has for it.
pub proof fn descriptors_fit(function: FunctionView, streaming_interface: u8)
    requires
        function.wf(),
    ensures
        forall|i: int|
            0 <= i < function.ac_bodies(streaming_interface).len()
                ==> (#[trigger] function.ac_bodies(streaming_interface)[i]).len()
                <= MAX_DESCRIPTOR_BODY,
        forall|i: int|
            0 <= i < function.as_bodies().len() ==> (#[trigger] function.as_bodies()[i]).len()
                <= MAX_DESCRIPTOR_BODY,
{
    unique_channels_bounded(function.channels);
}

/// wChannelConfig has the bit of a channel set if and only if the stream has the channel, and no
/// other bit.
pub proof fn channel_config_tells_the_channels(channels: Seq<Channel>, channel: Channel)
    ensures
        channel_bits(channels) & channel.spec_channel_config().spec_bits() != 0
            <==> channels.contains(channel),
        channel_bits(channels) < 0x1000,
    decreases channels.len(),
{
    channel.bit_at_position();
    let bit = channel.spec_channel_config().spec_bits();
    if channels.len() == 0 {
        assert(0u16 & bit == 0) by (bit_vector);
    } else {
        let rest = channels.drop_last();
        let last = channels.last();
        channel_config_tells_the_channels(rest, channel);
        last.bit_at_position();
        let bits = channel_bits(rest);
        let p = channel.position();
        let q = last.position();
        assert(p < 12 && q < 12 && bits < 0x1000 ==> (((bits | 1u16 << q) & (1u16 << p) != 0) <==> (
        bits & (1u16 << p) != 0 || p == q)) && bits | 1u16 << q < 0x1000) by (bit_vector);
        assert(p == q <==> channel == last);
        assert(channels =~= rest.push(last));
        if rest.contains(channel) {
            let k = choose|k: int| 0 <= k < rest.len() && rest[k] == channel;
            assert(channels[k] == channel);
        }
        if channel == last {
            assert(channels[channels.len() - 1] == channel);
        }
        if channels.contains(channel) && channel != last {
            let k = choose|k: int| 0 <= k < channels.len() && channels[k] == channel;
            assert(rest[k] == channel);
        }
    }
}

/// The host finds every offered rate, in order, in the format descriptor.
pub proof fn format_tells_the_rates(function: FunctionView, i: int)
    requires
        function.wf(),
        0 <= i < function.sample_rates_hz.len(),
    ensures
        function.format_body()[5] == function.sample_rates_hz.len(),
        function.format_body().len() == 6 + 3 * function.sample_rates_hz.len(),
        u24_of(
            function.format_body()[6 + 3 * i],
            function.format_body()[6 + 3 * i + 1],
            function.format_body()[6 + 3 * i + 2],
        ) == function.sample_rates_hz[i],
{
    assert(function.sample_rates_hz[i] <= 0xFFFFFF);
    assert((3 * i) / 3 == i && (3 * i + 1) / 3 == i && (3 * i + 2) / 3 == i);
    assert((3 * i) % 3 == 0 && (3 * i + 1) % 3 == 1 && (3 * i + 2) % 3 == 2);
    u24_round_trip(function.sample_rates_hz[i]);
}

/// The units form a chain: the input terminal feeds the feature unit, if there is one, and that
/// feeds the output terminal; otherwise the input terminal does. No two have the same id.
pub proof fn units_form_a_chain(function: FunctionView)
    ensures
        INPUT_UNIT_ID != FEATURE_UNIT_ID,
        FEATURE_UNIT_ID != OUTPUT_UNIT_ID,
        INPUT_UNIT_ID != OUTPUT_UNIT_ID,
        ({
            let units = function.unit_bodies();
            let last = units.len() - 1;
            &&& units.len() == if function.feature_unit is Some { 3int } else { 2int }
            &&& units[0][1] == INPUT_UNIT_ID
            &&& units[last][1] == OUTPUT_UNIT_ID
            &&& units[last][5] == units[last - 1][1]
            &&& function.feature_unit is Some ==> units[1][1] == FEATURE_UNIT_ID && units[1][2]
                == units[0][1]
        }),
{
}

/// A source that asks for no control has no feature unit at all, and one that asks for a control
/// has one.
pub proof fn feature_unit_only_if_asked_for(config: ConfigView)
    ensures
        (exists|i: int|
            0 <= i < config.function().unit_bodies().len()
                && (#[trigger] config.function().unit_bodies()[i])[0] == FEATURE_UNIT)
            <==> config.feature_unit.mute || config.feature_unit.volume,
{
    let units = config.function().unit_bodies();
    if config.feature_unit.mute || config.feature_unit.volume {
        assert(units[1][0] == FEATURE_UNIT);
    } else {
        assert(config.feature_unit == FeatureUnitControls::spec_none());
        assert(units[0][0] != FEATURE_UNIT && units[1][0] != FEATURE_UNIT);
    }
}

/// The bits of a channel in the feature unit descriptor: the master channel first, then the
/// channels of the stream.
pub proof fn feature_unit_tells_the_controls(
    function: FunctionView,
    master: FeatureUnitControls,
    per_channel: FeatureUnitControls,
    channel: int,
)
    requires
        0 <= channel <= function.channels.len(),
    ensures
        ({
            let bits = function.feature_unit_body(master, per_channel)[4 + channel];
            let controls = if channel == 0 {
                master
            } else {
                per_channel
            };
            &&& bits % 2 == 1 <==> controls.mute
            &&& bits / 2 == 1 <==> controls.volume
            &&& bits < 4
        }),
{
}

/// What the descriptors of a source offer on a channel is what its handler accepts there.
pub proof fn source_accepts_what_it_offers(
    config: ConfigView,
    view: ControlView,
    channel: u8,
    data: Seq<u8>,
)
    requires
        view.controls == config.feature_unit,
        view.channels == config.channels,
        config.function().feature_unit is Some,
        channel <= config.channels.len(),
        data.len() >= 2,
    ensures
        ({
            let bits = config.function().unit_bodies()[1][4 + channel];
            &&& bits % 2 == 1 <==> view.control_out_response(
                feature_request(view, SET_CUR, MUTE_CONTROL, channel),
                data,
            ) == Some(OutResponse::Accepted)
            &&& bits / 2 == 1 <==> view.control_out_response(
                feature_request(view, SET_CUR, VOLUME_CONTROL, channel),
                data,
            ) == Some(OutResponse::Accepted)
        }),
{
    feature_unit_tells_the_controls(
        config.function(),
        config.feature_unit,
        config.feature_unit,
        channel as int,
    );
}

/// What the descriptors of a speaker offer on a channel of the stream is what its handler accepts
/// there.
pub proof fn speaker_accepts_what_it_offers(
    resolution: SampleWidth,
    view: ControlView,
    channel: u8,
    data: Seq<u8>,
)
    requires
        view.controls == FeatureUnitControls::spec_all(),
        1 <= channel <= view.channels.len(),
        data.len() >= 2,
    ensures
        ({
            let function = speaker_function(resolution, view.sample_rates_hz, view.channels);
            let bits = function.unit_bodies()[1][4 + channel];
            &&& bits % 2 == 1 <==> view.control_out_response(
                feature_request(view, SET_CUR, MUTE_CONTROL, channel),
                data,
            ) == Some(OutResponse::Accepted)
            &&& bits / 2 == 1 <==> view.control_out_response(
                feature_request(view, SET_CUR, VOLUME_CONTROL, channel),
                data,
            ) == Some(OutResponse::Accepted)
        }),
{
    feature_unit_tells_the_controls(
        speaker_function(resolution, view.sample_rates_hz, view.channels),
        FeatureUnitControls::spec_none(),
        FeatureUnitControls::spec_all(),
        channel as int,
    );
}

/// The stream is linked to the terminal that is the USB stream.
pub proof fn stream_links_to_usb_terminal(function: FunctionView)
    requires
        function.input_terminal == TerminalType::UsbStreaming || function.output_terminal
            == TerminalType::UsbStreaming,
    ensures
        ({
            let units = function.unit_bodies();
            let link = function.general_body()[1];
            exists|i: int|
                0 <= i < units.len() && (#[trigger] units[i])[1] == link && units[i][2] + 256
                    * units[i][3] == TerminalType::UsbStreaming.spec_code()
        }),
{
    let units = function.unit_bodies();
    if function.input_terminal == TerminalType::UsbStreaming {
        assert(units[0][1] == INPUT_UNIT_ID);
    } else {
        assert(units[units.len() - 1][1] == OUTPUT_UNIT_ID);
    }
}

/// The header of the control interface points at the streaming interface, which is added right
/// after the control interface is described.
pub proof fn header_points_at_streaming_interface(function: FunctionView, control_interface: u8)
    requires
        control_interface < 255,
    ensures
        ({
            let calls = interface_calls(function, control_interface);
            let streaming = (control_interface + 1) as u8;
            let next = 4 + function.unit_bodies().len();
            &&& calls[1] == Call::Interface { number: control_interface }
            &&& calls[3] == Call::Descriptor {
                descriptor_type: CS_INTERFACE,
                body: function.header_body(streaming),
            }
            &&& function.header_body(streaming)[6] == streaming
            &&& calls[next as int] == Call::Interface { number: streaming }
        }),
{
}

/// The audio data endpoint is described before the synch endpoint, and points at it.
pub proof fn data_endpoint_points_at_synch_endpoint(
    streaming_endpoint: EndpointInfo,
    feedback_endpoint: EndpointInfo,
    refresh: FeedbackRefresh,
)
    ensures
        ({
            let calls = source_endpoint_calls(
                streaming_endpoint,
                Some((feedback_endpoint, refresh)),
            );
            &&& calls.len() == 3
            &&& calls[0] matches Call::EndpointDescriptor { endpoint, extra_fields, .. }
                && endpoint == streaming_endpoint && extra_fields == seq![
                0x00u8,
                feedback_endpoint.addr,
            ]
            &&& calls[1] matches Call::Descriptor { descriptor_type, .. } && descriptor_type
                == CS_ENDPOINT
            &&& calls[2] matches Call::EndpointDescriptor { endpoint, extra_fields, .. }
                && endpoint == feedback_endpoint && extra_fields == seq![
                refresh.spec_exponent(),
                0x00u8,
            ]
        }),
{
}

/// A packet of a source holds one millisecond of samples at every offered rate, and one sample
/// more, and it is no longer than the fastest rate needs.
pub proof fn packet_holds_a_frame(config: ConfigView, i: int)
    requires
        config.wf(),
        config.packet_bytes() < 0x10000,
        0 <= i < config.sample_rates_hz.len(),
    ensures
        ({
            let size = config.stream_request().max_packet_size;
            let frame = config.frame_bytes();
            &&& 1000 * size >= config.sample_rates_hz[i] * frame + 1000 * frame
            &&& 1000 * (size - 1) < highest(config.sample_rates_hz) * frame + 1000
                * frame
        }),
{
    highest_is_greatest(config.sample_rates_hz);
    let frame = config.frame_bytes() as int;
    let rate = config.sample_rates_hz[i] as int;
    let max = highest(config.sample_rates_hz) as int;
    assert(rate * frame <= max * frame) by (nonlinear_arith)
        requires
            rate <= max,
            frame >= 0,
    ;
}

} // verus!
