//! The control handler: the host's requests to the feature unit and to the streaming endpoint.
use core::task::Waker;
use vstd::prelude::*;

use crate::bytes::{high_byte, i16_from_le, i16_to_le, low_byte, u24_from_le, u24_to_le};
#[allow(unused_imports)]
use crate::bytes::{i16_bytes, i16_of, le_bytes, u24_of};
use crate::class_codes::{
    GET_CUR, GET_MAX, GET_MIN, GET_RES, MUTE_CONTROL, SAMPLING_FREQ_CONTROL, SET_CUR,
    VOLUME_CONTROL,
};
use crate::fixed_vec::{table_from_slice, table_new, MAX_SAMPLE_RATE_COUNT};
use crate::function::{FeatureUnitControls, FEATURE_UNIT_ID};
use crate::request::{InResponse, OutResponse, Recipient, Request, RequestType};
#[allow(unused_imports)]
use crate::request::{buffer_after, reply_len, reply_of, Reply};
use crate::settings::{AudioSettings, MAX_VOLUME_DB, MIN_VOLUME_DB, VOLUME_STEPS_PER_DB};
#[allow(unused_imports)]
use crate::settings::SettingsView;
use crate::sync::{share, Publisher, Reader, SharedControl};
#[allow(unused_imports)]
use crate::sync::{
    is_offered, polled, published, raised_since, History, Limits, PollStep, Step,
};
use crate::types::{Channel, Volume, MAX_AUDIO_CHANNEL_INDEX};

verus! {

/// What the host has set.
#[verifier::ext_equal]
pub struct ControlState {
    pub settings: SettingsView,
    pub sample_rate_hz: u32,
}

impl ControlState {
    /// Every logical channel has its settings.
    pub open spec fn wf(self) -> bool {
        self.settings.wf()
    }
}

/// What a control handler answers for.
#[verifier::ext_equal]
pub struct ControlView {
    pub control_interface_number: u8,
    pub streaming_endpoint_address: u8,
    pub controls: FeatureUnitControls,
    /// The channels of the stream, in stream order; logical channel `i + 1` is `channels[i]`.
    pub channels: Seq<Channel>,
    /// The sample rates that the stream offers.
    pub sample_rates_hz: Seq<u32>,
}

/// The lowest of `rates`, zero if there is none.
pub open spec fn lowest(rates: Seq<u32>) -> u32
    decreases rates.len(),
{
    if rates.len() == 0 {
        0
    } else if rates.len() == 1 || rates.last() < lowest(rates.drop_last()) {
        rates.last()
    } else {
        lowest(rates.drop_last())
    }
}

/// The highest of `rates`, zero if there is none.
pub open spec fn highest(rates: Seq<u32>) -> u32
    decreases rates.len(),
{
    if rates.len() == 0 {
        0
    } else if rates.len() == 1 || rates.last() > highest(rates.drop_last()) {
        rates.last()
    } else {
        highest(rates.drop_last())
    }
}

/// The lowest of some rates is one of them, and no other is lower.
pub proof fn lowest_is_least(rates: Seq<u32>)
    requires
        rates.len() > 0,
    ensures
        rates.contains(lowest(rates)),
        forall|i: int| 0 <= i < rates.len() ==> lowest(rates) <= #[trigger] rates[i],
    decreases rates.len(),
{
    let rest = rates.drop_last();
    assert(rates[rates.len() - 1] == rates.last());
    if rates.len() > 1 {
        lowest_is_least(rest);
        let k = choose|k: int| 0 <= k < rest.len() && rest[k] == lowest(rest);
        assert(rates[k] == rest[k]);
        assert forall|i: int| 0 <= i < rates.len() implies lowest(rates)
            <= #[trigger] rates[i] by {
            if i < rest.len() {
                assert(rates[i] == rest[i]);
            }
        }
    }
}

/// The highest of some rates is one of them, and no other is higher.
pub proof fn highest_is_greatest(rates: Seq<u32>)
    requires
        rates.len() > 0,
    ensures
        rates.contains(highest(rates)),
        forall|i: int|
            0 <= i < rates.len() ==> #[trigger] rates[i] <= highest(rates),
    decreases rates.len(),
{
    let rest = rates.drop_last();
    assert(rates[rates.len() - 1] == rates.last());
    if rates.len() > 1 {
        highest_is_greatest(rest);
        let k = choose|k: int| 0 <= k < rest.len() && rest[k] == highest(rest);
        assert(rates[k] == rest[k]);
        assert forall|i: int| 0 <= i < rates.len() implies #[trigger] rates[i]
            <= highest(rates) by {
            if i < rest.len() {
                assert(rates[i] == rest[i]);
            }
        }
    }
}

/// The sample rate before the host has set any: the first that is offered, zero if there is none.
pub open spec fn initial_rate(rates: Seq<u32>) -> u32 {
    if rates.len() == 0 {
        0
    } else {
        rates[0]
    }
}

/// How the handler tells the monitor that something has changed: first the flag, then the waker.
pub open spec fn notice() -> Seq<Step> {
    seq![Step::Raise, Step::Wake]
}

/// What the handler has done to the cells before the host has set anything: the initial settings and
/// the first sample rate are stored, and nobody is told of it.
pub open spec fn initial_steps() -> Seq<Step> {
    seq![Step::StoreSettings, Step::StoreRate]
}

/// What a reset does to the cells.
pub open spec fn reset_steps() -> Seq<Step> {
    seq![Step::StoreSettings, Step::StoreRate] + notice()
}

/// Whether the cells hold `state` from behind step `from` up to step `to`.
pub open spec fn shows(history: History, from: nat, to: nat, state: ControlState) -> bool {
    forall|n: nat| from < n <= to ==> #[trigger] history.states[n] == state
}

impl ControlView {
    /// There is a logical channel for every channel.
    pub open spec fn wf(self) -> bool {
        &&& self.channels.len() <= MAX_AUDIO_CHANNEL_INDEX
        &&& self.sample_rates_hz.len() <= MAX_SAMPLE_RATE_COUNT
    }

    /// What can be set of the stream.
    pub open spec fn limits(self) -> Limits {
        Limits { controls: self.controls, channel_count: self.channels.len() }
    }

    /// Whether nothing is set but what the host is offered.
    pub open spec fn allows(self, settings: SettingsView) -> bool {
        settings.within(self.controls, self.channels.len())
    }

    /// What holds before the host has set anything, and after a reset.
    pub open spec fn initial(self) -> ControlState {
        ControlState {
            settings: SettingsView::initial(),
            sample_rate_hz: initial_rate(self.sample_rates_hz),
        }
    }

    /// Whether the channel of a request is the master channel or one of the stream's channels.
    pub open spec fn has_channel(self, channel: u8) -> bool {
        channel <= self.channels.len()
    }

    /// The answer to a request to set a control of the control interface.
    pub open spec fn interface_set_response(self, req: Request, data: Seq<u8>) -> Option<
        OutResponse,
    > {
        if req.target() != self.control_interface_number {
            None
        } else if req.entity() == FEATURE_UNIT_ID && self.has_channel(req.channel()) && req.request
            == SET_CUR && ((req.selector() == MUTE_CONTROL && self.controls.mute && data.len() >= 1)
            || (req.selector() == VOLUME_CONTROL && self.controls.volume && data.len() >= 2)) {
            Some(OutResponse::Accepted)
        } else {
            Some(OutResponse::Rejected)
        }
    }

    /// The settings after a request to set a control of the control interface.
    pub open spec fn interface_set_settings(
        self,
        settings: SettingsView,
        req: Request,
        data: Seq<u8>,
    ) -> SettingsView {
        if self.interface_set_response(req, data) != Some(OutResponse::Accepted) {
            settings
        } else if req.selector() == MUTE_CONTROL {
            SettingsView {
                muted: settings.muted.update(req.channel() as int, data[0] != 0),
                ..settings
            }
        } else {
            SettingsView {
                volume: settings.volume.update(
                    req.channel() as int,
                    i16_of(data[0], data[1]) as int,
                ),
                ..settings
            }
        }
    }

    /// What a request to set a control of the control interface does to the cells: an accepted
    /// setting is stored, even where it is the one already there, and then told of.
    pub open spec fn interface_set_steps(self, req: Request, data: Seq<u8>) -> Seq<Step> {
        if self.interface_set_response(req, data) == Some(OutResponse::Accepted) {
            seq![Step::StoreSettings] + notice()
        } else {
            Seq::empty()
        }
    }

    /// The answer to a request to set a control of the streaming endpoint.
    pub open spec fn endpoint_set_response(self, req: Request, data: Seq<u8>) -> Option<
        OutResponse,
    > {
        if req.target() != self.streaming_endpoint_address {
            None
        } else if req.selector() == SAMPLING_FREQ_CONTROL && data.len() >= 3
            && self.sample_rates_hz.contains(u24_of(data[0], data[1], data[2])) {
            Some(OutResponse::Accepted)
        } else {
            Some(OutResponse::Rejected)
        }
    }

    /// The sample rate after a request to set a control of the streaming endpoint.
    pub open spec fn endpoint_set_rate(self, rate: u32, req: Request, data: Seq<u8>) -> u32 {
        if self.endpoint_set_response(req, data) == Some(OutResponse::Accepted) {
            u24_of(data[0], data[1], data[2])
        } else {
            rate
        }
    }

    /// What a request to set a control of the streaming endpoint does to the cells: an accepted
    /// rate is stored, even where it is the one already there, and then told of.
    pub open spec fn endpoint_set_steps(self, req: Request, data: Seq<u8>) -> Seq<Step> {
        if self.endpoint_set_response(req, data) == Some(OutResponse::Accepted) {
            seq![Step::StoreRate] + notice()
        } else {
            Seq::empty()
        }
    }

    /// The answer to a request for a control of the control interface.
    pub open spec fn interface_get(self, settings: SettingsView, req: Request) -> Option<Reply> {
        if req.target() != self.control_interface_number {
            None
        } else if req.entity() != FEATURE_UNIT_ID || !self.has_channel(req.channel()) {
            Some(Reply::Rejected)
        } else if req.selector() == MUTE_CONTROL && self.controls.mute && req.request == GET_CUR {
            Some(
                Reply::Accepted(
                    seq![if settings.muted[req.channel() as int] { 1u8 } else { 0u8 }],
                ),
            )
        } else if req.selector() == VOLUME_CONTROL && self.controls.volume {
            if req.request == GET_CUR {
                Some(Reply::Accepted(i16_bytes(settings.volume[req.channel() as int] as i16)))
            } else if req.request == GET_MIN {
                Some(Reply::Accepted(i16_bytes((MIN_VOLUME_DB * VOLUME_STEPS_PER_DB) as i16)))
            } else if req.request == GET_MAX {
                Some(Reply::Accepted(i16_bytes((MAX_VOLUME_DB * VOLUME_STEPS_PER_DB) as i16)))
            } else if req.request == GET_RES {
                Some(Reply::Accepted(i16_bytes(VOLUME_STEPS_PER_DB)))
            } else {
                Some(Reply::Rejected)
            }
        } else {
            Some(Reply::Rejected)
        }
    }

    /// The answer to a request for a control of the streaming endpoint.
    pub open spec fn endpoint_get(self, rate: u32, req: Request) -> Option<Reply> {
        if req.target() != self.streaming_endpoint_address {
            None
        } else if req.selector() != SAMPLING_FREQ_CONTROL {
            Some(Reply::Rejected)
        } else if req.request == GET_CUR {
            Some(Reply::Accepted(le_bytes(rate as nat, 3)))
        } else if req.request == GET_MIN {
            Some(Reply::Accepted(le_bytes(lowest(self.sample_rates_hz) as nat, 3)))
        } else if req.request == GET_MAX {
            Some(Reply::Accepted(le_bytes(highest(self.sample_rates_hz) as nat, 3)))
        } else if req.request == GET_RES {
            Some(Reply::Accepted(le_bytes(1, 3)))
        } else {
            Some(Reply::Rejected)
        }
    }

    /// The answer to a request that carries data to the device.
    pub open spec fn control_out_response(self, req: Request, data: Seq<u8>) -> Option<
        OutResponse,
    > {
        if req.request_type != RequestType::Class {
            None
        } else if req.recipient == Recipient::Interface {
            self.interface_set_response(req, data)
        } else if req.recipient == Recipient::Endpoint {
            self.endpoint_set_response(req, data)
        } else {
            None
        }
    }

    /// What the host has set after a request that carries data to the device.
    pub open spec fn control_out_state(
        self,
        state: ControlState,
        req: Request,
        data: Seq<u8>,
    ) -> ControlState {
        if req.request_type != RequestType::Class {
            state
        } else if req.recipient == Recipient::Interface {
            ControlState {
                settings: self.interface_set_settings(state.settings, req, data),
                ..state
            }
        } else if req.recipient == Recipient::Endpoint {
            ControlState {
                sample_rate_hz: self.endpoint_set_rate(state.sample_rate_hz, req, data),
                ..state
            }
        } else {
            state
        }
    }

    /// What a request that carries data to the device does to the cells.
    pub open spec fn control_out_steps(self, req: Request, data: Seq<u8>) -> Seq<Step> {
        if req.request_type != RequestType::Class {
            Seq::empty()
        } else if req.recipient == Recipient::Interface {
            self.interface_set_steps(req, data)
        } else if req.recipient == Recipient::Endpoint {
            self.endpoint_set_steps(req, data)
        } else {
            Seq::empty()
        }
    }

    /// The answer to a request for data from the device.
    pub open spec fn control_in(self, state: ControlState, req: Request) -> Option<Reply> {
        if req.request_type != RequestType::Class {
            None
        } else if req.recipient == Recipient::Interface {
            self.interface_get(state.settings, req)
        } else if req.recipient == Recipient::Endpoint {
            self.endpoint_get(state.sample_rate_hz, req)
        } else {
            None
        }
    }
}

/// Internal state for a USB Audio Class 1.0 class.
pub struct State<'d> {
    control: Option<Control<'d>>,
    shared: SharedControl,
}

/// The control handler of a class.
///
/// It keeps what the host has set in the cells that the monitor reads, and nowhere else.
pub struct Control<'d> {
    control_interface_number: u8,
    streaming_endpoint_address: u8,
    controls: FeatureUnitControls,
    /// Channel assignments.
    channels: &'d [Channel],
    shared: &'d SharedControl,
    publisher: Publisher<'d>,
}

/// Control status change monitor
///
/// Poll [`ControlMonitor::poll_changed`] for being notified of configuration changes. Afterwards,
/// the updated configuration settings can be read with [`ControlMonitor::muted`],
/// [`ControlMonitor::volume`] and [`ControlMonitor::sample_rate_hz`].
pub struct ControlMonitor<'d> {
    /// Channel assignments.
    channels: &'d [Channel],
    shared: &'d SharedControl,
    reader: Reader<'d>,
}

impl<'d> View for Control<'d> {
    type V = ControlView;

    closed spec fn view(&self) -> ControlView {
        ControlView {
            control_interface_number: self.control_interface_number,
            streaming_endpoint_address: self.streaming_endpoint_address,
            controls: self.controls,
            channels: self.channels@,
            sample_rates_hz: self.shared.rates(),
        }
    }
}

impl<'d> Control<'d> {
    /// What the host has set: the settings and the sample rate in the cells.
    pub closed spec fn state(&self) -> ControlState {
        published(self.publisher).state
    }

    /// All that the handler has done to the cells, in order.
    pub closed spec fn steps(&self) -> Seq<Step> {
        published(self.publisher).steps
    }

    /// All that becomes of the cells, until the handler is gone.
    pub closed spec fn history(&self) -> History {
        published(self.publisher).history
    }

    /// The cells that the handler stores in.
    pub closed spec fn shared(&self) -> SharedControl {
        published(self.publisher).shared
    }

    /// The cells that the handler reads are those that it stores in.
    pub closed spec fn linked(&self) -> bool {
        *self.shared == published(self.publisher).shared
    }

    /// The history has what the host has set, and all that the handler has done.
    pub open spec fn on_record(&self) -> bool {
        &&& self.history().states[self.steps().len()] == self.state()
        &&& forall|i: nat|
            i < self.steps().len() ==> #[trigger] self.history().log[i] == self.steps()[i as int]
    }

    /// There is a logical channel, with its settings, for every channel; nothing is set but what
    /// the host is offered; the cells are made for the stream; and the history is true so far.
    pub open spec fn wf(&self) -> bool {
        &&& self@.wf()
        &&& self.state().wf()
        &&& self@.allows(self.state().settings)
        &&& self.linked()
        &&& self.shared().wf()
        &&& self.shared().limits() == self@.limits()
        &&& self.on_record()
    }

    /// Tell the monitor that something has changed.
    fn changed(&mut self)
        requires
            old(self).on_record(),
        ensures
            final(self)@ == old(self)@,
            final(self).state() == old(self).state(),
            final(self).steps() == old(self).steps() + notice(),
            final(self).history() == old(self).history(),
            shows(
                final(self).history(),
                old(self).steps().len(),
                final(self).steps().len(),
                final(self).state(),
            ),
            final(self).shared() == old(self).shared(),
            final(self).linked() == old(self).linked(),
            final(self).on_record(),
    {
        self.publisher.raise();
        self.publisher.wake();
        assert(self.steps() =~= old(self).steps() + notice());
    }

    /// Whether `channel_index` is the master or one of the stream's channels.
    fn has_channel(&self, channel_index: u8) -> (has: bool)
        ensures
            has == self@.has_channel(channel_index),
    {
        channel_index as usize <= self.channels.len()
    }

    /// Handle a request to set a control of the control interface.
    fn interface_set_request(&mut self, req: Request, data: &[u8]) -> (response: Option<
        OutResponse,
    >)
        requires
            old(self).wf(),
        ensures
            response == old(self)@.interface_set_response(req, data@),
            final(self)@ == old(self)@,
            final(self).state() == (ControlState {
                settings: old(self)@.interface_set_settings(
                    old(self).state().settings,
                    req,
                    data@,
                ),
                ..old(self).state()
            }),
            final(self).steps() == old(self).steps() + old(self)@.interface_set_steps(req, data@),
            final(self).history() == old(self).history(),
            shows(
                final(self).history(),
                old(self).steps().len(),
                final(self).steps().len(),
                final(self).state(),
            ),
            final(self).shared() == old(self).shared(),
            final(self).wf(),
    {
        let interface_number: u8 = low_byte(req.index);
        let entity_index: u8 = high_byte(req.index);
        let channel_index: u8 = low_byte(req.value);
        let control_unit: u8 = high_byte(req.value);

        if interface_number != self.control_interface_number {
            return None;
        }
        if entity_index != FEATURE_UNIT_ID || !self.has_channel(channel_index) {
            return Some(OutResponse::Rejected);
        }
        if req.request != SET_CUR {
            return Some(OutResponse::Rejected);
        }
        let mut audio_settings = self.shared.settings_at(&self.publisher);
        if control_unit == MUTE_CONTROL && self.controls.mute && data.len() >= 1 {
            audio_settings.set_muted(channel_index as usize, data[0] != 0);
        } else if control_unit == VOLUME_CONTROL && self.controls.volume && data.len() >= 2 {
            let volume: i16 = i16_from_le(data[0], data[1]);
            audio_settings.set_volume_8q8(channel_index as usize, volume);
        } else {
            return Some(OutResponse::Rejected);
        }
        // Store updated settings
        self.publisher.store_settings(audio_settings);
        proof {
            audio_settings.view_wf();
        }

        self.changed();
        assert(self.steps() =~= old(self).steps() + old(self)@.interface_set_steps(req, data@));

        Some(OutResponse::Accepted)
    }

    /// Handle a request to set a control of the streaming endpoint.
    fn endpoint_set_request(&mut self, req: Request, data: &[u8]) -> (response: Option<OutResponse>)
        requires
            old(self).wf(),
        ensures
            response == old(self)@.endpoint_set_response(req, data@),
            final(self)@ == old(self)@,
            final(self).state() == (ControlState {
                sample_rate_hz: old(self)@.endpoint_set_rate(
                    old(self).state().sample_rate_hz,
                    req,
                    data@,
                ),
                ..old(self).state()
            }),
            final(self).steps() == old(self).steps() + old(self)@.endpoint_set_steps(req, data@),
            final(self).history() == old(self).history(),
            shows(
                final(self).history(),
                old(self).steps().len(),
                final(self).steps().len(),
                final(self).state(),
            ),
            final(self).shared() == old(self).shared(),
            final(self).wf(),
    {
        let control_selector: u8 = high_byte(req.value);
        let endpoint_address: u8 = low_byte(req.index);

        if endpoint_address != self.streaming_endpoint_address {
            return None;
        }
        if control_selector != SAMPLING_FREQ_CONTROL || data.len() < 3 {
            return Some(OutResponse::Rejected);
        }
        let sample_rate_hz: u32 = u24_from_le(data[0], data[1], data[2]);
        if !contains(self.shared.sample_rates_hz(), sample_rate_hz) {
            return Some(OutResponse::Rejected);
        }
        self.publisher.store_rate(sample_rate_hz);

        self.changed();
        assert(self.steps() =~= old(self).steps() + old(self)@.endpoint_set_steps(req, data@));

        Some(OutResponse::Accepted)
    }

    /// Answer a request for a control of the control interface.
    fn interface_get_request<'r>(&self, req: Request, buf: &'r mut [u8]) -> (response: Option<
        InResponse<'r>,
    >)
        requires
            self.wf(),
            reply_len(self@.interface_get(self.state().settings, req)) <= old(buf)@.len(),
        ensures
            reply_of(response) == self@.interface_get(self.state().settings, req),
            final(buf)@ == buffer_after(
                old(buf)@,
                self@.interface_get(self.state().settings, req),
            ),
    {
        let interface_number: u8 = low_byte(req.index);
        let entity_index: u8 = high_byte(req.index);
        let channel_index: u8 = low_byte(req.value);
        let control_unit: u8 = high_byte(req.value);

        if interface_number != self.control_interface_number {
            return None;
        }
        if entity_index != FEATURE_UNIT_ID || !self.has_channel(channel_index) {
            // Only this function unit can be handled at the moment.
            return Some(InResponse::Rejected);
        }
        let audio_settings = self.shared.settings_at(&self.publisher);
        let volume: i16 = if control_unit == MUTE_CONTROL && self.controls.mute && req.request
            == GET_CUR {
            let muted = audio_settings.channel_muted(channel_index as usize);
            let data: [u8; 1] = [if muted { 1 } else { 0 }];
            return Some(InResponse::Accepted(write_reply(buf, &data)));
        } else if control_unit == VOLUME_CONTROL && self.controls.volume {
            if req.request == GET_CUR {
                audio_settings.volume_8q8(channel_index as usize)
            } else if req.request == GET_MIN {
                MIN_VOLUME_DB * VOLUME_STEPS_PER_DB
            } else if req.request == GET_MAX {
                MAX_VOLUME_DB * VOLUME_STEPS_PER_DB
            } else if req.request == GET_RES {
                VOLUME_STEPS_PER_DB
            } else {
                return Some(InResponse::Rejected);
            }
        } else {
            return Some(InResponse::Rejected);
        };
        let data: [u8; 2] = i16_to_le(volume);
        Some(InResponse::Accepted(write_reply(buf, &data)))
    }

    /// Answer a request for a control of the streaming endpoint.
    fn endpoint_get_request<'r>(&self, req: Request, buf: &'r mut [u8]) -> (response: Option<
        InResponse<'r>,
    >)
        requires
            self.wf(),
            reply_len(self@.endpoint_get(self.state().sample_rate_hz, req)) <= old(buf)@.len(),
        ensures
            reply_of(response) == self@.endpoint_get(self.state().sample_rate_hz, req),
            final(buf)@ == buffer_after(
                old(buf)@,
                self@.endpoint_get(self.state().sample_rate_hz, req),
            ),
    {
        let control_selector: u8 = high_byte(req.value);
        let endpoint_address: u8 = low_byte(req.index);

        if endpoint_address != self.streaming_endpoint_address {
            return None;
        }
        if control_selector != SAMPLING_FREQ_CONTROL {
            return Some(InResponse::Rejected);
        }
        let rates = self.shared.sample_rates_hz();
        let sample_rate_hz: u32 = if req.request == GET_CUR {
            self.shared.rate_at(&self.publisher)
        } else if req.request == GET_MIN {
            min_rate(rates)
        } else if req.request == GET_MAX {
            max_rate(rates)
        } else if req.request == GET_RES {
            // The rates are discrete; there is no step.
            1
        } else {
            return Some(InResponse::Rejected);
        };
        let data: [u8; 3] = u24_to_le(sample_rate_hz);
        Some(InResponse::Accepted(write_reply(buf, &data)))
    }

    /// Handle a control set request.
    pub fn control_out(&mut self, req: Request, data: &[u8]) -> (response: Option<OutResponse>)
        requires
            old(self).wf(),
        ensures
            response == old(self)@.control_out_response(req, data@),
            final(self)@ == old(self)@,
            final(self).state() == old(self)@.control_out_state(old(self).state(), req, data@),
            final(self).steps() == old(self).steps() + old(self)@.control_out_steps(req, data@),
            final(self).history() == old(self).history(),
            shows(
                final(self).history(),
                old(self).steps().len(),
                final(self).steps().len(),
                final(self).state(),
            ),
            final(self).shared() == old(self).shared(),
            final(self).wf(),
    {
        match req.request_type {
            RequestType::Class => match req.recipient {
                Recipient::Interface => self.interface_set_request(req, data),
                Recipient::Endpoint => self.endpoint_set_request(req, data),
                _ => None,
            },
            _ => None,
        }
    }

    /// Handle a control get request.
    pub fn control_in<'r>(&self, req: Request, buf: &'r mut [u8]) -> (response: Option<
        InResponse<'r>,
    >)
        requires
            self.wf(),
            reply_len(self@.control_in(self.state(), req)) <= old(buf)@.len(),
        ensures
            reply_of(response) == self@.control_in(self.state(), req),
            final(buf)@ == buffer_after(old(buf)@, self@.control_in(self.state(), req)),
    {
        match req.request_type {
            RequestType::Class => match req.recipient {
                Recipient::Interface => self.interface_get_request(req, buf),
                Recipient::Endpoint => self.endpoint_get_request(req, buf),
                _ => None,
            },
            _ => None,
        }
    }

    /// Called after a USB reset after the bus reset sequence is complete: forget what the host has
    /// set.
    pub fn reset(&mut self)
        requires
            old(self).wf(),
        ensures
            final(self)@ == old(self)@,
            final(self).state() == old(self)@.initial(),
            final(self).steps() == old(self).steps() + reset_steps(),
            final(self).history() == old(self).history(),
            final(self).history().states[old(self).steps().len() + 1] == (ControlState {
                settings: final(self).state().settings,
                ..old(self).state()
            }),
            shows(
                final(self).history(),
                old(self).steps().len() + 1,
                final(self).steps().len(),
                final(self).state(),
            ),
            final(self).shared() == old(self).shared(),
            final(self).wf(),
    {
        self.publisher.store_settings(AudioSettings::default());
        self.publisher.store_rate(first_rate(self.shared.sample_rates_hz()));

        self.changed();
        assert(self.steps() =~= old(self).steps() + reset_steps());
    }
}

impl<'d> Default for State<'d> {
    fn default() -> (state: Self)
        ensures
            !state.registered(),
            state.sample_rates_hz() == Seq::<u32>::empty(),
    {
        Self::new()
    }
}

impl<'d> State<'d> {
    /// Whether there is a control handler.
    pub closed spec fn registered(&self) -> bool {
        self.control is Some
    }

    /// The sample rates that the stream offers.
    pub closed spec fn sample_rates_hz(&self) -> Seq<u32> {
        self.shared.rates()
    }

    /// Create a new `State`, with nothing registered.
    pub fn new() -> (state: Self)
        ensures
            !state.registered(),
            state.sample_rates_hz() == Seq::<u32>::empty(),
    {
        State {
            control: None,
            shared: SharedControl::new(table_new(), 0, FeatureUnitControls::none(), 0),
        }
    }

    /// Wire the state up: what the host may set, and where. Returns the handler, to be registered
    /// with the USB device, and the monitor that a class hands back.
    pub fn register(
        &'d mut self,
        channels: &'d [Channel],
        sample_rates_hz: &[u32],
        controls: FeatureUnitControls,
        control_interface: u8,
        streaming_endpoint_address: u8,
    ) -> (registered: (&'d mut Control<'d>, ControlMonitor<'d>))
        requires
            channels@.len() <= MAX_AUDIO_CHANNEL_INDEX,
            sample_rates_hz@.len() <= MAX_SAMPLE_RATE_COUNT,
        ensures
            registered.0@ == (ControlView {
                control_interface_number: control_interface,
                streaming_endpoint_address,
                controls,
                channels: channels@,
                sample_rates_hz: sample_rates_hz@,
            }),
            registered.0.state() == registered.0@.initial(),
            registered.0.steps() == initial_steps(),
            registered.0.wf(),
            registered.1.channels() == channels@,
            registered.1.sample_rates_hz() == sample_rates_hz@,
            registered.1.shared() == registered.0.shared(),
            registered.1.history() == registered.0.history(),
            registered.1.polls() == seq![PollStep::Clear],
            registered.1.taken() == initial_steps().len(),
            registered.1.wf(),
    {
        let sample_rate_hz: u32 = first_rate(sample_rates_hz);
        let table = table_from_slice(sample_rates_hz).unwrap();
        self.shared = SharedControl::new(table, sample_rate_hz, controls, channels.len());
        let (mut publisher, mut reader, shared) = share(&mut self.shared);
        publisher.store_settings(AudioSettings::default());
        publisher.store_rate(sample_rate_hz);
        reader.clear_at(&publisher);
        assert(published(publisher).steps =~= initial_steps());

        self.control = Some(
            Control {
                control_interface_number: control_interface,
                streaming_endpoint_address,
                controls,
                channels,
                shared,
                publisher,
            },
        );
        (self.control.as_mut().unwrap(), ControlMonitor { channels, shared, reader })
    }
}

/// Whether `logical` is the logical channel of the first occurrence of `channel`. The logical
/// channels start at one (zero is the master channel).
pub open spec fn is_logical_channel(channels: Seq<Channel>, channel: Channel, logical: int) -> bool {
    &&& 1 <= logical <= channels.len()
    &&& channels[logical - 1] == channel
    &&& forall|i: int| 0 <= i < logical - 1 ==> channels[i] != channel
}

/// The logical channel of an audio channel that the stream has.
pub open spec fn logical_channel(channels: Seq<Channel>, channel: Channel) -> int {
    choose|logical: int| is_logical_channel(channels, channel, logical)
}

/// An audio channel has one logical channel.
pub proof fn logical_channel_is_unique(channels: Seq<Channel>, channel: Channel, logical: int)
    requires
        is_logical_channel(channels, channel, logical),
    ensures
        logical == logical_channel(channels, channel),
{
    let other = logical_channel(channels, channel);
    assert(is_logical_channel(channels, channel, other));
    if logical < other {
        assert(channels[logical - 1] != channel);
    } else if other < logical {
        assert(channels[other - 1] != channel);
    }
}

/// What a poll does: it looks at the flag, and clears it if it is set. Otherwise it registers its
/// waker, and looks again: a change that came before the waker was there is not missed. `late` says
/// that it was found then.
pub open spec fn poll_steps(ready: bool, late: bool, waker: Waker) -> Seq<PollStep> {
    if ready && !late {
        seq![PollStep::Found(true), PollStep::Clear]
    } else if ready {
        seq![
            PollStep::Found(false),
            PollStep::Register(waker),
            PollStep::Found(true),
            PollStep::Clear,
        ]
    } else {
        seq![PollStep::Found(false), PollStep::Register(waker), PollStep::Found(false)]
    }
}

impl<'d> ControlMonitor<'d> {
    /// The channels of the stream.
    pub closed spec fn channels(&self) -> Seq<Channel> {
        self.channels@
    }

    /// The sample rates that the stream offers.
    pub open spec fn sample_rates_hz(&self) -> Seq<u32> {
        self.shared().rates()
    }

    /// The cells that the monitor reads.
    pub closed spec fn shared(&self) -> SharedControl {
        *self.shared
    }

    /// All that the monitor has done to the flag and the waker, in order.
    pub closed spec fn polls(&self) -> Seq<PollStep> {
        polled(self.reader).steps
    }

    /// So many steps of the handler came before the monitor last took notice of a change.
    pub closed spec fn taken(&self) -> nat {
        polled(self.reader).taken
    }

    /// All that becomes of the cells, until the handler is gone.
    pub closed spec fn history(&self) -> History {
        polled(self.reader).history
    }

    /// Whether the monitor can read what the cells hold after `k` steps of the handler: only what is
    /// not older than the notice that it took last, and nothing but what the host is offered.
    pub open spec fn can_read(&self, k: nat) -> bool {
        &&& self.taken() <= k
        &&& self.history().states[k].settings.wf()
        &&& self.shared().allows(self.history().states[k].settings)
    }

    /// The cells that the monitor polls are those that it reads.
    pub closed spec fn linked(&self) -> bool {
        *self.shared == polled(self.reader).shared
    }

    /// There is a logical channel for every channel, and the cells are made for the stream.
    pub open spec fn wf(&self) -> bool {
        &&& self.channels().len() <= MAX_AUDIO_CHANNEL_INDEX
        &&& self.linked()
        &&& self.shared().limits().channel_count == self.channels().len()
    }

    /// What the monitor says of a channel where these are the settings.
    pub open spec fn volume_in(&self, settings: SettingsView, channel: Channel) -> Option<Volume> {
        if self.channels().contains(channel) {
            Some(settings.channel_volume(logical_channel(self.channels(), channel)))
        } else {
            None
        }
    }

    /// The logical channel of an audio channel, if the stream has it.
    pub fn get_logical_channel(&self, search_channel: Channel) -> (logical: Option<usize>)
        ensures
            logical is Some <==> self.channels().contains(search_channel),
            logical matches Some(n) ==> is_logical_channel(
                self.channels(),
                search_channel,
                n as int,
            ),
    {
        let channels = self.channels;
        let mut index: usize = 0;
        while index < channels.len()
            invariant
                index <= channels@.len(),
                forall|i: int| 0 <= i < index ==> channels@[i] != search_channel,
                channels@ == self.channels(),
            decreases channels@.len() - index,
        {
            if channels[index] == search_channel {
                // The logical channels start at one (zero is the master channel).
                return Some(index + 1);
            }
            index += 1;
        }
        None
    }

    /// Whether the host has muted the stream: the master channel, or every
    /// audio channel. A stream that honours it plays or sends silence.
    ///
    /// It goes by the latest settings that the monitor has taken notice of, or by later ones: the
    /// handler may store others at any time, from another execution context. See [`ControlMonitor::muted_at`].
    pub fn muted(&self) -> (muted: bool)
        requires
            self.wf(),
        ensures
            exists|k: nat| #[trigger]
                self.can_read(k) && muted == self.history().states[k].settings.stream_muted(
                    self.channels().len(),
                ),
    {
        let settings = self.reader.settings();
        proof {
            settings.view_wf();
            let k = choose|k: nat|
                self.taken() <= k && settings@ == (#[trigger] self.history().states[k]).settings;
            assert(self.can_read(k));
        }
        settings.stream_muted(self.channels.len())
    }

    /// Whether the host has muted the stream, while the handler holds still.
    pub fn muted_at(&self, control: &Control<'_>) -> (muted: bool)
        requires
            self.wf(),
            control.shared() == self.shared(),
        ensures
            muted == control.state().settings.stream_muted(self.channels().len()),
    {
        self.shared.settings_at(&control.publisher).stream_muted(self.channels.len())
    }

    /// Get the volume of a selected channel.
    ///
    /// It goes by the latest settings that the monitor has taken notice of, or by later ones: the
    /// handler may store others at any time, from another execution context. See [`ControlMonitor::volume_at`].
    pub fn volume(&self, channel: Channel) -> (volume: Option<Volume>)
        requires
            self.wf(),
        ensures
            volume is Some <==> self.channels().contains(channel),
            volume is Some ==> exists|k: nat| #[trigger]
                self.can_read(k) && volume == self.volume_in(
                    self.history().states[k].settings,
                    channel,
                ),
    {
        match self.get_logical_channel(channel) {
            Some(channel_index) => {
                let settings = self.reader.settings();
                proof {
                    settings.view_wf();
                    let k = choose|k: nat|
                        self.taken() <= k && settings@ == (
                        #[trigger] self.history().states[k]).settings;
                    assert(self.can_read(k));
                    logical_channel_is_unique(self.channels(), channel, channel_index as int);
                }
                Some(settings.channel_volume(channel_index))
            },
            None => None,
        }
    }

    /// Get the volume of a selected channel, while the handler holds still.
    pub fn volume_at(&self, control: &Control<'_>, channel: Channel) -> (volume: Option<Volume>)
        requires
            self.wf(),
            control.shared() == self.shared(),
        ensures
            volume == self.volume_in(control.state().settings, channel),
    {
        match self.get_logical_channel(channel) {
            Some(channel_index) => {
                proof {
                    logical_channel_is_unique(self.channels(), channel, channel_index as int);
                }
                let settings = self.shared.settings_at(&control.publisher);
                Some(settings.channel_volume(channel_index))
            },
            None => None,
        }
    }

    /// Get the streaming endpoint's sample rate in Hz.
    ///
    /// It is the latest that the monitor has taken notice of, or a later one: the handler may store
    /// another at any time, from another execution context. See
    /// [`ControlMonitor::sample_rate_hz_at`].
    pub fn sample_rate_hz(&self) -> (rate: u32)
        requires
            self.wf(),
        ensures
            is_offered(self.sample_rates_hz(), rate),
            self.history().rate_since(self.taken(), rate),
    {
        self.reader.rate()
    }

    /// Get the streaming endpoint's sample rate in Hz, while the handler holds still.
    pub fn sample_rate_hz_at(&self, control: &Control<'_>) -> (rate: u32)
        requires
            control.shared() == self.shared(),
        ensures
            rate == control.state().sample_rate_hz,
    {
        self.shared.rate_at(&control.publisher)
    }

    /// Whether the control settings have changed since the monitor last took notice of it. If so,
    /// it takes notice; if not, `waker` is woken when they change.
    ///
    /// The handler may tell of a change at any time, from another execution context. See
    /// [`ControlMonitor::poll_changed_at`].
    pub fn poll_changed(&mut self, waker: &Waker) -> (ready: bool)
        requires
            old(self).wf(),
        ensures
            exists|late: bool|
                final(self).polls() == old(self).polls() + #[trigger] poll_steps(
                    ready,
                    late,
                    *waker,
                ),
            ready ==> old(self).history().raised_between(old(self).taken(), final(self).taken()),
            !ready ==> final(self).taken() == old(self).taken(),
            final(self).channels() == old(self).channels(),
            final(self).history() == old(self).history(),
            final(self).shared() == old(self).shared(),
            final(self).wf(),
    {
        if self.reader.find() {
            self.reader.clear();
            assert(self.polls() =~= old(self).polls() + poll_steps(true, false, *waker));
            return true;
        }
        self.reader.register(waker);
        // The handler may have told of a change before the waker was there.
        let ready = self.reader.find();
        if ready {
            self.reader.clear();
        }
        assert(self.polls() =~= old(self).polls() + poll_steps(ready, true, *waker));
        ready
    }

    /// Whether the control settings have changed since the monitor last took notice of it, while
    /// the handler holds still. If so, it takes notice; if not, `waker` is woken when they change.
    pub fn poll_changed_at(&mut self, control: &Control<'_>, waker: &Waker) -> (ready: bool)
        requires
            old(self).wf(),
            control.shared() == old(self).shared(),
        ensures
            ready == raised_since(control.steps(), old(self).taken()),
            final(self).polls() == old(self).polls() + poll_steps(ready, false, *waker),
            final(self).taken() == if ready {
                control.steps().len()
            } else {
                old(self).taken()
            },
            final(self).channels() == old(self).channels(),
            final(self).history() == old(self).history(),
            final(self).shared() == old(self).shared(),
            final(self).wf(),
    {
        let mut ready = self.reader.find_at(&control.publisher);
        if !ready {
            self.reader.register(waker);
            ready = self.reader.find_at(&control.publisher);
        }
        if ready {
            self.reader.clear_at(&control.publisher);
        }
        assert(self.polls() =~= old(self).polls() + poll_steps(ready, false, *waker));
        ready
    }
}

/// The sample rate before the host has set any: the first that is offered, zero if there is none.
fn first_rate(rates: &[u32]) -> (rate: u32)
    ensures
        rate == initial_rate(rates@),
{
    match rates.first() {
        Some(rate) => *rate,
        None => 0,
    }
}

/// Write a reply to the front of the buffer, and show it there.
fn write_reply<'r>(buf: &'r mut [u8], data: &[u8]) -> (reply: &'r [u8])
    requires
        data@.len() <= old(buf)@.len(),
    ensures
        reply@ == data@,
        final(buf)@ == data@ + old(buf)@.skip(data@.len() as int),
{
    let mut i: usize = 0;
    while i < data.len()
        invariant
            i <= data@.len() <= buf@.len(),
            buf@ == data@.take(i as int) + old(buf)@.skip(i as int),
            buf@.len() == old(buf)@.len(),
        decreases data@.len() - i,
    {
        buf[i] = data[i];
        i += 1;
        assert(buf@ =~= data@.take(i as int) + old(buf)@.skip(i as int));
    }
    assert(data@.take(i as int) =~= data@);
    let reply: &'r [u8] = &buf[0..data.len()];
    assert(reply@ =~= data@);
    reply
}

/// Whether `rates` has `rate`.
fn contains(rates: &[u32], rate: u32) -> (found: bool)
    ensures
        found == rates@.contains(rate),
{
    let mut i: usize = 0;
    while i < rates.len()
        invariant
            i <= rates@.len(),
            forall|j: int| 0 <= j < i ==> rates@[j] != rate,
        decreases rates@.len() - i,
    {
        if rates[i] == rate {
            return true;
        }
        i += 1;
    }
    false
}

/// The lowest of `rates`, zero if there is none.
fn min_rate(rates: &[u32]) -> (rate: u32)
    ensures
        rate == lowest(rates@),
{
    let mut rate: u32 = 0;
    let mut i: usize = 0;
    while i < rates.len()
        invariant
            i <= rates@.len(),
            rate == lowest(rates@.take(i as int)),
        decreases rates@.len() - i,
    {
        if i == 0 || rates[i] < rate {
            rate = rates[i];
        }
        i += 1;
        assert(rates@.take(i as int).drop_last() =~= rates@.take(i - 1));
    }
    assert(rates@.take(i as int) =~= rates@);
    rate
}

/// The highest of `rates`, zero if there is none.
pub(crate) fn max_rate(rates: &[u32]) -> (rate: u32)
    ensures
        rate == highest(rates@),
{
    let mut rate: u32 = 0;
    let mut i: usize = 0;
    while i < rates.len()
        invariant
            i <= rates@.len(),
            rate == highest(rates@.take(i as int)),
        decreases rates@.len() - i,
    {
        if i == 0 || rates[i] > rate {
            rate = rates[i];
        }
        i += 1;
        assert(rates@.take(i as int).drop_last() =~= rates@.take(i - 1));
    }
    assert(rates@.take(i as int) =~= rates@);
    rate
}

} // verus!
