use std::sync::atomic::{AtomicUsize, Ordering};
use std::sync::Arc;
use std::task::{Wake, Waker};

use uac1::class_codes::{
    GET_CUR, GET_MAX, GET_MIN, GET_RES, MUTE_CONTROL, SAMPLING_FREQ_CONTROL, SET_CUR,
    VOLUME_CONTROL,
};
use uac1::control::{Control, State};
use uac1::function::{FeatureUnitControls, FEATURE_UNIT_ID, INPUT_UNIT_ID};
use uac1::request::{InResponse, OutResponse, Recipient, Request, RequestType};
use uac1::types::{Channel, Volume};

const INTERFACE: u8 = 4;
const ENDPOINT: u8 = 0x82;
const STEREO: [Channel; 2] = [Channel::LeftFront, Channel::RightFront];
const RATES: [u32; 3] = [48000, 44100, 96000];

fn feature(request: u8, selector: u8, channel: u8) -> Request {
    Request {
        request_type: RequestType::Class,
        recipient: Recipient::Interface,
        request,
        value: u16::from(selector) << 8 | u16::from(channel),
        index: u16::from(FEATURE_UNIT_ID) << 8 | u16::from(INTERFACE),
    }
}

fn frequency(request: u8) -> Request {
    Request {
        request_type: RequestType::Class,
        recipient: Recipient::Endpoint,
        request,
        value: u16::from(SAMPLING_FREQ_CONTROL) << 8,
        index: u16::from(ENDPOINT),
    }
}

fn get(control: &Control, req: Request) -> Option<Option<Vec<u8>>> {
    let mut buf = [0xEE; 8];
    match control.control_in(req, &mut buf) {
        Some(InResponse::Accepted(data)) => Some(Some(data.to_vec())),
        Some(InResponse::Rejected) => Some(None),
        None => None,
    }
}

fn accepted(data: &[u8]) -> Option<Option<Vec<u8>>> {
    Some(Some(data.to_vec()))
}

const REJECTED: Option<Option<Vec<u8>>> = Some(None);
const LEFT_ALONE: Option<Option<Vec<u8>>> = None;

struct Counter(AtomicUsize);

impl Wake for Counter {
    fn wake(self: Arc<Self>) {
        self.0.fetch_add(1, Ordering::SeqCst);
    }
}

#[test]
fn first_rate_is_reported_before_any_is_set() {
    let mut state = State::new();
    let (control, monitor) =
        state.register(&STEREO, &RATES, FeatureUnitControls::all(), INTERFACE, ENDPOINT);
    assert_eq!(monitor.sample_rate_hz(), 48000);
    assert_eq!(get(control, frequency(GET_CUR)), accepted(&[0x80, 0xBB, 0x00]));
}

#[test]
fn no_rate_is_reported_as_zero() {
    let mut state = State::default();
    let (control, monitor) =
        state.register(&STEREO, &[], FeatureUnitControls::all(), INTERFACE, ENDPOINT);
    assert_eq!(monitor.sample_rate_hz(), 0);
    for request in [GET_CUR, GET_MIN, GET_MAX] {
        assert_eq!(get(control, frequency(request)), accepted(&[0, 0, 0]));
    }
    assert_eq!(
        control.control_out(frequency(SET_CUR), &[0, 0, 0]),
        Some(OutResponse::Rejected)
    );
}

#[test]
fn rate_range_and_resolution() {
    let mut state = State::new();
    let (control, _monitor) =
        state.register(&STEREO, &RATES, FeatureUnitControls::all(), INTERFACE, ENDPOINT);
    assert_eq!(get(control, frequency(GET_MIN)), accepted(&[0x44, 0xAC, 0x00]));
    assert_eq!(get(control, frequency(GET_MAX)), accepted(&[0x00, 0x77, 0x01]));
    assert_eq!(get(control, frequency(GET_RES)), accepted(&[1, 0, 0]));
    assert_eq!(get(control, frequency(SET_CUR)), REJECTED);
}

#[test]
fn offered_rate_is_set_and_read_back() {
    let mut state = State::new();
    let (control, monitor) =
        state.register(&STEREO, &RATES, FeatureUnitControls::all(), INTERFACE, ENDPOINT);
    let data = [0x00, 0x77, 0x01];
    assert_eq!(control.control_out(frequency(SET_CUR), &data), Some(OutResponse::Accepted));
    assert_eq!(monitor.sample_rate_hz(), 96000);
    assert_eq!(get(control, frequency(GET_CUR)), accepted(&data));
    // Bytes behind the third are of no account.
    let data = [0x44, 0xAC, 0x00, 0xFF];
    assert_eq!(control.control_out(frequency(SET_CUR), &data), Some(OutResponse::Accepted));
    assert_eq!(monitor.sample_rate_hz(), 44100);
}

#[test]
fn other_rate_is_rejected_and_changes_nothing() {
    let mut state = State::new();
    let (control, monitor) =
        state.register(&STEREO, &RATES, FeatureUnitControls::all(), INTERFACE, ENDPOINT);
    // 48001 Hz, and two bytes only.
    for data in [&[0x81, 0xBB, 0x00][..], &[0x80, 0xBB][..], &[][..]] {
        assert_eq!(control.control_out(frequency(SET_CUR), data), Some(OutResponse::Rejected));
    }
    let pitch = Request { value: 0x0200, ..frequency(SET_CUR) };
    assert_eq!(control.control_out(pitch, &[0x00, 0x77, 0x01]), Some(OutResponse::Rejected));
    assert_eq!(get(control, Request { value: 0x0200, ..frequency(GET_CUR) }), REJECTED);
    assert_eq!(monitor.sample_rate_hz(), 48000);
}

#[test]
fn volume_is_set_and_read_back() {
    let mut state = State::new();
    let (control, monitor) =
        state.register(&STEREO, &RATES, FeatureUnitControls::all(), INTERFACE, ENDPOINT);
    // -10.5 dB
    let data = [0x80, 0xF5];
    assert_eq!(
        control.control_out(feature(SET_CUR, VOLUME_CONTROL, 2), &data),
        Some(OutResponse::Accepted)
    );
    assert_eq!(get(control, feature(GET_CUR, VOLUME_CONTROL, 2)), accepted(&data));
    assert_eq!(monitor.volume(Channel::RightFront), Some(Volume::DeciBel8q8(-2688)));
    // The other channels keep theirs.
    assert_eq!(get(control, feature(GET_CUR, VOLUME_CONTROL, 0)), accepted(&[0, 0]));
    assert_eq!(get(control, feature(GET_CUR, VOLUME_CONTROL, 1)), accepted(&[0, 0]));
    assert_eq!(monitor.volume(Channel::LeftFront), Some(Volume::DeciBel8q8(0)));
    assert_eq!(monitor.volume(Channel::Top), None);
}

#[test]
fn volume_range_and_resolution() {
    let mut state = State::new();
    let (control, _monitor) =
        state.register(&STEREO, &RATES, FeatureUnitControls::all(), INTERFACE, ENDPOINT);
    // -25600, 0 and 256
    assert_eq!(get(control, feature(GET_MIN, VOLUME_CONTROL, 1)), accepted(&[0x00, 0x9C]));
    assert_eq!(get(control, feature(GET_MAX, VOLUME_CONTROL, 1)), accepted(&[0x00, 0x00]));
    assert_eq!(get(control, feature(GET_RES, VOLUME_CONTROL, 1)), accepted(&[0x00, 0x01]));
    assert_eq!(get(control, feature(SET_CUR, VOLUME_CONTROL, 1)), REJECTED);
    assert_eq!(get(control, feature(GET_MIN, MUTE_CONTROL, 1)), REJECTED);
}

#[test]
fn mute_is_set_and_read_back() {
    let mut state = State::new();
    let (control, monitor) =
        state.register(&STEREO, &RATES, FeatureUnitControls::all(), INTERFACE, ENDPOINT);
    assert!(!monitor.muted());
    assert_eq!(
        control.control_out(feature(SET_CUR, MUTE_CONTROL, 1), &[0x40]),
        Some(OutResponse::Accepted)
    );
    assert_eq!(get(control, feature(GET_CUR, MUTE_CONTROL, 1)), accepted(&[1]));
    assert_eq!(get(control, feature(GET_CUR, MUTE_CONTROL, 2)), accepted(&[0]));
    assert_eq!(monitor.volume(Channel::LeftFront), Some(Volume::Muted));
    assert_eq!(monitor.volume(Channel::RightFront), Some(Volume::DeciBel8q8(0)));
    // One channel is still heard.
    assert!(!monitor.muted());
    assert_eq!(
        control.control_out(feature(SET_CUR, MUTE_CONTROL, 2), &[1]),
        Some(OutResponse::Accepted)
    );
    assert!(monitor.muted());
    assert_eq!(
        control.control_out(feature(SET_CUR, MUTE_CONTROL, 1), &[0]),
        Some(OutResponse::Accepted)
    );
    assert!(!monitor.muted());
}

#[test]
fn master_mute_mutes_the_stream() {
    let mut state = State::new();
    let (control, monitor) =
        state.register(&STEREO, &RATES, FeatureUnitControls::all(), INTERFACE, ENDPOINT);
    assert_eq!(
        control.control_out(feature(SET_CUR, MUTE_CONTROL, 0), &[1]),
        Some(OutResponse::Accepted)
    );
    assert!(monitor.muted());
    assert_eq!(monitor.volume(Channel::LeftFront), Some(Volume::DeciBel8q8(0)));
}

#[test]
fn stream_without_channels_is_muted() {
    let mut state = State::new();
    let (_control, monitor) =
        state.register(&[], &RATES, FeatureUnitControls::all(), INTERFACE, ENDPOINT);
    assert!(monitor.muted());
    assert_eq!(monitor.volume(Channel::LeftFront), None);
}

#[test]
fn logical_channels_start_at_one() {
    let mut state = State::new();
    let (_control, monitor) =
        state.register(&STEREO, &RATES, FeatureUnitControls::all(), INTERFACE, ENDPOINT);
    assert_eq!(monitor.get_logical_channel(Channel::LeftFront), Some(1));
    assert_eq!(monitor.get_logical_channel(Channel::RightFront), Some(2));
    assert_eq!(monitor.get_logical_channel(Channel::Lfe), None);
}

#[test]
fn refused_feature_requests_change_nothing() {
    let mut state = State::new();
    let (control, mut monitor) =
        state.register(&STEREO, &RATES, FeatureUnitControls::all(), INTERFACE, ENDPOINT);
    let other_entity = Request {
        index: u16::from(INPUT_UNIT_ID) << 8 | u16::from(INTERFACE),
        ..feature(SET_CUR, MUTE_CONTROL, 0)
    };
    let refused: [(Request, &[u8]); 7] = [
        (other_entity, &[1, 1]),
        // A channel that the stream has not.
        (feature(SET_CUR, MUTE_CONTROL, 3), &[1, 1]),
        // Not a set request for the current value.
        (feature(0x02, MUTE_CONTROL, 0), &[1, 1]),
        (feature(GET_CUR, MUTE_CONTROL, 0), &[1, 1]),
        // Too little data.
        (feature(SET_CUR, MUTE_CONTROL, 0), &[]),
        (feature(SET_CUR, VOLUME_CONTROL, 1), &[1]),
        // Another control.
        (feature(SET_CUR, 0x03, 0), &[1, 1]),
    ];
    for (req, data) in refused {
        assert_eq!(control.control_out(req, data), Some(OutResponse::Rejected));
    }
    assert!(!monitor.muted());
    assert_eq!(get(control, feature(GET_CUR, VOLUME_CONTROL, 1)), accepted(&[0, 0]));
    assert_eq!(get(control, feature(GET_CUR, MUTE_CONTROL, 3)), REJECTED);
    assert_eq!(get(control, Request { request: GET_CUR, ..other_entity }), REJECTED);
    assert!(!monitor.poll_changed(Waker::noop()));
}

#[test]
fn foreign_requests_are_left_alone() {
    let mut state = State::new();
    let (control, _monitor) =
        state.register(&STEREO, &RATES, FeatureUnitControls::all(), INTERFACE, ENDPOINT);
    let set = feature(SET_CUR, MUTE_CONTROL, 0);
    let foreign = [
        Request { request_type: RequestType::Standard, ..set },
        Request { request_type: RequestType::Vendor, ..set },
        Request { recipient: Recipient::Device, ..set },
        Request { recipient: Recipient::Other, ..set },
        Request { index: set.index + 1, ..set },
        Request { index: u16::from(ENDPOINT) + 1, ..frequency(SET_CUR) },
    ];
    for req in foreign {
        assert_eq!(control.control_out(req, &[0x80, 0xBB, 0x00]), None);
        assert_eq!(get(control, Request { request: GET_CUR, ..req }), LEFT_ALONE);
    }
}

#[test]
fn controls_that_are_not_offered_are_rejected() {
    let mut state = State::new();
    let (control, monitor) = state.register(
        &STEREO,
        &RATES,
        FeatureUnitControls { mute: true, volume: false },
        INTERFACE,
        ENDPOINT,
    );
    assert_eq!(
        control.control_out(feature(SET_CUR, VOLUME_CONTROL, 1), &[1, 1]),
        Some(OutResponse::Rejected)
    );
    assert_eq!(get(control, feature(GET_CUR, VOLUME_CONTROL, 1)), REJECTED);
    assert_eq!(get(control, feature(GET_RES, VOLUME_CONTROL, 1)), REJECTED);
    assert_eq!(
        control.control_out(feature(SET_CUR, MUTE_CONTROL, 0), &[1]),
        Some(OutResponse::Accepted)
    );
    assert!(monitor.muted());

    let mut state = State::new();
    let (control, _monitor) =
        state.register(&STEREO, &RATES, FeatureUnitControls::none(), INTERFACE, ENDPOINT);
    assert_eq!(
        control.control_out(feature(SET_CUR, MUTE_CONTROL, 0), &[1]),
        Some(OutResponse::Rejected)
    );
    assert_eq!(get(control, feature(GET_CUR, MUTE_CONTROL, 0)), REJECTED);
}

#[test]
fn reset_forgets_what_was_set() {
    let mut state = State::new();
    let (control, mut monitor) =
        state.register(&STEREO, &RATES, FeatureUnitControls::all(), INTERFACE, ENDPOINT);
    control.control_out(feature(SET_CUR, MUTE_CONTROL, 0), &[1]);
    control.control_out(feature(SET_CUR, VOLUME_CONTROL, 1), &[0x00, 0xF0]);
    control.control_out(frequency(SET_CUR), &[0x00, 0x77, 0x01]);
    assert!(monitor.poll_changed(Waker::noop()));
    control.reset();
    assert!(monitor.poll_changed(Waker::noop()));
    assert!(!monitor.muted());
    assert_eq!(monitor.volume(Channel::LeftFront), Some(Volume::DeciBel8q8(0)));
    assert_eq!(monitor.sample_rate_hz(), 48000);
    assert_eq!(get(control, feature(GET_CUR, MUTE_CONTROL, 0)), accepted(&[0]));
    assert_eq!(get(control, feature(GET_CUR, VOLUME_CONTROL, 1)), accepted(&[0, 0]));
    assert_eq!(get(control, frequency(GET_CUR)), accepted(&[0x80, 0xBB, 0x00]));
}

#[test]
fn changes_wake_the_monitor() {
    let mut state = State::new();
    let (control, mut monitor) =
        state.register(&STEREO, &RATES, FeatureUnitControls::all(), INTERFACE, ENDPOINT);
    let counter = Arc::new(Counter(AtomicUsize::new(0)));
    let waker = Waker::from(counter.clone());
    assert!(!monitor.poll_changed(&waker));
    assert_eq!(counter.0.load(Ordering::SeqCst), 0);
    control.control_out(feature(SET_CUR, MUTE_CONTROL, 1), &[1]);
    assert_eq!(counter.0.load(Ordering::SeqCst), 1);
    assert!(monitor.poll_changed(&waker));
    assert!(!monitor.poll_changed(&waker));
    control.control_out(frequency(SET_CUR), &[0x44, 0xAC, 0x00]);
    assert_eq!(counter.0.load(Ordering::SeqCst), 2);
    assert!(monitor.poll_changed(&waker));
}

#[test]
fn reply_leaves_the_rest_of_the_buffer() {
    let mut state = State::new();
    let (control, _monitor) =
        state.register(&STEREO, &RATES, FeatureUnitControls::all(), INTERFACE, ENDPOINT);
    let mut buf = [9; 4];
    assert_eq!(
        control.control_in(feature(GET_CUR, VOLUME_CONTROL, 1), &mut buf),
        Some(InResponse::Accepted(&[0, 0]))
    );
    assert_eq!(buf, [0, 0, 9, 9]);
    let mut one = [9; 1];
    assert_eq!(
        control.control_in(feature(GET_CUR, MUTE_CONTROL, 1), &mut one),
        Some(InResponse::Accepted(&[0]))
    );
}

#[test]
fn ten_rates_can_be_offered() {
    let rates: [u32; 10] =
        [8000, 11025, 16000, 22050, 32000, 44100, 48000, 88200, 96000, 192000];
    let mut state = State::new();
    let (control, monitor) =
        state.register(&STEREO, &rates, FeatureUnitControls::all(), INTERFACE, ENDPOINT);
    for rate in rates {
        let data = [rate as u8, (rate >> 8) as u8, (rate >> 16) as u8];
        assert_eq!(control.control_out(frequency(SET_CUR), &data), Some(OutResponse::Accepted));
        assert_eq!(monitor.sample_rate_hz(), rate);
        assert_eq!(get(control, frequency(GET_CUR)), accepted(&data));
    }
}

#[test]
fn settings_stay_until_set_again() {
    let mut state = State::new();
    let (control, monitor) =
        state.register(&STEREO, &RATES, FeatureUnitControls::all(), INTERFACE, ENDPOINT);
    control.control_out(feature(SET_CUR, VOLUME_CONTROL, 1), &[0x00, 0xF0]);
    control.control_out(feature(SET_CUR, MUTE_CONTROL, 1), &[1]);
    control.control_out(feature(SET_CUR, VOLUME_CONTROL, 2), &[0x00, 0xE0]);
    control.control_out(feature(SET_CUR, VOLUME_CONTROL, 0), &[0x00, 0xD0]);
    control.control_out(frequency(SET_CUR), &[0x44, 0xAC, 0x00]);
    control.control_out(feature(SET_CUR, VOLUME_CONTROL, 3), &[0x11, 0x11]);
    assert_eq!(get(control, feature(GET_CUR, VOLUME_CONTROL, 1)), accepted(&[0x00, 0xF0]));
    assert_eq!(get(control, frequency(GET_CUR)), accepted(&[0x44, 0xAC, 0x00]));
    control.control_out(feature(SET_CUR, MUTE_CONTROL, 1), &[0]);
    assert_eq!(monitor.volume(Channel::LeftFront), Some(Volume::DeciBel8q8(-4096)));
    assert_eq!(monitor.sample_rate_hz(), 44100);
}

#[test]
fn same_setting_is_told_again_and_reading_tells_nobody() {
    let mut state = State::new();
    let (control, mut monitor) =
        state.register(&STEREO, &RATES, FeatureUnitControls::all(), INTERFACE, ENDPOINT);
    let counter = Arc::new(Counter(AtomicUsize::new(0)));
    let waker = Waker::from(counter.clone());
    assert!(!monitor.poll_changed(&waker));
    get(control, feature(GET_CUR, VOLUME_CONTROL, 1));
    get(control, frequency(GET_CUR));
    control.control_out(frequency(SET_CUR), &[0x01, 0x00, 0x00]);
    assert_eq!(counter.0.load(Ordering::SeqCst), 0);
    assert!(!monitor.poll_changed(&waker));
    control.control_out(feature(SET_CUR, MUTE_CONTROL, 1), &[0]);
    assert_eq!(counter.0.load(Ordering::SeqCst), 1);
    assert!(monitor.poll_changed(&waker));
    assert!(!monitor.poll_changed(&waker));
    control.reset();
    assert_eq!(counter.0.load(Ordering::SeqCst), 2);
    assert!(monitor.poll_changed(&waker));
}

#[test]
fn accepted_volume_reaches_the_monitor() {
    let mut state = State::new();
    let (control, monitor) =
        state.register(&STEREO, &RATES, FeatureUnitControls::all(), INTERFACE, ENDPOINT);
    control.control_out(feature(SET_CUR, VOLUME_CONTROL, 2), &[0x00, 0xF6]);
    assert_eq!(monitor.volume(Channel::RightFront), Some(Volume::DeciBel8q8(-2560)));
    assert_eq!(monitor.volume(Channel::LeftFront), Some(Volume::DeciBel8q8(0)));
    assert_eq!(monitor.volume(Channel::CenterFront), None);
    control.control_out(feature(SET_CUR, VOLUME_CONTROL, 3), &[0x00, 0xF0]);
    assert_eq!(monitor.volume(Channel::RightFront), Some(Volume::DeciBel8q8(-2560)));
    assert_eq!(monitor.volume(Channel::LeftFront), Some(Volume::DeciBel8q8(0)));
}

#[test]
fn monitor_reads_what_the_handler_holds() {
    let mut state = State::new();
    let (control, mut monitor) =
        state.register(&STEREO, &RATES, FeatureUnitControls::all(), INTERFACE, ENDPOINT);
    let counter = Arc::new(Counter(AtomicUsize::new(0)));
    let waker = Waker::from(counter.clone());
    assert!(!monitor.muted_at(control));
    assert_eq!(monitor.sample_rate_hz_at(control), 48000);
    assert_eq!(monitor.volume_at(control, Channel::LeftFront), Some(Volume::DeciBel8q8(0)));
    assert!(!monitor.poll_changed_at(control, &waker));

    control.control_out(feature(SET_CUR, VOLUME_CONTROL, 1), &[0x00, 0xF6]);
    assert_eq!(counter.0.load(Ordering::SeqCst), 1);
    control.control_out(feature(SET_CUR, MUTE_CONTROL, 2), &[1]);
    control.control_out(frequency(SET_CUR), &[0x44, 0xAC, 0x00]);
    assert!(monitor.poll_changed_at(control, &waker));
    assert!(!monitor.poll_changed_at(control, &waker));
    assert_eq!(monitor.volume_at(control, Channel::LeftFront), Some(Volume::DeciBel8q8(-2560)));
    assert_eq!(monitor.volume_at(control, Channel::RightFront), Some(Volume::Muted));
    assert_eq!(monitor.volume_at(control, Channel::CenterFront), None);
    assert_eq!(monitor.sample_rate_hz_at(control), 44100);
    assert!(!monitor.muted_at(control));

    control.control_out(feature(SET_CUR, MUTE_CONTROL, 0), &[1]);
    assert!(monitor.muted_at(control));
    control.reset();
    assert!(!monitor.muted_at(control));
    assert_eq!(monitor.sample_rate_hz_at(control), 48000);
}

#[test]
fn pending_poll_has_the_latest_waker_woken() {
    let mut state = State::new();
    let (control, mut monitor) =
        state.register(&STEREO, &RATES, FeatureUnitControls::all(), INTERFACE, ENDPOINT);
    let first = Arc::new(Counter(AtomicUsize::new(0)));
    let second = Arc::new(Counter(AtomicUsize::new(0)));
    assert!(!monitor.poll_changed(&Waker::from(first.clone())));
    assert!(!monitor.poll_changed(&Waker::from(second.clone())));
    let replaced = first.0.load(Ordering::SeqCst);
    control.reset();
    assert_eq!(first.0.load(Ordering::SeqCst), replaced);
    assert_eq!(second.0.load(Ordering::SeqCst), 1);
}

#[test]
fn order_of_settings() {
    let requests: [(Request, [u8; 2]); 2] = [
        (feature(SET_CUR, VOLUME_CONTROL, 1), [0x00, 0xF0]),
        (feature(SET_CUR, MUTE_CONTROL, 1), [1, 0]),
    ];
    for order in [[0, 1], [1, 0]] {
        let mut state = State::new();
        let (control, _monitor) =
            state.register(&STEREO, &RATES, FeatureUnitControls::all(), INTERFACE, ENDPOINT);
        for i in order {
            control.control_out(requests[i].0, &requests[i].1);
        }
        assert_eq!(get(control, feature(GET_CUR, VOLUME_CONTROL, 1)), accepted(&[0x00, 0xF0]));
        assert_eq!(get(control, feature(GET_CUR, MUTE_CONTROL, 1)), accepted(&[1]));
        control.control_out(feature(SET_CUR, VOLUME_CONTROL, 1), &[0x00, 0xE0]);
        assert_eq!(get(control, feature(GET_CUR, VOLUME_CONTROL, 1)), accepted(&[0x00, 0xE0]));
    }
}

#[test]
fn only_three_bytes_count_for_the_rate() {
    let mut state = State::new();
    let (control, monitor) =
        state.register(&STEREO, &RATES, FeatureUnitControls::all(), INTERFACE, ENDPOINT);
    let mut req = frequency(GET_RES);
    req.value |= 0x37;
    req.index |= 0x5500;
    assert!(matches!(
        control.control_out(req, &[0x44, 0xAC, 0x00, 0xFF, 0xFF]),
        Some(OutResponse::Accepted)
    ));
    assert_eq!(monitor.sample_rate_hz(), 44100);
}

#[test]
fn unmuting_gives_back_the_volume_of_the_channel_alone() {
    let mut state = State::new();
    let (control, monitor) =
        state.register(&STEREO, &RATES, FeatureUnitControls::all(), INTERFACE, ENDPOINT);
    control.control_out(feature(SET_CUR, VOLUME_CONTROL, 1), &[0x00, 0xF0]);
    control.control_out(feature(SET_CUR, MUTE_CONTROL, 0), &[1]);
    control.control_out(feature(SET_CUR, VOLUME_CONTROL, 0), &[0x00, 0x80]);
    assert_eq!(monitor.volume(Channel::LeftFront), Some(Volume::DeciBel8q8(-4096)));
    control.control_out(feature(SET_CUR, MUTE_CONTROL, 1), &[1]);
    assert_eq!(monitor.volume(Channel::LeftFront), Some(Volume::Muted));
    control.control_out(feature(SET_CUR, MUTE_CONTROL, 1), &[0]);
    assert_eq!(monitor.volume(Channel::LeftFront), Some(Volume::DeciBel8q8(-4096)));
}

#[test]
fn stream_without_a_mute_control_is_not_muted() {
    let mut state = State::new();
    let (control, monitor) =
        state.register(&STEREO, &RATES, FeatureUnitControls::none(), INTERFACE, ENDPOINT);
    control.control_out(feature(SET_CUR, MUTE_CONTROL, 0), &[1]);
    control.control_out(feature(SET_CUR, VOLUME_CONTROL, 1), &[0x00, 0xF0]);
    assert!(!monitor.muted());
    assert_eq!(monitor.volume(Channel::LeftFront), Some(Volume::DeciBel8q8(0)));
}

#[test]
fn ready_poll_leaves_the_waker_alone() {
    let mut state = State::new();
    let (control, mut monitor) =
        state.register(&STEREO, &RATES, FeatureUnitControls::all(), INTERFACE, ENDPOINT);
    let counter = Arc::new(Counter(AtomicUsize::new(0)));
    let waker = Waker::from(counter.clone());
    control.reset();
    assert!(monitor.poll_changed(&waker));
    control.reset();
    assert_eq!(counter.0.load(Ordering::SeqCst), 0);
    assert!(monitor.poll_changed(&waker));
    assert!(!monitor.poll_changed(&waker));
    control.reset();
    assert_eq!(counter.0.load(Ordering::SeqCst), 1);
}

#[test]
fn readings_after_a_notice_are_the_latest() {
    let mut state = State::new();
    let (control, mut monitor) =
        state.register(&STEREO, &RATES, FeatureUnitControls::all(), INTERFACE, ENDPOINT);
    control.control_out(feature(SET_CUR, VOLUME_CONTROL, 1), &[0x00, 0xF6]);
    control.control_out(feature(SET_CUR, VOLUME_CONTROL, 1), &[0x00, 0xF0]);
    control.control_out(frequency(SET_CUR), &[0x44, 0xAC, 0x00]);
    assert!(monitor.poll_changed(Waker::noop()));
    assert_eq!(monitor.volume(Channel::LeftFront), Some(Volume::DeciBel8q8(-4096)));
    assert_eq!(monitor.sample_rate_hz(), 44100);
    assert!(!monitor.muted());
    control.control_out(feature(SET_CUR, MUTE_CONTROL, 0), &[1]);
    assert!(monitor.poll_changed(Waker::noop()));
    assert!(monitor.muted());
}
