use uac1::builder::{
    Builder, BuilderCall, Direction, EndpointInfo, EndpointRequest, EndpointType,
    SynchronizationType, UsageType,
};
use uac1::control::State;
use uac1::function::{AudioFunction, FeatureUnitControls, Feedback};
use uac1::request::{OutResponse, Recipient, Request, RequestType};
use uac1::source::{AudioSource, Config};
use uac1::speaker::Speaker;
use uac1::terminal_type::TerminalType;
use uac1::types::{Channel, FeedbackRefresh, SampleWidth};

const STEREO: [Channel; 2] = [Channel::LeftFront, Channel::RightFront];
const ALL: [Channel; 12] = [
    Channel::LeftFront,
    Channel::RightFront,
    Channel::CenterFront,
    Channel::Lfe,
    Channel::LeftSurround,
    Channel::RightSurround,
    Channel::LeftOfCenter,
    Channel::RightOfCenter,
    Channel::Surround,
    Channel::SideLeft,
    Channel::SideRight,
    Channel::Top,
];

fn endpoint(addr: u8, max_packet_size: u16) -> EndpointInfo {
    EndpointInfo { addr, ep_type: EndpointType::Isochronous, max_packet_size, interval_ms: 1 }
}

/// A step as plain values, to compare.
fn step(call: &BuilderCall) -> String {
    format!("{:?}", call)
}

fn steps(builder: &Builder) -> Vec<String> {
    builder.calls().iter().map(step).collect()
}

fn function(class: u8, subclass: u8, protocol: u8) -> String {
    step(&BuilderCall::Function { class, subclass, protocol })
}

fn interface(number: u8) -> String {
    step(&BuilderCall::Interface { number })
}

fn alt_setting(class: u8, subclass: u8, protocol: u8) -> String {
    step(&BuilderCall::AltSetting { class, subclass, protocol })
}

fn descriptor(descriptor_type: u8, body: &[u8]) -> String {
    step(&BuilderCall::Descriptor { descriptor_type, body: body.to_vec() })
}

fn data_endpoint(endpoint: EndpointInfo, synch: u8) -> String {
    step(&BuilderCall::EndpointDescriptor {
        endpoint,
        synchronization_type: SynchronizationType::Asynchronous,
        usage_type: UsageType::DataEndpoint,
        extra_fields: vec![0, synch],
    })
}

fn synch_endpoint(endpoint: EndpointInfo, refresh: u8) -> String {
    step(&BuilderCall::EndpointDescriptor {
        endpoint,
        synchronization_type: SynchronizationType::NoSynchronization,
        usage_type: UsageType::FeedbackEndpoint,
        extra_fields: vec![refresh, 0],
    })
}

fn bodies(builder: &Builder) -> Vec<Vec<u8>> {
    let mut bodies = Vec::new();
    for call in builder.calls() {
        if let BuilderCall::Descriptor { body, .. } = call {
            bodies.push(body.clone());
        }
    }
    bodies
}

#[test]
fn control_bitmaps() {
    assert_eq!(FeatureUnitControls::none().bitmap(), 0);
    assert_eq!(FeatureUnitControls { mute: true, volume: false }.bitmap(), 1);
    assert_eq!(FeatureUnitControls { mute: false, volume: true }.bitmap(), 2);
    assert_eq!(FeatureUnitControls::all().bitmap(), 3);
}

#[test]
fn speaker_descriptors() {
    let mut builder = Builder::new(3);
    let mut state = State::new();
    let stream = endpoint(0x01, 768);
    let feedback = endpoint(0x82, 4);
    let (speaker, control) = Speaker::new(
        &mut builder,
        &mut state,
        stream,
        feedback,
        SampleWidth::Width4Byte,
        &[48000, 96000],
        &STEREO,
        FeedbackRefresh::Period8Frames,
    );
    assert_eq!(
        steps(&builder),
        vec![
            function(1, 1, 0),
            interface(3),
            alt_setting(1, 1, 0),
            descriptor(0x24, &[1, 0x00, 0x01, 40, 0, 1, 4]),
            descriptor(0x24, &[2, 1, 0x01, 0x01, 0, 2, 0x03, 0x00, 0, 0]),
            descriptor(0x24, &[6, 2, 1, 1, 0, 3, 3, 0]),
            descriptor(0x24, &[3, 3, 0x01, 0x03, 0, 2, 0]),
            interface(4),
            alt_setting(1, 2, 0),
            alt_setting(1, 2, 0),
            descriptor(0x24, &[1, 1, 0, 0x01, 0x00]),
            descriptor(0x24, &[2, 1, 2, 4, 32, 2, 0x80, 0xBB, 0x00, 0x00, 0x77, 0x01]),
            data_endpoint(stream, 0x82),
            descriptor(0x25, &[1, 1, 2, 0, 0]),
            synch_endpoint(feedback, 3),
        ]
    );
    assert_eq!(speaker.stream.endpoint(), stream);
    assert_eq!(speaker.feedback.address(), 0x82);
    assert_eq!(speaker.control_monitor.sample_rate_hz(), 48000);
    assert!(!speaker.control_monitor.muted());
    // The handler answers for interface 3 and endpoint 0x01.
    let mute = Request {
        request_type: RequestType::Class,
        recipient: Recipient::Interface,
        request: 0x01,
        value: 0x0100,
        index: 0x0203,
    };
    assert_eq!(control.control_out(mute, &[1]), Some(OutResponse::Accepted));
    assert!(speaker.control_monitor.muted());
    let rate = Request {
        request_type: RequestType::Class,
        recipient: Recipient::Endpoint,
        request: 0x01,
        value: 0x0100,
        index: 0x0001,
    };
    assert_eq!(control.control_out(rate, &[0x00, 0x77, 0x01]), Some(OutResponse::Accepted));
    assert_eq!(speaker.control_monitor.sample_rate_hz(), 96000);
}

#[test]
fn speaker_endpoint_requests() {
    let (stream, feedback) = Speaker::endpoint_requests(384);
    assert_eq!(
        stream,
        EndpointRequest {
            direction: Direction::Out,
            ep_type: EndpointType::Isochronous,
            max_packet_size: 384,
            interval_ms: 1,
        }
    );
    assert_eq!(
        feedback,
        EndpointRequest {
            direction: Direction::In,
            ep_type: EndpointType::Isochronous,
            max_packet_size: 4,
            interval_ms: 1,
        }
    );
    assert_eq!(Feedback::allocate(), feedback);
}

#[test]
fn speaker_with_all_channels_and_ten_rates() {
    let rates = [8000, 11025, 16000, 22050, 32000, 44100, 48000, 88200, 96000, 192000];
    let mut builder = Builder::new(0);
    let mut state = State::new();
    Speaker::new(
        &mut builder,
        &mut state,
        endpoint(0x01, 1000),
        endpoint(0x81, 4),
        SampleWidth::Width3Byte,
        &rates,
        &ALL,
        FeedbackRefresh::Period512Frames,
    );
    let bodies = bodies(&builder);
    assert_eq!(bodies[1][5], 12);
    assert_eq!(&bodies[1][6..8], &[0xFF, 0x0F]);
    assert_eq!(bodies[2].len(), 18);
    assert_eq!(bodies[2][4], 0);
    assert!(bodies[2][5..17].iter().all(|bits| *bits == 3));
    // wTotalLength counts the four descriptors, headers included.
    let total: usize = bodies[..4].iter().map(|body| body.len() + 2).sum();
    assert_eq!(usize::from(bodies[0][3]) + 256 * usize::from(bodies[0][4]), total);
    let format = &bodies[5];
    assert_eq!(format.len(), 36);
    assert_eq!(&format[..6], &[2, 1, 12, 3, 24, 10]);
    for (i, rate) in rates.iter().enumerate() {
        let bytes = [format[6 + 3 * i], format[7 + 3 * i], format[8 + 3 * i], 0];
        assert_eq!(u32::from_le_bytes(bytes), *rate);
    }
}

#[test]
fn speaker_without_channels_or_rates() {
    let mut builder = Builder::new(0);
    let mut state = State::new();
    let (speaker, _control) = Speaker::new(
        &mut builder,
        &mut state,
        endpoint(0x01, 1000),
        endpoint(0x81, 4),
        SampleWidth::Width2Byte,
        &[],
        &[],
        FeedbackRefresh::Period2Frames,
    );
    let bodies = bodies(&builder);
    assert_eq!(bodies[0], vec![1, 0, 1, 38, 0, 1, 1]);
    assert_eq!(bodies[1], vec![2, 1, 1, 1, 0, 0, 0, 0, 0, 0]);
    assert_eq!(bodies[2], vec![6, 2, 1, 1, 0, 0]);
    assert_eq!(bodies[5], vec![2, 1, 0, 2, 16, 0]);
    assert_eq!(speaker.control_monitor.sample_rate_hz(), 0);
}

#[test]
fn default_config_is_a_microphone() {
    let config = Config::new(&[16000], SampleWidth::Width2Byte, &STEREO);
    assert_eq!(config.sample_rates_hz, &[16000]);
    assert_eq!(config.sample_width, SampleWidth::Width2Byte);
    assert_eq!(config.channels, &STEREO);
    assert_eq!(config.input_terminal, TerminalType::InMicrophone);
    assert_eq!(config.feature_unit, FeatureUnitControls { mute: true, volume: false });
    assert_eq!(config.feedback, None);
}

#[test]
fn source_descriptors() {
    let mono = [Channel::CenterFront];
    let config = Config::new(&[44100], SampleWidth::Width2Byte, &mono);
    let (request, feedback) = AudioSource::endpoint_requests(config);
    // One millisecond is 88.2 bytes.
    assert_eq!(
        request,
        EndpointRequest {
            direction: Direction::In,
            ep_type: EndpointType::Isochronous,
            max_packet_size: 91,
            interval_ms: 1,
        }
    );
    assert_eq!(feedback, None);

    let mut builder = Builder::new(0);
    let mut state = State::new();
    let stream = endpoint(0x81, 91);
    let (source, _control) = AudioSource::new(&mut builder, &mut state, config, stream, None);
    assert_eq!(
        steps(&builder),
        vec![
            function(1, 1, 0),
            interface(0),
            alt_setting(1, 1, 0),
            descriptor(0x24, &[1, 0x00, 0x01, 39, 0, 1, 1]),
            descriptor(0x24, &[2, 1, 0x01, 0x02, 0, 1, 0x04, 0x00, 0, 0]),
            descriptor(0x24, &[6, 2, 1, 1, 1, 1, 0]),
            descriptor(0x24, &[3, 3, 0x01, 0x01, 0, 2, 0]),
            interface(1),
            alt_setting(1, 2, 0),
            alt_setting(1, 2, 0),
            descriptor(0x24, &[1, 3, 0, 0x01, 0x00]),
            descriptor(0x24, &[2, 1, 1, 2, 16, 1, 0x44, 0xAC, 0x00]),
            data_endpoint(stream, 0),
            descriptor(0x25, &[1, 1, 2, 0, 0]),
        ]
    );
    assert_eq!(source.stream.endpoint(), stream);
    assert!(source.feedback.is_none());
    assert_eq!(source.control_monitor.sample_rate_hz(), 44100);
}

#[test]
fn source_without_feature_unit_and_with_feedback() {
    let config = Config {
        input_terminal: TerminalType::ExtLineConnector,
        feature_unit: FeatureUnitControls::none(),
        feedback: Some(FeedbackRefresh::Period64Frames),
        ..Config::new(&[48000], SampleWidth::Width3Byte, &STEREO)
    };
    let (request, feedback) = AudioSource::endpoint_requests(config);
    assert_eq!(request.max_packet_size, 288 + 6);
    assert_eq!(feedback, Some(Feedback::allocate()));

    let mut builder = Builder::new(0);
    let mut state = State::new();
    let stream = endpoint(0x83, 294);
    let synch = endpoint(0x84, 4);
    let (source, _control) =
        AudioSource::new(&mut builder, &mut state, config, stream, Some(synch));
    let calls = steps(&builder);
    assert_eq!(calls[3], descriptor(0x24, &[1, 0x00, 0x01, 30, 0, 1, 1]));
    assert_eq!(calls[4], descriptor(0x24, &[2, 1, 0x03, 0x06, 0, 2, 0x03, 0x00, 0, 0]));
    // The output terminal follows the input terminal directly.
    assert_eq!(calls[5], descriptor(0x24, &[3, 3, 0x01, 0x01, 0, 1, 0]));
    assert_eq!(calls[6], interface(1));
    assert_eq!(
        &calls[11..],
        &[
            data_endpoint(stream, 0x84),
            descriptor(0x25, &[1, 1, 2, 0, 0]),
            synch_endpoint(synch, 6),
        ]
    );
    assert_eq!(source.feedback.map(|feedback| feedback.address()), Some(0x84));
}

#[test]
fn packet_holds_a_millisecond_at_the_fastest_rate() {
    let config = Config::new(&[8000, 96000, 44100], SampleWidth::Width4Byte, &STEREO);
    let (request, _) = AudioSource::endpoint_requests(config);
    assert_eq!(request.max_packet_size, 96 * 8 + 8);
}

#[test]
fn packet_size_is_a_16_bit_field() {
    let config = Config::new(&[2_000_000], SampleWidth::Width4Byte, &ALL);
    let (request, _) = AudioSource::endpoint_requests(config);
    assert_eq!(request.max_packet_size, (96_000u32 + 48 - 65_536) as u16);
}

#[test]
fn channel_config_has_a_bit_for_each_channel() {
    let order = [Channel::Top, Channel::LeftFront, Channel::Surround];
    let function = AudioFunction {
        channels: &order,
        sample_width: SampleWidth::Width2Byte,
        sample_rates_hz: &[48000],
        input_terminal: TerminalType::UsbStreaming,
        output_terminal: TerminalType::OutHeadphones,
        feature_unit: None,
    };
    assert_eq!(function.channel_config(), 0x0901);
    for (i, channel) in ALL.iter().enumerate() {
        let one = [*channel];
        assert_eq!(AudioFunction { channels: &one, ..function }.channel_config(), 1 << i);
    }
    assert_eq!(AudioFunction { channels: &[], ..function }.channel_config(), 0);
    assert_eq!(AudioFunction { channels: &ALL, ..function }.channel_config(), 0x0FFF);
}

#[test]
fn widest_rate_has_three_bytes() {
    let function = AudioFunction {
        channels: &STEREO,
        sample_width: SampleWidth::Width2Byte,
        sample_rates_hz: &[0xFFFFFF, 0x7FFFFF],
        input_terminal: TerminalType::InMicrophone,
        output_terminal: TerminalType::UsbStreaming,
        feature_unit: None,
    };
    let mut builder = Builder::new(0);
    function.write_as_interface_descriptors(&mut builder);
    assert_eq!(
        bodies(&builder)[1],
        vec![2, 1, 2, 2, 16, 2, 0xFF, 0xFF, 0xFF, 0xFF, 0xFF, 0x7F]
    );
}

#[test]
fn refresh_exponents() {
    let periods = [
        FeedbackRefresh::Period2Frames,
        FeedbackRefresh::Period4Frames,
        FeedbackRefresh::Period8Frames,
        FeedbackRefresh::Period16Frames,
        FeedbackRefresh::Period32Frames,
        FeedbackRefresh::Period64Frames,
        FeedbackRefresh::Period128Frames,
        FeedbackRefresh::Period256Frames,
        FeedbackRefresh::Period512Frames,
    ];
    for (i, period) in periods.iter().enumerate() {
        assert_eq!(usize::from(period.exponent()), i + 1);
    }
}

#[test]
fn sample_widths() {
    assert_eq!(SampleWidth::Width2Byte.in_bit(), 16);
    assert_eq!(SampleWidth::Width3Byte.in_bit(), 24);
    assert_eq!(SampleWidth::Width4Byte.in_bit(), 32);
    assert_eq!(SampleWidth::Width3Byte.in_byte(), 3);
}

#[test]
fn terminal_codes() {
    assert_eq!(TerminalType::UsbStreaming.code(), 0x0101);
    assert_eq!(TerminalType::InMicrophone.code(), 0x0201);
    assert_eq!(TerminalType::OutSpeaker.code(), 0x0301);
    assert_eq!(TerminalType::ExtSpdifConnector.code(), 0x0605);
}

#[test]
fn what_a_class_can_be_made_of() {
    let rates = [48000, 0xFFFFFF];
    let channels = [Channel::LeftFront, Channel::RightFront];
    assert!(Config::new(&rates, SampleWidth::Width2Byte, &channels).is_valid());
    assert!(!Config::new(&[], SampleWidth::Width2Byte, &channels).is_valid());
    assert!(!Config::new(&rates, SampleWidth::Width2Byte, &[]).is_valid());
    assert!(!Config::new(&[0x1000000], SampleWidth::Width2Byte, &channels).is_valid());
    assert!(!Config::new(&[48000; 11], SampleWidth::Width2Byte, &channels).is_valid());
    let twice = [Channel::LeftFront, Channel::RightFront, Channel::LeftFront];
    assert!(!Config::new(&rates, SampleWidth::Width2Byte, &twice).is_valid());
    assert!(Speaker::is_valid(&[], &[]));
    assert!(Speaker::is_valid(&[48000; 10], &channels));
    assert!(!Speaker::is_valid(&[48000; 11], &channels));
    assert!(!Speaker::is_valid(&[48000, 0x1000000], &channels));
    assert!(!Speaker::is_valid(&rates, &twice));
}
