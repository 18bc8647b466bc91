//! What a class asks of the USB device while it describes itself: a log of interfaces and
//! descriptors, in order, to be carried out on the device's configuration.
use vstd::prelude::*;

verus! {

/// The transfer type of an endpoint.
#[derive(Copy, Clone, Eq, PartialEq, Debug, Structural)]
pub enum EndpointType {
    Control,
    Isochronous,
    Bulk,
    Interrupt,
}

/// The direction of an endpoint, seen from the host.
#[derive(Copy, Clone, Eq, PartialEq, Debug, Structural)]
pub enum Direction {
    Out,
    In,
}

/// How an isochronous endpoint is synchronized.
#[derive(Copy, Clone, Eq, PartialEq, Debug, Structural)]
pub enum SynchronizationType {
    NoSynchronization,
    Asynchronous,
    Adaptive,
    Synchronous,
}

/// What an isochronous endpoint is for.
#[derive(Copy, Clone, Eq, PartialEq, Debug, Structural)]
pub enum UsageType {
    DataEndpoint,
    FeedbackEndpoint,
    ImplicitFeedbackDataEndpoint,
}

/// An endpoint that the USB driver is asked to allocate, at any address.
#[derive(Copy, Clone, Eq, PartialEq, Debug, Structural)]
pub struct EndpointRequest {
    pub direction: Direction,
    pub ep_type: EndpointType,
    pub max_packet_size: u16,
    pub interval_ms: u8,
}

/// An endpoint that the USB driver has allocated.
#[derive(Copy, Clone, Eq, PartialEq, Debug, Structural)]
pub struct EndpointInfo {
    pub addr: u8,
    pub ep_type: EndpointType,
    pub max_packet_size: u16,
    pub interval_ms: u8,
}

/// One step of describing a class to the USB device.
#[derive(Debug)]
pub enum BuilderCall {
    /// Open an interface association.
    Function { class: u8, subclass: u8, protocol: u8 },
    /// Add the interface with this number to the association.
    Interface { number: u8 },
    /// Add an alternate setting, without a name, to the interface.
    AltSetting { class: u8, subclass: u8, protocol: u8 },
    /// Add a descriptor to the alternate setting; its header is not part of the body.
    Descriptor { descriptor_type: u8, body: Vec<u8> },
    /// Add the standard descriptor of an endpoint, with extra fields at its end.
    EndpointDescriptor {
        endpoint: EndpointInfo,
        synchronization_type: SynchronizationType,
        usage_type: UsageType,
        extra_fields: Vec<u8>,
    },
}

/// What a `BuilderCall` says.
#[verifier::ext_equal]
pub enum Call {
    Function { class: u8, subclass: u8, protocol: u8 },
    Interface { number: u8 },
    AltSetting { class: u8, subclass: u8, protocol: u8 },
    Descriptor { descriptor_type: u8, body: Seq<u8> },
    EndpointDescriptor {
        endpoint: EndpointInfo,
        synchronization_type: SynchronizationType,
        usage_type: UsageType,
        extra_fields: Seq<u8>,
    },
}

impl View for BuilderCall {
    type V = Call;

    open spec fn view(&self) -> Call {
        match *self {
            BuilderCall::Function { class, subclass, protocol } => Call::Function {
                class,
                subclass,
                protocol,
            },
            BuilderCall::Interface { number } => Call::Interface { number },
            BuilderCall::AltSetting { class, subclass, protocol } => Call::AltSetting {
                class,
                subclass,
                protocol,
            },
            BuilderCall::Descriptor { descriptor_type, body } => Call::Descriptor {
                descriptor_type,
                body: body@,
            },
            BuilderCall::EndpointDescriptor {
                endpoint,
                synchronization_type,
                usage_type,
                extra_fields,
            } => Call::EndpointDescriptor {
                endpoint,
                synchronization_type,
                usage_type,
                extra_fields: extra_fields@,
            },
        }
    }
}

/// Every descriptor has a 2-byte header, its length and its type, on top of its body.
pub const DESCRIPTOR_HEADER_SIZE: usize = 2;

/// The longest body of a descriptor: the length that its header states is one byte.
pub const MAX_DESCRIPTOR_BODY: usize = 253;

/// The length of the body of a standard endpoint descriptor without extra fields.
pub const ENDPOINT_DESCRIPTOR_BODY: usize = 5;

/// The number of interfaces that a configuration can have: an interface number is one byte.
pub const MAX_INTERFACE_COUNT: usize = 256;

/// The interfaces and descriptors of a device, as far as they have been described.
pub struct Builder {
    interface_count: usize,
    calls: Vec<BuilderCall>,
}

/// The number of interfaces of the device, and what has been asked of it, in order.
#[verifier::ext_equal]
pub struct BuilderView {
    pub interface_count: nat,
    pub calls: Seq<Call>,
}

impl BuilderView {
    /// The builder after one more step that adds no interface.
    pub open spec fn push(self, call: Call) -> BuilderView {
        BuilderView { calls: self.calls.push(call), ..self }
    }

    /// The builder after more steps that add no interface.
    pub open spec fn extend(self, calls: Seq<Call>) -> BuilderView {
        BuilderView { calls: self.calls + calls, ..self }
    }
}

impl View for Builder {
    type V = BuilderView;

    closed spec fn view(&self) -> BuilderView {
        BuilderView {
            interface_count: self.interface_count as nat,
            calls: self.calls@.map_values(|call: BuilderCall| call@),
        }
    }
}

impl Builder {
    /// The log for a device that has `interface_count` interfaces already.
    pub fn new(interface_count: usize) -> (builder: Builder)
        ensures
            builder@ == (BuilderView {
                interface_count: interface_count as nat,
                calls: Seq::empty(),
            }),
    {
        let builder = Builder { interface_count, calls: Vec::new() };
        assert(builder@.calls =~= Seq::empty());
        builder
    }

    /// What has been asked of the device, in order.
    pub fn calls(&self) -> (calls: &Vec<BuilderCall>)
        ensures
            calls@.map_values(|call: BuilderCall| call@) == self@.calls,
    {
        &self.calls
    }

    /// Open an interface association.
    pub fn function(&mut self, class: u8, subclass: u8, protocol: u8)
        ensures
            final(self)@ == old(self)@.push(Call::Function { class, subclass, protocol }),
    {
        self.calls.push(BuilderCall::Function { class, subclass, protocol });
        assert(self@.calls =~= old(self)@.calls.push(Call::Function { class, subclass, protocol }));
    }

    /// Add the next interface, and return its number.
    pub fn interface(&mut self) -> (number: u8)
        requires
            old(self)@.interface_count < MAX_INTERFACE_COUNT,
        ensures
            number == old(self)@.interface_count,
            final(self)@ == (BuilderView {
                interface_count: old(self)@.interface_count + 1,
                calls: old(self)@.calls.push(Call::Interface { number }),
            }),
    {
        let number: u8 = self.interface_count as u8;
        self.interface_count = self.interface_count + 1;
        self.calls.push(BuilderCall::Interface { number });
        assert(self@.calls =~= old(self)@.calls.push(Call::Interface { number }));
        number
    }

    /// Add an alternate setting to the interface added last.
    pub fn alt_setting(&mut self, class: u8, subclass: u8, protocol: u8)
        ensures
            final(self)@ == old(self)@.push(Call::AltSetting { class, subclass, protocol }),
    {
        self.calls.push(BuilderCall::AltSetting { class, subclass, protocol });
        assert(self@.calls =~= old(self)@.calls.push(
            Call::AltSetting { class, subclass, protocol },
        ));
    }

    /// Add a descriptor to the alternate setting added last.
    pub fn descriptor(&mut self, descriptor_type: u8, body: &[u8])
        requires
            body@.len() <= MAX_DESCRIPTOR_BODY,
        ensures
            final(self)@ == old(self)@.push(Call::Descriptor { descriptor_type, body: body@ }),
    {
        self.calls.push(
            BuilderCall::Descriptor { descriptor_type, body: vstd::slice::slice_to_vec(body) },
        );
        assert(self@.calls =~= old(self)@.calls.push(
            Call::Descriptor { descriptor_type, body: body@ },
        ));
    }

    /// Add the standard descriptor of an endpoint, with `extra_fields` at its end.
    pub fn endpoint_descriptor(
        &mut self,
        endpoint: &EndpointInfo,
        synchronization_type: SynchronizationType,
        usage_type: UsageType,
        extra_fields: &[u8],
    )
        requires
            ENDPOINT_DESCRIPTOR_BODY + extra_fields@.len() <= MAX_DESCRIPTOR_BODY,
        ensures
            final(self)@ == old(self)@.push(
                Call::EndpointDescriptor {
                    endpoint: *endpoint,
                    synchronization_type,
                    usage_type,
                    extra_fields: extra_fields@,
                },
            ),
    {
        self.calls.push(
            BuilderCall::EndpointDescriptor {
                endpoint: *endpoint,
                synchronization_type,
                usage_type,
                extra_fields: vstd::slice::slice_to_vec(extra_fields),
            },
        );
        assert(self@.calls =~= old(self)@.calls.push(
            Call::EndpointDescriptor {
                endpoint: *endpoint,
                synchronization_type,
                usage_type,
                extra_fields: extra_fields@,
            },
        ));
    }
}

} // verus!
