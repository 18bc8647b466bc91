//! Control requests of the host and the answers to them.
use vstd::prelude::*;

verus! {

/// Who defines a request.
#[derive(Copy, Clone, Eq, PartialEq, Debug, Structural)]
pub enum RequestType {
    Standard,
    Class,
    Vendor,
    Reserved,
}

/// What a request is addressed to.
#[derive(Copy, Clone, Eq, PartialEq, Debug, Structural)]
pub enum Recipient {
    Device,
    Interface,
    Endpoint,
    Other,
    Reserved,
}

/// A control request, as its setup packet states it.
#[derive(Copy, Clone, Eq, PartialEq, Debug, Structural)]
pub struct Request {
    pub request_type: RequestType,
    pub recipient: Recipient,
    /// The request code.
    pub request: u8,
    /// For a feature unit: the control selector in the high byte, the channel in the low byte.
    /// For an endpoint: the control selector in the high byte.
    pub value: u16,
    /// For an interface: the entity in the high byte, the interface in the low byte. For an
    /// endpoint: its address in the low byte.
    pub index: u16,
}

/// The answer to a request that carries data to the device.
#[derive(Copy, Clone, Eq, PartialEq, Debug, Structural)]
pub enum OutResponse {
    Accepted,
    Rejected,
}

/// The answer to a request that asks for data from the device.
#[derive(Copy, Clone, Eq, PartialEq, Debug)]
pub enum InResponse<'a> {
    Accepted(&'a [u8]),
    Rejected,
}

/// What an `InResponse` says.
#[verifier::ext_equal]
pub enum Reply {
    Accepted(Seq<u8>),
    Rejected,
}

impl<'a> View for InResponse<'a> {
    type V = Reply;

    open spec fn view(&self) -> Reply {
        match *self {
            InResponse::Accepted(data) => Reply::Accepted(data@),
            InResponse::Rejected => Reply::Rejected,
        }
    }
}

/// What the answer of a handler says; `None` leaves the request to other handlers.
pub open spec fn reply_of(response: Option<InResponse<'_>>) -> Option<Reply> {
    match response {
        Some(response) => Some(response@),
        None => None,
    }
}

/// The number of bytes that a reply takes in the buffer.
pub open spec fn reply_len(reply: Option<Reply>) -> nat {
    match reply {
        Some(Reply::Accepted(data)) => data.len(),
        _ => 0,
    }
}

/// What a buffer holds after a reply was written to its front.
pub open spec fn buffer_after(buf: Seq<u8>, reply: Option<Reply>) -> Seq<u8> {
    match reply {
        Some(Reply::Accepted(data)) => data + buf.skip(data.len() as int),
        _ => buf,
    }
}

impl Request {
    /// The interface, or the endpoint, that the request is addressed to.
    pub open spec fn target(self) -> u8 {
        (self.index % 256) as u8
    }

    /// The entity of the interface that the request is addressed to.
    pub open spec fn entity(self) -> u8 {
        (self.index / 256) as u8
    }

    /// The logical channel that the request is about.
    pub open spec fn channel(self) -> u8 {
        (self.value % 256) as u8
    }

    /// The control that the request is about.
    pub open spec fn selector(self) -> u8 {
        (self.value / 256) as u8
    }
}

} // verus!
