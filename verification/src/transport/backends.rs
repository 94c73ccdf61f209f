//! Transport backends for media not implemented yet: each implements the trait but
//! refuses every operation with [`TransportError::Unsupported`].

use vstd::prelude::*;
use std::time::Duration;
use crate::transport::error::TransportError;
use crate::transport::framing::{FrameDecoder, spec_next_frame};
use crate::transport::qos::Channel;
use crate::transport::transport::{Inbound, LinkState, Transport};
use crate::time::{duration_from_millis, duration_is_zero, span_from_millis, span_is_zero};

verus! {

/// The read timeout a socket backend sets for a receive wait: a zero wait (which a
/// socket would take as "block forever") becomes one millisecond.
pub fn clamp_timeout(t: Duration) -> (r: Duration)
    ensures
        r == (if span_is_zero(t) {
            span_from_millis(1)
        } else {
            t
        }),
        !span_is_zero(r),
{
    if duration_is_zero(&t) {
        duration_from_millis(1)
    } else {
        t
    }
}

/// The frame a received datagram carries (one datagram is one frame; bytes after the
/// first frame are ignored). A datagram that holds no complete frame is refused as
/// "truncated datagram".
pub fn decode_datagram(datagram: &[u8]) -> (r: Result<Inbound, TransportError>)
    ensures
        match spec_next_frame(datagram@) {
            Some((ch, payload, _)) => r matches Ok(inb) && inb.channel == ch && inb.frame@ == payload,
            None => r matches Err(TransportError::BadFrame(m)) && m@ == "truncated datagram"@,
        },
{
    let mut dec = FrameDecoder::new();
    dec.feed(datagram);
    assert(dec@ =~= datagram@);
    match dec.next_frame() {
        Some((channel, frame)) => Ok(Inbound { channel, frame }),
        None => Err(TransportError::BadFrame(String::from_str("truncated datagram"))),
    }
}

/// Stub transport for USB/serial (use `serialport`/`nusb`).
#[derive(Debug)]
pub struct SerialTransport;

/// Stub transport for Bluetooth LE (use `btleplug`).
#[derive(Debug)]
pub struct BleTransport;

/// Stub transport for NearLink (vendor SDK).
#[derive(Debug)]
pub struct NearLinkTransport;

impl SerialTransport {
    pub fn new() -> Self {
        SerialTransport
    }
}

impl Default for SerialTransport {
    fn default() -> Self {
        SerialTransport
    }
}

impl Transport for SerialTransport {
    fn send(&mut self, _channel: Channel, _payload: &[u8]) -> (r: Result<(), TransportError>)
        ensures
            r matches Err(TransportError::Unsupported(w)) && w@ == "USB/serial (use `serialport`/`nusb`)"@,
    {
        Err(TransportError::Unsupported("USB/serial (use `serialport`/`nusb`)"))
    }

    fn recv(&mut self, _timeout: Duration) -> (r: Result<Option<Inbound>, TransportError>)
        ensures
            r matches Err(TransportError::Unsupported(w)) && w@ == "USB/serial (use `serialport`/`nusb`)"@,
    {
        Err(TransportError::Unsupported("USB/serial (use `serialport`/`nusb`)"))
    }

    fn link_state(&self) -> (s: LinkState)
        ensures
            s == LinkState::Down,
    {
        LinkState::Down
    }
}

impl BleTransport {
    pub fn new() -> Self {
        BleTransport
    }
}

impl Default for BleTransport {
    fn default() -> Self {
        BleTransport
    }
}

impl Transport for BleTransport {
    fn send(&mut self, _channel: Channel, _payload: &[u8]) -> (r: Result<(), TransportError>)
        ensures
            r matches Err(TransportError::Unsupported(w)) && w@ == "Bluetooth LE (use `btleplug`)"@,
    {
        Err(TransportError::Unsupported("Bluetooth LE (use `btleplug`)"))
    }

    fn recv(&mut self, _timeout: Duration) -> (r: Result<Option<Inbound>, TransportError>)
        ensures
            r matches Err(TransportError::Unsupported(w)) && w@ == "Bluetooth LE (use `btleplug`)"@,
    {
        Err(TransportError::Unsupported("Bluetooth LE (use `btleplug`)"))
    }

    fn link_state(&self) -> (s: LinkState)
        ensures
            s == LinkState::Down,
    {
        LinkState::Down
    }
}

impl NearLinkTransport {
    pub fn new() -> Self {
        NearLinkTransport
    }
}

impl Default for NearLinkTransport {
    fn default() -> Self {
        NearLinkTransport
    }
}

impl Transport for NearLinkTransport {
    fn send(&mut self, _channel: Channel, _payload: &[u8]) -> (r: Result<(), TransportError>)
        ensures
            r matches Err(TransportError::Unsupported(w)) && w@ == "NearLink (vendor SDK)"@,
    {
        Err(TransportError::Unsupported("NearLink (vendor SDK)"))
    }

    fn recv(&mut self, _timeout: Duration) -> (r: Result<Option<Inbound>, TransportError>)
        ensures
            r matches Err(TransportError::Unsupported(w)) && w@ == "NearLink (vendor SDK)"@,
    {
        Err(TransportError::Unsupported("NearLink (vendor SDK)"))
    }

    fn link_state(&self) -> (s: LinkState)
        ensures
            s == LinkState::Down,
    {
        LinkState::Down
    }
}

} // verus!
