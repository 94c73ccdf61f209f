//! In-process loopback transport for tests (no network).
//!
//! [`LoopbackTransport::pair`] returns two connected endpoints backed by std
//! channels: reliable in-process delivery.

use vstd::prelude::*;
use std::sync::mpsc::{Receiver, RecvTimeoutError, Sender};
use vstd::slice::slice_to_vec;
use std::time::Duration;
use crate::transport::error::TransportError;
use crate::transport::qos::Channel;
use crate::transport::transport::{Inbound, LinkState, Transport};

verus! {

#[verifier::external_type_specification]
#[verifier::external_body]
#[verifier::reject_recursive_types(T)]
pub struct ExSender<T>(Sender<T>);

#[verifier::external_type_specification]
#[verifier::external_body]
#[verifier::reject_recursive_types(T)]
pub struct ExReceiver<T>(Receiver<T>);

/// What a bounded wait on a channel gave.
pub enum Received<T> {
    Item(T),
    TimedOut,
    Disconnected,
}

/// `std::sync::mpsc::channel`: a fresh connected sender/receiver pair. Channel ends
/// are opaque here, so nothing is claimed of them.
#[verifier::external_body]
fn mpsc_channel<T>() -> (Sender<T>, Receiver<T>) {
    std::sync::mpsc::channel()
}

/// `Sender::send`: queue `value` for the receiver; fails when the receiver is gone.
/// Whether it fails depends on the other end, so nothing is claimed.
#[verifier::external_body]
fn mpsc_send<T>(tx: &Sender<T>, value: T) -> Result<(), ()> {
    match tx.send(value) {
        Ok(()) => Ok(()),
        Err(_) => Err(()),
    }
}

/// `Receiver::recv_timeout`: the next queued item, or a timeout, or disconnection once
/// every sender is gone and the queue is empty. The outcome depends on the other end
/// and on time, so nothing is claimed.
#[verifier::external_body]
fn mpsc_recv_timeout<T>(rx: &Receiver<T>, timeout: Duration) -> Received<T> {
    match rx.recv_timeout(timeout) {
        Ok(v) => Received::Item(v),
        Err(RecvTimeoutError::Timeout) => Received::TimedOut,
        Err(RecvTimeoutError::Disconnected) => Received::Disconnected,
    }
}

/// One endpoint of an in-process duplex loopback link.
pub struct LoopbackTransport {
    tx: Sender<(Channel, Vec<u8>)>,
    rx: Receiver<(Channel, Vec<u8>)>,
}

impl LoopbackTransport {
    /// Two connected endpoints (e.g. operator and robot bridges in one process).
    /// What endpoint A sends, endpoint B receives, and vice-versa. The two ends share
    /// their queues through std channels, state that neither value holds, so the
    /// contract states nothing of that delivery.
    pub fn pair() -> (Self, Self) {
        let (tx_a, rx_a) = mpsc_channel();
        let (tx_b, rx_b) = mpsc_channel();
        (LoopbackTransport { tx: tx_a, rx: rx_b }, LoopbackTransport { tx: tx_b, rx: rx_a })
    }
}

impl Transport for LoopbackTransport {
    /// Queue a copy of `payload` for the peer; the only failure is a peer that is gone.
    /// Whether the peer is gone is not visible here, so success is not promised.
    fn send(&mut self, channel: Channel, payload: &[u8]) -> (r: Result<(), TransportError>)
        ensures
            r matches Err(e) ==> e is Closed,
    {
        let frame = slice_to_vec(payload);
        match mpsc_send(&self.tx, (channel, frame)) {
            Ok(()) => Ok(()),
            Err(()) => Err(TransportError::Closed),
        }
    }

    /// The next frame the peer sent, `None` on timeout; the only failure is a peer that
    /// is gone with nothing left queued. Which of these comes back depends on the peer
    /// and on time, so only the error is stated.
    fn recv(&mut self, timeout: Duration) -> (r: Result<Option<Inbound>, TransportError>)
        ensures
            r matches Err(e) ==> e is Closed,
    {
        match mpsc_recv_timeout(&self.rx, timeout) {
            Received::Item((channel, frame)) => Ok(Some(Inbound { channel, frame })),
            Received::TimedOut => Ok(None),
            Received::Disconnected => Err(TransportError::Closed),
        }
    }

    fn link_state(&self) -> (s: LinkState)
        ensures
            s == LinkState::Up,
    {
        LinkState::Up
    }
}

} // verus!
