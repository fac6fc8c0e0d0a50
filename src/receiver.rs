use vstd::prelude::*;
use vstd::utf8::{decode_utf8, valid_utf8};

use crate::guard::{guard_view, LoopGuard};

verus! {

/// What the receiver thread observed in one turn of its loop.
pub enum ReceiverEvent {
    /// The shutdown signal of `dispose`.
    Shutdown,
    /// A datagram with this payload.
    Datagram(Vec<u8>),
    /// No datagram: the receive timed out, would block, or failed.
    Idle,
}

/// What the receiver thread does next.
pub enum ReceiverAction {
    /// Leave the multicast group, close the socket and end the thread.
    Stop,
    /// Write this text to the clipboard, then report the outcome to the guard.
    Apply(String),
    /// The payload is already synchronized: drop it.
    Discard,
    /// Nothing arrived: go on receiving.
    Wait,
}

pub enum ReceiverActionModel {
    Stop,
    Apply(Seq<char>),
    Discard,
    Wait,
}

impl View for ReceiverAction {
    type V = ReceiverActionModel;

    open spec fn view(&self) -> ReceiverActionModel {
        match self {
            ReceiverAction::Stop => ReceiverActionModel::Stop,
            ReceiverAction::Apply(t) => ReceiverActionModel::Apply(t@),
            ReceiverAction::Discard => ReceiverActionModel::Discard,
            ReceiverAction::Wait => ReceiverActionModel::Wait,
        }
    }
}

/// The text that `String::from_utf8_lossy` makes of bytes that are not
/// valid UTF-8, each invalid sequence replaced by U+FFFD.
pub uninterp spec fn replaced_utf8(bytes: Seq<u8>) -> Seq<char>;

/// The text a payload carries, decoded as UTF-8, lossily on invalid bytes.
pub open spec fn payload_text(bytes: Seq<u8>) -> Seq<char> {
    if valid_utf8(bytes) {
        decode_utf8(bytes)
    } else {
        replaced_utf8(bytes)
    }
}

/// Relies on `String::from_utf8_lossy`: valid UTF-8 is decoded as it
/// stands, and the result depends on the bytes alone.
#[verifier::external_body]
fn decode_lossy(bytes: &[u8]) -> (r: String)
    ensures
        valid_utf8(bytes@) ==> r@ == decode_utf8(bytes@),
        !valid_utf8(bytes@) ==> r@ == replaced_utf8(bytes@),
{
    String::from_utf8_lossy(bytes).into_owned()
}

/// The text of a received payload.
pub fn decode_payload(payload: &Vec<u8>) -> (r: String)
    ensures
        r@ == payload_text(payload@),
{
    decode_lossy(payload.as_slice())
}

/// What the receiver does with a payload, given the guard's value when it
/// could be read: a text equal to the guard is discarded; any other is
/// applied, also when the guard was contended.
pub open spec fn datagram_spec(guard: Option<Seq<char>>, payload: Seq<u8>) -> ReceiverActionModel {
    let text = payload_text(payload);
    if guard == Some(text) {
        ReceiverActionModel::Discard
    } else {
        ReceiverActionModel::Apply(text)
    }
}

/// What the receiver does with one event.
pub open spec fn receive_spec(guard: Option<Seq<char>>, event: ReceiverEvent) -> ReceiverActionModel {
    match event {
        ReceiverEvent::Shutdown => ReceiverActionModel::Stop,
        ReceiverEvent::Idle => ReceiverActionModel::Wait,
        ReceiverEvent::Datagram(payload) => datagram_spec(guard, payload@),
    }
}

/// One turn of the receiver loop. `guard` is `None` when it was contended.
pub fn receiver_step(guard: Option<&LoopGuard>, event: ReceiverEvent) -> (r: ReceiverAction)
    ensures
        r@ == receive_spec(guard_view(guard), event),
{
    match event {
        ReceiverEvent::Shutdown => ReceiverAction::Stop,
        ReceiverEvent::Idle => ReceiverAction::Wait,
        ReceiverEvent::Datagram(payload) => {
            let text = decode_payload(&payload);
            match guard {
                Some(g) => {
                    if g.holds(&text) {
                        ReceiverAction::Discard
                    } else {
                        ReceiverAction::Apply(text)
                    }
                },
                None => ReceiverAction::Apply(text),
            }
        },
    }
}

} // verus!
