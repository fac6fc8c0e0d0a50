use vstd::prelude::*;
use vstd::utf8::{encode_utf8, encode_utf8_decode_utf8, encode_utf8_valid_utf8};

use crate::bridge::change_spec;
use crate::lifecycle::{follow_spec, run_polls, LockEdge};
use crate::multicast_link::{send_spec, DatagramModel, LinkModel, LinkState, PORT, group_of};
use crate::receiver::{datagram_spec, payload_text, ReceiverActionModel};

verus! {

/// The text a link sends comes out of a payload unchanged.
pub proof fn lemma_payload_carries_text(text: Seq<char>)
    ensures
        payload_text(encode_utf8(text)) == text,
{
    broadcast use encode_utf8_decode_utf8, encode_utf8_valid_utf8;
}

/// Receiving a text equal to the guard is a no-op: the payload is discarded,
/// so neither the clipboard nor the guard is written.
pub proof fn lemma_receive_is_idempotent(guard: Seq<char>, text: Seq<char>)
    requires
        guard == text,
    ensures
        datagram_spec(Some(guard), encode_utf8(text)) == ReceiverActionModel::Discard,
{
    lemma_payload_carries_text(text);
}

/// Round trip: what an active link sends of a text, a peer whose guard holds
/// another text applies, as that very text.
pub proof fn lemma_round_trip(sender: LinkModel, peer_guard: Seq<char>, text: Seq<char>)
    requires
        sender.state == LinkState::Active,
        peer_guard != text,
    ensures
        send_spec(sender, text) is Some,
        datagram_spec(Some(peer_guard), send_spec(sender, text)->0.payload)
            == ReceiverActionModel::Apply(text),
{
    lemma_payload_carries_text(text);
}

/// A text applied from a peer is not broadcast again: once the guard took
/// the applied text, the clipboard-change notification that the write
/// caused yields no datagram, whatever the state of the link.
pub proof fn lemma_applied_text_not_rebroadcast(
    guard: Seq<char>,
    payload: Seq<u8>,
    applied: Seq<char>,
    link: LinkModel,
)
    requires
        datagram_spec(Some(guard), payload) == ReceiverActionModel::Apply(applied),
    ensures
        applied == payload_text(payload),
        change_spec(Some(applied), applied, Some(link)) is None,
{
}

/// The empty text is sent as a zero-length payload by an active link.
pub proof fn lemma_empty_text_is_zero_length_payload(link: LinkModel)
    requires
        link.state == LinkState::Active,
    ensures
        send_spec(link, Seq::<char>::empty())
            == Some(DatagramModel { group: group_of(link.ip_type), port: PORT, payload: Seq::<u8>::empty() }),
{
    assert(encode_utf8(Seq::<char>::empty()) =~= Seq::<u8>::empty());
}

/// A link disposed on a lock edge sends nothing, whatever the text.
pub proof fn lemma_locked_link_sends_nothing(link: LinkModel, text: Seq<char>)
    ensures
        follow_spec(link, LockEdge::Locked).state == LinkState::Disposed,
        send_spec(follow_spec(link, LockEdge::Locked), text) is None,
{
}

/// For any sequence of polls of the lock flag, from the initial state
/// (unlocked, link active): after each poll the link is active exactly when
/// the session is unlocked, so `send` yields a datagram after an unlock and
/// nothing after a lock; the address family never changes.
pub proof fn lemma_link_follows_lock(start: LinkModel, polls: Seq<bool>, text: Seq<char>)
    requires
        start.state == LinkState::Active,
    ensures
        run_polls((false, start), polls).0 == (polls.len() > 0 && polls.last()),
        run_polls((false, start), polls).1.ip_type == start.ip_type,
        run_polls((false, start), polls).1.state == (if polls.len() > 0 && polls.last() {
            LinkState::Disposed
        } else {
            LinkState::Active
        }),
        (send_spec(run_polls((false, start), polls).1, text) is Some) == !(polls.len() > 0
            && polls.last()),
    decreases polls.len(),
{
    if polls.len() > 0 {
        lemma_link_follows_lock(start, polls.drop_last(), text);
    }
}

} // verus!
