use vstd::prelude::*;

use crate::guard::LoopGuard;
use crate::multicast_link::{send_spec, Datagram, DatagramModel, LinkModel, MulticastLink};

verus! {

/// What a clipboard change leads to, given the text read from the
/// clipboard (`None` when it holds none), the guard, and the link (`None`
/// when it was contended): a datagram only when there is a text, it differs
/// from the guard, and the link could be had and is active.
pub open spec fn change_spec(
    text: Option<Seq<char>>,
    guard: Seq<char>,
    link: Option<LinkModel>,
) -> Option<DatagramModel> {
    match (text, link) {
        (Some(t), Some(m)) => if t == guard {
            None
        } else {
            send_spec(m, t)
        },
        _ => None,
    }
}

pub open spec fn link_view(link: Option<&MulticastLink>) -> Option<LinkModel> {
    match link {
        Some(l) => Some(l@),
        None => None,
    }
}

pub open spec fn text_view(text: Option<String>) -> Option<Seq<char>> {
    match text {
        Some(t) => Some(t@),
        None => None,
    }
}

/// Handles one clipboard-change notification, with the guard taken hold of
/// (a change that finds the guard contended is skipped by its caller).
/// `text` is the clipboard's text, `None` when it holds none; `link` is
/// `None` when it was contended, and the change is then skipped. Returns the
/// datagram to transmit, if any; the guard takes the text that is broadcast.
pub fn on_clipboard_change(
    text: Option<String>,
    guard: &mut LoopGuard,
    link: Option<&MulticastLink>,
) -> (r: Option<Datagram>)
    ensures
        match r {
            Some(d) => change_spec(text_view(text), old(guard)@, link_view(link)) == Some(d@),
            None => change_spec(text_view(text), old(guard)@, link_view(link)) is None,
        },
        final(guard)@ == (if r is Some {
            text->0@
        } else {
            old(guard)@
        }),
{
    match text {
        Some(t) => {
            if guard.holds(&t) {
                None
            } else {
                match link {
                    Some(l) => {
                        let r = l.send_data(t.clone());
                        if r.is_some() {
                            guard.record(t);
                        }
                        r
                    },
                    None => None,
                }
            }
        },
        None => None,
    }
}

} // verus!
