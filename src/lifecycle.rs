use vstd::prelude::*;

use crate::multicast_link::{LinkModel, LinkState, MulticastLink};

verus! {

/// A change of the session-lock flag between two polls.
#[derive(Clone, Copy, Debug, PartialEq, Eq, Structural)]
pub enum LockEdge {
    /// The flag did not change: nothing is done.
    Steady,
    /// The session was locked while it was unlocked.
    Locked,
    /// The session was unlocked while it was locked.
    Unlocked,
}

/// The edge seen when the flag goes from `was_locked` to `is_locked`.
pub open spec fn edge_of(was_locked: bool, is_locked: bool) -> LockEdge {
    if was_locked == is_locked {
        LockEdge::Steady
    } else if is_locked {
        LockEdge::Locked
    } else {
        LockEdge::Unlocked
    }
}

/// What the owner of the sockets does after the link followed an edge.
#[derive(Clone, Copy, Debug, PartialEq, Eq, Structural)]
pub enum LinkCommand {
    Keep,
    Build,
    TearDown,
}

/// The link after it followed `edge`: disposed on a lock, active on an
/// unlock, unchanged otherwise.
pub open spec fn follow_spec(m: LinkModel, edge: LockEdge) -> LinkModel {
    match edge {
        LockEdge::Steady => m,
        LockEdge::Locked => LinkModel { ip_type: m.ip_type, state: LinkState::Disposed },
        LockEdge::Unlocked => LinkModel { ip_type: m.ip_type, state: LinkState::Active },
    }
}

/// The command that goes with following `edge` from `m`: sockets are torn
/// down or built only where the state actually changes.
pub open spec fn command_spec(m: LinkModel, edge: LockEdge) -> LinkCommand {
    match edge {
        LockEdge::Locked if m.state == LinkState::Active => LinkCommand::TearDown,
        LockEdge::Unlocked if m.state == LinkState::Disposed => LinkCommand::Build,
        _ => LinkCommand::Keep,
    }
}

/// One poll of the lock flag, from the monitor's flag and the link before
/// it to those after it.
pub open spec fn poll_spec(s: (bool, LinkModel), is_locked: bool) -> (bool, LinkModel) {
    (is_locked, follow_spec(s.1, edge_of(s.0, is_locked)))
}

/// The monitor's flag and the link after a sequence of polls from `s`,
/// each of which could take hold of the link.
pub open spec fn run_polls(s: (bool, LinkModel), polls: Seq<bool>) -> (bool, LinkModel)
    decreases polls.len(),
{
    if polls.len() == 0 {
        s
    } else {
        poll_spec(run_polls(s, polls.drop_last()), polls.last())
    }
}

/// The mirror of the session-lock flag, held between two polls; it starts
/// unlocked.
pub struct LockMonitor {
    locked: bool,
}

impl View for LockMonitor {
    type V = bool;

    closed spec fn view(&self) -> bool {
        self.locked
    }
}

impl LockMonitor {
    pub fn new() -> (r: Self)
        ensures
            r@ == false,
    {
        LockMonitor { locked: false }
    }

    pub fn is_locked(&self) -> (r: bool)
        ensures
            r == self@,
    {
        self.locked
    }

    /// Takes one poll of the flag and returns the edge it makes.
    pub fn observe(&mut self, is_locked: bool) -> (edge: LockEdge)
        ensures
            edge == edge_of(old(self)@, is_locked),
            final(self)@ == is_locked,
    {
        let edge = if self.locked == is_locked {
            LockEdge::Steady
        } else if is_locked {
            LockEdge::Locked
        } else {
            LockEdge::Unlocked
        };
        self.locked = is_locked;
        edge
    }
}

/// Makes `link` follow `edge`: `dispose` on a lock, `create` on an unlock.
pub fn follow_edge(link: &mut MulticastLink, edge: LockEdge) -> (cmd: LinkCommand)
    ensures
        final(link)@ == follow_spec(old(link)@, edge),
        cmd == command_spec(old(link)@, edge),
{
    match edge {
        LockEdge::Steady => LinkCommand::Keep,
        LockEdge::Locked => {
            if link.dispose() {
                LinkCommand::TearDown
            } else {
                LinkCommand::Keep
            }
        },
        LockEdge::Unlocked => {
            if link.create() {
                LinkCommand::Build
            } else {
                LinkCommand::Keep
            }
        },
    }
}

/// One poll of the lock flag when the link could be taken hold of: the
/// monitor observes the flag and the link follows the edge, if any.
pub fn poll(monitor: &mut LockMonitor, link: &mut MulticastLink, is_locked: bool) -> (cmd: LinkCommand)
    ensures
        (final(monitor)@, final(link)@) == poll_spec((old(monitor)@, old(link)@), is_locked),
        cmd == command_spec(old(link)@, edge_of(old(monitor)@, is_locked)),
{
    let edge = monitor.observe(is_locked);
    follow_edge(link, edge)
}

} // verus!
