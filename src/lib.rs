//! Clipboard text kept in step across hosts of one network segment over IP
//! multicast: the loop-prevention guard, the lifecycle of the multicast
//! link, the decisions of its receiver, the session-lock monitor, and the
//! handling of clipboard-change notifications.

pub mod bridge;
pub mod guard;
pub mod laws;
pub mod lifecycle;
pub mod multicast_link;
pub mod receiver;
