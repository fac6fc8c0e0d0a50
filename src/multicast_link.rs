use vstd::prelude::*;
use vstd::slice::slice_to_vec;
use vstd::utf8::encode_utf8;

verus! {

/// UDP port shared by every peer of the multicast group.
pub const PORT: u16 = 7645;

/// Receive timeout of the receiver socket: the longest a shutdown signal
/// waits before the receiver thread observes it.
pub const READ_TIMEOUT_MS: u64 = 100;

/// Address family a link is bound to, fixed when the link is built.
#[derive(Clone, Copy, Debug, PartialEq, Eq, Structural)]
pub enum IpType {
    IPV4,
    IPV6,
}

/// A multicast group address, as plain octets (IPv4) or segments (IPv6).
#[derive(Clone, Copy, Debug, PartialEq, Eq, Structural)]
pub enum GroupAddress {
    V4(u8, u8, u8, u8),
    V6(u16, u16, u16, u16, u16, u16, u16, u16),
}

/// The well-known group of each address family: 224.0.0.123 and ff02::123.
pub open spec fn group_of(ip_type: IpType) -> GroupAddress {
    match ip_type {
        IpType::IPV4 => GroupAddress::V4(224, 0, 0, 123),
        IpType::IPV6 => GroupAddress::V6(0xff02, 0, 0, 0, 0, 0, 0, 0x123),
    }
}

impl IpType {
    /// The multicast group that peers of this family join.
    pub fn group(&self) -> (r: GroupAddress)
        ensures
            r == group_of(*self),
    {
        match self {
            IpType::IPV4 => GroupAddress::V4(224, 0, 0, 123),
            IpType::IPV6 => GroupAddress::V6(0xff02, 0, 0, 0, 0, 0, 0, 0x123),
        }
    }
}

/// What the sockets of a link are built with: the group and port they
/// serve, the receive timeout, and whether multicast loopback is on.
#[derive(Clone, Copy, Debug, PartialEq, Eq, Structural)]
pub struct SocketSetup {
    pub ip_type: IpType,
    pub group: GroupAddress,
    pub port: u16,
    pub read_timeout_ms: u64,
    pub multicast_loop: bool,
}

/// The setup shared by the sender and the receiver of a link: loopback is
/// always off, so a host never receives its own datagrams.
pub open spec fn setup_of(ip_type: IpType) -> SocketSetup {
    SocketSetup {
        ip_type,
        group: group_of(ip_type),
        port: PORT,
        read_timeout_ms: READ_TIMEOUT_MS,
        multicast_loop: false,
    }
}

/// One datagram to transmit: destination group and port, and the payload.
#[derive(Clone, Debug)]
pub struct Datagram {
    pub group: GroupAddress,
    pub port: u16,
    pub payload: Vec<u8>,
}

pub struct DatagramModel {
    pub group: GroupAddress,
    pub port: u16,
    pub payload: Seq<u8>,
}

impl View for Datagram {
    type V = DatagramModel;

    open spec fn view(&self) -> DatagramModel {
        DatagramModel { group: self.group, port: self.port, payload: self.payload@ }
    }
}

/// The datagram that carries `text` on a link of family `ip_type`: the raw
/// UTF-8 bytes of the text, unframed, addressed to the family's group.
pub open spec fn datagram_for(ip_type: IpType, text: Seq<char>) -> DatagramModel {
    DatagramModel { group: group_of(ip_type), port: PORT, payload: encode_utf8(text) }
}

#[derive(Clone, Copy, Debug, PartialEq, Eq, Structural)]
pub enum LinkState {
    Active,
    Disposed,
}

pub struct LinkModel {
    pub ip_type: IpType,
    pub state: LinkState,
}

/// What `send` does on a link in state `m`, for a text `text`: a datagram
/// while the link is active, nothing once it is disposed.
pub open spec fn send_spec(m: LinkModel, text: Seq<char>) -> Option<DatagramModel> {
    match m.state {
        LinkState::Active => Some(datagram_for(m.ip_type, text)),
        LinkState::Disposed => None,
    }
}

/// The lifecycle of one multicast transport link.
///
/// The link itself holds no socket: it decides what is to be transmitted
/// and when sockets are to be built or torn down, and the caller that owns
/// the sockets carries that out.
pub struct MulticastLink {
    ip_type: IpType,
    active: bool,
}

impl View for MulticastLink {
    type V = LinkModel;

    closed spec fn view(&self) -> LinkModel {
        LinkModel {
            ip_type: self.ip_type,
            state: if self.active {
                LinkState::Active
            } else {
                LinkState::Disposed
            },
        }
    }
}

impl MulticastLink {
    /// A link of the given family, active from the start.
    pub fn new(ip_type: IpType) -> (r: Self)
        ensures
            r@ == (LinkModel { ip_type, state: LinkState::Active }),
    {
        MulticastLink { ip_type, active: true }
    }

    pub fn ip_type(&self) -> (r: IpType)
        ensures
            r == self@.ip_type,
    {
        self.ip_type
    }

    pub fn is_active(&self) -> (r: bool)
        ensures
            r == (self@.state == LinkState::Active),
    {
        self.active
    }

    /// How the sender and the receiver sockets of this link are set up.
    pub fn setup(&self) -> (r: SocketSetup)
        ensures
            r == setup_of(self@.ip_type),
    {
        SocketSetup {
            ip_type: self.ip_type,
            group: self.ip_type.group(),
            port: PORT,
            read_timeout_ms: READ_TIMEOUT_MS,
            multicast_loop: false,
        }
    }

    /// The datagram that carries `data`, or `None` when the link is
    /// disposed. The payload is the whole text, whatever its length: an
    /// empty text is a zero-length payload, and one too large for a single
    /// datagram is handed on whole, for the transport to drop.
    pub fn send_data(&self, data: String) -> (r: Option<Datagram>)
        ensures
            match r {
                Some(d) => send_spec(self@, data@) == Some(d@),
                None => send_spec(self@, data@) is None,
            },
    {
        if self.active {
            let payload = slice_to_vec(data.as_str().as_bytes());
            Some(Datagram { group: self.ip_type.group(), port: PORT, payload })
        } else {
            None
        }
    }

    /// Makes the link active again. Returns whether its sockets are to be
    /// built: `false` when it was active already, so that at most one
    /// receiver runs per link.
    pub fn create(&mut self) -> (built: bool)
        ensures
            built == (old(self)@.state == LinkState::Disposed),
            final(self)@ == (LinkModel { ip_type: old(self)@.ip_type, state: LinkState::Active }),
    {
        let built = !self.active;
        self.active = true;
        built
    }

    /// Disposes of the link. Returns whether its sockets are to be torn
    /// down (receiver signalled to stop, group left, sockets closed): `false`
    /// when it was disposed already. Afterwards `send_data` yields nothing.
    pub fn dispose(&mut self) -> (torn_down: bool)
        ensures
            torn_down == (old(self)@.state == LinkState::Active),
            final(self)@ == (LinkModel { ip_type: old(self)@.ip_type, state: LinkState::Disposed }),
    {
        let torn_down = self.active;
        self.active = false;
        torn_down
    }
}

} // verus!
