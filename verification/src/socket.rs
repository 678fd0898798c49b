//! The numbers that a netlink socket is opened, bound and configured with.
//! The socket itself is the caller's.

use vstd::prelude::*;

verus! {

/// The address family of netlink.
pub const PF_NETLINK: i32 = 16;

/// The socket type of a netlink socket.
pub const SOCK_DGRAM: i32 = 2;

/// The level at which the options of a netlink socket are set.
pub const SOL_NETLINK: i32 = 270;

/// Options of a netlink socket.
#[derive(Debug, Clone, Copy, PartialEq, Eq)]
pub enum SockOpt {
    /// Join the multicast group whose id is the option's value.
    AddMembership,
    /// Leave the multicast group whose id is the option's value.
    DropMembership,
    PktInfo,
    BroadcastError,
    NoEnobufs,
}

impl SockOpt {
    /// The number of the option.
    pub open spec fn spec_code(&self) -> i32 {
        match self {
            SockOpt::AddMembership => 1,
            SockOpt::DropMembership => 2,
            SockOpt::PktInfo => 3,
            SockOpt::BroadcastError => 4,
            SockOpt::NoEnobufs => 5,
        }
    }

    /// The number of the option.
    #[verifier::when_used_as_spec(spec_code)]
    pub fn code(&self) -> (n: i32)
        ensures
            n == self.spec_code(),
    {
        match self {
            SockOpt::AddMembership => 1,
            SockOpt::DropMembership => 2,
            SockOpt::PktInfo => 3,
            SockOpt::BroadcastError => 4,
            SockOpt::NoEnobufs => 5,
        }
    }
}

/// The protocols that a netlink socket can speak.
#[derive(Debug, Clone, Copy, PartialEq, Eq)]
pub enum NetlinkProtocol {
    Route,
    Usersock,
    Firewall,
    Inet_diag,
    NFlog,
    Xfrm,
    SELinux,
    ISCSI,
    Audit,
    FibLookup,
    Connector,
    Netfilter,
    IP6_fw,
    Dnrtmsg,
    KObjectUevent,
    Generic,
    SCSItransport,
    Ecryptfs,
    Rdma,
    Crypto,
}

impl NetlinkProtocol {
    /// The number of the protocol.
    pub open spec fn spec_code(&self) -> i32 {
        match self {
            NetlinkProtocol::Route => 0,
            NetlinkProtocol::Usersock => 2,
            NetlinkProtocol::Firewall => 3,
            NetlinkProtocol::Inet_diag => 4,
            NetlinkProtocol::NFlog => 5,
            NetlinkProtocol::Xfrm => 6,
            NetlinkProtocol::SELinux => 7,
            NetlinkProtocol::ISCSI => 8,
            NetlinkProtocol::Audit => 9,
            NetlinkProtocol::FibLookup => 10,
            NetlinkProtocol::Connector => 11,
            NetlinkProtocol::Netfilter => 12,
            NetlinkProtocol::IP6_fw => 13,
            NetlinkProtocol::Dnrtmsg => 14,
            NetlinkProtocol::KObjectUevent => 15,
            NetlinkProtocol::Generic => 16,
            NetlinkProtocol::SCSItransport => 18,
            NetlinkProtocol::Ecryptfs => 19,
            NetlinkProtocol::Rdma => 20,
            NetlinkProtocol::Crypto => 21,
        }
    }

    /// The number of the protocol.
    #[verifier::when_used_as_spec(spec_code)]
    pub fn code(&self) -> (n: i32)
        ensures
            n == self.spec_code(),
    {
        match self {
            NetlinkProtocol::Route => 0,
            NetlinkProtocol::Usersock => 2,
            NetlinkProtocol::Firewall => 3,
            NetlinkProtocol::Inet_diag => 4,
            NetlinkProtocol::NFlog => 5,
            NetlinkProtocol::Xfrm => 6,
            NetlinkProtocol::SELinux => 7,
            NetlinkProtocol::ISCSI => 8,
            NetlinkProtocol::Audit => 9,
            NetlinkProtocol::FibLookup => 10,
            NetlinkProtocol::Connector => 11,
            NetlinkProtocol::Netfilter => 12,
            NetlinkProtocol::IP6_fw => 13,
            NetlinkProtocol::Dnrtmsg => 14,
            NetlinkProtocol::KObjectUevent => 15,
            NetlinkProtocol::Generic => 16,
            NetlinkProtocol::SCSItransport => 18,
            NetlinkProtocol::Ecryptfs => 19,
            NetlinkProtocol::Rdma => 20,
            NetlinkProtocol::Crypto => 21,
        }
    }
}

/// The address that a netlink socket is bound to.
#[derive(Debug, Clone, Copy, PartialEq, Eq)]
pub struct sockaddr_nl {
    pub nl_family: u16,
    pub nl_pad: i16,
    /// Port id: the process id of the owner, by custom.
    pub nl_pid: u32,
    /// Bit mask of the multicast groups to join at binding. Joining by
    /// `SockOpt::AddMembership` after binding is the way that is kept up;
    /// for that this is zero.
    pub nl_groups: u32,
}

impl sockaddr_nl {
    /// The address of the port `pid`, with `groups` as the mask of groups.
    pub fn new(pid: u32, groups: u32) -> (addr: sockaddr_nl)
        ensures
            addr == (sockaddr_nl { nl_family: 16, nl_pad: 0, nl_pid: pid, nl_groups: groups }),
    {
        sockaddr_nl { nl_family: PF_NETLINK as u16, nl_pad: 0, nl_pid: pid, nl_groups: groups }
    }
}

} // verus!
