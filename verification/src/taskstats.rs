//! Taskstats: the request for the accounting record of a task, and the
//! decoder for the record that comes back.

use crate::error::{FramingError, NetlinkError, ProtocolError};
use crate::generic::{
    attr_wire, attrs_view, find, first_of, genlmsghdr, nlattr, parse_genl, FamilyId,
    GenetlinkMessage, NLA_HDRLEN,
};
use crate::wire::{
    get_array, get_u16, get_u32, get_u64, le32, lemma_le32_round_trip, u16_at, u32_at, u64_at,
    Payload,
};
use crate::{envelope_wire, parse_envelope, NetlinkMessage, NLMSG_ERROR, NLM_F_REQUEST};
use vstd::prelude::*;

verus! {

/// The name under which the kernel registers the family.
pub const TASKSTATS_GENL_NAME: &'static str = "TASKSTATS";

/// The number of bytes that an accounting record takes.
pub const TASKSTATS_LEN: usize = 248;

/// Commands of the family.
#[derive(Debug, Clone, Copy, PartialEq, Eq)]
pub enum Command {
    Unspec,
    /// A request from the user, and the reply to it.
    Get,
    /// An event from the kernel.
    New,
}

impl Command {
    /// The number that stands for the command on the wire.
    pub open spec fn spec_code(&self) -> u8 {
        match self {
            Command::Unspec => 0,
            Command::Get => 1,
            Command::New => 2,
        }
    }

    /// The number that stands for the command on the wire.
    #[verifier::when_used_as_spec(spec_code)]
    pub fn code(&self) -> (n: u8)
        ensures
            n == self.spec_code(),
    {
        match self {
            Command::Unspec => 0,
            Command::Get => 1,
            Command::New => 2,
        }
    }
}

/// Attribute types in a reply.
#[derive(Debug, Clone, Copy, PartialEq, Eq)]
pub enum Type {
    Unspec,
    Pid,
    Tgid,
    Stats,
    AggrPid,
    AggrTgid,
    Null,
}

impl Type {
    /// The number that stands for the attribute type on the wire.
    pub open spec fn spec_code(&self) -> u16 {
        match self {
            Type::Unspec => 0,
            Type::Pid => 1,
            Type::Tgid => 2,
            Type::Stats => 3,
            Type::AggrPid => 4,
            Type::AggrTgid => 5,
            Type::Null => 6,
        }
    }

    /// The number that stands for the attribute type on the wire.
    #[verifier::when_used_as_spec(spec_code)]
    pub fn code(&self) -> (n: u16)
        ensures
            n == self.spec_code(),
    {
        match self {
            Type::Unspec => 0,
            Type::Pid => 1,
            Type::Tgid => 2,
            Type::Stats => 3,
            Type::AggrPid => 4,
            Type::AggrTgid => 5,
            Type::Null => 6,
        }
    }
}

/// Attribute types in a request: what the id in it selects.
#[derive(Debug, Clone, Copy, PartialEq, Eq)]
pub enum CommandAttr {
    Unspec,
    Pid,
    Tgid,
    RegisterCpuMask,
    DeregisterCpuMask,
}

impl CommandAttr {
    /// The number that stands for the attribute type on the wire.
    pub open spec fn spec_code(&self) -> u16 {
        match self {
            CommandAttr::Unspec => 0,
            CommandAttr::Pid => 1,
            CommandAttr::Tgid => 2,
            CommandAttr::RegisterCpuMask => 3,
            CommandAttr::DeregisterCpuMask => 4,
        }
    }

    /// The number that stands for the attribute type on the wire.
    #[verifier::when_used_as_spec(spec_code)]
    pub fn code(&self) -> (n: u16)
        ensures
            n == self.spec_code(),
    {
        match self {
            CommandAttr::Unspec => 0,
            CommandAttr::Pid => 1,
            CommandAttr::Tgid => 2,
            CommandAttr::RegisterCpuMask => 3,
            CommandAttr::DeregisterCpuMask => 4,
        }
    }
}

/// The accounting record of a task. On the wire the fields follow one
/// another in this order, each in its own width, with nothing between them.
#[derive(Debug, Clone, Copy, PartialEq, Eq)]
pub struct taskstats {
    /// Version of the layout.
    pub version: u16,
    /// Exit status.
    pub exitcode: u32,
    /// Record flags.
    pub ac_flag: u8,
    /// Nice value.
    pub ac_nice: u8,
    /// Number of delay values recorded for the cpu.
    pub cpu_count: u64,
    /// Time spent waiting for a cpu, in nanoseconds.
    pub cpu_delay_total: u64,
    /// Number of delay values recorded for block I/O.
    pub blkio_count: u64,
    /// Time spent waiting for block I/O, in nanoseconds.
    pub blkio_delay_total: u64,
    /// Number of delay values recorded for swapping in.
    pub swapin_count: u64,
    /// Time spent waiting for pages to be swapped in, in nanoseconds.
    pub swapin_delay_total: u64,
    /// Time on a cpu by the wall clock, in nanoseconds.
    pub cpu_run_real_total: u64,
    /// Time on a cpu as the scheduler counts it, in nanoseconds.
    pub cpu_run_virtual_total: u64,
    /// Command name.
    pub ac_comm: [u8; 32],
    /// Scheduling discipline.
    pub ac_sched: u64,
    /// User id.
    pub ac_uid: u64,
    /// Group id.
    pub ac_gid: u64,
    /// Process id.
    pub ac_pid: u32,
    /// Process id of the parent.
    pub ac_ppid: u32,
    /// Start time, in seconds since the epoch.
    pub ac_btime: u32,
    /// Filling that brings the next field to a multiple of eight.
    pub ac_pad: [u8; 4],
    /// Elapsed time, in microseconds.
    pub ac_etime: u64,
    /// User cpu time, in microseconds.
    pub ac_utime: u64,
    /// System cpu time, in microseconds.
    pub ac_stime: u64,
    /// Minor page faults.
    pub ac_minflt: u64,
    /// Major page faults.
    pub ac_majflt: u64,
    /// Accumulated resident memory.
    pub coremem: u64,
    /// Accumulated virtual memory.
    pub virtmem: u64,
    /// High-water mark of resident memory, in KiB.
    pub hiwater_rss: u64,
    /// High-water mark of virtual memory, in KiB.
    pub hiwater_vm: u64,
    /// Bytes read.
    pub read_char: u64,
    /// Bytes written.
    pub write_char: u64,
    /// Read system calls.
    pub read_syscalls: u64,
    /// Write system calls.
    pub write_syscalls: u64,
}

impl taskstats {
    /// Whether the fields are those that the first 248 bytes of `s` hold.
    pub open spec fn is_at(&self, s: Seq<u8>) -> bool {
        &&& self.version == u16_at(s, 0)
        &&& self.exitcode == u32_at(s, 2)
        &&& self.ac_flag == s[6]
        &&& self.ac_nice == s[7]
        &&& self.cpu_count == u64_at(s, 8)
        &&& self.cpu_delay_total == u64_at(s, 16)
        &&& self.blkio_count == u64_at(s, 24)
        &&& self.blkio_delay_total == u64_at(s, 32)
        &&& self.swapin_count == u64_at(s, 40)
        &&& self.swapin_delay_total == u64_at(s, 48)
        &&& self.cpu_run_real_total == u64_at(s, 56)
        &&& self.cpu_run_virtual_total == u64_at(s, 64)
        &&& self.ac_comm@ == s.subrange(72, 104)
        &&& self.ac_sched == u64_at(s, 104)
        &&& self.ac_uid == u64_at(s, 112)
        &&& self.ac_gid == u64_at(s, 120)
        &&& self.ac_pid == u32_at(s, 128)
        &&& self.ac_ppid == u32_at(s, 132)
        &&& self.ac_btime == u32_at(s, 136)
        &&& self.ac_pad@ == s.subrange(140, 144)
        &&& self.ac_etime == u64_at(s, 144)
        &&& self.ac_utime == u64_at(s, 152)
        &&& self.ac_stime == u64_at(s, 160)
        &&& self.ac_minflt == u64_at(s, 168)
        &&& self.ac_majflt == u64_at(s, 176)
        &&& self.coremem == u64_at(s, 184)
        &&& self.virtmem == u64_at(s, 192)
        &&& self.hiwater_rss == u64_at(s, 200)
        &&& self.hiwater_vm == u64_at(s, 208)
        &&& self.read_char == u64_at(s, 216)
        &&& self.write_char == u64_at(s, 224)
        &&& self.read_syscalls == u64_at(s, 232)
        &&& self.write_syscalls == u64_at(s, 240)
    }

    /// Decodes the record at the start of `buf`. Bytes after the record are
    /// left unread.
    pub fn from_bytes(buf: &[u8]) -> (r: Result<taskstats, FramingError>)
        ensures
            match r {
                Ok(stats) => buf@.len() >= TASKSTATS_LEN && stats.is_at(buf@),
                Err(e) => buf@.len() < TASKSTATS_LEN && e == FramingError::Truncated,
            },
    {
        if buf.len() < TASKSTATS_LEN {
            return Err(FramingError::Truncated);
        }
        Ok(
            taskstats {
                version: get_u16(buf, 0),
                exitcode: get_u32(buf, 2),
                ac_flag: buf[6],
                ac_nice: buf[7],
                cpu_count: get_u64(buf, 8),
                cpu_delay_total: get_u64(buf, 16),
                blkio_count: get_u64(buf, 24),
                blkio_delay_total: get_u64(buf, 32),
                swapin_count: get_u64(buf, 40),
                swapin_delay_total: get_u64(buf, 48),
                cpu_run_real_total: get_u64(buf, 56),
                cpu_run_virtual_total: get_u64(buf, 64),
                ac_comm: get_array(buf, 72),
                ac_sched: get_u64(buf, 104),
                ac_uid: get_u64(buf, 112),
                ac_gid: get_u64(buf, 120),
                ac_pid: get_u32(buf, 128),
                ac_ppid: get_u32(buf, 132),
                ac_btime: get_u32(buf, 136),
                ac_pad: get_array(buf, 140),
                ac_etime: get_u64(buf, 144),
                ac_utime: get_u64(buf, 152),
                ac_stime: get_u64(buf, 160),
                ac_minflt: get_u64(buf, 168),
                ac_majflt: get_u64(buf, 176),
                coremem: get_u64(buf, 184),
                virtmem: get_u64(buf, 192),
                hiwater_rss: get_u64(buf, 200),
                hiwater_vm: get_u64(buf, 208),
                read_char: get_u64(buf, 216),
                write_char: get_u64(buf, 224),
                read_syscalls: get_u64(buf, 232),
                write_syscalls: get_u64(buf, 240),
            },
        )
    }
}

/// What a reply holds: the id of the task, where the kernel names it, and
/// the record.
#[derive(Debug)]
pub struct TaskstatsReply {
    pub pid: Option<nlattr<u32>>,
    pub stats: nlattr<taskstats>,
}

/// The request for the record of the task with process id `uid`. The id is
/// the value of the one attribute, in four bytes.
pub fn get_stats(uid: u32) -> (msg: GenetlinkMessage<nlattr<u32>>)
    ensures
        msg.wf(),
        msg.header == (genlmsghdr { cmd: Command::Get.spec_code(), version: 1, reserved: 0 }),
        msg.data.nla_len == NLA_HDRLEN + 4,
        msg.data.nla_type == CommandAttr::Pid.spec_code(),
        msg.data.data == uid,
        msg.data.wire() == attr_wire(CommandAttr::Pid.spec_code(), le32(uid)),
{
    get_stats_of(uid, CommandAttr::Pid)
}

/// The request for the record that `id` selects, read as `kind` says: as a
/// process id, a thread group id or a cpu mask. The id is the value of the
/// one attribute, in four bytes.
pub fn get_stats_of(id: u32, kind: CommandAttr) -> (msg: GenetlinkMessage<nlattr<u32>>)
    ensures
        msg.wf(),
        msg.header == (genlmsghdr { cmd: Command::Get.spec_code(), version: 1, reserved: 0 }),
        msg.data.nla_len == NLA_HDRLEN + 4,
        msg.data.nla_type == kind.spec_code(),
        msg.data.data == id,
        msg.data.wire() == attr_wire(kind.spec_code(), le32(id)),
{
    proof {
        lemma_le32_round_trip(id);
    }
    let msg = GenetlinkMessage::new(Command::Get.code(), kind.code(), id);
    assert(msg.data.wire() =~= attr_wire(kind.spec_code(), le32(id)));
    msg
}

/// The bytes of a request for the record that `id` selects, ready to be sent
/// to the family with the id `family_id`.
pub fn stats_request(
    family_id: FamilyId,
    id: u32,
    kind: CommandAttr,
    sequence: u32,
    port_id: u32,
) -> (bytes: Vec<u8>)
    ensures
        bytes@ == envelope_wire(
            family_id,
            NLM_F_REQUEST,
            sequence,
            port_id,
            (genlmsghdr { cmd: Command::Get.spec_code(), version: 1, reserved: 0 }).wire()
                + attr_wire(kind.spec_code(), le32(id)),
        ),
{
    let request = get_stats_of(id, kind);
    NetlinkMessage::new(request, family_id, NLM_F_REQUEST, sequence, port_id).as_bytes()
}

/// The value of the attribute that holds the record, or why a list of
/// attributes holds none. The first attribute of type `Stats` decides.
pub open spec fn stats_in(attrs: Seq<(u16, Seq<u8>)>) -> Result<Seq<u8>, NetlinkError> {
    match first_of(attrs, Type::Stats.spec_code()) {
        None => Err(NetlinkError::Protocol(ProtocolError::MissingStats)),
        Some(value) => if value.len() < TASKSTATS_LEN {
            Err(NetlinkError::Framing(FramingError::Truncated))
        } else {
            Ok(value)
        },
    }
}

/// The value of the attribute that names the task, if a list of attributes
/// holds one. The first attribute of type `Pid` decides.
pub open spec fn pid_in(attrs: Seq<(u16, Seq<u8>)>) -> Result<Option<Seq<u8>>, NetlinkError> {
    match first_of(attrs, Type::Pid.spec_code()) {
        None => Ok(None),
        Some(value) => if value.len() < 4 {
            Err(NetlinkError::Framing(FramingError::Truncated))
        } else {
            Ok(Some(value))
        },
    }
}

/// The value of the attribute that holds the record in a reply, or why the
/// reply holds none. A reply whose message type is `NLMSG_ERROR` is a
/// rejection.
pub open spec fn stats_of(reply: Seq<u8>) -> Result<Seq<u8>, NetlinkError> {
    match parse_envelope(reply) {
        Err(e) => Err(NetlinkError::Framing(e)),
        Ok((header, payload)) => if header.nlmsg_type == NLMSG_ERROR {
            Err(NetlinkError::Protocol(ProtocolError::KernelRejected))
        } else {
            match parse_genl(payload) {
                Err(e) => Err(e),
                Ok((_, attrs)) => stats_in(attrs),
            }
        },
    }
}

impl TaskstatsReply {
    /// Whether this is what the attributes `attrs` hold, given that they
    /// hold a record.
    pub open spec fn is_in(&self, attrs: Seq<(u16, Seq<u8>)>) -> bool {
        &&& stats_in(attrs) matches Ok(value)
        &&& self.stats.nla_type == Type::Stats.spec_code()
        &&& self.stats.nla_len == NLA_HDRLEN + value.len()
        &&& self.stats.data.is_at(value)
        &&& pid_in(attrs) matches Ok(id)
        &&& match id {
            None => self.pid is None,
            Some(value) => {
                &&& self.pid matches Some(pid)
                &&& pid.nla_type == Type::Pid.spec_code()
                &&& pid.nla_len == NLA_HDRLEN + value.len()
                &&& pid.data == u32_at(value, 0)
            },
        }
    }

    /// Picks the record, and the id if there is one, out of the attributes
    /// of a reply.
    pub fn from_attrs(attrs: &Vec<nlattr<Vec<u8>>>) -> (r: Result<TaskstatsReply, NetlinkError>)
        requires
            forall|i: int| 0 <= i < attrs@.len() ==> (#[trigger] attrs@[i]).wf(),
        ensures
            match stats_in(attrs_view(attrs@)) {
                Err(e) => r == Err::<TaskstatsReply, _>(e),
                Ok(_) => match pid_in(attrs_view(attrs@)) {
                    Err(e) => r == Err::<TaskstatsReply, _>(e),
                    Ok(_) => r matches Ok(reply) && reply.is_in(attrs_view(attrs@)),
                },
            },
    {
        let stats = match find(attrs, Type::Stats.code()) {
            None => {
                return Err(NetlinkError::Protocol(ProtocolError::MissingStats));
            },
            Some(i) => {
                assert(attrs@[i as int].wf());
                match taskstats::from_bytes(attrs[i].data.as_slice()) {
                    Err(e) => {
                        return Err(NetlinkError::Framing(e));
                    },
                    Ok(data) => nlattr { nla_len: attrs[i].nla_len, nla_type: attrs[i].nla_type, data },
                }
            },
        };
        let pid = match find(attrs, Type::Pid.code()) {
            None => None,
            Some(i) => {
                assert(attrs@[i as int].wf());
                let value = attrs[i].data.as_slice();
                if value.len() < 4 {
                    return Err(NetlinkError::Framing(FramingError::Truncated));
                }
                Some(
                    nlattr {
                        nla_len: attrs[i].nla_len,
                        nla_type: attrs[i].nla_type,
                        data: get_u32(value, 0),
                    },
                )
            },
        };
        Ok(TaskstatsReply { pid, stats })
    }
}

/// Reads the record from the reply to a request.
pub fn stats_from_reply(reply: &[u8]) -> (r: Result<taskstats, NetlinkError>)
    ensures
        match stats_of(reply@) {
            Err(e) => r == Err::<taskstats, _>(e),
            Ok(value) => r matches Ok(stats) && stats.is_at(value),
        },
{
    let msg = match NetlinkMessage::from_bytes(reply) {
        Err(e) => {
            return Err(NetlinkError::Framing(e));
        },
        Ok(msg) => msg,
    };
    if msg.header.nlmsg_type == NLMSG_ERROR {
        return Err(NetlinkError::Protocol(ProtocolError::KernelRejected));
    }
    let genl = match GenetlinkMessage::from_bytes(msg.data.as_slice()) {
        Err(e) => {
            return Err(e);
        },
        Ok(genl) => genl,
    };
    stats_among(&genl.data)
}

/// Reads the record from the attributes of a reply.
pub fn stats_among(attrs: &Vec<nlattr<Vec<u8>>>) -> (r: Result<taskstats, NetlinkError>)
    ensures
        match stats_in(attrs_view(attrs@)) {
            Err(e) => r == Err::<taskstats, _>(e),
            Ok(value) => r matches Ok(stats) && stats.is_at(value),
        },
{
    match find(attrs, Type::Stats.code()) {
        None => Err(NetlinkError::Protocol(ProtocolError::MissingStats)),
        Some(i) => match taskstats::from_bytes(attrs[i].data.as_slice()) {
            Err(e) => Err(NetlinkError::Framing(e)),
            Ok(stats) => Ok(stats),
        },
    }
}

} // verus!
