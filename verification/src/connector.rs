//! The process-event connector: the messages that switch the event stream on
//! and off, and the decoder for the events that the kernel then sends.

use crate::error::FramingError;
use crate::wire::{
    get_array, get_u16, get_u32, get_u64, le16, le32, put_u16, put_u32, u16_at, u32_at, u64_at,
    Payload,
};
use crate::{envelope_wire, parse_envelope, NetlinkMessage, NLMSG_DONE};
use vstd::prelude::*;
use vstd::slice::slice_subrange;

verus! {

// Index and value of each connector that the kernel knows.

/// Index of the connector of process events. It is also the id of the
/// multicast group on which the events are sent.
pub const CN_IDX_PROC: i32 = 1;

/// Value of the connector of process events.
pub const CN_VAL_PROC: i32 = 1;

pub const CN_IDX_CIFS: i32 = 2;

pub const CN_VAL_CIFS: i32 = 1;

pub const CN_W1_IDX: i32 = 3;

pub const CN_W1_VAL: i32 = 1;

pub const CN_IDX_V86D: i32 = 4;

pub const CN_VAL_V86D_UVESAFB: i32 = 1;

pub const CN_IDX_BB: i32 = 5;

pub const CN_DST_IDX: i32 = 6;

pub const CN_DST_VAL: i32 = 1;

pub const CN_IDX_DM: i32 = 7;

pub const CN_VAL_DM_USERSPACE_LOG: i32 = 1;

pub const CN_IDX_DRBD: i32 = 8;

pub const CN_VAL_DRBD: i32 = 1;

pub const CN_KVP_IDX: i32 = 9;

pub const CN_KVP_VAL: i32 = 1;

/// Control word: start sending process events.
pub const PROC_CN_MCAST_LISTEN: i32 = 1;

/// Control word: stop sending process events.
pub const PROC_CN_MCAST_IGNORE: i32 = 2;

/// The size of the connector header.
pub const CN_MSG_LEN: usize = 20;

/// The size of what every process event starts with: the kind, the cpu and
/// the timestamp.
pub const EVENT_HDRLEN: usize = 16;

/// The kinds of process event that have a name.
#[derive(Debug, Clone, Copy, PartialEq, Eq)]
pub enum EventTypes {
    /// No event: the kernel acknowledges a control message with it.
    Nothing,
    Fork,
    Exec,
    Uid,
    Gid,
    Sid,
    Ptrace,
    Comm,
    Exit,
}

impl EventTypes {
    /// The number that stands for the kind on the wire.
    pub open spec fn spec_tag(&self) -> u32 {
        match self {
            EventTypes::Nothing => 0x0000_0000,
            EventTypes::Fork => 0x0000_0001,
            EventTypes::Exec => 0x0000_0002,
            EventTypes::Uid => 0x0000_0004,
            EventTypes::Gid => 0x0000_0040,
            EventTypes::Sid => 0x0000_0080,
            EventTypes::Ptrace => 0x1000_0000,
            EventTypes::Comm => 0x0000_0200,
            EventTypes::Exit => 0x8000_0000,
        }
    }

    /// The kind that `tag` stands for, if it has a name.
    pub open spec fn spec_from_tag(tag: u32) -> Option<EventTypes> {
        if tag == 0x0000_0000 {
            Some(EventTypes::Nothing)
        } else if tag == 0x0000_0001 {
            Some(EventTypes::Fork)
        } else if tag == 0x0000_0002 {
            Some(EventTypes::Exec)
        } else if tag == 0x0000_0004 {
            Some(EventTypes::Uid)
        } else if tag == 0x0000_0040 {
            Some(EventTypes::Gid)
        } else if tag == 0x0000_0080 {
            Some(EventTypes::Sid)
        } else if tag == 0x1000_0000 {
            Some(EventTypes::Ptrace)
        } else if tag == 0x0000_0200 {
            Some(EventTypes::Comm)
        } else if tag == 0x8000_0000 {
            Some(EventTypes::Exit)
        } else {
            None
        }
    }

    /// The number that stands for the kind on the wire.
    #[verifier::when_used_as_spec(spec_tag)]
    pub fn tag(&self) -> (n: u32)
        ensures
            n == self.spec_tag(),
            EventTypes::spec_from_tag(n) == Some(*self),
    {
        match self {
            EventTypes::Nothing => 0x0000_0000,
            EventTypes::Fork => 0x0000_0001,
            EventTypes::Exec => 0x0000_0002,
            EventTypes::Uid => 0x0000_0004,
            EventTypes::Gid => 0x0000_0040,
            EventTypes::Sid => 0x0000_0080,
            EventTypes::Ptrace => 0x1000_0000,
            EventTypes::Comm => 0x0000_0200,
            EventTypes::Exit => 0x8000_0000,
        }
    }

    /// The kind that `tag` stands for, if it has a name.
    #[verifier::when_used_as_spec(spec_from_tag)]
    pub fn from_tag(tag: u32) -> (kind: Option<EventTypes>)
        ensures
            kind == EventTypes::spec_from_tag(tag),
            kind matches Some(k) ==> k.spec_tag() == tag,
    {
        if tag == 0x0000_0000 {
            Some(EventTypes::Nothing)
        } else if tag == 0x0000_0001 {
            Some(EventTypes::Fork)
        } else if tag == 0x0000_0002 {
            Some(EventTypes::Exec)
        } else if tag == 0x0000_0004 {
            Some(EventTypes::Uid)
        } else if tag == 0x0000_0040 {
            Some(EventTypes::Gid)
        } else if tag == 0x0000_0080 {
            Some(EventTypes::Sid)
        } else if tag == 0x1000_0000 {
            Some(EventTypes::Ptrace)
        } else if tag == 0x0000_0200 {
            Some(EventTypes::Comm)
        } else if tag == 0x8000_0000 {
            Some(EventTypes::Exit)
        } else {
            None
        }
    }
}

/// The header that names the connector a message belongs to.
#[derive(Debug, Clone, Copy, PartialEq, Eq)]
pub struct cnmsg {
    pub idx: u32,
    pub val: u32,
    pub seq: u32,
    pub ack: u32,
    /// Length of what follows the header.
    pub len: u16,
    pub flags: u16,
}

impl cnmsg {
    /// The twenty bytes of the header.
    pub open spec fn wire(&self) -> Seq<u8> {
        le32(self.idx) + le32(self.val) + le32(self.seq) + le32(self.ack) + le16(self.len) + le16(
            self.flags,
        )
    }

    /// The header that the first twenty bytes of `s` hold.
    pub open spec fn at(s: Seq<u8>) -> cnmsg {
        cnmsg {
            idx: u32_at(s, 0),
            val: u32_at(s, 4),
            seq: u32_at(s, 8),
            ack: u32_at(s, 12),
            len: u16_at(s, 16),
            flags: u16_at(s, 18),
        }
    }

    /// Decodes the header at the start of `buf`.
    pub fn from_bytes(buf: &[u8]) -> (r: Result<cnmsg, FramingError>)
        ensures
            r == (if buf@.len() < CN_MSG_LEN {
                Err(FramingError::Truncated)
            } else {
                Ok(cnmsg::at(buf@))
            }),
    {
        if buf.len() < CN_MSG_LEN {
            return Err(FramingError::Truncated);
        }
        Ok(
            cnmsg {
                idx: get_u32(buf, 0),
                val: get_u32(buf, 4),
                seq: get_u32(buf, 8),
                ack: get_u32(buf, 12),
                len: get_u16(buf, 16),
                flags: get_u16(buf, 18),
            },
        )
    }
}

/// A connector message: the header and what it carries.
#[derive(Debug)]
pub struct cnprocmsg<T> {
    pub header: cnmsg,
    pub data: T,
}

impl<T: Payload> Payload for cnprocmsg<T> {
    open spec fn wf(&self) -> bool {
        &&& self.data.wf()
        &&& self.header.len == self.data.wire().len()
    }

    open spec fn wire(&self) -> Seq<u8> {
        self.header.wire() + self.data.wire()
    }

    fn wire_len(&self) -> (n: usize) {
        CN_MSG_LEN + self.header.len as usize
    }

    fn put(&self, out: &mut Vec<u8>) {
        put_u32(out, self.header.idx);
        put_u32(out, self.header.val);
        put_u32(out, self.header.seq);
        put_u32(out, self.header.ack);
        put_u16(out, self.header.len);
        put_u16(out, self.header.flags);
        self.data.put(out);
        assert(out@ =~= old(out)@ + self.wire());
    }
}

impl cnprocmsg<u32> {
    /// The message that asks the kernel to start sending process events.
    pub fn listen() -> (msg: Self)
        ensures
            msg.wf(),
            msg.header == (cnmsg { idx: 1, val: 1, seq: 0, ack: 0, len: 4, flags: 0 }),
            msg.data == 1,
    {
        cnprocmsg {
            header: cnmsg {
                idx: CN_IDX_PROC as u32,
                val: CN_VAL_PROC as u32,
                seq: 0,
                ack: 0,
                len: 4,
                flags: 0,
            },
            data: PROC_CN_MCAST_LISTEN as u32,
        }
    }

    /// The message that asks the kernel to stop sending process events.
    pub fn ignore() -> (msg: Self)
        ensures
            msg.wf(),
            msg.header == (cnmsg { idx: 1, val: 1, seq: 0, ack: 0, len: 4, flags: 0 }),
            msg.data == 2,
    {
        cnprocmsg {
            header: cnmsg {
                idx: CN_IDX_PROC as u32,
                val: CN_VAL_PROC as u32,
                seq: 0,
                ack: 0,
                len: 4,
                flags: 0,
            },
            data: PROC_CN_MCAST_IGNORE as u32,
        }
    }
}

/// A process was created.
#[derive(Debug, Clone, Copy, PartialEq, Eq)]
pub struct Fork {
    pub parent_pid: u32,
    pub parent_tgid: u32,
    pub child_pid: u32,
    pub child_tgid: u32,
}

impl Fork {
    /// The fields that the first sixteen bytes of `s` hold.
    pub open spec fn at(s: Seq<u8>) -> Fork {
        Fork {
            parent_pid: u32_at(s, 0),
            parent_tgid: u32_at(s, 4),
            child_pid: u32_at(s, 8),
            child_tgid: u32_at(s, 12),
        }
    }

    /// Reads the four fields from the start of `buf`, and nothing after them.
    pub fn from_bytes(buf: &[u8]) -> (r: Result<Fork, FramingError>)
        ensures
            r == (if buf@.len() < 16 {
                Err(FramingError::Truncated)
            } else {
                Ok(Fork::at(buf@))
            }),
    {
        if buf.len() < 16 {
            return Err(FramingError::Truncated);
        }
        Ok(
            Fork {
                parent_pid: get_u32(buf, 0),
                parent_tgid: get_u32(buf, 4),
                child_pid: get_u32(buf, 8),
                child_tgid: get_u32(buf, 12),
            },
        )
    }
}

/// A process replaced its program.
#[derive(Debug, Clone, Copy, PartialEq, Eq)]
pub struct Exec {
    pub process_pid: u32,
    pub process_tgid: u32,
}

impl Exec {
    /// The fields that the first eight bytes of `s` hold.
    pub open spec fn at(s: Seq<u8>) -> Exec {
        Exec { process_pid: u32_at(s, 0), process_tgid: u32_at(s, 4) }
    }

    /// Reads the two fields from the start of `buf`, and nothing after them.
    pub fn from_bytes(buf: &[u8]) -> (r: Result<Exec, FramingError>)
        ensures
            r == (if buf@.len() < 8 {
                Err(FramingError::Truncated)
            } else {
                Ok(Exec::at(buf@))
            }),
    {
        if buf.len() < 8 {
            return Err(FramingError::Truncated);
        }
        Ok(Exec { process_pid: get_u32(buf, 0), process_tgid: get_u32(buf, 4) })
    }
}

/// A process changed its user id.
#[derive(Debug, Clone, Copy, PartialEq, Eq)]
pub struct UidChange {
    pub process_pid: u32,
    pub process_tgid: u32,
    pub uid: u32,
    pub euid: u32,
}

impl UidChange {
    /// The fields that the first sixteen bytes of `s` hold.
    pub open spec fn at(s: Seq<u8>) -> UidChange {
        UidChange {
            process_pid: u32_at(s, 0),
            process_tgid: u32_at(s, 4),
            uid: u32_at(s, 8),
            euid: u32_at(s, 12),
        }
    }

    /// Reads the four fields from the start of `buf`, and nothing after them.
    pub fn from_bytes(buf: &[u8]) -> (r: Result<UidChange, FramingError>)
        ensures
            r == (if buf@.len() < 16 {
                Err(FramingError::Truncated)
            } else {
                Ok(UidChange::at(buf@))
            }),
    {
        if buf.len() < 16 {
            return Err(FramingError::Truncated);
        }
        Ok(
            UidChange {
                process_pid: get_u32(buf, 0),
                process_tgid: get_u32(buf, 4),
                uid: get_u32(buf, 8),
                euid: get_u32(buf, 12),
            },
        )
    }
}

/// A process changed its group id.
#[derive(Debug, Clone, Copy, PartialEq, Eq)]
pub struct GidChange {
    pub process_pid: u32,
    pub process_tgid: u32,
    pub gid: u32,
    pub egid: u32,
}

impl GidChange {
    /// The fields that the first sixteen bytes of `s` hold.
    pub open spec fn at(s: Seq<u8>) -> GidChange {
        GidChange {
            process_pid: u32_at(s, 0),
            process_tgid: u32_at(s, 4),
            gid: u32_at(s, 8),
            egid: u32_at(s, 12),
        }
    }

    /// Reads the four fields from the start of `buf`, and nothing after them.
    pub fn from_bytes(buf: &[u8]) -> (r: Result<GidChange, FramingError>)
        ensures
            r == (if buf@.len() < 16 {
                Err(FramingError::Truncated)
            } else {
                Ok(GidChange::at(buf@))
            }),
    {
        if buf.len() < 16 {
            return Err(FramingError::Truncated);
        }
        Ok(
            GidChange {
                process_pid: get_u32(buf, 0),
                process_tgid: get_u32(buf, 4),
                gid: get_u32(buf, 8),
                egid: get_u32(buf, 12),
            },
        )
    }
}

/// A process started a session.
#[derive(Debug, Clone, Copy, PartialEq, Eq)]
pub struct Sid {
    pub process_pid: u32,
    pub process_tgid: u32,
}

impl Sid {
    /// The fields that the first eight bytes of `s` hold.
    pub open spec fn at(s: Seq<u8>) -> Sid {
        Sid { process_pid: u32_at(s, 0), process_tgid: u32_at(s, 4) }
    }

    /// Reads the two fields from the start of `buf`, and nothing after them.
    pub fn from_bytes(buf: &[u8]) -> (r: Result<Sid, FramingError>)
        ensures
            r == (if buf@.len() < 8 {
                Err(FramingError::Truncated)
            } else {
                Ok(Sid::at(buf@))
            }),
    {
        if buf.len() < 8 {
            return Err(FramingError::Truncated);
        }
        Ok(Sid { process_pid: get_u32(buf, 0), process_tgid: get_u32(buf, 4) })
    }
}

/// A tracer attached to a process, or left it.
#[derive(Debug, Clone, Copy, PartialEq, Eq)]
pub struct Ptrace {
    pub process_pid: u32,
    pub process_tgid: u32,
    pub tracer_pid: u32,
    pub tracer_tgid: u32,
}

impl Ptrace {
    /// The fields that the first sixteen bytes of `s` hold.
    pub open spec fn at(s: Seq<u8>) -> Ptrace {
        Ptrace {
            process_pid: u32_at(s, 0),
            process_tgid: u32_at(s, 4),
            tracer_pid: u32_at(s, 8),
            tracer_tgid: u32_at(s, 12),
        }
    }

    /// Reads the four fields from the start of `buf`, and nothing after them.
    pub fn from_bytes(buf: &[u8]) -> (r: Result<Ptrace, FramingError>)
        ensures
            r == (if buf@.len() < 16 {
                Err(FramingError::Truncated)
            } else {
                Ok(Ptrace::at(buf@))
            }),
    {
        if buf.len() < 16 {
            return Err(FramingError::Truncated);
        }
        Ok(
            Ptrace {
                process_pid: get_u32(buf, 0),
                process_tgid: get_u32(buf, 4),
                tracer_pid: get_u32(buf, 8),
                tracer_tgid: get_u32(buf, 12),
            },
        )
    }
}

/// A process changed its command name.
#[derive(Debug, Clone, Copy, PartialEq, Eq)]
pub struct Command {
    pub process_pid: u32,
    pub process_tgid: u32,
    pub comm: [u8; 16],
}

impl Command {
    /// Whether the fields are those that the first twenty-four bytes of `s`
    /// hold.
    pub open spec fn is_at(&self, s: Seq<u8>) -> bool {
        &&& self.process_pid == u32_at(s, 0)
        &&& self.process_tgid == u32_at(s, 4)
        &&& self.comm@ == s.subrange(8, 24)
    }

    /// Reads the two ids and the name from the start of `buf`, and nothing
    /// after them.
    pub fn from_bytes(buf: &[u8]) -> (r: Result<Command, FramingError>)
        ensures
            match r {
                Ok(c) => buf@.len() >= 24 && c.is_at(buf@),
                Err(e) => buf@.len() < 24 && e == FramingError::Truncated,
            },
    {
        if buf.len() < 24 {
            return Err(FramingError::Truncated);
        }
        Ok(
            Command {
                process_pid: get_u32(buf, 0),
                process_tgid: get_u32(buf, 4),
                comm: get_array(buf, 8),
            },
        )
    }
}

/// A process ended.
#[derive(Debug, Clone, Copy, PartialEq, Eq)]
pub struct Exit {
    pub process_pid: u32,
    pub process_tgid: u32,
    pub exit_code: u32,
    pub exit_signal: u32,
}

impl Exit {
    /// The fields that the first sixteen bytes of `s` hold.
    pub open spec fn at(s: Seq<u8>) -> Exit {
        Exit {
            process_pid: u32_at(s, 0),
            process_tgid: u32_at(s, 4),
            exit_code: u32_at(s, 8),
            exit_signal: u32_at(s, 12),
        }
    }

    /// Reads the four fields from the start of `buf`, and nothing after them.
    pub fn from_bytes(buf: &[u8]) -> (r: Result<Exit, FramingError>)
        ensures
            r == (if buf@.len() < 16 {
                Err(FramingError::Truncated)
            } else {
                Ok(Exit::at(buf@))
            }),
    {
        if buf.len() < 16 {
            return Err(FramingError::Truncated);
        }
        Ok(
            Exit {
                process_pid: get_u32(buf, 0),
                process_tgid: get_u32(buf, 4),
                exit_code: get_u32(buf, 8),
                exit_signal: get_u32(buf, 12),
            },
        )
    }
}

/// What happened, with the fields of its kind.
#[derive(Debug, Clone, Copy, PartialEq, Eq)]
pub enum ProcEventRecord {
    Fork(Fork),
    Exec(Exec),
    UidChange(UidChange),
    GidChange(GidChange),
    SidChange(Sid),
    Ptrace(Ptrace),
    CommChange(Command),
    Exit(Exit),
    /// A kind without a layout known here, with its number.
    Unknown(u32),
}

/// The number of bytes that the fields of an event of kind `tag` take, after
/// the kind, the cpu and the timestamp.
pub open spec fn fields_len(tag: u32) -> nat {
    match EventTypes::spec_from_tag(tag) {
        Some(EventTypes::Fork) => 16,
        Some(EventTypes::Exec) => 8,
        Some(EventTypes::Uid) => 16,
        Some(EventTypes::Gid) => 16,
        Some(EventTypes::Sid) => 8,
        Some(EventTypes::Ptrace) => 16,
        Some(EventTypes::Comm) => 24,
        Some(EventTypes::Exit) => 16,
        Some(EventTypes::Nothing) => 0,
        None => 0,
    }
}

impl ProcEventRecord {
    /// Whether this is what the bytes `s` hold for an event of kind `tag`.
    /// A kind that has no fields known here gives `Unknown`, whatever `s` is.
    pub open spec fn is_at(&self, tag: u32, s: Seq<u8>) -> bool {
        match EventTypes::spec_from_tag(tag) {
            Some(EventTypes::Fork) => *self == ProcEventRecord::Fork(Fork::at(s)),
            Some(EventTypes::Exec) => *self == ProcEventRecord::Exec(Exec::at(s)),
            Some(EventTypes::Uid) => *self == ProcEventRecord::UidChange(UidChange::at(s)),
            Some(EventTypes::Gid) => *self == ProcEventRecord::GidChange(GidChange::at(s)),
            Some(EventTypes::Sid) => *self == ProcEventRecord::SidChange(Sid::at(s)),
            Some(EventTypes::Ptrace) => *self == ProcEventRecord::Ptrace(Ptrace::at(s)),
            Some(EventTypes::Comm) => *self matches ProcEventRecord::CommChange(c) && c.is_at(s),
            Some(EventTypes::Exit) => *self == ProcEventRecord::Exit(Exit::at(s)),
            Some(EventTypes::Nothing) => *self == ProcEventRecord::Unknown(tag),
            None => *self == ProcEventRecord::Unknown(tag),
        }
    }

    /// The number that stands on the wire for the kind of this event.
    pub open spec fn spec_what(&self) -> u32 {
        match self {
            ProcEventRecord::Fork(_) => EventTypes::Fork.spec_tag(),
            ProcEventRecord::Exec(_) => EventTypes::Exec.spec_tag(),
            ProcEventRecord::UidChange(_) => EventTypes::Uid.spec_tag(),
            ProcEventRecord::GidChange(_) => EventTypes::Gid.spec_tag(),
            ProcEventRecord::SidChange(_) => EventTypes::Sid.spec_tag(),
            ProcEventRecord::Ptrace(_) => EventTypes::Ptrace.spec_tag(),
            ProcEventRecord::CommChange(_) => EventTypes::Comm.spec_tag(),
            ProcEventRecord::Exit(_) => EventTypes::Exit.spec_tag(),
            ProcEventRecord::Unknown(tag) => *tag,
        }
    }

    /// Reads the fields of an event of kind `tag` from the start of `buf`:
    /// as many as the kind has, and none for a kind that is not known.
    pub fn from_bytes(tag: u32, buf: &[u8]) -> (r: Result<ProcEventRecord, FramingError>)
        ensures
            match r {
                Ok(event) => buf@.len() >= fields_len(tag) && event.is_at(tag, buf@),
                Err(e) => buf@.len() < fields_len(tag) && e == FramingError::Truncated,
            },
            EventTypes::spec_from_tag(tag) is None ==> r == Ok::<_, FramingError>(
                ProcEventRecord::Unknown(tag),
            ),
    {
        match EventTypes::from_tag(tag) {
            Some(EventTypes::Fork) => match Fork::from_bytes(buf) {
                Ok(f) => Ok(ProcEventRecord::Fork(f)),
                Err(e) => Err(e),
            },
            Some(EventTypes::Exec) => match Exec::from_bytes(buf) {
                Ok(f) => Ok(ProcEventRecord::Exec(f)),
                Err(e) => Err(e),
            },
            Some(EventTypes::Uid) => match UidChange::from_bytes(buf) {
                Ok(f) => Ok(ProcEventRecord::UidChange(f)),
                Err(e) => Err(e),
            },
            Some(EventTypes::Gid) => match GidChange::from_bytes(buf) {
                Ok(f) => Ok(ProcEventRecord::GidChange(f)),
                Err(e) => Err(e),
            },
            Some(EventTypes::Sid) => match Sid::from_bytes(buf) {
                Ok(f) => Ok(ProcEventRecord::SidChange(f)),
                Err(e) => Err(e),
            },
            Some(EventTypes::Ptrace) => match Ptrace::from_bytes(buf) {
                Ok(f) => Ok(ProcEventRecord::Ptrace(f)),
                Err(e) => Err(e),
            },
            Some(EventTypes::Comm) => match Command::from_bytes(buf) {
                Ok(f) => Ok(ProcEventRecord::CommChange(f)),
                Err(e) => Err(e),
            },
            Some(EventTypes::Exit) => match Exit::from_bytes(buf) {
                Ok(f) => Ok(ProcEventRecord::Exit(f)),
                Err(e) => Err(e),
            },
            Some(EventTypes::Nothing) => Ok(ProcEventRecord::Unknown(tag)),
            None => Ok(ProcEventRecord::Unknown(tag)),
        }
    }
}

/// A process event: where and when it happened, and what happened.
#[derive(Debug, Clone, Copy, PartialEq, Eq)]
pub struct proc_event {
    pub cpu: u32,
    /// Nanoseconds since the system started.
    pub timestamp: u64,
    pub data: ProcEventRecord,
}

impl proc_event {
    /// Whether this is the event that the bytes `s` hold: the kind in the
    /// first four, the cpu in the next four, the timestamp in the next
    /// eight, and the fields of the kind after them.
    pub open spec fn is_at(&self, s: Seq<u8>) -> bool {
        &&& self.cpu == u32_at(s, 4)
        &&& self.timestamp == u64_at(s, 8)
        &&& self.data.is_at(u32_at(s, 0), s.skip(EVENT_HDRLEN as int))
    }

    /// The number of bytes that an event takes whose kind the first four
    /// bytes of `s` hold.
    pub open spec fn len_at(s: Seq<u8>) -> nat {
        EVENT_HDRLEN as nat + fields_len(u32_at(s, 0))
    }

    /// Whether `r` is what decoding the bytes `s` gives: the event that
    /// they hold, where they are as many as an event of that kind takes, and
    /// `Truncated` where they are fewer.
    pub open spec fn decodes(s: Seq<u8>, r: Result<proc_event, FramingError>) -> bool {
        match r {
            Ok(event) => {
                &&& s.len() >= EVENT_HDRLEN
                &&& s.len() >= proc_event::len_at(s)
                &&& event.is_at(s)
            },
            Err(e) => {
                &&& e == FramingError::Truncated
                &&& s.len() < EVENT_HDRLEN || s.len() < proc_event::len_at(s)
            },
        }
    }

    /// Decodes the event at the start of `buf`.
    pub fn from_bytes(buf: &[u8]) -> (r: Result<proc_event, FramingError>)
        ensures
            proc_event::decodes(buf@, r),
    {
        let end: usize = buf.len();
        if end < EVENT_HDRLEN {
            return Err(FramingError::Truncated);
        }
        let what: u32 = get_u32(buf, 0);
        let cpu: u32 = get_u32(buf, 4);
        let timestamp: u64 = get_u64(buf, 8);
        let fields = slice_subrange(buf, EVENT_HDRLEN, end);
        assert(fields@ =~= buf@.skip(EVENT_HDRLEN as int));
        match ProcEventRecord::from_bytes(what, fields) {
            Ok(data) => Ok(proc_event { cpu, timestamp, data }),
            Err(e) => Err(e),
        }
    }

    /// The number that stands on the wire for the kind of this event.
    pub fn what(&self) -> (tag: u32)
        ensures
            tag == self.data.spec_what(),
    {
        match self.data {
            ProcEventRecord::Fork(_) => EventTypes::Fork.tag(),
            ProcEventRecord::Exec(_) => EventTypes::Exec.tag(),
            ProcEventRecord::UidChange(_) => EventTypes::Uid.tag(),
            ProcEventRecord::GidChange(_) => EventTypes::Gid.tag(),
            ProcEventRecord::SidChange(_) => EventTypes::Sid.tag(),
            ProcEventRecord::Ptrace(_) => EventTypes::Ptrace.tag(),
            ProcEventRecord::CommChange(_) => EventTypes::Comm.tag(),
            ProcEventRecord::Exit(_) => EventTypes::Exit.tag(),
            ProcEventRecord::Unknown(tag) => tag,
        }
    }

    /// The fields of a fork, if the event is one.
    pub fn fork(&self) -> (r: Option<&Fork>)
        ensures
            match r {
                Some(f) => self.data == ProcEventRecord::Fork(*f),
                None => !(self.data is Fork),
            },
    {
        match &self.data {
            ProcEventRecord::Fork(f) => Some(f),
            _ => None,
        }
    }

    /// The fields of an exec, if the event is one.
    pub fn exec(&self) -> (r: Option<&Exec>)
        ensures
            match r {
                Some(f) => self.data == ProcEventRecord::Exec(*f),
                None => !(self.data is Exec),
            },
    {
        match &self.data {
            ProcEventRecord::Exec(f) => Some(f),
            _ => None,
        }
    }

    /// The fields of a change of user id, if the event is one.
    pub fn uid_change(&self) -> (r: Option<&UidChange>)
        ensures
            match r {
                Some(f) => self.data == ProcEventRecord::UidChange(*f),
                None => !(self.data is UidChange),
            },
    {
        match &self.data {
            ProcEventRecord::UidChange(f) => Some(f),
            _ => None,
        }
    }

    /// The fields of a change of group id, if the event is one.
    pub fn gid_change(&self) -> (r: Option<&GidChange>)
        ensures
            match r {
                Some(f) => self.data == ProcEventRecord::GidChange(*f),
                None => !(self.data is GidChange),
            },
    {
        match &self.data {
            ProcEventRecord::GidChange(f) => Some(f),
            _ => None,
        }
    }

    /// The fields of a new session, if the event is one.
    pub fn sid_change(&self) -> (r: Option<&Sid>)
        ensures
            match r {
                Some(f) => self.data == ProcEventRecord::SidChange(*f),
                None => !(self.data is SidChange),
            },
    {
        match &self.data {
            ProcEventRecord::SidChange(f) => Some(f),
            _ => None,
        }
    }

    /// The fields of a trace, if the event is one.
    pub fn ptrace(&self) -> (r: Option<&Ptrace>)
        ensures
            match r {
                Some(f) => self.data == ProcEventRecord::Ptrace(*f),
                None => !(self.data is Ptrace),
            },
    {
        match &self.data {
            ProcEventRecord::Ptrace(f) => Some(f),
            _ => None,
        }
    }

    /// The fields of a change of command name, if the event is one.
    pub fn command(&self) -> (r: Option<&Command>)
        ensures
            match r {
                Some(f) => self.data == ProcEventRecord::CommChange(*f),
                None => !(self.data is CommChange),
            },
    {
        match &self.data {
            ProcEventRecord::CommChange(f) => Some(f),
            _ => None,
        }
    }

    /// The fields of an exit, if the event is one.
    pub fn exit(&self) -> (r: Option<&Exit>)
        ensures
            match r {
                Some(f) => self.data == ProcEventRecord::Exit(*f),
                None => !(self.data is Exit),
            },
    {
        match &self.data {
            ProcEventRecord::Exit(f) => Some(f),
            _ => None,
        }
    }
}

/// The bytes of the event inside a connector message: what follows the
/// message header and the connector header, as far as the connector header
/// says, or why there is no such thing.
pub open spec fn event_bytes(bytes: Seq<u8>) -> Result<Seq<u8>, FramingError> {
    match parse_envelope(bytes) {
        Err(e) => Err(e),
        Ok((_, payload)) => connector_body(payload),
    }
}

/// What follows the connector header in `payload`, as far as the header
/// says, or why there is no such thing.
pub open spec fn connector_body(payload: Seq<u8>) -> Result<Seq<u8>, FramingError> {
    if payload.len() < CN_MSG_LEN {
        Err(FramingError::Truncated)
    } else if cnmsg::at(payload).len > payload.len() - CN_MSG_LEN {
        Err(FramingError::Truncated)
    } else {
        Ok(payload.subrange(CN_MSG_LEN as int, CN_MSG_LEN + cnmsg::at(payload).len))
    }
}

impl cnprocmsg<proc_event> {
    /// Decodes a connector message that carries a process event: the
    /// header, then the event in the bytes that the header counts.
    pub fn from_bytes(payload: &[u8]) -> (r: Result<Self, FramingError>)
        ensures
            match connector_body(payload@) {
                Err(e) => r == Err::<Self, _>(e),
                Ok(body) => match r {
                    Ok(msg) => {
                        &&& msg.header == cnmsg::at(payload@)
                        &&& proc_event::decodes(body, Ok(msg.data))
                    },
                    Err(e) => proc_event::decodes(body, Err(e)),
                },
            },
    {
        let header = match cnmsg::from_bytes(payload) {
            Ok(header) => header,
            Err(e) => {
                return Err(e);
            },
        };
        let len: usize = header.len as usize;
        if len > payload.len() - CN_MSG_LEN {
            return Err(FramingError::Truncated);
        }
        let body = slice_subrange(payload, CN_MSG_LEN, CN_MSG_LEN + len);
        match proc_event::from_bytes(body) {
            Ok(data) => Ok(cnprocmsg { header, data }),
            Err(e) => Err(e),
        }
    }
}

/// Decodes a message of the process-event connector as it came from the
/// socket: the message header, the connector header, then the event.
pub fn decode_event(bytes: &[u8]) -> (r: Result<proc_event, FramingError>)
    ensures
        match event_bytes(bytes@) {
            Err(e) => r == Err::<proc_event, _>(e),
            Ok(body) => proc_event::decodes(body, r),
        },
{
    let msg = match NetlinkMessage::from_bytes(bytes) {
        Ok(msg) => msg,
        Err(e) => {
            return Err(e);
        },
    };
    match cnprocmsg::from_bytes(msg.data.as_slice()) {
        Ok(cn) => Ok(cn.data),
        Err(e) => Err(e),
    }
}

/// Whether the caller has asked for process events.
#[derive(Debug, Clone, Copy, PartialEq, Eq)]
pub enum Subscription {
    Unsubscribed,
    Subscribed,
}

/// The bytes of a control message of the process-event connector that
/// carries the word `op`.
pub open spec fn control_wire(op: u32, sequence: u32, port_id: u32) -> Seq<u8> {
    envelope_wire(
        NLMSG_DONE,
        0,
        sequence,
        port_id,
        (cnmsg { idx: 1, val: 1, seq: 0, ack: 0, len: 4, flags: 0 }).wire() + le32(op),
    )
}

impl Subscription {
    /// The state of a connection on which nothing was asked for yet.
    pub fn new() -> (state: Subscription)
        ensures
            state == Subscription::Unsubscribed,
    {
        Subscription::Unsubscribed
    }

    /// Moves to `Subscribed` and gives the message to send for it.
    pub fn listen(&mut self, sequence: u32, port_id: u32) -> (bytes: Vec<u8>)
        ensures
            *final(self) == Subscription::Subscribed,
            bytes@ == control_wire(1, sequence, port_id),
    {
        *self = Subscription::Subscribed;
        NetlinkMessage::new(cnprocmsg::listen(), NLMSG_DONE, 0, sequence, port_id).as_bytes()
    }

    /// Moves to `Unsubscribed` and gives the message to send for it.
    pub fn ignore(&mut self, sequence: u32, port_id: u32) -> (bytes: Vec<u8>)
        ensures
            *final(self) == Subscription::Unsubscribed,
            bytes@ == control_wire(2, sequence, port_id),
    {
        *self = Subscription::Unsubscribed;
        NetlinkMessage::new(cnprocmsg::ignore(), NLMSG_DONE, 0, sequence, port_id).as_bytes()
    }
}

} // verus!
