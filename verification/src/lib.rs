//! Wire codecs for the Linux netlink protocols that report on processes:
//! the process-event connector, generic-netlink family lookup and taskstats.
//!
//! Everything here works on bytes that the caller has read from, or will
//! write to, a netlink socket. Nothing here touches a socket itself.

#![allow(non_camel_case_types)]

pub mod connector;
pub mod error;
pub mod generic;
pub mod socket;
pub mod taskstats;
pub mod wire;

use crate::error::FramingError;
use crate::wire::{align4, get_u16, get_u32, le16, le32, put_u16, put_u32, u16_at, u32_at, Payload};
use vstd::prelude::*;
use vstd::slice::{slice_subrange, slice_to_vec};

verus! {

/// Message type: nothing, to be skipped.
pub const NLMSG_NOOP: u16 = 0x1;

/// Message type: an error report, or an acknowledgement.
pub const NLMSG_ERROR: u16 = 0x2;

/// Message type: the end of a multipart message.
pub const NLMSG_DONE: u16 = 0x3;

/// Message type: data was lost.
pub const NLMSG_OVERRUN: u16 = 0x4;

/// Flag: the message is a request.
pub const NLM_F_REQUEST: u16 = 1;

/// Flag: the message is one part of several, ended by `NLMSG_DONE`.
pub const NLM_F_MULTI: u16 = 2;

/// Flag: an acknowledgement is asked for.
pub const NLM_F_ACK: u16 = 4;

/// Flag: the request is to be echoed.
pub const NLM_F_ECHO: u16 = 8;

/// Flag: a dump was inconsistent because of a sequence change.
pub const NLM_F_DUMP_INTR: u16 = 16;

/// The size of the message header. The payload starts at this size rounded
/// up to a multiple of four, which is this size itself.
pub const NLMSG_HDRLEN: usize = 16;

/// The header that starts every netlink message.
#[derive(Copy, Clone, Debug, PartialEq, Eq)]
pub struct nlmsghdr {
    /// Length of the whole message, header included.
    pub nlmsg_len: u32,
    pub nlmsg_type: u16,
    pub nlmsg_flags: u16,
    pub nlmsg_seq: u32,
    /// Port id of the sender.
    pub nlmsg_pid: u32,
}

impl nlmsghdr {
    /// The sixteen bytes of the header.
    pub open spec fn wire(&self) -> Seq<u8> {
        le32(self.nlmsg_len) + le16(self.nlmsg_type) + le16(self.nlmsg_flags) + le32(
            self.nlmsg_seq,
        ) + le32(self.nlmsg_pid)
    }

    /// The header that the first sixteen bytes of `s` hold.
    pub open spec fn at(s: Seq<u8>) -> nlmsghdr {
        nlmsghdr {
            nlmsg_len: u32_at(s, 0),
            nlmsg_type: u16_at(s, 4),
            nlmsg_flags: u16_at(s, 6),
            nlmsg_seq: u32_at(s, 8),
            nlmsg_pid: u32_at(s, 12),
        }
    }
}

/// A netlink message: the header and what it carries.
#[derive(Debug)]
pub struct NetlinkMessage<T> {
    pub header: nlmsghdr,
    pub data: T,
}

/// The bytes of a message with the given header fields and payload, its
/// length field set to the length of the whole.
pub open spec fn envelope_wire(
    msgtype: u16,
    flags: u16,
    sequence: u32,
    port_id: u32,
    payload: Seq<u8>,
) -> Seq<u8> {
    nlmsghdr {
        nlmsg_len: (NLMSG_HDRLEN + payload.len()) as u32,
        nlmsg_type: msgtype,
        nlmsg_flags: flags,
        nlmsg_seq: sequence,
        nlmsg_pid: port_id,
    }.wire() + payload
}

/// What a buffer decodes to: the header and the payload bytes of the first
/// message in it, or why there is none.
pub open spec fn parse_envelope(s: Seq<u8>) -> Result<(nlmsghdr, Seq<u8>), FramingError> {
    let header = nlmsghdr::at(s);
    if s.len() < NLMSG_HDRLEN {
        Err(FramingError::Truncated)
    } else if header.nlmsg_len > s.len() {
        Err(FramingError::Truncated)
    } else if header.nlmsg_len < NLMSG_HDRLEN {
        Err(FramingError::LengthMismatch)
    } else {
        Ok((header, s.subrange(NLMSG_HDRLEN as int, header.nlmsg_len as int)))
    }
}

impl<T: Payload> NetlinkMessage<T> {
    /// Whether the header's length is the length of the encoded message.
    pub open spec fn wf(&self) -> bool {
        &&& self.data.wf()
        &&& self.header.nlmsg_len == NLMSG_HDRLEN + self.data.wire().len()
    }

    /// The bytes of the message.
    pub open spec fn wire(&self) -> Seq<u8> {
        envelope_wire(
            self.header.nlmsg_type,
            self.header.nlmsg_flags,
            self.header.nlmsg_seq,
            self.header.nlmsg_pid,
            self.data.wire(),
        )
    }

    /// A message of type `msgtype` that carries `data`.
    pub fn new(data: T, msgtype: u16, flags: u16, sequence: u32, port_id: u32) -> (msg: Self)
        requires
            data.wf(),
            NLMSG_HDRLEN + data.wire().len() <= u32::MAX,
        ensures
            msg.wf(),
            msg.data == data,
            msg.header == (nlmsghdr {
                nlmsg_len: (NLMSG_HDRLEN + data.wire().len()) as u32,
                nlmsg_type: msgtype,
                nlmsg_flags: flags,
                nlmsg_seq: sequence,
                nlmsg_pid: port_id,
            }),
    {
        let len: usize = NLMSG_HDRLEN + data.wire_len();
        NetlinkMessage {
            header: nlmsghdr {
                nlmsg_len: len as u32,
                nlmsg_type: msgtype,
                nlmsg_flags: flags,
                nlmsg_seq: sequence,
                nlmsg_pid: port_id,
            },
            data,
        }
    }

    /// Encodes the message. The header goes out first with an empty length
    /// field; the length is written into it once the payload is in place.
    pub fn as_bytes(&self) -> (bytes: Vec<u8>)
        requires
            self.data.wf(),
            NLMSG_HDRLEN + self.data.wire().len() <= u32::MAX,
        ensures
            bytes@ == self.wire(),
            bytes@.len() == NLMSG_HDRLEN + self.data.wire().len(),
            self.wf() ==> bytes@ == self.header.wire() + self.data.wire(),
            self.wf() ==> bytes@.len() == self.header.nlmsg_len,
    {
        let mut out: Vec<u8> = Vec::new();
        put_u32(&mut out, 0);
        put_u16(&mut out, self.header.nlmsg_type);
        put_u16(&mut out, self.header.nlmsg_flags);
        put_u32(&mut out, self.header.nlmsg_seq);
        put_u32(&mut out, self.header.nlmsg_pid);
        self.data.put(&mut out);
        let total: usize = out.len();
        let mut length: Vec<u8> = Vec::new();
        put_u32(&mut length, total as u32);
        out.set(0, length[0]);
        out.set(1, length[1]);
        out.set(2, length[2]);
        out.set(3, length[3]);
        assert(out@ =~= self.wire());
        out
    }
}

impl NetlinkMessage<Vec<u8>> {
    /// Decodes the first message in `buf`. The payload is copied out of the
    /// buffer and left undecoded.
    pub fn from_bytes(buf: &[u8]) -> (r: Result<NetlinkMessage<Vec<u8>>, FramingError>)
        ensures
            match r {
                Ok(msg) => parse_envelope(buf@) == Ok::<_, FramingError>((msg.header, msg.data@)),
                Err(e) => parse_envelope(buf@) == Err::<(nlmsghdr, Seq<u8>), _>(e),
            },
            buf@.len() < NLMSG_HDRLEN ==> r matches Err(FramingError::Truncated),
    {
        if buf.len() < NLMSG_HDRLEN {
            return Err(FramingError::Truncated);
        }
        let header = nlmsghdr {
            nlmsg_len: get_u32(buf, 0),
            nlmsg_type: get_u16(buf, 4),
            nlmsg_flags: get_u16(buf, 6),
            nlmsg_seq: get_u32(buf, 8),
            nlmsg_pid: get_u32(buf, 12),
        };
        let total: usize = header.nlmsg_len as usize;
        if total > buf.len() {
            return Err(FramingError::Truncated);
        }
        if total < NLMSG_HDRLEN {
            return Err(FramingError::LengthMismatch);
        }
        let data: Vec<u8> = slice_to_vec(slice_subrange(buf, NLMSG_HDRLEN, total));
        Ok(NetlinkMessage { header, data })
    }
}

/// The payload of a message starts at a multiple of four: no padding stands
/// between the header and the payload.
pub proof fn lemma_payload_is_aligned()
    ensures
        align4(NLMSG_HDRLEN as int) == NLMSG_HDRLEN,
{
}

/// Decoding an encoded message gives back its header fields and the bytes of
/// its payload, and the length in the decoded header is the length of the
/// encoding.
pub proof fn lemma_envelope_round_trip(
    msgtype: u16,
    flags: u16,
    sequence: u32,
    port_id: u32,
    payload: Seq<u8>,
)
    requires
        NLMSG_HDRLEN + payload.len() <= u32::MAX,
    ensures
        parse_envelope(envelope_wire(msgtype, flags, sequence, port_id, payload)) matches Ok(
            (header, data),
        ) && {
            &&& header.nlmsg_len == envelope_wire(msgtype, flags, sequence, port_id, payload).len()
            &&& header.nlmsg_type == msgtype
            &&& header.nlmsg_flags == flags
            &&& header.nlmsg_seq == sequence
            &&& header.nlmsg_pid == port_id
            &&& data == payload
        },
{
    let total = (NLMSG_HDRLEN + payload.len()) as u32;
    let bytes = envelope_wire(msgtype, flags, sequence, port_id, payload);
    crate::wire::lemma_le32_round_trip(total);
    crate::wire::lemma_le16_round_trip(msgtype);
    crate::wire::lemma_le16_round_trip(flags);
    crate::wire::lemma_le32_round_trip(sequence);
    crate::wire::lemma_le32_round_trip(port_id);
    assert(bytes.subrange(NLMSG_HDRLEN as int, total as int) =~= payload);
}

/// Decoding the encoding of a well-formed message gives back its header
/// and the bytes of its payload, and the length in the header is the length
/// of the encoding.
pub proof fn lemma_message_round_trip<T: Payload>(msg: NetlinkMessage<T>)
    requires
        msg.wf(),
    ensures
        parse_envelope(msg.wire()) == Ok::<_, FramingError>((msg.header, msg.data.wire())),
        msg.header.nlmsg_len == msg.wire().len(),
{
    lemma_envelope_round_trip(
        msg.header.nlmsg_type,
        msg.header.nlmsg_flags,
        msg.header.nlmsg_seq,
        msg.header.nlmsg_pid,
        msg.data.wire(),
    );
}

} // verus!
