//! Generic netlink: the family header, attributes, and the lookup of a
//! family's id by its name.

use crate::error::{AttributeError, FramingError, NetlinkError, ProtocolError};
use crate::wire::{
    align4, align4_of, get_u16, le16, lemma_le16_round_trip, put_bytes, put_u16, put_zeros, u16_at,
    zeros, Payload,
};
use crate::{parse_envelope, envelope_wire, NetlinkMessage, NLMSG_ERROR, NLM_F_REQUEST};
use vstd::prelude::*;
use vstd::slice::{slice_subrange, slice_to_vec};
use vstd::string::StringSliceAdditionalSpecFns;

verus! {

/// The number that the kernel gives a family when it is registered. It is
/// found by asking the controller, and holds on the connection that asked.
pub type FamilyId = u16;

/// The family id of the generic-netlink controller itself.
pub const GENL_ID_CTRL: u32 = 0x10;

/// The size of the generic-netlink header.
pub const GENL_HDRLEN: usize = 4;

/// The size of an attribute's header.
pub const NLA_HDRLEN: usize = 4;

/// The width of the field that carries a family name in a lookup.
pub const FAMILY_NAME_LEN: usize = 12;

/// Commands of the generic-netlink controller.
#[derive(Debug, Clone, Copy, PartialEq, Eq)]
pub enum Command {
    Unspec,
    NewFamily,
    DelFamily,
    GetFamily,
    NewOps,
    DelOps,
    GetOps,
    NewMcastGrp,
    DelMcastGrp,
    GetMcastGrp,
}

impl Command {
    /// The number that stands for the command on the wire.
    pub open spec fn spec_code(&self) -> u8 {
        match self {
            Command::Unspec => 0,
            Command::NewFamily => 1,
            Command::DelFamily => 2,
            Command::GetFamily => 3,
            Command::NewOps => 4,
            Command::DelOps => 5,
            Command::GetOps => 6,
            Command::NewMcastGrp => 7,
            Command::DelMcastGrp => 8,
            Command::GetMcastGrp => 9,
        }
    }

    /// The number that stands for the command on the wire.
    #[verifier::when_used_as_spec(spec_code)]
    pub fn code(&self) -> (n: u8)
        ensures
            n == self.spec_code(),
    {
        match self {
            Command::Unspec => 0,
            Command::NewFamily => 1,
            Command::DelFamily => 2,
            Command::GetFamily => 3,
            Command::NewOps => 4,
            Command::DelOps => 5,
            Command::GetOps => 6,
            Command::NewMcastGrp => 7,
            Command::DelMcastGrp => 8,
            Command::GetMcastGrp => 9,
        }
    }
}

/// Attribute types of the generic-netlink controller.
#[derive(Debug, Clone, Copy, PartialEq, Eq)]
pub enum CommandAttr {
    Unspec,
    FamilyId,
    FamilyName,
    Version,
    HdrSize,
    MaxAttr,
    Ops,
    McastGroups,
}

impl CommandAttr {
    /// The number that stands for the attribute type on the wire.
    pub open spec fn spec_code(&self) -> u16 {
        match self {
            CommandAttr::Unspec => 0,
            CommandAttr::FamilyId => 1,
            CommandAttr::FamilyName => 2,
            CommandAttr::Version => 3,
            CommandAttr::HdrSize => 4,
            CommandAttr::MaxAttr => 5,
            CommandAttr::Ops => 6,
            CommandAttr::McastGroups => 7,
        }
    }

    /// The number that stands for the attribute type on the wire.
    #[verifier::when_used_as_spec(spec_code)]
    pub fn code(&self) -> (n: u16)
        ensures
            n == self.spec_code(),
    {
        match self {
            CommandAttr::Unspec => 0,
            CommandAttr::FamilyId => 1,
            CommandAttr::FamilyName => 2,
            CommandAttr::Version => 3,
            CommandAttr::HdrSize => 4,
            CommandAttr::MaxAttr => 5,
            CommandAttr::Ops => 6,
            CommandAttr::McastGroups => 7,
        }
    }
}

/// The header of a generic-netlink message.
#[derive(Debug, Clone, Copy, PartialEq, Eq)]
pub struct genlmsghdr {
    pub cmd: u8,
    pub version: u8,
    pub reserved: u16,
}

impl genlmsghdr {
    /// The four bytes of the header.
    pub open spec fn wire(&self) -> Seq<u8> {
        seq![self.cmd, self.version] + le16(self.reserved)
    }

    /// The header that the first four bytes of `s` hold.
    pub open spec fn at(s: Seq<u8>) -> genlmsghdr {
        genlmsghdr { cmd: s[0], version: s[1], reserved: u16_at(s, 2) }
    }
}

/// An attribute: a length, a type and a value. The length counts the header
/// and the value, and no padding.
#[derive(Debug, Clone, PartialEq, Eq)]
pub struct nlattr<T> {
    pub nla_len: u16,
    pub nla_type: u16,
    pub data: T,
}

/// A generic-netlink message: the header and what follows it.
#[derive(Debug)]
pub struct GenetlinkMessage<T> {
    pub header: genlmsghdr,
    pub data: T,
}

impl<T: Payload> nlattr<T> {
    /// An attribute of type `nla_type` with the value `data`.
    pub fn new(nla_type: u16, data: T) -> (attr: Self)
        requires
            data.wf(),
            NLA_HDRLEN + data.wire().len() <= u16::MAX,
        ensures
            attr.wf(),
            attr.nla_len == NLA_HDRLEN + data.wire().len(),
            attr.nla_type == nla_type,
            attr.data == data,
    {
        let len: usize = NLA_HDRLEN + data.wire_len();
        nlattr { nla_len: len as u16, nla_type, data }
    }
}

impl<T: Payload> Payload for nlattr<T> {
    open spec fn wf(&self) -> bool {
        &&& self.data.wf()
        &&& self.nla_len == NLA_HDRLEN + self.data.wire().len()
    }

    open spec fn wire(&self) -> Seq<u8> {
        le16(self.nla_len) + le16(self.nla_type) + self.data.wire()
    }

    fn wire_len(&self) -> (n: usize) {
        self.nla_len as usize
    }

    fn put(&self, out: &mut Vec<u8>) {
        put_u16(out, self.nla_len);
        put_u16(out, self.nla_type);
        self.data.put(out);
        assert(out@ =~= old(out)@ + self.wire());
    }
}

impl<T: Payload> Payload for GenetlinkMessage<T> {
    open spec fn wf(&self) -> bool {
        &&& self.data.wf()
        &&& GENL_HDRLEN + self.data.wire().len() <= usize::MAX
    }

    open spec fn wire(&self) -> Seq<u8> {
        self.header.wire() + self.data.wire()
    }

    fn wire_len(&self) -> (n: usize) {
        GENL_HDRLEN + self.data.wire_len()
    }

    fn put(&self, out: &mut Vec<u8>) {
        out.push(self.header.cmd);
        out.push(self.header.version);
        put_u16(out, self.header.reserved);
        self.data.put(out);
        assert(out@ =~= old(out)@ + self.wire());
    }
}

impl<T: Payload> GenetlinkMessage<T> {
    /// A message with the command `cmd`, version 1, and a single attribute of
    /// type `attr` with the value `data`.
    pub fn new(cmd: u8, attr: u16, data: T) -> (msg: GenetlinkMessage<nlattr<T>>)
        requires
            data.wf(),
            NLA_HDRLEN + data.wire().len() <= u16::MAX,
        ensures
            msg.wf(),
            msg.header == (genlmsghdr { cmd, version: 1, reserved: 0 }),
            msg.data.nla_len == NLA_HDRLEN + data.wire().len(),
            msg.data.nla_type == attr,
            msg.data.data == data,
    {
        GenetlinkMessage {
            header: genlmsghdr { cmd, version: 1, reserved: 0 },
            data: nlattr::new(attr, data),
        }
    }
}

/// An attribute as a pair of its type and its value.
pub open spec fn attr_view(attr: nlattr<Vec<u8>>) -> (u16, Seq<u8>) {
    (attr.nla_type, attr.data@)
}

/// A list of attributes as pairs of type and value.
pub open spec fn attrs_view(attrs: Seq<nlattr<Vec<u8>>>) -> Seq<(u16, Seq<u8>)> {
    Seq::new(attrs.len(), |i: int| attr_view(attrs[i]))
}

/// The bytes of one attribute with the given type and value, unpadded.
pub open spec fn attr_wire(nla_type: u16, value: Seq<u8>) -> Seq<u8> {
    le16((NLA_HDRLEN + value.len()) as u16) + le16(nla_type) + value
}

/// The zero bytes that follow an attribute of `len` bytes when another
/// attribute comes after it.
pub open spec fn attr_padding(len: int) -> Seq<u8> {
    zeros((align4(len) - len) as nat)
}

/// The bytes of a list of attributes: each but the last is followed by
/// padding to the next multiple of four.
pub open spec fn attrs_wire(attrs: Seq<(u16, Seq<u8>)>) -> Seq<u8>
    decreases attrs.len(),
{
    if attrs.len() == 0 {
        Seq::empty()
    } else if attrs.len() == 1 {
        attr_wire(attrs[0].0, attrs[0].1)
    } else {
        attr_wire(attrs[0].0, attrs[0].1) + attr_padding(NLA_HDRLEN + attrs[0].1.len())
            + attrs_wire(attrs.skip(1))
    }
}

/// Whether the value of each attribute is short enough for its length to fit
/// the length field.
pub open spec fn attrs_fit(attrs: Seq<(u16, Seq<u8>)>) -> bool {
    forall|i: int| 0 <= i < attrs.len() ==> NLA_HDRLEN + (#[trigger] attrs[i]).1.len() <= u16::MAX
}

/// The attribute that stands at offset `cursor` of `s`, as its type and
/// value, and the offset where the next one starts: the end of this one
/// rounded up to a multiple of four, and never past the end of `s`. `None`
/// where the attribute declares a length under four or past the end of `s`.
pub open spec fn attr_at(s: Seq<u8>, cursor: int) -> Option<((u16, Seq<u8>), int)> {
    let len = u16_at(s, cursor) as int;
    if s.len() - cursor < NLA_HDRLEN {
        None
    } else if len < NLA_HDRLEN || len > s.len() - cursor {
        None
    } else {
        Some(
            (
                (u16_at(s, cursor + 2), s.subrange(cursor + NLA_HDRLEN, cursor + len)),
                if align4(cursor + len) < s.len() {
                    align4(cursor + len)
                } else {
                    s.len() as int
                },
            ),
        )
    }
}

/// The attributes that a buffer holds, in order, or `None` where one of them
/// declares a length under four or past the end of the buffer. The first
/// stands at the start of the buffer, and each of the others where the one
/// before it ends, rounded up to a multiple of four.
pub open spec fn parse_attrs(s: Seq<u8>) -> Option<Seq<(u16, Seq<u8>)>>
    decreases s.len(),
{
    if s.len() == 0 {
        Some(Seq::empty())
    } else {
        match attr_at(s, 0) {
            None => None,
            Some((item, next)) => prepend(seq![item], parse_attrs(s.skip(next))),
        }
    }
}

/// The value of the first attribute of type `nla_type`, if there is one.
pub open spec fn first_of(attrs: Seq<(u16, Seq<u8>)>, nla_type: u16) -> Option<Seq<u8>>
    decreases attrs.len(),
{
    if attrs.len() == 0 {
        None
    } else if attrs[0].0 == nla_type {
        Some(attrs[0].1)
    } else {
        first_of(attrs.skip(1), nla_type)
    }
}

/// `front` put before what `rest` holds.
pub open spec fn prepend(front: Seq<(u16, Seq<u8>)>, rest: Option<Seq<(u16, Seq<u8>)>>) -> Option<
    Seq<(u16, Seq<u8>)>,
> {
    match rest {
        None => None,
        Some(rest) => Some(front + rest),
    }
}

impl nlattr<Vec<u8>> {
    /// The bytes of an attribute of type `type_tag` with the value `value`:
    /// the length, the type, the value, and no padding.
    pub fn encode(type_tag: u16, value: &[u8]) -> (bytes: Vec<u8>)
        requires
            NLA_HDRLEN + value@.len() <= u16::MAX,
        ensures
            bytes@ == attr_wire(type_tag, value@),
            bytes@.len() == NLA_HDRLEN + value@.len(),
    {
        let mut out: Vec<u8> = Vec::new();
        let len: usize = NLA_HDRLEN + value.len();
        put_u16(&mut out, len as u16);
        put_u16(&mut out, type_tag);
        put_bytes(&mut out, value);
        assert(out@ =~= attr_wire(type_tag, value@));
        out
    }

    /// One step of the walk: the attribute at offset `cursor` of `buf`, and
    /// the offset of the one after it. At or past the end of the buffer there
    /// is none.
    pub fn next_at(buf: &[u8], cursor: usize) -> (r: Result<
        Option<(nlattr<Vec<u8>>, usize)>,
        AttributeError,
    >)
        ensures
            cursor >= buf@.len() ==> r matches Ok(None),
            cursor < buf@.len() ==> match attr_at(buf@, cursor as int) {
                None => r matches Err(AttributeError::Malformed),
                Some((item, after)) => {
                    &&& r matches Ok(Some((attr, next)))
                    &&& attr_view(attr) == item
                    &&& attr.wf()
                    &&& next == after
                    &&& cursor < next <= buf@.len()
                },
            },
    {
        let end: usize = buf.len();
        if cursor >= end {
            return Ok(None);
        }
        if end - cursor < NLA_HDRLEN {
            return Err(AttributeError::Malformed);
        }
        let nla_len: u16 = get_u16(buf, cursor);
        let nla_type: u16 = get_u16(buf, cursor + 2);
        let len: usize = nla_len as usize;
        if len < NLA_HDRLEN || len > end - cursor {
            return Err(AttributeError::Malformed);
        }
        let data: Vec<u8> = slice_to_vec(slice_subrange(buf, cursor + NLA_HDRLEN, cursor + len));
        let stop: usize = cursor + len;
        let fill: usize = if stop % 4 == 0 {
            0
        } else {
            4 - stop % 4
        };
        assert(align4(stop as int) == stop + fill);
        let next: usize = if fill < end - stop {
            stop + fill
        } else {
            end
        };
        Ok(Some((nlattr { nla_len, nla_type, data }, next)))
    }

    /// Walks the attributes in `buf` from its start to its end and copies
    /// each one out. Fails where an attribute would reach past the buffer.
    pub fn iterate(buf: &[u8]) -> (r: Result<Vec<nlattr<Vec<u8>>>, AttributeError>)
        ensures
            match r {
                Ok(attrs) => {
                    &&& parse_attrs(buf@) == Some(attrs_view(attrs@))
                    &&& forall|i: int| 0 <= i < attrs@.len() ==> (#[trigger] attrs@[i]).wf()
                },
                Err(e) => e == AttributeError::Malformed && parse_attrs(buf@) is None,
            },
    {
        let mut attrs: Vec<nlattr<Vec<u8>>> = Vec::new();
        let mut cursor: usize = 0;
        let end: usize = buf.len();
        assert(buf@.skip(0) =~= buf@);
        assert(attrs_view(attrs@) + parse_attrs(buf@).unwrap() =~= parse_attrs(buf@).unwrap());
        loop
            invariant
                end == buf@.len(),
                cursor <= end,
                cursor % 4 == 0 || cursor == end,
                parse_attrs(buf@) == prepend(attrs_view(attrs@), parse_attrs(buf@.skip(cursor as int))),
                forall|i: int| 0 <= i < attrs@.len() ==> (#[trigger] attrs@[i]).wf(),
            decreases end - cursor,
        {
            proof {
                if cursor < end {
                    lemma_parse_step(buf@, cursor as int);
                }
            }
            match Self::next_at(buf, cursor) {
                Err(e) => {
                    return Err(e);
                },
                Ok(None) => {
                    assert(attrs_view(attrs@) + Seq::<(u16, Seq<u8>)>::empty() =~= attrs_view(
                        attrs@,
                    ));
                    return Ok(attrs);
                },
                Ok(Some((attr, next))) => {
                    proof {
                        let before = attrs_view(attrs@);
                        let item = seq![attr_view(attr)];
                        let tail = parse_attrs(buf@.skip(next as int));
                        assert(attrs_view(attrs@.push(attr)) =~= before + item);
                        if tail is Some {
                            assert(before + (item + tail.unwrap()) =~= (before + item)
                                + tail.unwrap());
                        }
                    }
                    attrs.push(attr);
                    cursor = next;
                },
            }
        }
    }
}

/// From an offset that is a multiple of four, the attributes in the rest of
/// the buffer are the one at the offset and then those from the next
/// offset on.
pub proof fn lemma_parse_step(s: Seq<u8>, cursor: int)
    requires
        0 <= cursor < s.len(),
        cursor % 4 == 0,
    ensures
        parse_attrs(s.skip(cursor)) == match attr_at(s, cursor) {
            None => None::<Seq<(u16, Seq<u8>)>>,
            Some((item, next)) => prepend(seq![item], parse_attrs(s.skip(next))),
        },
        attr_at(s, cursor) matches Some((_, next)) ==> next % 4 == 0 || next == s.len(),
{
    let rest = s.skip(cursor);
    if rest.len() >= NLA_HDRLEN {
        let len = u16_at(rest, 0) as int;
        assert(u16_at(s, cursor) == len);
        assert(u16_at(rest, 2) == u16_at(s, cursor + 2));
        if NLA_HDRLEN <= len <= rest.len() {
            let step = if align4(len) < rest.len() {
                align4(len)
            } else {
                rest.len() as int
            };
            assert(align4(cursor + len) == cursor + align4(len));
            assert(rest.skip(step) =~= s.skip(cursor + step));
            assert(rest.subrange(NLA_HDRLEN as int, len) =~= s.subrange(
                cursor + NLA_HDRLEN,
                cursor + len,
            ));
        }
    }
}

/// The index of the first attribute of type `nla_type`, if there is one.
pub fn find(attrs: &Vec<nlattr<Vec<u8>>>, nla_type: u16) -> (r: Option<usize>)
    ensures
        match r {
            Some(i) => {
                &&& i < attrs@.len()
                &&& attrs@[i as int].nla_type == nla_type
                &&& forall|j: int| 0 <= j < i ==> (#[trigger] attrs@[j]).nla_type != nla_type
                &&& first_of(attrs_view(attrs@), nla_type) == Some(attrs@[i as int].data@)
            },
            None => {
                &&& forall|j: int| 0 <= j < attrs@.len() ==> (#[trigger] attrs@[j]).nla_type != nla_type
                &&& first_of(attrs_view(attrs@), nla_type) is None
            },
        },
{
    let mut i: usize = 0;
    let ghost all = attrs_view(attrs@);
    assert(all.skip(0) =~= all);
    while i < attrs.len()
        invariant
            i <= attrs@.len(),
            all == attrs_view(attrs@),
            forall|j: int| 0 <= j < i ==> (#[trigger] attrs@[j]).nla_type != nla_type,
            first_of(all, nla_type) == first_of(all.skip(i as int), nla_type),
        decreases attrs@.len() - i,
    {
        if attrs[i].nla_type == nla_type {
            return Some(i);
        }
        assert(all.skip(i as int).skip(1) =~= all.skip(i + 1));
        i = i + 1;
    }
    None
}

/// What the encoding of an attribute holds, whatever bytes come after it:
/// its length, its type and its value, each in its place.
pub proof fn lemma_attr_wire_head(nla_type: u16, value: Seq<u8>, after: Seq<u8>)
    requires
        NLA_HDRLEN + value.len() <= u16::MAX,
    ensures
        attr_wire(nla_type, value).len() == NLA_HDRLEN + value.len(),
        u16_at(attr_wire(nla_type, value) + after, 0) == NLA_HDRLEN + value.len(),
        u16_at(attr_wire(nla_type, value) + after, 2) == nla_type,
        (attr_wire(nla_type, value) + after).subrange(
            NLA_HDRLEN as int,
            NLA_HDRLEN + value.len(),
        ) == value,
{
    let len = (NLA_HDRLEN + value.len()) as u16;
    let s = attr_wire(nla_type, value) + after;
    lemma_le16_round_trip(len);
    lemma_le16_round_trip(nla_type);
    assert(s[0] == le16(len)[0]);
    assert(s[1] == le16(len)[1]);
    assert(s[2] == le16(nla_type)[0]);
    assert(s[3] == le16(nla_type)[1]);
    assert(s.subrange(NLA_HDRLEN as int, NLA_HDRLEN + value.len()) =~= value);
}

/// What stands at the start of an encoded attribute, whatever bytes come
/// after it: that attribute, and the next one at its end rounded up to a
/// multiple of four, or at the end of the bytes where that comes first.
pub proof fn lemma_attr_at_head(nla_type: u16, value: Seq<u8>, after: Seq<u8>)
    requires
        NLA_HDRLEN + value.len() <= u16::MAX,
    ensures
        attr_at(attr_wire(nla_type, value) + after, 0) == Some(
            (
                (nla_type, value),
                if align4(NLA_HDRLEN + value.len()) < NLA_HDRLEN + value.len() + after.len() {
                    align4(NLA_HDRLEN + value.len())
                } else {
                    NLA_HDRLEN + value.len() + after.len()
                },
            ),
        ),
{
    lemma_attr_wire_head(nla_type, value, after);
}

/// The encoding of a list from its attribute `i` on is the encoding of that
/// attribute and, where more follow, the padding and the encoding of the
/// list from the next attribute on.
pub proof fn lemma_attrs_wire_from(attrs: Seq<(u16, Seq<u8>)>, i: int)
    requires
        0 <= i < attrs.len(),
    ensures
        attrs_wire(attrs.skip(i)) == attr_wire(attrs[i].0, attrs[i].1) + (if i + 1 < attrs.len() {
            attr_padding(NLA_HDRLEN + attrs[i].1.len()) + attrs_wire(attrs.skip(i + 1))
        } else {
            Seq::empty()
        }),
        i + 1 == attrs.len() ==> attrs_wire(attrs.skip(i + 1)) == Seq::<u8>::empty(),
{
    let from = attrs.skip(i);
    let head = attr_wire(attrs[i].0, attrs[i].1);
    assert(from[0] == attrs[i]);
    assert(from.skip(1) =~= attrs.skip(i + 1));
    if i + 1 < attrs.len() {
        let padding = attr_padding(NLA_HDRLEN + attrs[i].1.len());
        let tail = attrs_wire(attrs.skip(i + 1));
        assert(head + padding + tail =~= head + (padding + tail));
    } else {
        assert(head + Seq::<u8>::empty() =~= head);
        assert(attrs.skip(i + 1).len() == 0);
    }
}

/// Walking the encoding of a list of attributes gives back the types and
/// values of the list, in order.
#[verifier::spinoff_prover]
pub proof fn lemma_attrs_round_trip(attrs: Seq<(u16, Seq<u8>)>)
    requires
        attrs_fit(attrs),
    ensures
        parse_attrs(attrs_wire(attrs)) == Some(attrs),
    decreases attrs.len(),
{
    if attrs.len() == 0 {
        assert(attrs_wire(attrs).len() == 0);
        assert(attrs =~= Seq::empty());
    } else {
        let nla_type = attrs[0].0;
        let value = attrs[0].1;
        let len = NLA_HDRLEN + value.len();
        let rest = attrs.skip(1);
        let head = attr_wire(nla_type, value);
        let tail = attrs_wire(rest);
        let after = if attrs.len() > 1 {
            attr_padding(len as int) + tail
        } else {
            Seq::empty()
        };
        let s = head + after;
        let next = s.len() - tail.len();
        let item = seq![(nla_type, value)];
        assert(attrs_fit(rest)) by {
            assert forall|i: int| 0 <= i < rest.len() implies NLA_HDRLEN + (#[trigger] rest[i]).1.len()
                <= u16::MAX by {
                assert(rest[i] == attrs[i + 1]);
            }
        }
        // By induction the rest of the list comes back from its encoding.
        lemma_attrs_round_trip(rest);
        assert(parse_attrs(tail) == Some(rest));
        // The encoding is the first attribute and what follows it.
        assert(attrs_wire(attrs) == s) by {
            lemma_attrs_wire_from(attrs, 0);
            assert(attrs.skip(0) =~= attrs);
        }
        assert(tail.len() == 0 || attrs.len() > 1) by {
            lemma_attrs_wire_from(attrs, 0);
        }
        // At offset 0 stands the first attribute, and the next offset is
        // where the encoding of the rest starts.
        assert(head.len() == len) by {
            lemma_attr_wire_head(nla_type, value, after);
        }
        assert(attr_at(s, 0) == Some(((nla_type, value), next as int))) by {
            lemma_attr_at_head(nla_type, value, after);
        }
        assert(s.skip(next as int) == tail) by {
            assert(s.skip(next as int) =~= tail);
        }
        // One step of the walk.
        assert(parse_attrs(s) == prepend(item, parse_attrs(s.skip(next as int))));
        assert(item + rest =~= attrs);
    }
}

/// Walking the encoding of one attribute gives back its type and value.
pub proof fn lemma_attr_round_trip(nla_type: u16, value: Seq<u8>)
    requires
        NLA_HDRLEN + value.len() <= u16::MAX,
    ensures
        parse_attrs(attr_wire(nla_type, value)) == Some(seq![(nla_type, value)]),
{
    let attrs = seq![(nla_type, value)];
    assert(attrs_fit(attrs));
    assert(attrs_wire(attrs) == attr_wire(nla_type, value));
    lemma_attrs_round_trip(attrs);
}

/// Walking the encoding of an attribute with a value of any kind gives back
/// exactly that attribute: its type, and the bytes of its value.
pub proof fn lemma_nlattr_round_trip<T: Payload>(attr: nlattr<T>)
    requires
        attr.wf(),
    ensures
        parse_attrs(attr.wire()) == Some(seq![(attr.nla_type, attr.data.wire())]),
{
    assert(attr.wire() == attr_wire(attr.nla_type, attr.data.wire()));
    lemma_attr_round_trip(attr.nla_type, attr.data.wire());
}

/// What the encoding of a header holds, whatever bytes come after it: the
/// header in its first four bytes, and then those bytes.
pub proof fn lemma_genl_header(header: genlmsghdr, after: Seq<u8>)
    ensures
        (header.wire() + after).len() == GENL_HDRLEN + after.len(),
        genlmsghdr::at(header.wire() + after) == header,
        (header.wire() + after).skip(GENL_HDRLEN as int) == after,
{
    let s = header.wire() + after;
    lemma_le16_round_trip(header.reserved);
    assert(s[0] == header.cmd);
    assert(s[1] == header.version);
    assert(s[2] == le16(header.reserved)[0]);
    assert(s[3] == le16(header.reserved)[1]);
    assert(s.skip(GENL_HDRLEN as int) =~= after);
}

/// Decoding the encoding of a generic-netlink message gives back its header
/// and the types and values of its attributes, in order.
pub proof fn lemma_genl_round_trip(header: genlmsghdr, attrs: Seq<(u16, Seq<u8>)>)
    requires
        attrs_fit(attrs),
    ensures
        parse_genl(header.wire() + attrs_wire(attrs)) == Ok::<_, NetlinkError>((header, attrs)),
{
    lemma_genl_header(header, attrs_wire(attrs));
    lemma_attrs_round_trip(attrs);
}

impl Payload for Vec<nlattr<Vec<u8>>> {
    open spec fn wf(&self) -> bool {
        &&& forall|i: int| 0 <= i < self@.len() ==> (#[trigger] self@[i]).wf()
        &&& attrs_wire(attrs_view(self@)).len() <= usize::MAX
    }

    open spec fn wire(&self) -> Seq<u8> {
        attrs_wire(attrs_view(self@))
    }

    fn wire_len(&self) -> (n: usize) {
        let ghost all = attrs_view(self@);
        let count: usize = self.len();
        let mut total: usize = 0;
        let mut i: usize = 0;
        assert(all.skip(0) =~= all);
        while i < count
            invariant
                i <= count,
                count == self@.len(),
                all == attrs_view(self@),
                forall|j: int| 0 <= j < self@.len() ==> (#[trigger] self@[j]).wf(),
                attrs_wire(all).len() <= usize::MAX,
                total + attrs_wire(all.skip(i as int)).len() == attrs_wire(all).len(),
            decreases count - i,
        {
            let len: usize = self[i].nla_len as usize;
            proof {
                assert(self@[i as int].wf());
                lemma_attrs_wire_from(all, i as int);
            }
            if i + 1 < count {
                total = total + align4_of(len);
            } else {
                total = total + len;
            }
            i = i + 1;
        }
        total
    }

    fn put(&self, out: &mut Vec<u8>) {
        let ghost all = attrs_view(self@);
        let count: usize = self.len();
        let mut i: usize = 0;
        assert(all.skip(0) =~= all);
        while i < count
            invariant
                i <= count,
                count == self@.len(),
                all == attrs_view(self@),
                forall|j: int| 0 <= j < self@.len() ==> (#[trigger] self@[j]).wf(),
                out@ + attrs_wire(all.skip(i as int)) == old(out)@ + attrs_wire(all),
            decreases count - i,
        {
            let ghost before = out@;
            let len: usize = self[i].nla_len as usize;
            proof {
                assert(self@[i as int].wf());
                lemma_attrs_wire_from(all, i as int);
            }
            self[i].put(out);
            if i + 1 < count {
                put_zeros(out, align4_of(len) - len);
            }
            assert(out@ + attrs_wire(all.skip(i + 1)) =~= before + attrs_wire(all.skip(i as int)));
            i = i + 1;
        }
        assert(out@ =~= out@ + attrs_wire(all.skip(count as int)));
    }
}

/// A family name as the lookup carries it: cut or filled with zero bytes to
/// the width of the name field.
pub open spec fn name_field(name: Seq<u8>) -> Seq<u8> {
    Seq::new(
        FAMILY_NAME_LEN as nat,
        |i: int|
            if i < name.len() {
                name[i]
            } else {
                0u8
            },
    )
}

impl GenetlinkMessage<[u8; 12]> {
    /// The request that asks the controller for the family called `name`.
    pub fn get_family_id(name: &str) -> (msg: GenetlinkMessage<nlattr<[u8; 12]>>)
        ensures
            msg.wf(),
            msg.header == (genlmsghdr { cmd: Command::GetFamily.spec_code(), version: 1, reserved: 0 }),
            msg.data.nla_len == NLA_HDRLEN + FAMILY_NAME_LEN,
            msg.data.nla_type == CommandAttr::FamilyName.spec_code(),
            msg.data.data@ == name_field(name.spec_bytes()),
    {
        let bytes = name.as_bytes();
        let mut bname: [u8; 12] = [0u8; 12];
        let mut i: usize = 0;
        while i < FAMILY_NAME_LEN && i < bytes.len()
            invariant
                i <= FAMILY_NAME_LEN,
                i <= bytes@.len(),
                bytes@ == name.spec_bytes(),
                forall|j: int| 0 <= j < i ==> bname@[j] == bytes@[j],
                forall|j: int| i <= j < FAMILY_NAME_LEN ==> bname@[j] == 0u8,
            decreases FAMILY_NAME_LEN - i,
        {
            bname[i] = bytes[i];
            i = i + 1;
        }
        assert(bname@ =~= name_field(name.spec_bytes()));
        GenetlinkMessage::new(Command::GetFamily.code(), CommandAttr::FamilyName.code(), bname)
    }
}

/// What the payload of a generic-netlink message decodes to: the header and
/// the attributes after it, or why it does not decode.
pub open spec fn parse_genl(s: Seq<u8>) -> Result<(genlmsghdr, Seq<(u16, Seq<u8>)>), NetlinkError> {
    if s.len() < GENL_HDRLEN {
        Err(NetlinkError::Framing(FramingError::Truncated))
    } else {
        match parse_attrs(s.skip(GENL_HDRLEN as int)) {
            None => Err(NetlinkError::Attribute(AttributeError::Malformed)),
            Some(attrs) => Ok((genlmsghdr::at(s), attrs)),
        }
    }
}

impl GenetlinkMessage<Vec<nlattr<Vec<u8>>>> {
    /// Decodes the payload of a generic-netlink message: the header, then
    /// the attributes up to the end of the payload.
    pub fn from_bytes(payload: &[u8]) -> (r: Result<Self, NetlinkError>)
        ensures
            match r {
                Ok(msg) => {
                    &&& parse_genl(payload@) == Ok::<_, NetlinkError>(
                        (msg.header, attrs_view(msg.data@)),
                    )
                    &&& forall|i: int| 0 <= i < msg.data@.len() ==> (#[trigger] msg.data@[i]).wf()
                },
                Err(e) => parse_genl(payload@) == Err::<(genlmsghdr, Seq<(u16, Seq<u8>)>), _>(e),
            },
    {
        let end: usize = payload.len();
        if end < GENL_HDRLEN {
            return Err(NetlinkError::Framing(FramingError::Truncated));
        }
        let header = genlmsghdr {
            cmd: payload[0],
            version: payload[1],
            reserved: get_u16(payload, 2),
        };
        let rest = slice_subrange(payload, GENL_HDRLEN, end);
        assert(rest@ =~= payload@.skip(GENL_HDRLEN as int));
        match nlattr::iterate(rest) {
            Err(_) => Err(NetlinkError::Attribute(AttributeError::Malformed)),
            Ok(data) => Ok(GenetlinkMessage { header, data }),
        }
    }
}

/// The bytes of the request that asks for the id of the family called
/// `name`, ready to be sent to the controller.
pub fn family_request(name: &str, sequence: u32, port_id: u32) -> (bytes: Vec<u8>)
    ensures
        bytes@ == envelope_wire(
            GENL_ID_CTRL as u16,
            NLM_F_REQUEST,
            sequence,
            port_id,
            (genlmsghdr { cmd: Command::GetFamily.spec_code(), version: 1, reserved: 0 }).wire()
                + attr_wire(CommandAttr::FamilyName.spec_code(), name_field(name.spec_bytes())),
        ),
{
    let request = GenetlinkMessage::get_family_id(name);
    assert(request.data.wire() =~= attr_wire(
        CommandAttr::FamilyName.spec_code(),
        name_field(name.spec_bytes()),
    ));
    let msg = NetlinkMessage::new(request, GENL_ID_CTRL as u16, NLM_F_REQUEST, sequence, port_id);
    msg.as_bytes()
}

/// The family id that a reply to a lookup carries, or why it carries none.
///
/// A reply whose message type is `NLMSG_ERROR` is a rejection. Otherwise the
/// first attribute of type `FamilyId` decides: its first two bytes are the
/// id.
pub open spec fn family_id_of(reply: Seq<u8>) -> Result<FamilyId, NetlinkError> {
    match parse_envelope(reply) {
        Err(e) => Err(NetlinkError::Framing(e)),
        Ok((header, payload)) => if header.nlmsg_type == NLMSG_ERROR {
            Err(NetlinkError::Protocol(ProtocolError::KernelRejected))
        } else {
            match parse_genl(payload) {
                Err(e) => Err(e),
                Ok((_, attrs)) => family_id_in(attrs),
            }
        },
    }
}

/// The family id that a list of attributes carries, or why it carries none.
pub open spec fn family_id_in(attrs: Seq<(u16, Seq<u8>)>) -> Result<FamilyId, NetlinkError> {
    match first_of(attrs, CommandAttr::FamilyId.spec_code()) {
        None => Err(NetlinkError::Protocol(ProtocolError::FamilyNotFound)),
        Some(value) => if value.len() < 2 {
            Err(NetlinkError::Framing(FramingError::Truncated))
        } else {
            Ok(u16_at(value, 0))
        },
    }
}

/// Reads the family id from the reply to a lookup.
pub fn family_id_from_reply(reply: &[u8]) -> (r: Result<FamilyId, NetlinkError>)
    ensures
        r == family_id_of(reply@),
{
    let msg = match NetlinkMessage::from_bytes(reply) {
        Err(e) => {
            return Err(NetlinkError::Framing(e));
        },
        Ok(msg) => msg,
    };
    if msg.header.nlmsg_type == NLMSG_ERROR {
        return Err(NetlinkError::Protocol(ProtocolError::KernelRejected));
    }
    let genl = match GenetlinkMessage::from_bytes(msg.data.as_slice()) {
        Err(e) => {
            return Err(e);
        },
        Ok(genl) => genl,
    };
    family_id_among(&genl.data)
}

/// Reads the family id from the attributes of a reply to a lookup.
pub fn family_id_among(attrs: &Vec<nlattr<Vec<u8>>>) -> (r: Result<FamilyId, NetlinkError>)
    ensures
        r == family_id_in(attrs_view(attrs@)),
{
    match find(attrs, CommandAttr::FamilyId.code()) {
        None => Err(NetlinkError::Protocol(ProtocolError::FamilyNotFound)),
        Some(i) => {
            let value = attrs[i].data.as_slice();
            if value.len() < 2 {
                Err(NetlinkError::Framing(FramingError::Truncated))
            } else {
                Ok(get_u16(value, 0))
            }
        },
    }
}

} // verus!
