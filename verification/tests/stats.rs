use cnproc::error::{AttributeError, FramingError, NetlinkError, ProtocolError};
use cnproc::generic::{genlmsghdr, nlattr, GenetlinkMessage};
use cnproc::socket::{sockaddr_nl, NetlinkProtocol, SockOpt};
use cnproc::taskstats::{
    get_stats, get_stats_of, stats_among, stats_from_reply, stats_request, taskstats, Command,
    CommandAttr, TaskstatsReply, Type, TASKSTATS_GENL_NAME, TASKSTATS_LEN,
};
use cnproc::wire::encode;
use cnproc::{NetlinkMessage, NLMSG_ERROR};

fn attr(nla_type: u16, value: &[u8]) -> nlattr<Vec<u8>> {
    nlattr::new(nla_type, value.to_vec())
}

fn reply(msgtype: u16, attrs: Vec<nlattr<Vec<u8>>>) -> Vec<u8> {
    let genl = GenetlinkMessage {
        header: genlmsghdr { cmd: Command::New.code(), version: 1, reserved: 0 },
        data: attrs,
    };
    NetlinkMessage::new(genl, msgtype, 0, 1, 4321).as_bytes()
}

fn record() -> Vec<u8> {
    let mut out = Vec::new();
    out.extend_from_slice(&8u16.to_le_bytes());
    out.extend_from_slice(&0x0001_0002u32.to_le_bytes());
    out.push(3);
    out.push(4);
    for n in 0..8u64 {
        out.extend_from_slice(&(0x1000_0000_0000 + n).to_le_bytes());
    }
    let mut comm = [0u8; 32];
    comm[..4].copy_from_slice(b"init");
    out.extend_from_slice(&comm);
    out.extend_from_slice(&21u64.to_le_bytes());
    out.extend_from_slice(&1000u64.to_le_bytes());
    out.extend_from_slice(&1001u64.to_le_bytes());
    out.extend_from_slice(&4242u32.to_le_bytes());
    out.extend_from_slice(&1u32.to_le_bytes());
    out.extend_from_slice(&1_700_000_000u32.to_le_bytes());
    out.extend_from_slice(&[0xa, 0xb, 0xc, 0xd]);
    for n in 0..13u64 {
        out.extend_from_slice(&(0x2000_0000_0000_0000 + n * n).to_le_bytes());
    }
    out
}

fn expected() -> taskstats {
    let mut ac_comm = [0u8; 32];
    ac_comm[..4].copy_from_slice(b"init");
    taskstats {
        version: 8,
        exitcode: 0x0001_0002,
        ac_flag: 3,
        ac_nice: 4,
        cpu_count: 0x1000_0000_0000,
        cpu_delay_total: 0x1000_0000_0001,
        blkio_count: 0x1000_0000_0002,
        blkio_delay_total: 0x1000_0000_0003,
        swapin_count: 0x1000_0000_0004,
        swapin_delay_total: 0x1000_0000_0005,
        cpu_run_real_total: 0x1000_0000_0006,
        cpu_run_virtual_total: 0x1000_0000_0007,
        ac_comm,
        ac_sched: 21,
        ac_uid: 1000,
        ac_gid: 1001,
        ac_pid: 4242,
        ac_ppid: 1,
        ac_btime: 1_700_000_000,
        ac_pad: [0xa, 0xb, 0xc, 0xd],
        ac_etime: 0x2000_0000_0000_0000,
        ac_utime: 0x2000_0000_0000_0001,
        ac_stime: 0x2000_0000_0000_0004,
        ac_minflt: 0x2000_0000_0000_0009,
        ac_majflt: 0x2000_0000_0000_0010,
        coremem: 0x2000_0000_0000_0019,
        virtmem: 0x2000_0000_0000_0024,
        hiwater_rss: 0x2000_0000_0000_0031,
        hiwater_vm: 0x2000_0000_0000_0040,
        read_char: 0x2000_0000_0000_0051,
        write_char: 0x2000_0000_0000_0064,
        read_syscalls: 0x2000_0000_0000_0079,
        write_syscalls: 0x2000_0000_0000_0090,
    }
}

#[test]
fn taskstats_numbers() {
    assert_eq!(TASKSTATS_GENL_NAME, "TASKSTATS");
    assert_eq!(TASKSTATS_LEN, 248);
    assert_eq!(record().len(), 248);
    assert_eq!(Command::Unspec.code(), 0);
    assert_eq!(Command::Get.code(), 1);
    assert_eq!(Command::New.code(), 2);
    assert_eq!(Type::Unspec.code(), 0);
    assert_eq!(Type::Pid.code(), 1);
    assert_eq!(Type::Tgid.code(), 2);
    assert_eq!(Type::Stats.code(), 3);
    assert_eq!(Type::AggrPid.code(), 4);
    assert_eq!(Type::AggrTgid.code(), 5);
    assert_eq!(Type::Null.code(), 6);
    assert_eq!(CommandAttr::Unspec.code(), 0);
    assert_eq!(CommandAttr::Pid.code(), 1);
    assert_eq!(CommandAttr::Tgid.code(), 2);
    assert_eq!(CommandAttr::RegisterCpuMask.code(), 3);
    assert_eq!(CommandAttr::DeregisterCpuMask.code(), 4);
}

#[test]
fn record_decodes_field_by_field() {
    assert_eq!(taskstats::from_bytes(&record()).unwrap(), expected());
}

#[test]
fn bytes_after_the_record_are_not_read() {
    let mut bytes = record();
    bytes.extend_from_slice(&[0xff; 40]);
    assert_eq!(taskstats::from_bytes(&bytes).unwrap(), expected());
}

#[test]
fn record_cut_short_is_truncated() {
    let bytes = record();
    for len in [0usize, 1, 8, 100, 247] {
        assert_eq!(taskstats::from_bytes(&bytes[..len]).unwrap_err(), FramingError::Truncated);
    }
}

#[test]
fn request_for_a_process() {
    let msg = get_stats(4242);
    assert_eq!(msg.header, genlmsghdr { cmd: 1, version: 1, reserved: 0 });
    assert_eq!(msg.data.nla_len, 8);
    assert_eq!(msg.data.nla_type, 1);
    assert_eq!(msg.data.data, 4242);
    assert_eq!(encode(&msg), vec![1, 1, 0, 0, 8, 0, 1, 0, 0x92, 0x10, 0, 0]);
    let msg = get_stats(1234);
    assert_eq!(msg.header, genlmsghdr { cmd: 1, version: 1, reserved: 0 });
    assert_eq!(msg.data.nla_type, 1);
    assert_eq!(msg.data.nla_len, 8);
    assert_eq!(&encode(&msg)[8..], &[210, 4, 0, 0]);
}

#[test]
fn request_by_kind() {
    assert_eq!(get_stats_of(7, CommandAttr::Pid).data.nla_type, 1);
    assert_eq!(get_stats_of(7, CommandAttr::Tgid).data.nla_type, 2);
    assert_eq!(get_stats_of(7, CommandAttr::RegisterCpuMask).data.nla_type, 3);
    assert_eq!(get_stats_of(7, CommandAttr::Tgid).data.data, 7);
    assert_eq!(get_stats_of(7, CommandAttr::Tgid).data.nla_len, 8);
    assert_eq!(get_stats_of(u32::MAX, CommandAttr::Pid).data.data, u32::MAX);
    assert_eq!(
        stats_request(0x17, 4242, CommandAttr::Tgid, 9, 77),
        vec![
            28, 0, 0, 0, 0x17, 0, 1, 0, 9, 0, 0, 0, 77, 0, 0, 0, 1, 1, 0, 0, 8, 0, 2, 0, 0x92,
            0x10, 0, 0
        ]
    );
}

#[test]
fn stats_are_read_from_the_reply() {
    let bytes = reply(0x17, vec![attr(1, &4242u32.to_le_bytes()), attr(3, &record())]);
    assert_eq!(stats_from_reply(&bytes), Ok(expected()));
    let bytes = reply(0x17, vec![attr(3, &record())]);
    assert_eq!(stats_from_reply(&bytes), Ok(expected()));
}

#[test]
fn reply_without_stats_is_missing_stats() {
    let bytes = reply(0x17, vec![attr(1, &4242u32.to_le_bytes())]);
    assert_eq!(
        stats_from_reply(&bytes),
        Err(NetlinkError::Protocol(ProtocolError::MissingStats))
    );
    let bytes = reply(0x17, vec![]);
    assert_eq!(
        stats_from_reply(&bytes),
        Err(NetlinkError::Protocol(ProtocolError::MissingStats))
    );
    assert_eq!(
        stats_among(&vec![attr(1, &[1, 0, 0, 0]), attr(4, &record())]),
        Err(NetlinkError::Protocol(ProtocolError::MissingStats))
    );
}

#[test]
fn short_stats_are_truncated() {
    let bytes = reply(0x17, vec![attr(1, &4242u32.to_le_bytes()), attr(3, &record()[..247])]);
    assert_eq!(stats_from_reply(&bytes), Err(NetlinkError::Framing(FramingError::Truncated)));
}

#[test]
fn rejected_stats_request() {
    let bytes = reply(NLMSG_ERROR, vec![attr(3, &record())]);
    assert_eq!(
        stats_from_reply(&bytes),
        Err(NetlinkError::Protocol(ProtocolError::KernelRejected))
    );
}

#[test]
fn stats_reply_with_a_bad_frame() {
    let bytes = reply(0x17, vec![attr(3, &record())]);
    assert_eq!(
        stats_from_reply(&bytes[..bytes.len() - 1]),
        Err(NetlinkError::Framing(FramingError::Truncated))
    );
    let mut cut = bytes[..bytes.len() - 1].to_vec();
    let len = cut.len() as u32;
    cut[..4].copy_from_slice(&len.to_le_bytes());
    assert_eq!(
        stats_from_reply(&cut),
        Err(NetlinkError::Attribute(AttributeError::Malformed))
    );
}

#[test]
fn typed_reply_holds_the_id_and_the_record() {
    let got = TaskstatsReply::from_attrs(&vec![attr(1, &4242u32.to_le_bytes()), attr(3, &record())])
        .unwrap();
    assert_eq!(got.pid, Some(nlattr { nla_len: 8, nla_type: 1, data: 4242 }));
    assert_eq!(got.stats, nlattr { nla_len: 252, nla_type: 3, data: expected() });
    let got = TaskstatsReply::from_attrs(&vec![attr(2, &4242u32.to_le_bytes()), attr(3, &record())])
        .unwrap();
    assert_eq!(got.pid, None);
    assert_eq!(got.stats.data, expected());
}

#[test]
fn typed_reply_failures() {
    assert_eq!(
        TaskstatsReply::from_attrs(&vec![attr(1, &4242u32.to_le_bytes())]).unwrap_err(),
        NetlinkError::Protocol(ProtocolError::MissingStats)
    );
    assert_eq!(
        TaskstatsReply::from_attrs(&vec![attr(1, &[1, 2, 3]), attr(3, &record())]).unwrap_err(),
        NetlinkError::Framing(FramingError::Truncated)
    );
    assert_eq!(
        TaskstatsReply::from_attrs(&vec![attr(1, &[1, 2, 3, 4]), attr(3, &[0; 10])]).unwrap_err(),
        NetlinkError::Framing(FramingError::Truncated)
    );
}

#[test]
fn socket_numbers() {
    assert_eq!(SockOpt::AddMembership.code(), 1);
    assert_eq!(SockOpt::DropMembership.code(), 2);
    assert_eq!(SockOpt::PktInfo.code(), 3);
    assert_eq!(SockOpt::BroadcastError.code(), 4);
    assert_eq!(SockOpt::NoEnobufs.code(), 5);
    assert_eq!(NetlinkProtocol::Route.code(), 0);
    assert_eq!(NetlinkProtocol::Usersock.code(), 2);
    assert_eq!(NetlinkProtocol::Firewall.code(), 3);
    assert_eq!(NetlinkProtocol::Inet_diag.code(), 4);
    assert_eq!(NetlinkProtocol::NFlog.code(), 5);
    assert_eq!(NetlinkProtocol::Xfrm.code(), 6);
    assert_eq!(NetlinkProtocol::SELinux.code(), 7);
    assert_eq!(NetlinkProtocol::ISCSI.code(), 8);
    assert_eq!(NetlinkProtocol::Audit.code(), 9);
    assert_eq!(NetlinkProtocol::FibLookup.code(), 10);
    assert_eq!(NetlinkProtocol::Connector.code(), 11);
    assert_eq!(NetlinkProtocol::Netfilter.code(), 12);
    assert_eq!(NetlinkProtocol::IP6_fw.code(), 13);
    assert_eq!(NetlinkProtocol::Dnrtmsg.code(), 14);
    assert_eq!(NetlinkProtocol::KObjectUevent.code(), 15);
    assert_eq!(NetlinkProtocol::Generic.code(), 16);
    assert_eq!(NetlinkProtocol::SCSItransport.code(), 18);
    assert_eq!(NetlinkProtocol::Ecryptfs.code(), 19);
    assert_eq!(NetlinkProtocol::Rdma.code(), 20);
    assert_eq!(NetlinkProtocol::Crypto.code(), 21);
    assert_eq!(
        sockaddr_nl::new(4321, 0),
        sockaddr_nl { nl_family: 16, nl_pad: 0, nl_pid: 4321, nl_groups: 0 }
    );
    assert_eq!(sockaddr_nl::new(1, 1).nl_groups, 1);
}
