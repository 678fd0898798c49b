use cnproc::connector::{
    cnmsg, cnprocmsg, decode_event, proc_event, Command, EventTypes, Exec, Exit, Fork, GidChange,
    ProcEventRecord, Ptrace, Sid, Subscription, UidChange, CN_IDX_PROC, CN_VAL_PROC,
};
use cnproc::error::FramingError;
use cnproc::wire::encode;
use cnproc::{NetlinkMessage, NLMSG_DONE};

fn words(tag: u32, cpu: u32, timestamp: u64, fields: &[u32]) -> Vec<u8> {
    let mut out = Vec::new();
    out.extend_from_slice(&tag.to_le_bytes());
    out.extend_from_slice(&cpu.to_le_bytes());
    out.extend_from_slice(&timestamp.to_le_bytes());
    for f in fields {
        out.extend_from_slice(&f.to_le_bytes());
    }
    out
}

fn framed(event: Vec<u8>) -> Vec<u8> {
    let header = cnmsg {
        idx: CN_IDX_PROC as u32,
        val: CN_VAL_PROC as u32,
        seq: 11,
        ack: 0,
        len: event.len() as u16,
        flags: 0,
    };
    NetlinkMessage::new(cnprocmsg { header, data: event }, NLMSG_DONE, 0, 11, 0).as_bytes()
}

#[test]
fn fork_event_decodes() {
    let bytes = framed(words(0x1, 2, 123456789, &[10, 10, 20, 20]));
    let event = decode_event(&bytes).unwrap();
    assert_eq!(event.cpu, 2);
    assert_eq!(event.timestamp, 123456789);
    assert_eq!(
        event.data,
        ProcEventRecord::Fork(Fork { parent_pid: 10, parent_tgid: 10, child_pid: 20, child_tgid: 20 })
    );
    assert_eq!(
        event.fork(),
        Some(&Fork { parent_pid: 10, parent_tgid: 10, child_pid: 20, child_tgid: 20 })
    );
    assert_eq!(event.exec(), None);
    assert_eq!(event.what(), 1);
}

#[test]
fn unknown_kind_decodes_to_unknown() {
    let bytes = framed(words(0xDEADBEEF, 1, 5, &[]));
    let event = decode_event(&bytes).unwrap();
    assert_eq!(event.data, ProcEventRecord::Unknown(0xDEADBEEF));
    assert_eq!(event.cpu, 1);
    assert_eq!(event.timestamp, 5);
    assert_eq!(event.what(), 0xDEADBEEF);
    let bytes = framed(words(0xDEADBEEF, 1, 5, &[1, 2, 3, 4, 5, 6]));
    assert_eq!(decode_event(&bytes).unwrap().data, ProcEventRecord::Unknown(0xDEADBEEF));
}

#[test]
fn kind_zero_decodes_to_unknown() {
    let bytes = framed(words(0, 0, 0, &[0]));
    assert_eq!(decode_event(&bytes).unwrap().data, ProcEventRecord::Unknown(0));
}

#[test]
fn exec_event_decodes() {
    let event = decode_event(&framed(words(0x2, 0, 9, &[31, 32]))).unwrap();
    assert_eq!(event.data, ProcEventRecord::Exec(Exec { process_pid: 31, process_tgid: 32 }));
    assert_eq!(event.exec(), Some(&Exec { process_pid: 31, process_tgid: 32 }));
    assert_eq!(event.fork(), None);
}

#[test]
fn uid_event_decodes() {
    let event = decode_event(&framed(words(0x4, 0, 9, &[1, 2, 1000, 0]))).unwrap();
    let want = UidChange { process_pid: 1, process_tgid: 2, uid: 1000, euid: 0 };
    assert_eq!(event.data, ProcEventRecord::UidChange(want));
    assert_eq!(event.uid_change(), Some(&want));
    assert_eq!(event.gid_change(), None);
}

#[test]
fn gid_event_decodes() {
    let event = decode_event(&framed(words(0x40, 0, 9, &[1, 2, 100, 101]))).unwrap();
    let want = GidChange { process_pid: 1, process_tgid: 2, gid: 100, egid: 101 };
    assert_eq!(event.data, ProcEventRecord::GidChange(want));
    assert_eq!(event.gid_change(), Some(&want));
    assert_eq!(event.uid_change(), None);
}

#[test]
fn sid_event_decodes() {
    let event = decode_event(&framed(words(0x80, 0, 9, &[5, 6]))).unwrap();
    let want = Sid { process_pid: 5, process_tgid: 6 };
    assert_eq!(event.data, ProcEventRecord::SidChange(want));
    assert_eq!(event.sid_change(), Some(&want));
    assert_eq!(event.exec(), None);
}

#[test]
fn ptrace_event_decodes() {
    let event = decode_event(&framed(words(0x1000_0000, 0, 9, &[5, 6, 7, 8]))).unwrap();
    let want = Ptrace { process_pid: 5, process_tgid: 6, tracer_pid: 7, tracer_tgid: 8 };
    assert_eq!(event.data, ProcEventRecord::Ptrace(want));
    assert_eq!(event.ptrace(), Some(&want));
    assert_eq!(event.exit(), None);
}

#[test]
fn comm_event_decodes() {
    let mut bytes = words(0x200, 3, 4, &[5, 6]);
    bytes.extend_from_slice(b"worker\0\0\0\0\0\0\0\0\0\0");
    let event = decode_event(&framed(bytes)).unwrap();
    let want = Command { process_pid: 5, process_tgid: 6, comm: *b"worker\0\0\0\0\0\0\0\0\0\0" };
    assert_eq!(event.data, ProcEventRecord::CommChange(want));
    assert_eq!(event.command(), Some(&want));
    assert_eq!(event.fork(), None);
}

#[test]
fn exit_event_decodes() {
    let event = decode_event(&framed(words(0x8000_0000, 0, 9, &[5, 6, 256, 17]))).unwrap();
    let want = Exit { process_pid: 5, process_tgid: 6, exit_code: 256, exit_signal: 17 };
    assert_eq!(event.data, ProcEventRecord::Exit(want));
    assert_eq!(event.exit(), Some(&want));
    assert_eq!(event.ptrace(), None);
}

#[test]
fn fields_after_those_of_the_kind_are_not_read() {
    let event = decode_event(&framed(words(0x2, 0, 9, &[31, 32, 0xffff_ffff, 0xffff_ffff]))).unwrap();
    assert_eq!(event.data, ProcEventRecord::Exec(Exec { process_pid: 31, process_tgid: 32 }));
}

#[test]
fn event_cut_short_is_truncated() {
    let whole = words(0x1, 2, 3, &[10, 10, 20, 20]);
    for len in 0..whole.len() {
        assert_eq!(
            decode_event(&framed(whole[..len].to_vec())).unwrap_err(),
            FramingError::Truncated
        );
        assert_eq!(proc_event::from_bytes(&whole[..len]).unwrap_err(), FramingError::Truncated);
    }
    assert!(proc_event::from_bytes(&whole).is_ok());
}

#[test]
fn message_cut_short_is_truncated() {
    let bytes = framed(words(0x1, 2, 3, &[10, 10, 20, 20]));
    for len in 0..bytes.len() {
        assert_eq!(decode_event(&bytes[..len]).unwrap_err(), FramingError::Truncated);
    }
}

#[test]
fn connector_length_past_the_payload_is_truncated() {
    let event = words(0x1, 2, 3, &[10, 10, 20, 20]);
    let header = cnmsg { idx: 1, val: 1, seq: 0, ack: 0, len: 33, flags: 0 };
    let mut payload = encode(&cnprocmsg { header, data: Vec::<u8>::new() });
    payload.extend_from_slice(&event);
    let bytes = NetlinkMessage::new(payload.clone(), NLMSG_DONE, 0, 0, 0).as_bytes();
    assert_eq!(decode_event(&bytes).unwrap_err(), FramingError::Truncated);
    assert_eq!(cnprocmsg::from_bytes(&payload).unwrap_err(), FramingError::Truncated);
}

#[test]
fn connector_length_bounds_the_event() {
    let event = words(0x1, 2, 3, &[10, 10, 20, 20]);
    let header = cnmsg { idx: 1, val: 1, seq: 0, ack: 0, len: 24, flags: 0 };
    let mut payload = encode(&cnprocmsg { header, data: Vec::<u8>::new() });
    payload.extend_from_slice(&event);
    assert_eq!(cnprocmsg::from_bytes(&payload).unwrap_err(), FramingError::Truncated);
}

#[test]
fn connector_header_decodes() {
    let mut payload = Vec::new();
    for w in [7u32, 8, 9, 10] {
        payload.extend_from_slice(&w.to_le_bytes());
    }
    payload.extend_from_slice(&16u16.to_le_bytes());
    payload.extend_from_slice(&0x0102u16.to_le_bytes());
    payload.extend_from_slice(&words(0xABCD, 1, 2, &[]));
    assert_eq!(
        cnmsg::from_bytes(&payload).unwrap(),
        cnmsg { idx: 7, val: 8, seq: 9, ack: 10, len: 16, flags: 0x0102 }
    );
    let msg = cnprocmsg::from_bytes(&payload).unwrap();
    assert_eq!(msg.header.seq, 9);
    assert_eq!(msg.data.data, ProcEventRecord::Unknown(0xABCD));
    assert_eq!(cnmsg::from_bytes(&payload[..19]).unwrap_err(), FramingError::Truncated);
}

#[test]
fn listen_message_exact_bytes() {
    let msg = cnprocmsg::listen();
    assert_eq!(msg.header, cnmsg { idx: 1, val: 1, seq: 0, ack: 0, len: 4, flags: 0 });
    assert_eq!(msg.data, 1);
    assert_eq!(
        encode(&msg),
        vec![1, 0, 0, 0, 1, 0, 0, 0, 0, 0, 0, 0, 0, 0, 0, 0, 4, 0, 0, 0, 1, 0, 0, 0]
    );
}

#[test]
fn ignore_message_exact_bytes() {
    let msg = cnprocmsg::ignore();
    assert_eq!(msg.header, cnmsg { idx: 1, val: 1, seq: 0, ack: 0, len: 4, flags: 0 });
    assert_eq!(msg.data, 2);
    assert_eq!(
        encode(&msg),
        vec![1, 0, 0, 0, 1, 0, 0, 0, 0, 0, 0, 0, 0, 0, 0, 0, 4, 0, 0, 0, 2, 0, 0, 0]
    );
}

#[test]
fn subscription_moves_between_its_two_states() {
    let mut state = Subscription::new();
    assert_eq!(state, Subscription::Unsubscribed);
    let on = state.listen(5, 1234);
    assert_eq!(state, Subscription::Subscribed);
    assert_eq!(
        on,
        vec![
            40, 0, 0, 0, 3, 0, 0, 0, 5, 0, 0, 0, 0xd2, 0x04, 0, 0, 1, 0, 0, 0, 1, 0, 0, 0, 0, 0, 0,
            0, 0, 0, 0, 0, 4, 0, 0, 0, 1, 0, 0, 0
        ]
    );
    let off = state.ignore(6, 1234);
    assert_eq!(state, Subscription::Unsubscribed);
    assert_eq!(off.len(), 40);
    assert_eq!(&off[8..12], &[6, 0, 0, 0]);
    assert_eq!(&off[36..40], &[2, 0, 0, 0]);
    assert_eq!(&off[..8], &on[..8]);
    assert_eq!(&off[12..36], &on[12..36]);
}

#[test]
fn event_kinds_and_their_numbers() {
    let kinds = [
        (EventTypes::Nothing, 0u32),
        (EventTypes::Fork, 1),
        (EventTypes::Exec, 2),
        (EventTypes::Uid, 4),
        (EventTypes::Gid, 0x40),
        (EventTypes::Sid, 0x80),
        (EventTypes::Ptrace, 0x1000_0000),
        (EventTypes::Comm, 0x200),
        (EventTypes::Exit, 0x8000_0000),
    ];
    for (kind, tag) in kinds {
        assert_eq!(kind.tag(), tag);
        assert_eq!(EventTypes::from_tag(tag), Some(kind));
    }
    assert_eq!(EventTypes::from_tag(3), None);
    assert_eq!(EventTypes::from_tag(0xDEADBEEF), None);
}
