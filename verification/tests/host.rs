use rpdo::comm::{encode_raw_data_header, Command, Frame, RawDataHeader};
use rpdo::context::Basic;
use rpdo::error::encode_error;
use rpdo::host::{CustomCommandHandler, Host, SyncHost};
use rpdo::Error;

fn request(target: u32, id: u32, command: Command) -> Frame {
    Frame { source: 0, target, id, in_reply_to: 0, command }
}

fn write_payload(register: u32, offset: u32, data: &[u8]) -> Vec<u8> {
    let header = RawDataHeader { register, offset, size: data.len() as u32 };
    let mut payload = encode_raw_data_header(&header);
    payload.extend_from_slice(data);
    payload
}

fn read_payload(register: u32, offset: u32, size: u32) -> Vec<u8> {
    encode_raw_data_header(&RawDataHeader { register, offset, size })
}

#[test]
fn ping_gets_empty_reply() {
    let mut host = Host::new(1, Basic::new(2, 4, false));
    let reply = host.process_frame(&request(1, 7, Command::Ping), &[]).unwrap().unwrap();
    assert_eq!(reply.0.source, 1);
    assert_eq!(reply.0.target, 0);
    assert_eq!(reply.0.in_reply_to, 7);
    assert_eq!(reply.0.command, Command::Reply);
    assert_eq!(reply.1, Vec::<u8>::new());
}

#[test]
fn broadcast_target_is_accepted() {
    let mut host = Host::new(9, Basic::new(1, 1, false));
    let reply = host.process_frame(&request(0, 3, Command::Ping), &[]).unwrap().unwrap();
    assert_eq!(reply.0.command, Command::Reply);
    assert_eq!(reply.0.in_reply_to, 3);
}

#[test]
fn wrong_target_yields_unknown_host() {
    let mut host = Host::new(1, Basic::new(1, 1, false));
    let reply = host.process_frame(&request(2, 0, Command::Ping), &[]).unwrap().unwrap();
    assert_eq!(reply.0.command, Command::Error);
    assert_eq!(reply.0.source, 1);
    assert_eq!(reply.0.target, 0);
    assert_eq!(reply.0.in_reply_to, 0);
    assert_eq!(reply.1, vec![0x01, 0x00]);
}

#[test]
fn stray_reply_and_error_are_swallowed() {
    let mut host = Host::new(1, Basic::new(1, 1, false));
    let stray_reply = Frame { source: 5, target: 1, id: 9, in_reply_to: 2, command: Command::Reply };
    assert!(host.process_frame(&stray_reply, &[1, 2, 3]).unwrap().is_none());
    let stray_error = Frame { source: 5, target: 1, id: 9, in_reply_to: 2, command: Command::Error };
    assert!(host.process_frame(&stray_error, &[0x01, 0x00]).unwrap().is_none());
}

#[test]
fn write_then_read_through_host() {
    let mut host = Host::new(1, Basic::new(2, 8, false));
    let write = host
        .process_frame(&request(1, 0, Command::WriteSharedContext), &write_payload(0, 2, &[7, 8]))
        .unwrap()
        .unwrap();
    assert_eq!(write.0.command, Command::Reply);
    assert_eq!(write.1, Vec::<u8>::new());
    let read = host
        .process_frame(&request(1, 1, Command::ReadSharedContext), &read_payload(0, 2, 2))
        .unwrap()
        .unwrap();
    assert_eq!(read.0.command, Command::Reply);
    assert_eq!(read.0.in_reply_to, 1);
    assert_eq!(read.1, vec![7, 8]);
}

#[test]
fn read_failure_becomes_error_reply() {
    let mut host = Host::new(1, Basic::new(1, 4, false));
    let reply = host
        .process_frame(&request(1, 0, Command::ReadSharedContext), &read_payload(0, 10, 2))
        .unwrap()
        .unwrap();
    assert_eq!(reply.0.command, Command::Error);
    assert_eq!(reply.1, encode_error(&Error::InvalidOffset));
    let reply = host
        .process_frame(&request(1, 1, Command::ReadSharedContext), &read_payload(5, 0, 1))
        .unwrap()
        .unwrap();
    assert_eq!(reply.1, encode_error(&Error::InvalidRegister));
}

#[test]
fn unconfirmed_write_success_yields_no_reply() {
    let mut host = Host::new(1, Basic::new(1, 8, false));
    let outcome = host
        .process_frame(
            &request(1, 0, Command::WriteSharedContextUnconfirmed),
            &write_payload(0, 0, &[1, 2, 3]),
        )
        .unwrap();
    assert!(outcome.is_none());
    // The write was applied nonetheless.
    let read = host
        .process_frame(&request(1, 1, Command::ReadSharedContext), &read_payload(0, 0, 3))
        .unwrap()
        .unwrap();
    assert_eq!(read.1, vec![1, 2, 3]);
}

#[test]
fn unconfirmed_write_failure_yields_one_error_reply() {
    let mut host = Host::new(1, Basic::new(1, 2, false));
    let reply = host
        .process_frame(
            &request(1, 0, Command::WriteSharedContextUnconfirmed),
            &write_payload(0, 4, &[1, 2]),
        )
        .unwrap()
        .unwrap();
    assert_eq!(reply.0.command, Command::Error);
    assert_eq!(reply.1, encode_error(&Error::InvalidOffset));
}

#[test]
fn write_size_mismatch_aborts() {
    let mut host = Host::new(1, Basic::new(1, 8, false));
    // Header declares 4 bytes, payload carries 2.
    let header = RawDataHeader { register: 0, offset: 0, size: 4 };
    let mut payload = encode_raw_data_header(&header);
    payload.extend_from_slice(&[1, 2]);
    match host.process_frame(&request(1, 0, Command::WriteSharedContext), &payload) {
        Err(Error::InvalidData) => {}
        other => panic!("expected InvalidData, got {:?}", other),
    }
}

#[test]
fn short_register_payload_aborts() {
    let mut host = Host::new(1, Basic::new(1, 8, false));
    match host.process_frame(&request(1, 0, Command::ReadSharedContext), &[1, 2, 3]) {
        Err(Error::Packer(_)) => {}
        other => panic!("expected Packer, got {:?}", other),
    }
}

#[test]
fn unknown_command_without_handler() {
    let mut host = Host::new(1, Basic::new(1, 1, false));
    let reply = host.process_frame(&request(1, 0, Command::Other(0x8001)), &[1]).unwrap().unwrap();
    assert_eq!(reply.0.command, Command::Error);
    assert_eq!(reply.1, encode_error(&Error::InvalidCommand));
}

struct Reverser;

impl CustomCommandHandler for Reverser {
    fn handle(&self, frame: &Frame, data: &[u8]) -> Result<Option<Vec<u8>>, Error> {
        match frame.command {
            Command::Other(0x8001) => {
                let mut reversed = data.to_vec();
                reversed.reverse();
                Ok(Some(reversed))
            }
            Command::Other(0x8002) => Ok(None),
            _ => Err(Error::failed(String::from("unsupported"))),
        }
    }
}

#[test]
fn custom_handler_reply() {
    let mut host = Host::new(1, Basic::new(1, 1, false)).with_custom_command_handler(Reverser);
    let reply = host
        .process_frame(&request(1, 0, Command::Other(0x8001)), b"dlrow")
        .unwrap()
        .unwrap();
    assert_eq!(reply.0.command, Command::Reply);
    assert_eq!(reply.1, b"world".to_vec());
}

#[test]
fn custom_handler_silence_and_failure() {
    let mut host = Host::new(1, Basic::new(1, 1, false)).with_custom_command_handler(Reverser);
    assert!(host.process_frame(&request(1, 0, Command::Other(0x8002)), &[]).unwrap().is_none());
    let reply = host.process_frame(&request(1, 1, Command::Other(0x9000)), &[]).unwrap().unwrap();
    assert_eq!(reply.0.command, Command::Error);
    assert_eq!(reply.1, encode_error(&Error::failed(String::from("unsupported"))));
}

#[test]
fn create_frame_assigns_fresh_ids() {
    let mut host = Host::new(4, Basic::new(1, 1, false));
    let first = host.create_frame(2, 0, Command::Ping);
    let second = host.create_frame(2, 0, Command::Ping);
    assert_eq!(first.source, 4);
    assert_eq!(first.target, 2);
    assert_eq!(first.id, 0);
    assert_eq!(second.id, 1);
}

#[test]
fn host_id_matches_own_and_broadcast() {
    let host = Host::new(3, Basic::new(1, 1, false));
    assert!(host.host_id_matches(&request(3, 0, Command::Ping)));
    assert!(host.host_id_matches(&request(0, 0, Command::Ping)));
    assert!(!host.host_id_matches(&request(4, 0, Command::Ping)));
}
