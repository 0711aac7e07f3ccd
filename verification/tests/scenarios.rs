//! End-to-end exchanges: a client and a server processor wired through
//! in-memory streams.
//!
//! A client call both sends the request and awaits the reply, so each
//! exchange is driven in passes: a probe client captures the request bytes
//! (its read fails, no reply is buffered yet), the server processes them,
//! and a fresh client (request ids restart at 0) replays the calls with the
//! replies preloaded.

use rpdo::comm::{encode_raw_data_header, Command, Frame, RawDataHeader};
use rpdo::context::Basic;
use rpdo::host::{CustomCommandHandler, Host, NoHandler};
use rpdo::io::{ByteStream, MemoryStream, SimpleClient, SimpleServerProcessor};
use rpdo::Error;

type BasicServer = SimpleServerProcessor<Basic, Host<Basic, NoHandler>, MemoryStream>;

fn server(host_id: u32, ctx: Basic) -> BasicServer {
    SimpleServerProcessor::new(Host::new(host_id, ctx), MemoryStream::new())
}

fn serve(server: &mut BasicServer, request: &[u8]) -> Result<Vec<u8>, Error> {
    server.stream_mut().push_input(request);
    server.process_next()?;
    Ok(server.stream_mut().take_output())
}

#[test]
fn ping_round_trip() {
    let mut server = server(1, Basic::new(10, 0, true));

    let mut probe = SimpleClient::new(MemoryStream::new(), 1);
    assert!(probe.ping().is_err());
    let request = probe.stream_mut().take_output();
    assert_eq!(
        request,
        vec![
            0x52, 0x44, 0x00, 0x13, 0x00, 0x00, 0x00, // header, size 19
            0x00, 0x00, 0x00, 0x00, // source 0
            0x01, 0x00, 0x00, 0x00, // target 1
            0x00, 0x00, 0x00, 0x00, // id 0
            0x00, 0x00, 0x00, 0x00, // in_reply_to 0
            0x02, 0x00, // Ping
            0x00, // reserved
        ]
    );

    let reply = serve(&mut server, &request).unwrap();
    assert_eq!(
        reply,
        vec![
            0x52, 0x44, 0x00, 0x13, 0x00, 0x00, 0x00, // header, size 19
            0x01, 0x00, 0x00, 0x00, // source 1
            0x00, 0x00, 0x00, 0x00, // target 0
            0x00, 0x00, 0x00, 0x00, // id 0
            0x00, 0x00, 0x00, 0x00, // in_reply_to 0
            0x00, 0x00, // Reply
            0x00, // reserved
        ]
    );

    let mut client = SimpleClient::new(MemoryStream::new(), 1);
    client.stream_mut().push_input(&reply);
    client.ping().unwrap();
    assert_eq!(client.stream_mut().take_output(), request);
}

#[test]
fn write_then_read_u32() {
    let mut server = server(1, Basic::new(4, 8, false));
    let value = [0xEFu8, 0xBE, 0xAD, 0xDE];

    // Capture the write request.
    let mut probe = SimpleClient::new(MemoryStream::new(), 1);
    assert!(probe.write_register(0, 0, &value).is_err());
    let write_request = probe.stream_mut().take_output();
    let write_reply = serve(&mut server, &write_request).unwrap();

    // Capture the read request (request id 1 on a client that wrote first).
    let mut probe = SimpleClient::new(MemoryStream::new(), 1);
    probe.stream_mut().push_input(&write_reply);
    probe.write_register(0, 0, &value).unwrap();
    probe.stream_mut().take_output();
    assert!(probe.read_register(0, 0, 4).is_err());
    let read_request = probe.stream_mut().take_output();
    let read_reply = serve(&mut server, &read_request).unwrap();

    // Replay both calls with the replies preloaded.
    let mut client = SimpleClient::new(MemoryStream::new(), 1);
    client.stream_mut().push_input(&write_reply);
    client.write_register(0, 0, &value).unwrap();
    client.stream_mut().push_input(&read_reply);
    assert_eq!(client.read_register(0, 0, 4).unwrap(), value.to_vec());
}

#[test]
fn unconfirmed_write_sends_one_packet_and_no_reply() {
    let mut server = server(1, Basic::new(4, 8, false));
    let header = RawDataHeader { register: 0, offset: 0, size: 4 };
    let mut payload = encode_raw_data_header(&header);
    payload.extend_from_slice(&[1, 2, 3, 4]);

    let mut client = SimpleClient::new(MemoryStream::new(), 1);
    let outcome = client
        .communicate(Command::WriteSharedContextUnconfirmed, &payload, false)
        .unwrap();
    assert!(outcome.is_none());
    let request = client.stream_mut().take_output();

    // The server applies the write and sends nothing back.
    let reply = serve(&mut server, &request).unwrap();
    assert_eq!(reply, Vec::<u8>::new());

    // A follow-up read returns the written bytes.
    assert!(client.read_register(0, 0, 4).is_err());
    let read_request = client.stream_mut().take_output();
    let read_reply = serve(&mut server, &read_request).unwrap();

    let mut replay = SimpleClient::new(MemoryStream::new(), 1);
    replay
        .communicate(Command::WriteSharedContextUnconfirmed, &payload, false)
        .unwrap();
    replay.stream_mut().take_output();
    replay.stream_mut().push_input(&read_reply);
    assert_eq!(replay.read_register(0, 0, 4).unwrap(), vec![1, 2, 3, 4]);
}

#[test]
fn wrong_target_yields_unknown_host_error() {
    let mut server = server(1, Basic::new(1, 1, false));

    // The client addresses host 2; the serving host has id 1.
    let mut probe = SimpleClient::new(MemoryStream::new(), 2);
    assert!(probe.ping().is_err());
    let request = probe.stream_mut().take_output();

    let reply = serve(&mut server, &request).unwrap();
    // The reply is an error frame whose payload starts 0x01 0x00 (UnknownHost).
    let reply_frame = rpdo::comm::decode_frame(&reply[7..26]);
    assert_eq!(reply_frame.command, Command::Error);
    assert_eq!(&reply[26..28], &[0x01, 0x00]);

    let mut client = SimpleClient::new(MemoryStream::new(), 2);
    client.stream_mut().push_input(&reply);
    match client.ping() {
        Err(Error::UnknownHost) => {}
        other => panic!("expected UnknownHost, got {:?}", other),
    }
}

#[test]
fn version_mismatch_aborts_server() {
    let mut server = server(1, Basic::new(1, 1, false));
    server.stream_mut().push_input(&[0x52, 0x44, 0x01, 0x13, 0x00, 0x00, 0x00]);
    match server.process_next() {
        Err(Error::UnsupportedVersion) => {}
        other => panic!("expected UnsupportedVersion, got {:?}", other),
    }
}

#[test]
fn version_mismatch_aborts_client() {
    let mut client = SimpleClient::new(MemoryStream::new(), 1);
    client
        .stream_mut()
        .push_input(&[0x52, 0x44, 0x01, 0x13, 0x00, 0x00, 0x00]);
    match client.ping() {
        Err(Error::UnsupportedVersion) => {}
        other => panic!("expected UnsupportedVersion, got {:?}", other),
    }
}

#[test]
fn uncorrelated_reply_is_invalid() {
    // A reply that answers id 5 while the client waits for id 0.
    let stray = Frame { source: 1, target: 0, id: 0, in_reply_to: 5, command: Command::Reply };
    let reply = rpdo::comm::encode_packet_prefix(&stray, 0).unwrap();
    let mut client = SimpleClient::new(MemoryStream::new(), 1);
    client.stream_mut().push_input(&reply);
    match client.ping() {
        Err(Error::InvalidReply) => {}
        other => panic!("expected InvalidReply, got {:?}", other),
    }
}

#[test]
fn reply_for_another_host_is_invalid() {
    // A reply addressed to host 3 instead of the requester (target 0).
    let stray = Frame { source: 1, target: 3, id: 0, in_reply_to: 0, command: Command::Reply };
    let reply = rpdo::comm::encode_packet_prefix(&stray, 0).unwrap();
    let mut client = SimpleClient::new(MemoryStream::new(), 1);
    client.stream_mut().push_input(&reply);
    match client.ping() {
        Err(Error::InvalidReply) => {}
        other => panic!("expected InvalidReply, got {:?}", other),
    }
}

#[test]
fn oversized_packet_overflows() {
    let frame = Frame { source: 0, target: 1, id: 0, in_reply_to: 0, command: Command::Ping };
    match rpdo::comm::encode_packet_prefix(&frame, usize::MAX - 100) {
        Err(Error::Overflow) => {}
        other => panic!("expected Overflow, got {:?}", other),
    }
}

#[test]
fn undersized_header_aborts_server() {
    let mut server = server(1, Basic::new(1, 1, false));
    // The header declares 5 bytes, less than a frame.
    server.stream_mut().push_input(&[0x52, 0x44, 0x00, 0x05, 0x00, 0x00, 0x00]);
    match server.process_next() {
        Err(Error::InvalidData) => {}
        other => panic!("expected InvalidData, got {:?}", other),
    }
}

#[test]
fn bad_magic_aborts_server() {
    let mut server = server(1, Basic::new(1, 1, false));
    server.stream_mut().push_input(&[0x51, 0x44, 0x00, 0x13, 0x00, 0x00, 0x00]);
    match server.process_next() {
        Err(Error::Packer(_)) => {}
        other => panic!("expected Packer, got {:?}", other),
    }
}

struct Reverser;

impl CustomCommandHandler for Reverser {
    fn handle(&self, _frame: &Frame, data: &[u8]) -> Result<Option<Vec<u8>>, Error> {
        let mut reversed = data.to_vec();
        reversed.reverse();
        Ok(Some(reversed))
    }
}

#[test]
fn custom_command_round_trip() {
    let host = Host::new(1, Basic::new(1, 1, false)).with_custom_command_handler(Reverser);
    let mut server = SimpleServerProcessor::new(host, MemoryStream::new());

    let mut probe = SimpleClient::new(MemoryStream::new(), 1);
    assert!(probe.communicate(Command::Other(0x8001), b"dlrow", true).is_err());
    let request = probe.stream_mut().take_output();

    server.stream_mut().push_input(&request);
    server.process_next().unwrap();
    let reply = server.stream_mut().take_output();

    let mut client = SimpleClient::new(MemoryStream::new(), 1);
    client.stream_mut().push_input(&reply);
    let answer = client.communicate(Command::Other(0x8001), b"dlrow", true).unwrap();
    assert_eq!(answer, Some(b"world".to_vec()));
}
