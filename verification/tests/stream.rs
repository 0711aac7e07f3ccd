use rpdo::io::{ByteStream, DatagramBuffer, MemoryStream, MAX_UDP_PACKET_SIZE};
use rpdo::Error;

#[test]
fn memory_stream_reads_in_order() {
    let mut stream = MemoryStream::new();
    stream.push_input(&[1, 2, 3, 4, 5]);
    assert_eq!(stream.read_exact_bytes(2).unwrap(), vec![1, 2]);
    assert_eq!(stream.read_exact_bytes(3).unwrap(), vec![3, 4, 5]);
}

#[test]
fn memory_stream_short_read_fails() {
    let mut stream = MemoryStream::new();
    stream.push_input(&[1, 2]);
    match stream.read_exact_bytes(3) {
        Err(Error::Io(_)) => {}
        other => panic!("expected Io error, got {:?}", other),
    }
    // Nothing was consumed by the failed read.
    assert_eq!(stream.read_exact_bytes(2).unwrap(), vec![1, 2]);
}

#[test]
fn memory_stream_collects_writes() {
    let mut stream = MemoryStream::new();
    stream.write_bytes(&[1, 2]).unwrap();
    stream.write_bytes(&[3]).unwrap();
    stream.flush().unwrap();
    assert_eq!(stream.take_output(), vec![1, 2, 3]);
    assert_eq!(stream.take_output(), Vec::<u8>::new());
}

#[test]
fn datagram_buffer_mtu_ceiling() {
    let buffer = DatagramBuffer::new();
    assert!(buffer.try_with_mtu(MAX_UDP_PACKET_SIZE).is_ok());
    let buffer = DatagramBuffer::new();
    match buffer.try_with_mtu(MAX_UDP_PACKET_SIZE + 1) {
        Err(Error::Io(_)) => {}
        other => panic!("expected Io error, got {:?}", other),
    }
}

#[test]
fn datagram_buffer_serves_reads_bytewise() {
    let mut buffer = DatagramBuffer::new();
    assert!(buffer.is_read_empty());
    buffer.load_datagram(&[1, 2, 3, 4]);
    assert!(!buffer.is_read_empty());
    assert_eq!(buffer.take_from_read(3), vec![1, 2, 3]);
    // Asking for more than is buffered serves what is there.
    assert_eq!(buffer.take_from_read(10), vec![4]);
    assert!(buffer.is_read_empty());
}

#[test]
fn datagram_buffer_needs_peer() {
    let mut buffer = DatagramBuffer::new();
    buffer.queue_write(&[1, 2, 3]);
    match buffer.take_datagram() {
        Err(Error::Io(_)) => {}
        other => panic!("expected Io error, got {:?}", other),
    }
    // The write buffer is emptied even on failure.
    buffer.set_peer_known();
    assert_eq!(buffer.take_datagram().unwrap(), Vec::<u8>::new());
}

#[test]
fn datagram_buffer_sends_accumulated_writes() {
    let mut buffer = DatagramBuffer::new();
    buffer.set_peer_known();
    buffer.queue_write(&[1, 2]);
    buffer.queue_write(&[3]);
    assert_eq!(buffer.take_datagram().unwrap(), vec![1, 2, 3]);
    assert_eq!(buffer.take_datagram().unwrap(), Vec::<u8>::new());
}

#[test]
fn datagram_buffer_rejects_oversized_datagram() {
    let buffer = DatagramBuffer::new();
    let mut buffer = buffer.try_with_mtu(4).unwrap();
    buffer.set_peer_known();
    buffer.queue_write(&[1, 2, 3, 4, 5]);
    match buffer.take_datagram() {
        Err(Error::Io(_)) => {}
        other => panic!("expected Io error, got {:?}", other),
    }
    // Receiving a datagram records the sender as the peer.
    let mut fresh = DatagramBuffer::new();
    fresh.load_datagram(&[9]);
    fresh.queue_write(&[1]);
    assert_eq!(fresh.take_datagram().unwrap(), vec![1]);
}
