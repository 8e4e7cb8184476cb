use veriflow::frame::{decode_frame, decode_prefix, encode_frame, encode_prefix};
use veriflow::{Command, FileHeader, ProtocolConnection, VeriflowError};

fn deliver(from: &mut ProtocolConnection, to: &mut ProtocolConnection) {
    let bytes = from.take_outbound();
    to.receive(&bytes);
}

#[test]
fn test_protocol_read_and_write() {
    let mut connection = ProtocolConnection::new();
    let mut peer = ProtocolConnection::new();

    let file_name: &str = "img.png";
    let original_file_header: FileHeader = FileHeader {
        command: Command::Download,
        name: String::from(file_name),
        size: 4001,
        hash: String::from("abc123def"),
    };
    let json_string = original_file_header.to_json();
    connection.send_header(&json_string).unwrap();
    deliver(&mut connection, &mut peer);
    let header_length = peer.read_prefix().unwrap().unwrap();
    let byte_header = peer.read_body(header_length).unwrap().unwrap();
    let header = String::from_utf8_lossy(&byte_header);
    assert_eq!(json_string, header);
}

#[test]
fn lib_test_protocol_read_and_write() {
    let mut server = ProtocolConnection::new();
    let mut connection = ProtocolConnection::new();

    let file_name: &str = "img.png";
    let original_file_header: FileHeader = FileHeader {
        command: Command::Download,
        name: String::from(file_name),
        size: 4001,
        hash: String::from("abc123def"),
    };
    let json_string = original_file_header.to_json();
    connection.send_header(&json_string).unwrap();
    deliver(&mut connection, &mut server);

    let len = server.read_prefix().unwrap().unwrap();
    let body = server.read_body(len).unwrap().unwrap();
    server.send_header(&String::from_utf8_lossy(&body)).unwrap();
    deliver(&mut server, &mut connection);

    let header_length = connection.read_prefix().unwrap().unwrap();
    let byte_header = connection.read_body(header_length).unwrap().unwrap();
    let header = String::from_utf8_lossy(&byte_header);
    assert_eq!(json_string, header);
}

#[test]
fn prefix_is_big_endian() {
    assert_eq!(encode_prefix(0), [0, 0, 0, 0]);
    assert_eq!(encode_prefix(1), [0, 0, 0, 1]);
    assert_eq!(encode_prefix(4001), [0, 0, 0x0f, 0xa1]);
    assert_eq!(encode_prefix(0x0102_0304), [1, 2, 3, 4]);
    assert_eq!(encode_prefix(u32::MAX), [0xff, 0xff, 0xff, 0xff]);
    assert_eq!(decode_prefix(&[0, 0, 0, 0]), 0);
    assert_eq!(decode_prefix(&[1, 2, 3, 4]), 0x0102_0304);
    assert_eq!(decode_prefix(&[0xff, 0xff, 0xff, 0xff]), u32::MAX);
    assert_eq!(decode_prefix(&[0, 0, 1, 0]), 256);
}

#[test]
fn prefix_round_trip() {
    for len in [0u32, 1, 255, 256, 65_535, 65_536, 16_777_215, 16_777_216, u32::MAX] {
        assert_eq!(decode_prefix(&encode_prefix(len)), len);
        assert_eq!(encode_prefix(len), len.to_be_bytes());
    }
}

#[test]
fn frame_of_a_small_payload() {
    let bytes = encode_frame(b"test").unwrap();
    assert_eq!(bytes, vec![0, 0, 0, 4, b't', b'e', b's', b't']);
    let (payload, taken) = decode_frame(&bytes).unwrap();
    assert_eq!(payload, b"test".to_vec());
    assert_eq!(taken, 8);
}

#[test]
fn frame_of_an_empty_payload() {
    let bytes = encode_frame(b"").unwrap();
    assert_eq!(bytes, vec![0, 0, 0, 0]);
    assert_eq!(decode_frame(&bytes), Some((Vec::new(), 4)));
}

#[test]
fn frame_that_is_not_whole_is_not_decoded() {
    let bytes = encode_frame(b"payload").unwrap();
    for cut in 0..bytes.len() {
        assert_eq!(decode_frame(&bytes[..cut]), None);
    }
    let mut longer = bytes.clone();
    longer.extend_from_slice(b"more");
    assert_eq!(decode_frame(&longer), Some((b"payload".to_vec(), 11)));
}

#[test]
fn frame_fidelity_for_many_lengths() {
    for len in [0usize, 1, 2, 3, 4, 5, 255, 256, 4095, 4096, 4097, 70_000] {
        let payload: Vec<u8> = (0..len).map(|i| (i * 31 % 251) as u8).collect();
        let mut sender = ProtocolConnection::new();
        let mut receiver = ProtocolConnection::new();
        sender.send_message(&payload).unwrap();
        let wire = sender.take_outbound();
        assert_eq!(wire.len(), len + 4);
        assert_eq!(wire[..4], (len as u32).to_be_bytes());
        receiver.receive(&wire);
        assert_eq!(receiver.read_message(), Ok(Some(payload)));
        assert_eq!(receiver.buffered(), 0);
    }
}

#[test]
fn message_arrives_whole_or_not_at_all() {
    let payload = b"a header that arrives byte by byte".to_vec();
    let mut sender = ProtocolConnection::new();
    let mut receiver = ProtocolConnection::new();
    sender.send_message(&payload).unwrap();
    let wire = sender.take_outbound();
    for (i, byte) in wire.iter().enumerate() {
        assert_eq!(receiver.read_message(), Ok(None));
        assert_eq!(receiver.buffered(), i);
        receiver.receive(&[*byte]);
    }
    assert_eq!(receiver.read_message(), Ok(Some(payload)));
    assert_eq!(receiver.read_message(), Ok(None));
}

#[test]
fn two_messages_keep_their_order_and_bounds() {
    let mut sender = ProtocolConnection::new();
    let mut receiver = ProtocolConnection::new();
    sender.send_message(b"first").unwrap();
    sender.send_message(b"").unwrap();
    sender.send_message(b"third").unwrap();
    deliver(&mut sender, &mut receiver);
    assert_eq!(receiver.read_message(), Ok(Some(b"first".to_vec())));
    assert_eq!(receiver.read_message(), Ok(Some(Vec::new())));
    assert_eq!(receiver.read_message(), Ok(Some(b"third".to_vec())));
    assert_eq!(receiver.read_message(), Ok(None));
}

#[test]
fn closed_before_the_prefix_is_a_protocol_error() {
    let mut receiver = ProtocolConnection::new();
    receiver.receive(&[0, 0, 0]);
    assert_eq!(receiver.read_prefix(), Ok(None));
    receiver.close();
    assert!(receiver.is_closed());
    assert_eq!(receiver.read_prefix(), Err(VeriflowError::Protocol));
    assert_eq!(receiver.read_message(), Err(VeriflowError::Protocol));
    assert_eq!(receiver.buffered(), 3);
}

#[test]
fn closed_inside_the_payload_is_a_protocol_error() {
    let mut receiver = ProtocolConnection::new();
    receiver.receive(&[0, 0, 0, 5, b'a', b'b']);
    assert_eq!(receiver.read_message(), Ok(None));
    receiver.close();
    assert_eq!(receiver.read_message(), Err(VeriflowError::Protocol));
    assert_eq!(receiver.read_prefix(), Ok(Some(5)));
    assert_eq!(receiver.read_body(5), Err(VeriflowError::Protocol));
    assert_eq!(receiver.read_body(2), Ok(Some(b"ab".to_vec())));
}

#[test]
fn read_body_takes_exactly_what_is_asked() {
    let mut receiver = ProtocolConnection::new();
    receiver.receive(b"abcdef");
    assert_eq!(receiver.read_body(0), Ok(Some(Vec::new())));
    assert_eq!(receiver.read_body(4), Ok(Some(b"abcd".to_vec())));
    assert_eq!(receiver.read_body(3), Ok(None));
    assert_eq!(receiver.buffered(), 2);
    receiver.receive(b"g");
    assert_eq!(receiver.read_body(3), Ok(Some(b"efg".to_vec())));
}

#[test]
fn send_file_writes_the_bytes_bare() {
    let mut sender = ProtocolConnection::new();
    let mut buffer = b"raw body".to_vec();
    sender.send_file(&mut buffer);
    assert!(buffer.is_empty());
    assert_eq!(sender.take_outbound(), b"raw body".to_vec());
    assert_eq!(sender.take_outbound(), Vec::<u8>::new());
}

#[test]
fn send_header_frames_the_text() {
    let mut sender = ProtocolConnection::new();
    sender.send_header("h\u{e9}").unwrap();
    assert_eq!(sender.take_outbound(), vec![0, 0, 0, 3, b'h', 0xc3, 0xa9]);
}
