use opcua_server::byte_string::ByteString;
use opcua_server::comms::chunker::{
    split_message, Assembled, Assembler, AsymmetricChunkHeader, Chunk, SymmetricChunkHeader,
};
use opcua_server::comms::tcp_types::{
    AcknowledgeMessage, ChunkType, ErrorMessage, HelloMessage, MessageHeader, MessageType,
    ServerLimits, MESSAGE_HEADER_LEN, MIN_CHUNK_SIZE,
};
use opcua_server::encoding::{BinaryEncoder, DecodingLimits, EncodingError, Reader};
use opcua_server::status_codes::{
    StatusCode, BAD_COMMUNICATION_ERROR, BAD_TCP_MESSAGE_TOO_LARGE,
};
use opcua_server::string::UAString;

fn decoded<T: BinaryEncoder>(bytes: &[u8]) -> Result<T, EncodingError> {
    let limits = DecodingLimits::default();
    let mut reader = Reader::new(bytes);
    T::decode(&mut reader, &limits)
}

fn round_trip<T: BinaryEncoder + PartialEq + std::fmt::Debug>(value: T) -> Vec<u8> {
    let mut bytes = Vec::new();
    let size = value.encode(&mut bytes).unwrap();
    assert_eq!(size, bytes.len());
    assert_eq!(value.byte_len(), bytes.len());
    assert_eq!(decoded::<T>(&bytes), Ok(value));
    for cut in 0..bytes.len() {
        assert_eq!(decoded::<T>(&bytes[..cut]), Err(EncodingError::UnexpectedEof));
    }
    bytes
}

#[test]
fn message_types_are_three_letters() {
    assert_eq!(round_trip(MessageType::Hello), b"HEL".to_vec());
    assert_eq!(round_trip(MessageType::Acknowledge), b"ACK".to_vec());
    assert_eq!(round_trip(MessageType::Error), b"ERR".to_vec());
    assert_eq!(round_trip(MessageType::Message), b"MSG".to_vec());
    assert_eq!(round_trip(MessageType::OpenSecureChannel), b"OPN".to_vec());
    assert_eq!(round_trip(MessageType::CloseSecureChannel), b"CLO".to_vec());
    assert_eq!(decoded::<MessageType>(b"XYZ"), Err(EncodingError::InvalidEncoding));
    assert_eq!(decoded::<MessageType>(b"hel"), Err(EncodingError::InvalidEncoding));
    assert_eq!(MessageType::from_letters(b'M', b'S', b'G'), Some(MessageType::Message));
    assert_eq!(MessageType::from_letters(b'M', b'S', b'X'), None);
    assert_eq!(MessageType::Hello.as_letters(), *b"HEL");
}

#[test]
fn chunk_types_are_one_letter() {
    assert_eq!(round_trip(ChunkType::Final), b"F".to_vec());
    assert_eq!(round_trip(ChunkType::Intermediate), b"C".to_vec());
    assert_eq!(round_trip(ChunkType::FinalError), b"A".to_vec());
    assert_eq!(decoded::<ChunkType>(b"X"), Err(EncodingError::InvalidEncoding));
}

#[test]
fn message_header_is_eight_bytes() {
    let header = MessageHeader {
        message_type: MessageType::Message,
        chunk_type: ChunkType::Final,
        message_size: 0x0102,
    };
    assert_eq!(round_trip(header), vec![b'M', b'S', b'G', b'F', 2, 1, 0, 0]);
    assert_eq!(header.byte_len(), MESSAGE_HEADER_LEN);
    assert_eq!(
        decoded::<MessageHeader>(&[b'M', b'S', b'G', b'Z', 2, 1, 0, 0]),
        Err(EncodingError::InvalidEncoding)
    );
}

fn hello(receive: u32, send: u32, url: UAString) -> HelloMessage {
    HelloMessage {
        protocol_version: 0,
        receive_buffer_size: receive,
        send_buffer_size: send,
        max_message_size: 1 << 20,
        max_chunk_count: 16,
        endpoint_url: url,
    }
}

#[test]
fn hello_and_acknowledge_round_trip() {
    let bytes = round_trip(hello(65536, 32768, UAString::from("opc.tcp://a")));
    assert_eq!(
        bytes,
        vec![
            0, 0, 0, 0, // version
            0, 0, 1, 0, // receive buffer
            0, 128, 0, 0, // send buffer
            0, 0, 16, 0, // message size
            16, 0, 0, 0, // chunk count
            11, 0, 0, 0, 111, 112, 99, 46, 116, 99, 112, 58, 47, 47, 97, // url
        ]
    );
    let acknowledge = AcknowledgeMessage {
        protocol_version: 1,
        receive_buffer_size: 2,
        send_buffer_size: 3,
        max_message_size: 4,
        max_chunk_count: 5,
    };
    assert_eq!(
        round_trip(acknowledge),
        vec![1, 0, 0, 0, 2, 0, 0, 0, 3, 0, 0, 0, 4, 0, 0, 0, 5, 0, 0, 0]
    );
    let error = ErrorMessage { error: StatusCode(BAD_COMMUNICATION_ERROR), reason: UAString::from("no") };
    assert_eq!(round_trip(error), vec![0, 0, 5, 0x80, 2, 0, 0, 0, 110, 111]);
}

#[test]
fn server_settles_on_the_smaller_buffers() {
    let limits = ServerLimits {
        protocol_version: 0,
        receive_buffer_size: 40000,
        send_buffer_size: 50000,
        max_message_size: 1000000,
        max_chunk_count: 10,
    };
    let url = UAString::from("opc.tcp://localhost:4855/");
    assert_eq!(
        limits.acknowledge(&hello(65536, 32768, url.clone())),
        Ok(AcknowledgeMessage {
            protocol_version: 0,
            receive_buffer_size: 32768,
            send_buffer_size: 50000,
            max_message_size: 1000000,
            max_chunk_count: 10,
        })
    );
    assert_eq!(
        limits.acknowledge(&hello(45000, 65536, url.clone())),
        Ok(AcknowledgeMessage {
            protocol_version: 0,
            receive_buffer_size: 40000,
            send_buffer_size: 45000,
            max_message_size: 1000000,
            max_chunk_count: 10,
        })
    );
    let refused = Err(StatusCode(BAD_COMMUNICATION_ERROR));
    assert_eq!(limits.acknowledge(&hello(MIN_CHUNK_SIZE - 1, 65536, url.clone())), refused);
    assert_eq!(limits.acknowledge(&hello(65536, MIN_CHUNK_SIZE - 1, url.clone())), refused);
    assert!(hello(MIN_CHUNK_SIZE, MIN_CHUNK_SIZE, url).is_valid());
    assert_eq!(limits.acknowledge(&hello(65536, 65536, UAString::null())), refused);
    assert_eq!(limits.acknowledge(&hello(65536, 65536, UAString::from(""))), refused);
    let long: String = std::iter::repeat('a').take(4097).collect();
    assert_eq!(limits.acknowledge(&hello(65536, 65536, UAString::from(&long))), refused);
    assert!(hello(65536, 65536, UAString::from(&long[..4096])).is_valid());
}

#[test]
fn chunk_headers_round_trip() {
    let header = MessageHeader {
        message_type: MessageType::Message,
        chunk_type: ChunkType::Intermediate,
        message_size: 100,
    };
    let symmetric = SymmetricChunkHeader {
        message_header: header,
        secure_channel_id: 1,
        token_id: 2,
        sequence_number: 3,
        request_id: 4,
    };
    assert_eq!(
        round_trip(symmetric),
        vec![
            b'M', b'S', b'G', b'C', 100, 0, 0, 0, 1, 0, 0, 0, 2, 0, 0, 0, 3, 0, 0, 0, 4, 0, 0, 0
        ]
    );
    let asymmetric = AsymmetricChunkHeader {
        message_header: MessageHeader {
            message_type: MessageType::OpenSecureChannel,
            chunk_type: ChunkType::Final,
            message_size: 50,
        },
        secure_channel_id: 0,
        security_policy_uri: UAString::from("p"),
        sender_certificate: ByteString::null(),
        receiver_certificate_thumbprint: ByteString::from(vec![7]),
        sequence_number: 1,
        request_id: 1,
    };
    assert_eq!(
        round_trip(asymmetric),
        vec![
            b'O', b'P', b'N', b'F', 50, 0, 0, 0, // message header
            0, 0, 0, 0, // channel
            1, 0, 0, 0, 112, // policy
            255, 255, 255, 255, // certificate
            1, 0, 0, 0, 7, // thumbprint
            1, 0, 0, 0, 1, 0, 0, 0, // sequence number and request
        ]
    );
}

fn bodies(chunks: &[Chunk]) -> Vec<(ChunkType, Vec<u8>)> {
    chunks
        .iter()
        .map(|c| {
            assert_eq!(c.secure_channel_id, 5);
            assert_eq!(c.request_id, 9);
            (c.chunk_type, c.body.clone())
        })
        .collect()
}

#[test]
fn messages_are_split_into_pieces() {
    let message: Vec<u8> = (0..10).collect();
    assert_eq!(
        bodies(&split_message(&message, 4, 5, 9)),
        vec![
            (ChunkType::Intermediate, vec![0, 1, 2, 3]),
            (ChunkType::Intermediate, vec![4, 5, 6, 7]),
            (ChunkType::Final, vec![8, 9]),
        ]
    );
    assert_eq!(
        bodies(&split_message(&message, 5, 5, 9)),
        vec![(ChunkType::Intermediate, vec![0, 1, 2, 3, 4]), (ChunkType::Final, vec![5, 6, 7, 8, 9])]
    );
    assert_eq!(bodies(&split_message(&message, 10, 5, 9)), vec![(ChunkType::Final, message.clone())]);
    assert_eq!(bodies(&split_message(&message, 100, 5, 9)), vec![(ChunkType::Final, message.clone())]);
    assert_eq!(bodies(&split_message(&[], 4, 5, 9)), vec![(ChunkType::Final, vec![])]);
    assert_eq!(split_message(&message, 1, 5, 9).len(), 10);
}

#[test]
fn pieces_are_put_together_again() {
    let message: Vec<u8> = (0..=255).collect();
    for max in [1usize, 7, 64, 255, 256, 1000] {
        let mut assembler = Assembler::new(0, 0);
        let chunks = split_message(&message, max, 1, 2);
        let count = chunks.len();
        for (i, chunk) in chunks.into_iter().enumerate() {
            let result = assembler.receive(chunk);
            if i + 1 < count {
                assert_eq!(result, Ok(Assembled::Pending));
                assert_eq!(assembler.partial.len(), 1);
                assert_eq!(assembler.partial[0].chunk_count, i + 1);
            } else {
                assert_eq!(result, Ok(Assembled::Message(message.clone())));
            }
        }
        assert_eq!(assembler, Assembler::new(0, 0));
    }
}

fn chunk(kind: ChunkType, channel: u32, request: u32, body: Vec<u8>) -> Chunk {
    Chunk { chunk_type: kind, secure_channel_id: channel, request_id: request, body }
}

#[test]
fn messages_are_told_apart_by_channel_and_request() {
    let mut assembler = Assembler::new(0, 0);
    assert_eq!(assembler.receive(chunk(ChunkType::Intermediate, 1, 1, vec![1])), Ok(Assembled::Pending));
    assert_eq!(assembler.receive(chunk(ChunkType::Intermediate, 1, 2, vec![2])), Ok(Assembled::Pending));
    assert_eq!(assembler.receive(chunk(ChunkType::Intermediate, 2, 1, vec![3])), Ok(Assembled::Pending));
    assert_eq!(assembler.receive(chunk(ChunkType::Final, 1, 2, vec![4])), Ok(Assembled::Message(vec![2, 4])));
    assert_eq!(assembler.receive(chunk(ChunkType::Final, 1, 1, vec![5])), Ok(Assembled::Message(vec![1, 5])));
    assert_eq!(assembler.receive(chunk(ChunkType::Final, 2, 1, vec![])), Ok(Assembled::Message(vec![3])));
    assert_eq!(assembler.partial.len(), 0);
}

#[test]
fn abort_forgets_the_pieces() {
    let mut assembler = Assembler::new(0, 0);
    assert_eq!(assembler.receive(chunk(ChunkType::Intermediate, 1, 1, vec![1])), Ok(Assembled::Pending));
    assert_eq!(assembler.receive(chunk(ChunkType::Intermediate, 1, 2, vec![2])), Ok(Assembled::Pending));
    assert_eq!(assembler.receive(chunk(ChunkType::FinalError, 1, 1, vec![9])), Ok(Assembled::Aborted));
    assert_eq!(assembler.partial.len(), 1);
    assert_eq!(assembler.receive(chunk(ChunkType::Final, 1, 1, vec![3])), Ok(Assembled::Message(vec![3])));
    // an abort of a message of which nothing has arrived
    assert_eq!(assembler.receive(chunk(ChunkType::FinalError, 7, 7, vec![])), Ok(Assembled::Aborted));
    assert_eq!(assembler.partial.len(), 1);
}

#[test]
fn too_many_chunks_or_bytes_fail() {
    let too_large = Err(StatusCode(BAD_TCP_MESSAGE_TOO_LARGE));
    let mut assembler = Assembler::new(0, 2);
    assert_eq!(assembler.receive(chunk(ChunkType::Intermediate, 1, 1, vec![1])), Ok(Assembled::Pending));
    assert_eq!(assembler.receive(chunk(ChunkType::Intermediate, 1, 1, vec![2])), Ok(Assembled::Pending));
    assert_eq!(assembler.receive(chunk(ChunkType::Final, 1, 1, vec![3])), too_large);
    assert_eq!(assembler.partial.len(), 0);
    // two chunks are let through
    assert_eq!(assembler.receive(chunk(ChunkType::Intermediate, 1, 1, vec![1])), Ok(Assembled::Pending));
    assert_eq!(assembler.receive(chunk(ChunkType::Final, 1, 1, vec![2])), Ok(Assembled::Message(vec![1, 2])));
    let mut assembler = Assembler::new(3, 0);
    assert_eq!(assembler.receive(chunk(ChunkType::Intermediate, 1, 1, vec![1, 2])), Ok(Assembled::Pending));
    assert_eq!(assembler.receive(chunk(ChunkType::Intermediate, 1, 1, vec![3, 4])), too_large);
    assert_eq!(assembler.receive(chunk(ChunkType::Final, 1, 1, vec![1, 2, 3])), Ok(Assembled::Message(vec![1, 2, 3])));
    assert_eq!(assembler.receive(chunk(ChunkType::Final, 1, 1, vec![1, 2, 3, 4])), too_large);
}
