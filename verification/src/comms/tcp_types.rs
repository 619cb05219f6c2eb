//! What travels on the connection before and around the service
//! messages: message headers, hello, acknowledge and error.

use crate::encoding::{
    get, put, put_last, BinaryEncoder, DecodingLimits, EncodingError, Parsed, Reader,
};
use crate::status_codes::{StatusCode, BAD_COMMUNICATION_ERROR};
use crate::string::UAString;
use vstd::prelude::*;

verus! {

/// The kind of a message on the connection.
#[derive(Clone, Copy, Debug, PartialEq, Eq, Hash, Structural)]
pub enum MessageType {
    /// The client opens the conversation.
    Hello,
    /// The server answers a hello.
    Acknowledge,
    /// One side reports an error and ends the conversation.
    Error,
    /// A chunk of a service message.
    Message,
    /// A chunk of a message that opens a secure channel.
    OpenSecureChannel,
    /// A chunk of a message that closes a secure channel.
    CloseSecureChannel,
}

impl DeepView for MessageType {
    type V = MessageType;

    open spec fn deep_view(&self) -> MessageType {
        *self
    }
}

impl MessageType {
    /// The three letters that stand for the kind on the wire: HEL, ACK,
    /// ERR, MSG, OPN, CLO.
    pub open spec fn letters(self) -> Seq<u8> {
        match self {
            MessageType::Hello => seq![72u8, 69u8, 76u8],
            MessageType::Acknowledge => seq![65u8, 67u8, 75u8],
            MessageType::Error => seq![69u8, 82u8, 82u8],
            MessageType::Message => seq![77u8, 83u8, 71u8],
            MessageType::OpenSecureChannel => seq![79u8, 80u8, 78u8],
            MessageType::CloseSecureChannel => seq![67u8, 76u8, 79u8],
        }
    }

    /// The kind that three letters stand for, where they stand for one.
    pub open spec fn of_letters(a: u8, b: u8, c: u8) -> Option<MessageType> {
        if a == 72 && b == 69 && c == 76 {
            Some(MessageType::Hello)
        } else if a == 65 && b == 67 && c == 75 {
            Some(MessageType::Acknowledge)
        } else if a == 69 && b == 82 && c == 82 {
            Some(MessageType::Error)
        } else if a == 77 && b == 83 && c == 71 {
            Some(MessageType::Message)
        } else if a == 79 && b == 80 && c == 78 {
            Some(MessageType::OpenSecureChannel)
        } else if a == 67 && b == 76 && c == 79 {
            Some(MessageType::CloseSecureChannel)
        } else {
            None
        }
    }

    /// The kind that three letters stand for, where they stand for one.
    pub fn from_letters(a: u8, b: u8, c: u8) -> (r: Option<MessageType>)
        ensures
            r == Self::of_letters(a, b, c),
    {
        if a == 72 && b == 69 && c == 76 {
            Some(MessageType::Hello)
        } else if a == 65 && b == 67 && c == 75 {
            Some(MessageType::Acknowledge)
        } else if a == 69 && b == 82 && c == 82 {
            Some(MessageType::Error)
        } else if a == 77 && b == 83 && c == 71 {
            Some(MessageType::Message)
        } else if a == 79 && b == 80 && c == 78 {
            Some(MessageType::OpenSecureChannel)
        } else if a == 67 && b == 76 && c == 79 {
            Some(MessageType::CloseSecureChannel)
        } else {
            None
        }
    }

    /// The three letters that stand for the kind on the wire.
    pub fn as_letters(self) -> (r: [u8; 3])
        ensures
            r@ == self.letters(),
    {
        let r: [u8; 3] = match self {
            MessageType::Hello => [72, 69, 76],
            MessageType::Acknowledge => [65, 67, 75],
            MessageType::Error => [69, 82, 82],
            MessageType::Message => [77, 83, 71],
            MessageType::OpenSecureChannel => [79, 80, 78],
            MessageType::CloseSecureChannel => [67, 76, 79],
        };
        assert(r@ =~= self.letters());
        r
    }
}

/// A kind of message is its three letters; other letters are invalid.
impl BinaryEncoder for MessageType {
    open spec fn wire(v: MessageType) -> Seq<u8> {
        v.letters()
    }

    open spec fn parse(bytes: Seq<u8>, limits: DecodingLimits) -> Parsed<MessageType> {
        if bytes.len() < 3 {
            Err(EncodingError::UnexpectedEof)
        } else {
            match Self::of_letters(bytes[0], bytes[1], bytes[2]) {
                Some(kind) => Ok((kind, 3)),
                None => Err(EncodingError::InvalidEncoding),
            }
        }
    }

    open spec fn encodable(v: MessageType) -> bool {
        true
    }

    open spec fn within(v: MessageType, limits: DecodingLimits) -> bool {
        true
    }

    proof fn lemma_parse_wire(v: MessageType, rest: Seq<u8>, limits: DecodingLimits) {
    }

    proof fn lemma_parse_truncated(v: MessageType, k: int, limits: DecodingLimits) {
    }

    proof fn lemma_parse_bound(bytes: Seq<u8>, limits: DecodingLimits) {
    }

    fn byte_len(&self) -> (n: usize) {
        3
    }

    fn encode(&self, stream: &mut Vec<u8>) -> (r: Result<usize, EncodingError>) {
        let letters = self.as_letters();
        stream.extend_from_slice(letters.as_slice());
        Ok(3)
    }

    fn decode(stream: &mut Reader, limits: &DecodingLimits) -> (r: Result<Self, EncodingError>) {
        let taken = stream.take(3)?;
        match MessageType::from_letters(taken[0], taken[1], taken[2]) {
            Some(kind) => Ok(kind),
            None => Err(EncodingError::InvalidEncoding),
        }
    }
}

/// Where a chunk stands in its message.
#[derive(Clone, Copy, Debug, PartialEq, Eq, Hash, Structural)]
pub enum ChunkType {
    /// The last chunk of a message.
    Final,
    /// A chunk that is followed by more.
    Intermediate,
    /// The sender gives the message up.
    FinalError,
}

impl DeepView for ChunkType {
    type V = ChunkType;

    open spec fn deep_view(&self) -> ChunkType {
        *self
    }
}

impl ChunkType {
    /// The letter that stands for the place on the wire: F, C or A.
    pub open spec fn letter(self) -> u8 {
        match self {
            ChunkType::Final => 70,
            ChunkType::Intermediate => 67,
            ChunkType::FinalError => 65,
        }
    }

    /// The place that a letter stands for, where it stands for one.
    pub open spec fn of_letter(letter: u8) -> Option<ChunkType> {
        if letter == 70 {
            Some(ChunkType::Final)
        } else if letter == 67 {
            Some(ChunkType::Intermediate)
        } else if letter == 65 {
            Some(ChunkType::FinalError)
        } else {
            None
        }
    }
}

/// The place of a chunk is its letter; another letter is invalid.
impl BinaryEncoder for ChunkType {
    open spec fn wire(v: ChunkType) -> Seq<u8> {
        seq![v.letter()]
    }

    open spec fn parse(bytes: Seq<u8>, limits: DecodingLimits) -> Parsed<ChunkType> {
        if bytes.len() < 1 {
            Err(EncodingError::UnexpectedEof)
        } else {
            match Self::of_letter(bytes[0]) {
                Some(place) => Ok((place, 1)),
                None => Err(EncodingError::InvalidEncoding),
            }
        }
    }

    open spec fn encodable(v: ChunkType) -> bool {
        true
    }

    open spec fn within(v: ChunkType, limits: DecodingLimits) -> bool {
        true
    }

    proof fn lemma_parse_wire(v: ChunkType, rest: Seq<u8>, limits: DecodingLimits) {
    }

    proof fn lemma_parse_truncated(v: ChunkType, k: int, limits: DecodingLimits) {
    }

    proof fn lemma_parse_bound(bytes: Seq<u8>, limits: DecodingLimits) {
    }

    fn byte_len(&self) -> (n: usize) {
        1
    }

    fn encode(&self, stream: &mut Vec<u8>) -> (r: Result<usize, EncodingError>) {
        let letter: u8 = match self {
            ChunkType::Final => 70,
            ChunkType::Intermediate => 67,
            ChunkType::FinalError => 65,
        };
        stream.push(letter);
        assert(stream@ =~= old(stream)@ + Self::wire(*self));
        Ok(1)
    }

    fn decode(stream: &mut Reader, limits: &DecodingLimits) -> (r: Result<Self, EncodingError>) {
        let taken = stream.take(1)?;
        let letter = taken[0];
        if letter == 70 {
            Ok(ChunkType::Final)
        } else if letter == 67 {
            Ok(ChunkType::Intermediate)
        } else if letter == 65 {
            Ok(ChunkType::FinalError)
        } else {
            Err(EncodingError::InvalidEncoding)
        }
    }
}

/// The length of a message header on the wire.
pub const MESSAGE_HEADER_LEN: usize = 8;

/// The smallest buffer that either side may offer.
pub const MIN_CHUNK_SIZE: u32 = 8196;

/// The longest endpoint URL that a hello may carry.
pub const MAX_ENDPOINT_URL_LEN: usize = 4096;

/// What every message on the connection begins with.
#[derive(Debug, Copy, Eq, PartialEq, Clone)]
pub struct MessageHeader {
    /// The kind of the message.
    pub message_type: MessageType,
    /// The place of the chunk in its message.
    pub chunk_type: ChunkType,
    /// The length of the message or chunk in bytes, this header included.
    pub message_size: u32,
}

/// The value that a `MessageHeader` stands for.
pub struct MessageHeaderView {
    pub message_type: MessageType,
    pub chunk_type: ChunkType,
    pub message_size: u32,
}

impl DeepView for MessageHeader {
    type V = MessageHeaderView;

    open spec fn deep_view(&self) -> MessageHeaderView {
        MessageHeaderView {
            message_type: self.message_type.deep_view(),
            chunk_type: self.chunk_type.deep_view(),
            message_size: self.message_size.deep_view(),
        }
    }
}

impl View for MessageHeader {
    type V = MessageHeaderView;

    open spec fn view(&self) -> MessageHeaderView {
        self.deep_view()
    }
}

impl MessageHeaderView {
    /// The fields in the order in which they travel.
    pub open spec fn fields(self) -> (MessageType, (ChunkType, u32)) {
        (self.message_type, (self.chunk_type, self.message_size))
    }

    /// The value with the given fields.
    pub open spec fn of_fields(t: (MessageType, (ChunkType, u32))) -> MessageHeaderView {
        MessageHeaderView {
            message_type: t.0,
            chunk_type: t.1.0,
            message_size: t.1.1,
        }
    }
}

/// A message header is the kind of the message, the place of the chunk, and the size of the whole, header and all.
impl BinaryEncoder for MessageHeader {
    open spec fn wire(v: MessageHeaderView) -> Seq<u8> {
        <(MessageType, (ChunkType, u32))>::wire(v.fields())
    }

    open spec fn parse(bytes: Seq<u8>, limits: DecodingLimits) -> Parsed<MessageHeaderView> {
        match <(MessageType, (ChunkType, u32))>::parse(bytes, limits) {
            Err(e) => Err(e),
            Ok((t, n)) => Ok((MessageHeaderView::of_fields(t), n)),
        }
    }

    open spec fn encodable(v: MessageHeaderView) -> bool {
        <(MessageType, (ChunkType, u32))>::encodable(v.fields())
    }

    open spec fn within(v: MessageHeaderView, limits: DecodingLimits) -> bool {
        <(MessageType, (ChunkType, u32))>::within(v.fields(), limits)
    }

    proof fn lemma_parse_wire(v: MessageHeaderView, rest: Seq<u8>, limits: DecodingLimits) {
        <(MessageType, (ChunkType, u32))>::lemma_parse_wire(v.fields(), rest, limits);
    }

    proof fn lemma_parse_truncated(v: MessageHeaderView, k: int, limits: DecodingLimits) {
        <(MessageType, (ChunkType, u32))>::lemma_parse_truncated(v.fields(), k, limits);
    }

    proof fn lemma_parse_bound(bytes: Seq<u8>, limits: DecodingLimits) {
        <(MessageType, (ChunkType, u32))>::lemma_parse_bound(bytes, limits);
    }

    fn byte_len(&self) -> (n: usize) {
        let mut size: usize = 0;
        size += self.message_type.byte_len();
        size += self.chunk_type.byte_len();
        size += self.message_size.byte_len();
        size
    }

    fn encode(&self, stream: &mut Vec<u8>) -> (r: Result<usize, EncodingError>) {
        let ghost start = stream@;
        let ghost total = Self::wire(self@);
        let ghost t = self@.fields();
        let size: usize = 0;
        let size = put(&self.message_type, stream, size, Ghost(start), Ghost(total), Ghost(<(ChunkType, u32)>::wire(t.1)))?;
        let size = put(&self.chunk_type, stream, size, Ghost(start), Ghost(total), Ghost(u32::wire(t.1.1)))?;
        let size = put_last(&self.message_size, stream, size, Ghost(start), Ghost(total))?;
        Ok(size)
    }

    fn decode(stream: &mut Reader, limits: &DecodingLimits) -> (r: Result<Self, EncodingError>) {
        let ghost start = stream@;
        let ghost taken = 0int;
        assert(start.skip(0) =~= start);
        let ghost unread = stream@;
        let message_type = get::<MessageType>(stream, limits, Ghost(start), Ghost(taken))?;
        proof {
            taken = taken + MessageType::parse(unread, *limits).unwrap().1;
        }
        let ghost unread = stream@;
        let chunk_type = get::<ChunkType>(stream, limits, Ghost(start), Ghost(taken))?;
        proof {
            taken = taken + ChunkType::parse(unread, *limits).unwrap().1;
        }
        let ghost unread = stream@;
        let message_size = get::<u32>(stream, limits, Ghost(start), Ghost(taken))?;
        proof {
            taken = taken + u32::parse(unread, *limits).unwrap().1;
        }
        Ok(MessageHeader { message_type, chunk_type, message_size })
    }
}

/// What the client offers when it opens the conversation.
#[derive(Debug, PartialEq, Clone)]
pub struct HelloMessage {
    /// The version of the protocol that the client speaks.
    pub protocol_version: u32,
    /// The largest chunk that the client can receive.
    pub receive_buffer_size: u32,
    /// The largest chunk that the client will send.
    pub send_buffer_size: u32,
    /// The largest message that the client can receive; 0 for no limit.
    pub max_message_size: u32,
    /// The most chunks in a message that the client can receive; 0 for no limit.
    pub max_chunk_count: u32,
    /// The endpoint that the client wants to reach.
    pub endpoint_url: UAString,
}

/// The value that a `HelloMessage` stands for.
pub struct HelloMessageView {
    pub protocol_version: u32,
    pub receive_buffer_size: u32,
    pub send_buffer_size: u32,
    pub max_message_size: u32,
    pub max_chunk_count: u32,
    pub endpoint_url: Option<Seq<char>>,
}

impl DeepView for HelloMessage {
    type V = HelloMessageView;

    open spec fn deep_view(&self) -> HelloMessageView {
        HelloMessageView {
            protocol_version: self.protocol_version.deep_view(),
            receive_buffer_size: self.receive_buffer_size.deep_view(),
            send_buffer_size: self.send_buffer_size.deep_view(),
            max_message_size: self.max_message_size.deep_view(),
            max_chunk_count: self.max_chunk_count.deep_view(),
            endpoint_url: self.endpoint_url.deep_view(),
        }
    }
}

impl View for HelloMessage {
    type V = HelloMessageView;

    open spec fn view(&self) -> HelloMessageView {
        self.deep_view()
    }
}

impl HelloMessageView {
    /// The fields in the order in which they travel.
    pub open spec fn fields(self) -> (u32, (u32, (u32, (u32, (u32, Option<Seq<char>>))))) {
        (self.protocol_version, (self.receive_buffer_size, (self.send_buffer_size, (self.max_message_size, (self.max_chunk_count, self.endpoint_url)))))
    }

    /// The value with the given fields.
    pub open spec fn of_fields(t: (u32, (u32, (u32, (u32, (u32, Option<Seq<char>>)))))) -> HelloMessageView {
        HelloMessageView {
            protocol_version: t.0,
            receive_buffer_size: t.1.0,
            send_buffer_size: t.1.1.0,
            max_message_size: t.1.1.1.0,
            max_chunk_count: t.1.1.1.1.0,
            endpoint_url: t.1.1.1.1.1,
        }
    }
}

/// A hello is its fields one after the other.
impl BinaryEncoder for HelloMessage {
    open spec fn wire(v: HelloMessageView) -> Seq<u8> {
        <(u32, (u32, (u32, (u32, (u32, UAString)))))>::wire(v.fields())
    }

    open spec fn parse(bytes: Seq<u8>, limits: DecodingLimits) -> Parsed<HelloMessageView> {
        match <(u32, (u32, (u32, (u32, (u32, UAString)))))>::parse(bytes, limits) {
            Err(e) => Err(e),
            Ok((t, n)) => Ok((HelloMessageView::of_fields(t), n)),
        }
    }

    open spec fn encodable(v: HelloMessageView) -> bool {
        <(u32, (u32, (u32, (u32, (u32, UAString)))))>::encodable(v.fields())
    }

    open spec fn within(v: HelloMessageView, limits: DecodingLimits) -> bool {
        <(u32, (u32, (u32, (u32, (u32, UAString)))))>::within(v.fields(), limits)
    }

    proof fn lemma_parse_wire(v: HelloMessageView, rest: Seq<u8>, limits: DecodingLimits) {
        <(u32, (u32, (u32, (u32, (u32, UAString)))))>::lemma_parse_wire(v.fields(), rest, limits);
    }

    proof fn lemma_parse_truncated(v: HelloMessageView, k: int, limits: DecodingLimits) {
        <(u32, (u32, (u32, (u32, (u32, UAString)))))>::lemma_parse_truncated(v.fields(), k, limits);
    }

    proof fn lemma_parse_bound(bytes: Seq<u8>, limits: DecodingLimits) {
        <(u32, (u32, (u32, (u32, (u32, UAString)))))>::lemma_parse_bound(bytes, limits);
    }

    fn byte_len(&self) -> (n: usize) {
        let mut size: usize = 0;
        size += self.protocol_version.byte_len();
        size += self.receive_buffer_size.byte_len();
        size += self.send_buffer_size.byte_len();
        size += self.max_message_size.byte_len();
        size += self.max_chunk_count.byte_len();
        size += self.endpoint_url.byte_len();
        size
    }

    fn encode(&self, stream: &mut Vec<u8>) -> (r: Result<usize, EncodingError>) {
        let ghost start = stream@;
        let ghost total = Self::wire(self@);
        let ghost t = self@.fields();
        let size: usize = 0;
        let size = put(&self.protocol_version, stream, size, Ghost(start), Ghost(total), Ghost(<(u32, (u32, (u32, (u32, UAString))))>::wire(t.1)))?;
        let size = put(&self.receive_buffer_size, stream, size, Ghost(start), Ghost(total), Ghost(<(u32, (u32, (u32, UAString)))>::wire(t.1.1)))?;
        let size = put(&self.send_buffer_size, stream, size, Ghost(start), Ghost(total), Ghost(<(u32, (u32, UAString))>::wire(t.1.1.1)))?;
        let size = put(&self.max_message_size, stream, size, Ghost(start), Ghost(total), Ghost(<(u32, UAString)>::wire(t.1.1.1.1)))?;
        let size = put(&self.max_chunk_count, stream, size, Ghost(start), Ghost(total), Ghost(UAString::wire(t.1.1.1.1.1)))?;
        let size = put_last(&self.endpoint_url, stream, size, Ghost(start), Ghost(total))?;
        Ok(size)
    }

    fn decode(stream: &mut Reader, limits: &DecodingLimits) -> (r: Result<Self, EncodingError>) {
        let ghost start = stream@;
        let ghost taken = 0int;
        assert(start.skip(0) =~= start);
        let ghost unread = stream@;
        let protocol_version = get::<u32>(stream, limits, Ghost(start), Ghost(taken))?;
        proof {
            taken = taken + u32::parse(unread, *limits).unwrap().1;
        }
        let ghost unread = stream@;
        let receive_buffer_size = get::<u32>(stream, limits, Ghost(start), Ghost(taken))?;
        proof {
            taken = taken + u32::parse(unread, *limits).unwrap().1;
        }
        let ghost unread = stream@;
        let send_buffer_size = get::<u32>(stream, limits, Ghost(start), Ghost(taken))?;
        proof {
            taken = taken + u32::parse(unread, *limits).unwrap().1;
        }
        let ghost unread = stream@;
        let max_message_size = get::<u32>(stream, limits, Ghost(start), Ghost(taken))?;
        proof {
            taken = taken + u32::parse(unread, *limits).unwrap().1;
        }
        let ghost unread = stream@;
        let max_chunk_count = get::<u32>(stream, limits, Ghost(start), Ghost(taken))?;
        proof {
            taken = taken + u32::parse(unread, *limits).unwrap().1;
        }
        let ghost unread = stream@;
        let endpoint_url = get::<UAString>(stream, limits, Ghost(start), Ghost(taken))?;
        proof {
            taken = taken + UAString::parse(unread, *limits).unwrap().1;
        }
        Ok(HelloMessage { protocol_version, receive_buffer_size, send_buffer_size, max_message_size, max_chunk_count, endpoint_url })
    }
}

/// What the server settles when it answers a hello.
#[derive(Debug, Copy, Eq, PartialEq, Clone)]
pub struct AcknowledgeMessage {
    /// The version of the protocol that the server speaks.
    pub protocol_version: u32,
    /// The largest chunk that the server will receive.
    pub receive_buffer_size: u32,
    /// The largest chunk that the server will send.
    pub send_buffer_size: u32,
    /// The largest message that the server can receive; 0 for no limit.
    pub max_message_size: u32,
    /// The most chunks in a message that the server can receive; 0 for no limit.
    pub max_chunk_count: u32,
}

/// The value that a `AcknowledgeMessage` stands for.
pub struct AcknowledgeMessageView {
    pub protocol_version: u32,
    pub receive_buffer_size: u32,
    pub send_buffer_size: u32,
    pub max_message_size: u32,
    pub max_chunk_count: u32,
}

impl DeepView for AcknowledgeMessage {
    type V = AcknowledgeMessageView;

    open spec fn deep_view(&self) -> AcknowledgeMessageView {
        AcknowledgeMessageView {
            protocol_version: self.protocol_version.deep_view(),
            receive_buffer_size: self.receive_buffer_size.deep_view(),
            send_buffer_size: self.send_buffer_size.deep_view(),
            max_message_size: self.max_message_size.deep_view(),
            max_chunk_count: self.max_chunk_count.deep_view(),
        }
    }
}

impl View for AcknowledgeMessage {
    type V = AcknowledgeMessageView;

    open spec fn view(&self) -> AcknowledgeMessageView {
        self.deep_view()
    }
}

impl AcknowledgeMessageView {
    /// The fields in the order in which they travel.
    pub open spec fn fields(self) -> (u32, (u32, (u32, (u32, u32)))) {
        (self.protocol_version, (self.receive_buffer_size, (self.send_buffer_size, (self.max_message_size, self.max_chunk_count))))
    }

    /// The value with the given fields.
    pub open spec fn of_fields(t: (u32, (u32, (u32, (u32, u32))))) -> AcknowledgeMessageView {
        AcknowledgeMessageView {
            protocol_version: t.0,
            receive_buffer_size: t.1.0,
            send_buffer_size: t.1.1.0,
            max_message_size: t.1.1.1.0,
            max_chunk_count: t.1.1.1.1,
        }
    }
}

/// An acknowledge is its fields one after the other.
impl BinaryEncoder for AcknowledgeMessage {
    open spec fn wire(v: AcknowledgeMessageView) -> Seq<u8> {
        <(u32, (u32, (u32, (u32, u32))))>::wire(v.fields())
    }

    open spec fn parse(bytes: Seq<u8>, limits: DecodingLimits) -> Parsed<AcknowledgeMessageView> {
        match <(u32, (u32, (u32, (u32, u32))))>::parse(bytes, limits) {
            Err(e) => Err(e),
            Ok((t, n)) => Ok((AcknowledgeMessageView::of_fields(t), n)),
        }
    }

    open spec fn encodable(v: AcknowledgeMessageView) -> bool {
        <(u32, (u32, (u32, (u32, u32))))>::encodable(v.fields())
    }

    open spec fn within(v: AcknowledgeMessageView, limits: DecodingLimits) -> bool {
        <(u32, (u32, (u32, (u32, u32))))>::within(v.fields(), limits)
    }

    proof fn lemma_parse_wire(v: AcknowledgeMessageView, rest: Seq<u8>, limits: DecodingLimits) {
        <(u32, (u32, (u32, (u32, u32))))>::lemma_parse_wire(v.fields(), rest, limits);
    }

    proof fn lemma_parse_truncated(v: AcknowledgeMessageView, k: int, limits: DecodingLimits) {
        <(u32, (u32, (u32, (u32, u32))))>::lemma_parse_truncated(v.fields(), k, limits);
    }

    proof fn lemma_parse_bound(bytes: Seq<u8>, limits: DecodingLimits) {
        <(u32, (u32, (u32, (u32, u32))))>::lemma_parse_bound(bytes, limits);
    }

    fn byte_len(&self) -> (n: usize) {
        let mut size: usize = 0;
        size += self.protocol_version.byte_len();
        size += self.receive_buffer_size.byte_len();
        size += self.send_buffer_size.byte_len();
        size += self.max_message_size.byte_len();
        size += self.max_chunk_count.byte_len();
        size
    }

    fn encode(&self, stream: &mut Vec<u8>) -> (r: Result<usize, EncodingError>) {
        let ghost start = stream@;
        let ghost total = Self::wire(self@);
        let ghost t = self@.fields();
        let size: usize = 0;
        let size = put(&self.protocol_version, stream, size, Ghost(start), Ghost(total), Ghost(<(u32, (u32, (u32, u32)))>::wire(t.1)))?;
        let size = put(&self.receive_buffer_size, stream, size, Ghost(start), Ghost(total), Ghost(<(u32, (u32, u32))>::wire(t.1.1)))?;
        let size = put(&self.send_buffer_size, stream, size, Ghost(start), Ghost(total), Ghost(<(u32, u32)>::wire(t.1.1.1)))?;
        let size = put(&self.max_message_size, stream, size, Ghost(start), Ghost(total), Ghost(u32::wire(t.1.1.1.1)))?;
        let size = put_last(&self.max_chunk_count, stream, size, Ghost(start), Ghost(total))?;
        Ok(size)
    }

    fn decode(stream: &mut Reader, limits: &DecodingLimits) -> (r: Result<Self, EncodingError>) {
        let ghost start = stream@;
        let ghost taken = 0int;
        assert(start.skip(0) =~= start);
        let ghost unread = stream@;
        let protocol_version = get::<u32>(stream, limits, Ghost(start), Ghost(taken))?;
        proof {
            taken = taken + u32::parse(unread, *limits).unwrap().1;
        }
        let ghost unread = stream@;
        let receive_buffer_size = get::<u32>(stream, limits, Ghost(start), Ghost(taken))?;
        proof {
            taken = taken + u32::parse(unread, *limits).unwrap().1;
        }
        let ghost unread = stream@;
        let send_buffer_size = get::<u32>(stream, limits, Ghost(start), Ghost(taken))?;
        proof {
            taken = taken + u32::parse(unread, *limits).unwrap().1;
        }
        let ghost unread = stream@;
        let max_message_size = get::<u32>(stream, limits, Ghost(start), Ghost(taken))?;
        proof {
            taken = taken + u32::parse(unread, *limits).unwrap().1;
        }
        let ghost unread = stream@;
        let max_chunk_count = get::<u32>(stream, limits, Ghost(start), Ghost(taken))?;
        proof {
            taken = taken + u32::parse(unread, *limits).unwrap().1;
        }
        Ok(AcknowledgeMessage { protocol_version, receive_buffer_size, send_buffer_size, max_message_size, max_chunk_count })
    }
}

/// What one side says when it ends the conversation.
#[derive(Debug, PartialEq, Clone)]
pub struct ErrorMessage {
    pub error: StatusCode,
    pub reason: UAString,
}

/// The value that a `ErrorMessage` stands for.
pub struct ErrorMessageView {
    pub error: StatusCode,
    pub reason: Option<Seq<char>>,
}

impl DeepView for ErrorMessage {
    type V = ErrorMessageView;

    open spec fn deep_view(&self) -> ErrorMessageView {
        ErrorMessageView {
            error: self.error.deep_view(),
            reason: self.reason.deep_view(),
        }
    }
}

impl View for ErrorMessage {
    type V = ErrorMessageView;

    open spec fn view(&self) -> ErrorMessageView {
        self.deep_view()
    }
}

impl ErrorMessageView {
    /// The fields in the order in which they travel.
    pub open spec fn fields(self) -> (StatusCode, Option<Seq<char>>) {
        (self.error, self.reason)
    }

    /// The value with the given fields.
    pub open spec fn of_fields(t: (StatusCode, Option<Seq<char>>)) -> ErrorMessageView {
        ErrorMessageView {
            error: t.0,
            reason: t.1,
        }
    }
}

/// An error message is the status, then the reason.
impl BinaryEncoder for ErrorMessage {
    open spec fn wire(v: ErrorMessageView) -> Seq<u8> {
        <(StatusCode, UAString)>::wire(v.fields())
    }

    open spec fn parse(bytes: Seq<u8>, limits: DecodingLimits) -> Parsed<ErrorMessageView> {
        match <(StatusCode, UAString)>::parse(bytes, limits) {
            Err(e) => Err(e),
            Ok((t, n)) => Ok((ErrorMessageView::of_fields(t), n)),
        }
    }

    open spec fn encodable(v: ErrorMessageView) -> bool {
        <(StatusCode, UAString)>::encodable(v.fields())
    }

    open spec fn within(v: ErrorMessageView, limits: DecodingLimits) -> bool {
        <(StatusCode, UAString)>::within(v.fields(), limits)
    }

    proof fn lemma_parse_wire(v: ErrorMessageView, rest: Seq<u8>, limits: DecodingLimits) {
        <(StatusCode, UAString)>::lemma_parse_wire(v.fields(), rest, limits);
    }

    proof fn lemma_parse_truncated(v: ErrorMessageView, k: int, limits: DecodingLimits) {
        <(StatusCode, UAString)>::lemma_parse_truncated(v.fields(), k, limits);
    }

    proof fn lemma_parse_bound(bytes: Seq<u8>, limits: DecodingLimits) {
        <(StatusCode, UAString)>::lemma_parse_bound(bytes, limits);
    }

    fn byte_len(&self) -> (n: usize) {
        let mut size: usize = 0;
        size += self.error.byte_len();
        size += self.reason.byte_len();
        size
    }

    fn encode(&self, stream: &mut Vec<u8>) -> (r: Result<usize, EncodingError>) {
        let ghost start = stream@;
        let ghost total = Self::wire(self@);
        let ghost t = self@.fields();
        let size: usize = 0;
        let size = put(&self.error, stream, size, Ghost(start), Ghost(total), Ghost(UAString::wire(t.1)))?;
        let size = put_last(&self.reason, stream, size, Ghost(start), Ghost(total))?;
        Ok(size)
    }

    fn decode(stream: &mut Reader, limits: &DecodingLimits) -> (r: Result<Self, EncodingError>) {
        let ghost start = stream@;
        let ghost taken = 0int;
        assert(start.skip(0) =~= start);
        let ghost unread = stream@;
        let error = get::<StatusCode>(stream, limits, Ghost(start), Ghost(taken))?;
        proof {
            taken = taken + StatusCode::parse(unread, *limits).unwrap().1;
        }
        let ghost unread = stream@;
        let reason = get::<UAString>(stream, limits, Ghost(start), Ghost(taken))?;
        proof {
            taken = taken + UAString::parse(unread, *limits).unwrap().1;
        }
        Ok(ErrorMessage { error, reason })
    }
}

/// What the server can take: the sizes of its buffers and the limits of the
/// messages it receives.
#[derive(Clone, Copy, Debug, PartialEq, Eq, Structural)]
pub struct ServerLimits {
    /// The version of the protocol that the server speaks.
    pub protocol_version: u32,
    /// The largest chunk that the server can receive.
    pub receive_buffer_size: u32,
    /// The largest chunk that the server can send.
    pub send_buffer_size: u32,
    /// The largest message that the server can receive; 0 for no limit.
    pub max_message_size: u32,
    /// The most chunks in a message that the server can receive; 0 for no
    /// limit.
    pub max_chunk_count: u32,
}

/// The smaller of two sizes.
pub open spec fn smaller(a: u32, b: u32) -> u32 {
    if a <= b {
        a
    } else {
        b
    }
}

/// Whether a hello can be taken: both buffers are large enough, the URL of
/// the endpoint is there and is not too long.
pub open spec fn hello_is_valid(hello: HelloMessageView) -> bool {
    &&& hello.receive_buffer_size >= MIN_CHUNK_SIZE
    &&& hello.send_buffer_size >= MIN_CHUNK_SIZE
    &&& hello.endpoint_url matches Some(url) && 0 < url.len() <= MAX_ENDPOINT_URL_LEN
}

/// What the server with the limits `limits` answers to a hello: an error
/// with `BAD_COMMUNICATION_ERROR` where the hello cannot be taken; else its
/// own version and limits, and for each direction the smaller of what the
/// two sides offer.
pub open spec fn answer_to_hello(limits: ServerLimits, hello: HelloMessageView) -> Result<
    AcknowledgeMessageView,
    StatusCode,
> {
    if !hello_is_valid(hello) {
        Err(StatusCode(BAD_COMMUNICATION_ERROR))
    } else {
        Ok(
            AcknowledgeMessageView {
                protocol_version: limits.protocol_version,
                receive_buffer_size: smaller(limits.receive_buffer_size, hello.send_buffer_size),
                send_buffer_size: smaller(limits.send_buffer_size, hello.receive_buffer_size),
                max_message_size: limits.max_message_size,
                max_chunk_count: limits.max_chunk_count,
            },
        )
    }
}

/// The result of answering a hello, as a value.
pub open spec fn acknowledge_view(result: Result<AcknowledgeMessage, StatusCode>) -> Result<
    AcknowledgeMessageView,
    StatusCode,
> {
    match result {
        Ok(acknowledge) => Ok(acknowledge@),
        Err(status) => Err(status),
    }
}

impl HelloMessage {
    /// Whether the hello can be taken.
    pub fn is_valid(&self) -> (r: bool)
        ensures
            r == hello_is_valid(self@),
    {
        if self.receive_buffer_size < MIN_CHUNK_SIZE || self.send_buffer_size < MIN_CHUNK_SIZE {
            return false;
        }
        match &self.endpoint_url.value {
            None => false,
            Some(url) => {
                let len = url.as_str().unicode_len();
                0 < len && len <= MAX_ENDPOINT_URL_LEN
            },
        }
    }
}

impl ServerLimits {
    /// What the server answers to `hello`.
    pub fn acknowledge(&self, hello: &HelloMessage) -> (r: Result<AcknowledgeMessage, StatusCode>)
        ensures
            acknowledge_view(r) == answer_to_hello(*self, hello@),
    {
        if !hello.is_valid() {
            return Err(StatusCode(BAD_COMMUNICATION_ERROR));
        }
        Ok(
            AcknowledgeMessage {
                protocol_version: self.protocol_version,
                receive_buffer_size: if self.receive_buffer_size <= hello.send_buffer_size {
                    self.receive_buffer_size
                } else {
                    hello.send_buffer_size
                },
                send_buffer_size: if self.send_buffer_size <= hello.receive_buffer_size {
                    self.send_buffer_size
                } else {
                    hello.receive_buffer_size
                },
                max_message_size: self.max_message_size,
                max_chunk_count: self.max_chunk_count,
            },
        )
    }
}

/// The server never settles on a buffer larger than either side offers.
pub proof fn lemma_settled_buffers_fit_both_sides(limits: ServerLimits, hello: HelloMessageView)
    ensures
        answer_to_hello(limits, hello) matches Ok(acknowledge) ==> (acknowledge.receive_buffer_size
            <= limits.receive_buffer_size && acknowledge.receive_buffer_size
            <= hello.send_buffer_size && acknowledge.send_buffer_size <= limits.send_buffer_size
            && acknowledge.send_buffer_size <= hello.receive_buffer_size),
{
}

} // verus!
