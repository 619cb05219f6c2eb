//! Chunks: splitting a message into pieces of limited size and putting
//! the pieces together again.

use crate::byte_string::ByteString;
use crate::comms::tcp_types::{ChunkType, MessageHeader, MessageHeaderView};
use crate::encoding::{
    get, put, put_last, BinaryEncoder, DecodingLimits, EncodingError, Parsed, Reader,
};
use crate::status_codes::{StatusCode, BAD_TCP_MESSAGE_TOO_LARGE};
use crate::string::UAString;
use vstd::prelude::*;
use vstd::slice::{slice_subrange, slice_to_vec};

verus! {

/// What a chunk on an open channel begins with.
#[derive(Debug, Copy, Eq, PartialEq, Clone)]
pub struct SymmetricChunkHeader {
    /// The kind, the place and the size of the chunk.
    pub message_header: MessageHeader,
    /// The channel that the chunk travels on.
    pub secure_channel_id: u32,
    /// The token under which the chunk is secured.
    pub token_id: u32,
    /// The number of the chunk on its channel.
    pub sequence_number: u32,
    /// The request that the chunk belongs to.
    pub request_id: u32,
}

/// The value that a `SymmetricChunkHeader` stands for.
pub struct SymmetricChunkHeaderView {
    pub message_header: MessageHeaderView,
    pub secure_channel_id: u32,
    pub token_id: u32,
    pub sequence_number: u32,
    pub request_id: u32,
}

impl DeepView for SymmetricChunkHeader {
    type V = SymmetricChunkHeaderView;

    open spec fn deep_view(&self) -> SymmetricChunkHeaderView {
        SymmetricChunkHeaderView {
            message_header: self.message_header.deep_view(),
            secure_channel_id: self.secure_channel_id.deep_view(),
            token_id: self.token_id.deep_view(),
            sequence_number: self.sequence_number.deep_view(),
            request_id: self.request_id.deep_view(),
        }
    }
}

impl View for SymmetricChunkHeader {
    type V = SymmetricChunkHeaderView;

    open spec fn view(&self) -> SymmetricChunkHeaderView {
        self.deep_view()
    }
}

impl SymmetricChunkHeaderView {
    /// The fields in the order in which they travel.
    pub open spec fn fields(self) -> (MessageHeaderView, (u32, (u32, (u32, u32)))) {
        (self.message_header, (self.secure_channel_id, (self.token_id, (self.sequence_number, self.request_id))))
    }

    /// The value with the given fields.
    pub open spec fn of_fields(t: (MessageHeaderView, (u32, (u32, (u32, u32))))) -> SymmetricChunkHeaderView {
        SymmetricChunkHeaderView {
            message_header: t.0,
            secure_channel_id: t.1.0,
            token_id: t.1.1.0,
            sequence_number: t.1.1.1.0,
            request_id: t.1.1.1.1,
        }
    }
}

/// The header is the message header, the id of the channel, the id of the token, the sequence number and the id of the request.
impl BinaryEncoder for SymmetricChunkHeader {
    open spec fn wire(v: SymmetricChunkHeaderView) -> Seq<u8> {
        <(MessageHeader, (u32, (u32, (u32, u32))))>::wire(v.fields())
    }

    open spec fn parse(bytes: Seq<u8>, limits: DecodingLimits) -> Parsed<SymmetricChunkHeaderView> {
        match <(MessageHeader, (u32, (u32, (u32, u32))))>::parse(bytes, limits) {
            Err(e) => Err(e),
            Ok((t, n)) => Ok((SymmetricChunkHeaderView::of_fields(t), n)),
        }
    }

    open spec fn encodable(v: SymmetricChunkHeaderView) -> bool {
        <(MessageHeader, (u32, (u32, (u32, u32))))>::encodable(v.fields())
    }

    open spec fn within(v: SymmetricChunkHeaderView, limits: DecodingLimits) -> bool {
        <(MessageHeader, (u32, (u32, (u32, u32))))>::within(v.fields(), limits)
    }

    proof fn lemma_parse_wire(v: SymmetricChunkHeaderView, rest: Seq<u8>, limits: DecodingLimits) {
        <(MessageHeader, (u32, (u32, (u32, u32))))>::lemma_parse_wire(v.fields(), rest, limits);
    }

    proof fn lemma_parse_truncated(v: SymmetricChunkHeaderView, k: int, limits: DecodingLimits) {
        <(MessageHeader, (u32, (u32, (u32, u32))))>::lemma_parse_truncated(v.fields(), k, limits);
    }

    proof fn lemma_parse_bound(bytes: Seq<u8>, limits: DecodingLimits) {
        <(MessageHeader, (u32, (u32, (u32, u32))))>::lemma_parse_bound(bytes, limits);
    }

    fn byte_len(&self) -> (n: usize) {
        let mut size: usize = 0;
        size += self.message_header.byte_len();
        size += self.secure_channel_id.byte_len();
        size += self.token_id.byte_len();
        size += self.sequence_number.byte_len();
        size += self.request_id.byte_len();
        size
    }

    fn encode(&self, stream: &mut Vec<u8>) -> (r: Result<usize, EncodingError>) {
        let ghost start = stream@;
        let ghost total = Self::wire(self@);
        let ghost t = self@.fields();
        let size: usize = 0;
        let size = put(&self.message_header, stream, size, Ghost(start), Ghost(total), Ghost(<(u32, (u32, (u32, u32)))>::wire(t.1)))?;
        let size = put(&self.secure_channel_id, stream, size, Ghost(start), Ghost(total), Ghost(<(u32, (u32, u32))>::wire(t.1.1)))?;
        let size = put(&self.token_id, stream, size, Ghost(start), Ghost(total), Ghost(<(u32, u32)>::wire(t.1.1.1)))?;
        let size = put(&self.sequence_number, stream, size, Ghost(start), Ghost(total), Ghost(u32::wire(t.1.1.1.1)))?;
        let size = put_last(&self.request_id, stream, size, Ghost(start), Ghost(total))?;
        Ok(size)
    }

    fn decode(stream: &mut Reader, limits: &DecodingLimits) -> (r: Result<Self, EncodingError>) {
        let ghost start = stream@;
        let ghost taken = 0int;
        assert(start.skip(0) =~= start);
        let ghost unread = stream@;
        let message_header = get::<MessageHeader>(stream, limits, Ghost(start), Ghost(taken))?;
        proof {
            taken = taken + MessageHeader::parse(unread, *limits).unwrap().1;
        }
        let ghost unread = stream@;
        let secure_channel_id = get::<u32>(stream, limits, Ghost(start), Ghost(taken))?;
        proof {
            taken = taken + u32::parse(unread, *limits).unwrap().1;
        }
        let ghost unread = stream@;
        let token_id = get::<u32>(stream, limits, Ghost(start), Ghost(taken))?;
        proof {
            taken = taken + u32::parse(unread, *limits).unwrap().1;
        }
        let ghost unread = stream@;
        let sequence_number = get::<u32>(stream, limits, Ghost(start), Ghost(taken))?;
        proof {
            taken = taken + u32::parse(unread, *limits).unwrap().1;
        }
        let ghost unread = stream@;
        let request_id = get::<u32>(stream, limits, Ghost(start), Ghost(taken))?;
        proof {
            taken = taken + u32::parse(unread, *limits).unwrap().1;
        }
        Ok(SymmetricChunkHeader { message_header, secure_channel_id, token_id, sequence_number, request_id })
    }
}

/// What a chunk that opens a channel begins with.
#[derive(Debug, PartialEq, Clone)]
pub struct AsymmetricChunkHeader {
    /// The kind, the place and the size of the chunk.
    pub message_header: MessageHeader,
    /// The channel that the chunk travels on; 0 before it is open.
    pub secure_channel_id: u32,
    /// The URI of the security policy.
    pub security_policy_uri: UAString,
    /// The certificate of the sender, in encoded form.
    pub sender_certificate: ByteString,
    /// The thumbprint of the certificate of the receiver.
    pub receiver_certificate_thumbprint: ByteString,
    /// The number of the chunk on its channel.
    pub sequence_number: u32,
    /// The request that the chunk belongs to.
    pub request_id: u32,
}

/// The value that a `AsymmetricChunkHeader` stands for.
pub struct AsymmetricChunkHeaderView {
    pub message_header: MessageHeaderView,
    pub secure_channel_id: u32,
    pub security_policy_uri: Option<Seq<char>>,
    pub sender_certificate: Option<Seq<u8>>,
    pub receiver_certificate_thumbprint: Option<Seq<u8>>,
    pub sequence_number: u32,
    pub request_id: u32,
}

impl DeepView for AsymmetricChunkHeader {
    type V = AsymmetricChunkHeaderView;

    open spec fn deep_view(&self) -> AsymmetricChunkHeaderView {
        AsymmetricChunkHeaderView {
            message_header: self.message_header.deep_view(),
            secure_channel_id: self.secure_channel_id.deep_view(),
            security_policy_uri: self.security_policy_uri.deep_view(),
            sender_certificate: self.sender_certificate.deep_view(),
            receiver_certificate_thumbprint: self.receiver_certificate_thumbprint.deep_view(),
            sequence_number: self.sequence_number.deep_view(),
            request_id: self.request_id.deep_view(),
        }
    }
}

impl View for AsymmetricChunkHeader {
    type V = AsymmetricChunkHeaderView;

    open spec fn view(&self) -> AsymmetricChunkHeaderView {
        self.deep_view()
    }
}

impl AsymmetricChunkHeaderView {
    /// The fields in the order in which they travel.
    pub open spec fn fields(self) -> (MessageHeaderView, (u32, (Option<Seq<char>>, (Option<Seq<u8>>, (Option<Seq<u8>>, (u32, u32)))))) {
        (self.message_header, (self.secure_channel_id, (self.security_policy_uri, (self.sender_certificate, (self.receiver_certificate_thumbprint, (self.sequence_number, self.request_id))))))
    }

    /// The value with the given fields.
    pub open spec fn of_fields(t: (MessageHeaderView, (u32, (Option<Seq<char>>, (Option<Seq<u8>>, (Option<Seq<u8>>, (u32, u32))))))) -> AsymmetricChunkHeaderView {
        AsymmetricChunkHeaderView {
            message_header: t.0,
            secure_channel_id: t.1.0,
            security_policy_uri: t.1.1.0,
            sender_certificate: t.1.1.1.0,
            receiver_certificate_thumbprint: t.1.1.1.1.0,
            sequence_number: t.1.1.1.1.1.0,
            request_id: t.1.1.1.1.1.1,
        }
    }
}

/// The header is the message header, the id of the channel, the URI of the security policy, the certificate of the sender, the thumbprint of the certificate of the receiver, the sequence number and the id of the request.
impl BinaryEncoder for AsymmetricChunkHeader {
    open spec fn wire(v: AsymmetricChunkHeaderView) -> Seq<u8> {
        <(MessageHeader, (u32, (UAString, (ByteString, (ByteString, (u32, u32))))))>::wire(v.fields())
    }

    open spec fn parse(bytes: Seq<u8>, limits: DecodingLimits) -> Parsed<AsymmetricChunkHeaderView> {
        match <(MessageHeader, (u32, (UAString, (ByteString, (ByteString, (u32, u32))))))>::parse(bytes, limits) {
            Err(e) => Err(e),
            Ok((t, n)) => Ok((AsymmetricChunkHeaderView::of_fields(t), n)),
        }
    }

    open spec fn encodable(v: AsymmetricChunkHeaderView) -> bool {
        <(MessageHeader, (u32, (UAString, (ByteString, (ByteString, (u32, u32))))))>::encodable(v.fields())
    }

    open spec fn within(v: AsymmetricChunkHeaderView, limits: DecodingLimits) -> bool {
        <(MessageHeader, (u32, (UAString, (ByteString, (ByteString, (u32, u32))))))>::within(v.fields(), limits)
    }

    proof fn lemma_parse_wire(v: AsymmetricChunkHeaderView, rest: Seq<u8>, limits: DecodingLimits) {
        <(MessageHeader, (u32, (UAString, (ByteString, (ByteString, (u32, u32))))))>::lemma_parse_wire(v.fields(), rest, limits);
    }

    proof fn lemma_parse_truncated(v: AsymmetricChunkHeaderView, k: int, limits: DecodingLimits) {
        <(MessageHeader, (u32, (UAString, (ByteString, (ByteString, (u32, u32))))))>::lemma_parse_truncated(v.fields(), k, limits);
    }

    proof fn lemma_parse_bound(bytes: Seq<u8>, limits: DecodingLimits) {
        <(MessageHeader, (u32, (UAString, (ByteString, (ByteString, (u32, u32))))))>::lemma_parse_bound(bytes, limits);
    }

    fn byte_len(&self) -> (n: usize) {
        let mut size: usize = 0;
        size += self.message_header.byte_len();
        size += self.secure_channel_id.byte_len();
        size += self.security_policy_uri.byte_len();
        size += self.sender_certificate.byte_len();
        size += self.receiver_certificate_thumbprint.byte_len();
        size += self.sequence_number.byte_len();
        size += self.request_id.byte_len();
        size
    }

    fn encode(&self, stream: &mut Vec<u8>) -> (r: Result<usize, EncodingError>) {
        let ghost start = stream@;
        let ghost total = Self::wire(self@);
        let ghost t = self@.fields();
        let size: usize = 0;
        let size = put(&self.message_header, stream, size, Ghost(start), Ghost(total), Ghost(<(u32, (UAString, (ByteString, (ByteString, (u32, u32)))))>::wire(t.1)))?;
        let size = put(&self.secure_channel_id, stream, size, Ghost(start), Ghost(total), Ghost(<(UAString, (ByteString, (ByteString, (u32, u32))))>::wire(t.1.1)))?;
        let size = put(&self.security_policy_uri, stream, size, Ghost(start), Ghost(total), Ghost(<(ByteString, (ByteString, (u32, u32)))>::wire(t.1.1.1)))?;
        let size = put(&self.sender_certificate, stream, size, Ghost(start), Ghost(total), Ghost(<(ByteString, (u32, u32))>::wire(t.1.1.1.1)))?;
        let size = put(&self.receiver_certificate_thumbprint, stream, size, Ghost(start), Ghost(total), Ghost(<(u32, u32)>::wire(t.1.1.1.1.1)))?;
        let size = put(&self.sequence_number, stream, size, Ghost(start), Ghost(total), Ghost(u32::wire(t.1.1.1.1.1.1)))?;
        let size = put_last(&self.request_id, stream, size, Ghost(start), Ghost(total))?;
        Ok(size)
    }

    fn decode(stream: &mut Reader, limits: &DecodingLimits) -> (r: Result<Self, EncodingError>) {
        let ghost start = stream@;
        let ghost taken = 0int;
        assert(start.skip(0) =~= start);
        let ghost unread = stream@;
        let message_header = get::<MessageHeader>(stream, limits, Ghost(start), Ghost(taken))?;
        proof {
            taken = taken + MessageHeader::parse(unread, *limits).unwrap().1;
        }
        let ghost unread = stream@;
        let secure_channel_id = get::<u32>(stream, limits, Ghost(start), Ghost(taken))?;
        proof {
            taken = taken + u32::parse(unread, *limits).unwrap().1;
        }
        let ghost unread = stream@;
        let security_policy_uri = get::<UAString>(stream, limits, Ghost(start), Ghost(taken))?;
        proof {
            taken = taken + UAString::parse(unread, *limits).unwrap().1;
        }
        let ghost unread = stream@;
        let sender_certificate = get::<ByteString>(stream, limits, Ghost(start), Ghost(taken))?;
        proof {
            taken = taken + ByteString::parse(unread, *limits).unwrap().1;
        }
        let ghost unread = stream@;
        let receiver_certificate_thumbprint = get::<ByteString>(stream, limits, Ghost(start), Ghost(taken))?;
        proof {
            taken = taken + ByteString::parse(unread, *limits).unwrap().1;
        }
        let ghost unread = stream@;
        let sequence_number = get::<u32>(stream, limits, Ghost(start), Ghost(taken))?;
        proof {
            taken = taken + u32::parse(unread, *limits).unwrap().1;
        }
        let ghost unread = stream@;
        let request_id = get::<u32>(stream, limits, Ghost(start), Ghost(taken))?;
        proof {
            taken = taken + u32::parse(unread, *limits).unwrap().1;
        }
        Ok(AsymmetricChunkHeader { message_header, secure_channel_id, security_policy_uri, sender_certificate, receiver_certificate_thumbprint, sequence_number, request_id })
    }
}

/// A piece of a message, with what tells where it belongs.
#[derive(Debug, PartialEq, Clone)]
pub struct Chunk {
    /// The place of the chunk in its message.
    pub chunk_type: ChunkType,
    /// The channel that the chunk travels on.
    pub secure_channel_id: u32,
    /// The request that the chunk belongs to.
    pub request_id: u32,
    /// The piece of the message.
    pub body: Vec<u8>,
}

/// The value that a `Chunk` stands for.
pub struct ChunkView {
    pub chunk_type: ChunkType,
    pub secure_channel_id: u32,
    pub request_id: u32,
    pub body: Seq<u8>,
}

impl DeepView for Chunk {
    type V = ChunkView;

    open spec fn deep_view(&self) -> ChunkView {
        ChunkView {
            chunk_type: self.chunk_type.deep_view(),
            secure_channel_id: self.secure_channel_id.deep_view(),
            request_id: self.request_id.deep_view(),
            body: self.body.deep_view(),
        }
    }
}

impl View for Chunk {
    type V = ChunkView;

    open spec fn view(&self) -> ChunkView {
        self.deep_view()
    }
}

/// The pieces of a message that have arrived so far.
#[derive(Debug, PartialEq, Clone)]
pub struct PartialMessage {
    pub secure_channel_id: u32,
    pub request_id: u32,
    pub body: Vec<u8>,
    pub chunk_count: usize,
}

/// The value that a `PartialMessage` stands for.
pub struct PartialMessageView {
    pub secure_channel_id: u32,
    pub request_id: u32,
    pub body: Seq<u8>,
    pub chunk_count: usize,
}

impl DeepView for PartialMessage {
    type V = PartialMessageView;

    open spec fn deep_view(&self) -> PartialMessageView {
        PartialMessageView {
            secure_channel_id: self.secure_channel_id.deep_view(),
            request_id: self.request_id.deep_view(),
            body: self.body.deep_view(),
            chunk_count: self.chunk_count.deep_view(),
        }
    }
}

impl View for PartialMessage {
    type V = PartialMessageView;

    open spec fn view(&self) -> PartialMessageView {
        self.deep_view()
    }
}

/// The pieces of `message`, each of at most `max` bytes: all but the last
/// of exactly `max` bytes. A message without bytes is one piece without
/// bytes.
pub open spec fn pieces(message: Seq<u8>, max: nat) -> Seq<Seq<u8>>
    recommends
        max > 0,
    decreases message.len(),
{
    if max == 0 || message.len() <= max {
        seq![message]
    } else {
        seq![message.take(max as int)] + pieces(message.skip(max as int), max)
    }
}

/// The first `n` of `pieces` one after the other.
pub open spec fn joined_upto(pieces: Seq<Seq<u8>>, n: int) -> Seq<u8>
    decreases n,
{
    if n <= 0 {
        Seq::empty()
    } else {
        joined_upto(pieces, n - 1) + pieces[n - 1]
    }
}

/// The pieces one after the other.
pub open spec fn joined(pieces: Seq<Seq<u8>>) -> Seq<u8> {
    joined_upto(pieces, pieces.len() as int)
}

/// The chunks that carry `message` on the channel `secure_channel_id` for
/// the request `request_id`: one for each piece, the last of them final.
pub open spec fn chunks_of(message: Seq<u8>, max: nat, secure_channel_id: u32, request_id: u32) -> Seq<
    ChunkView,
> {
    let bodies = pieces(message, max);
    Seq::new(
        bodies.len(),
        |i: int|
            ChunkView {
                chunk_type: if i == bodies.len() - 1 {
                    ChunkType::Final
                } else {
                    ChunkType::Intermediate
                },
                secure_channel_id,
                request_id,
                body: bodies[i],
            },
    )
}

/// There is at least one piece, no piece is longer than the most, and
/// every piece but the last is as long as the most.
pub proof fn lemma_pieces_fit(message: Seq<u8>, max: nat)
    requires
        max > 0,
    ensures
        pieces(message, max).len() >= 1,
        forall|i: int|
            0 <= i < pieces(message, max).len() ==> (#[trigger] pieces(message, max)[i]).len()
                <= max,
        forall|i: int|
            0 <= i < pieces(message, max).len() - 1 ==> (#[trigger] pieces(message, max)[i]).len()
                == max,
    decreases message.len(),
{
    if message.len() > max {
        lemma_pieces_fit(message.skip(max as int), max);
        let rest = pieces(message.skip(max as int), max);
        let all = pieces(message, max);
        assert forall|i: int| 0 <= i < all.len() implies (#[trigger] all[i]).len() <= max by {
            if i > 0 {
                assert(all[i] == rest[i - 1]);
            }
        }
        assert forall|i: int| 0 <= i < all.len() - 1 implies (#[trigger] all[i]).len() == max by {
            if i > 0 {
                assert(all[i] == rest[i - 1]);
            }
        }
    }
}

/// Joining pieces behind a first piece puts the first piece in front.
pub proof fn lemma_joined_behind_first(first: Seq<u8>, rest: Seq<Seq<u8>>, n: int)
    requires
        0 <= n <= rest.len(),
    ensures
        joined_upto(seq![first] + rest, n + 1) == first + joined_upto(rest, n),
    decreases n,
{
    let all = seq![first] + rest;
    if n == 0 {
        assert(joined_upto(all, 0) =~= Seq::<u8>::empty());
        assert(joined_upto(all, 1) =~= first);
        assert(first + joined_upto(rest, 0) =~= first);
    } else {
        lemma_joined_behind_first(first, rest, n - 1);
        assert(all[n] == rest[n - 1]);
        assert((first + joined_upto(rest, n - 1)) + rest[n - 1] =~= first + (joined_upto(rest, n - 1)
            + rest[n - 1]));
    }
}

/// The pieces of a message, put together, are the message.
pub proof fn lemma_joined_pieces(message: Seq<u8>, max: nat)
    requires
        max > 0,
    ensures
        joined(pieces(message, max)) == message,
    decreases message.len(),
{
    if message.len() <= max {
        assert(joined_upto(seq![message], 0) =~= Seq::<u8>::empty());
        assert(joined(seq![message]) =~= message);
    } else {
        let first = message.take(max as int);
        let rest = pieces(message.skip(max as int), max);
        lemma_joined_pieces(message.skip(max as int), max);
        lemma_joined_behind_first(first, rest, rest.len() as int);
        assert(first + message.skip(max as int) =~= message);
    }
}

/// Splits `message` into chunks whose bodies hold at most `max` bytes.
pub fn split_message(message: &[u8], max: usize, secure_channel_id: u32, request_id: u32) -> (r:
    Vec<Chunk>)
    requires
        max > 0,
    ensures
        r.deep_view() == chunks_of(message@, max as nat, secure_channel_id, request_id),
{
    let mut chunks: Vec<Chunk> = Vec::new();
    let mut start: usize = 0;
    let ghost all = pieces(message@, max as nat);
    let ghost mut done: int = 0;
    proof {
        assert(message@.skip(0) =~= message@);
    }
    while message.len() - start > max
        invariant
            max > 0,
            start <= message.len(),
            all == pieces(message@, max as nat),
            0 <= done,
            chunks.deep_view().len() == done,
            all =~= all.take(done) + pieces(message@.skip(start as int), max as nat),
            all.len() == done + pieces(message@.skip(start as int), max as nat).len(),
            forall|i: int|
                0 <= i < done ==> (#[trigger] chunks.deep_view()[i]) == (ChunkView {
                    chunk_type: ChunkType::Intermediate,
                    secure_channel_id,
                    request_id,
                    body: all[i],
                }),
        decreases message.len() - start,
    {
        let ghost before = chunks.deep_view();
        let ghost left = message@.skip(start as int);
        let piece = slice_subrange(message, start, start + max);
        let chunk = Chunk {
            chunk_type: ChunkType::Intermediate,
            secure_channel_id,
            request_id,
            body: slice_to_vec(piece),
        };
        chunks.push(chunk);
        proof {
            assert(chunk.body.deep_view() =~= chunk.body@);
            assert(piece@ =~= left.take(max as int));
            assert(left.skip(max as int) =~= message@.skip(start + max));
            let rest = pieces(left.skip(max as int), max as nat);
            assert(pieces(left, max as nat) == seq![left.take(max as int)] + rest);
            lemma_pieces_fit(left.skip(max as int), max as nat);
            assert(all[done] == left.take(max as int)) by {
                assert((all.take(done) + pieces(left, max as nat))[done] == pieces(
                    left,
                    max as nat,
                )[0]);
            }
            assert(all.take(done + 1) + rest =~= all.take(done) + pieces(left, max as nat));
            assert(chunks.deep_view() =~= before.push(chunk@));
            done = done + 1;
        }
        start = start + max;
    }
    let ghost before = chunks.deep_view();
    let ghost left = message@.skip(start as int);
    let piece = slice_subrange(message, start, message.len());
    let chunk = Chunk {
        chunk_type: ChunkType::Final,
        secure_channel_id,
        request_id,
        body: slice_to_vec(piece),
    };
    chunks.push(chunk);
    proof {
        assert(chunk.body.deep_view() =~= chunk.body@);
        assert(piece@ =~= left);
        assert(pieces(left, max as nat) == seq![left]);
        assert(all[done] == left) by {
            assert((all.take(done) + seq![left])[done] == left);
        }
        assert(chunks.deep_view() =~= before.push(chunk@));
        let expected = chunks_of(message@, max as nat, secure_channel_id, request_id);
        assert(chunks.deep_view() =~= expected);
    }
    chunks
}

/// What the arrival of a chunk leads to.
#[derive(Debug, PartialEq, Clone)]
pub enum Assembled {
    /// The message is not complete.
    Pending,
    /// The message is complete, and here it is.
    Message(Vec<u8>),
    /// The sender gave the message up; its pieces are forgotten.
    Aborted,
}

/// The value that an `Assembled` stands for.
pub enum AssembledView {
    Pending,
    Message(Seq<u8>),
    Aborted,
}

impl DeepView for Assembled {
    type V = AssembledView;

    open spec fn deep_view(&self) -> AssembledView {
        match self {
            Assembled::Pending => AssembledView::Pending,
            Assembled::Message(body) => AssembledView::Message(body@),
            Assembled::Aborted => AssembledView::Aborted,
        }
    }
}

/// Puts chunks together to messages, by channel and request, within limits
/// on the number of chunks and on the size of a message.
#[derive(Debug, PartialEq, Clone)]
pub struct Assembler {
    /// The largest message to put together, in bytes; 0 for no limit.
    pub max_message_size: usize,
    /// The most chunks to put together; 0 for no limit.
    pub max_chunk_count: usize,
    /// The messages of which pieces have arrived, in the order in which
    /// their first pieces arrived.
    pub partial: Vec<PartialMessage>,
}

/// The value that an `Assembler` stands for.
pub struct AssemblerView {
    pub max_message_size: usize,
    pub max_chunk_count: usize,
    pub partial: Seq<PartialMessageView>,
}

impl DeepView for Assembler {
    type V = AssemblerView;

    open spec fn deep_view(&self) -> AssemblerView {
        AssemblerView {
            max_message_size: self.max_message_size,
            max_chunk_count: self.max_chunk_count,
            partial: self.partial.deep_view(),
        }
    }
}

impl View for Assembler {
    type V = AssemblerView;

    open spec fn view(&self) -> AssemblerView {
        self.deep_view()
    }
}

/// The position of the first of the partial messages from `from` on that
/// belongs to the request `request_id` on the channel `secure_channel_id`.
pub open spec fn partial_position_from(
    partial: Seq<PartialMessageView>,
    secure_channel_id: u32,
    request_id: u32,
    from: int,
) -> Option<int>
    decreases partial.len() - from,
{
    if from < 0 || from >= partial.len() {
        None
    } else if partial[from].secure_channel_id == secure_channel_id && partial[from].request_id
        == request_id {
        Some(from)
    } else {
        partial_position_from(partial, secure_channel_id, request_id, from + 1)
    }
}

/// The position of the partial message of a request on a channel.
pub open spec fn partial_position(
    partial: Seq<PartialMessageView>,
    secure_channel_id: u32,
    request_id: u32,
) -> Option<int> {
    partial_position_from(partial, secure_channel_id, request_id, 0)
}

/// The partial messages without the one of the request of `chunk`.
pub open spec fn without_partial(partial: Seq<PartialMessageView>, chunk: ChunkView) -> Seq<
    PartialMessageView,
> {
    match partial_position(partial, chunk.secure_channel_id, chunk.request_id) {
        Some(p) => partial.remove(p),
        None => partial,
    }
}

/// What has arrived of the message of `chunk`, `chunk` included.
pub open spec fn grown(partial: Seq<PartialMessageView>, chunk: ChunkView) -> PartialMessageView {
    match partial_position(partial, chunk.secure_channel_id, chunk.request_id) {
        Some(p) => PartialMessageView {
            body: partial[p].body + chunk.body,
            chunk_count: if partial[p].chunk_count == usize::MAX {
                usize::MAX
            } else {
                (partial[p].chunk_count + 1) as usize
            },
            ..partial[p]
        },
        None => PartialMessageView {
            secure_channel_id: chunk.secure_channel_id,
            request_id: chunk.request_id,
            body: chunk.body,
            chunk_count: 1,
        },
    }
}

/// Whether a partial message is more than the assembler puts together.
pub open spec fn is_too_large(assembler: AssemblerView, message: PartialMessageView) -> bool {
    (assembler.max_chunk_count > 0 && message.chunk_count > assembler.max_chunk_count) || (
    assembler.max_message_size > 0 && message.body.len() > assembler.max_message_size)
}

/// What the arrival of `chunk` leads to, and the assembler afterwards. A
/// chunk that gives its message up makes the assembler forget the pieces of
/// that message. Else the chunk is put behind the pieces of its message;
/// where that makes too many chunks or too many bytes, the message is
/// forgotten and the result is `BAD_TCP_MESSAGE_TOO_LARGE`; where the chunk
/// is final, the message is complete and is forgotten by the assembler.
pub open spec fn received(assembler: AssemblerView, chunk: ChunkView) -> (
    Result<AssembledView, StatusCode>,
    AssemblerView,
) {
    let others = without_partial(assembler.partial, chunk);
    let message = grown(assembler.partial, chunk);
    if chunk.chunk_type == ChunkType::FinalError {
        (Ok(AssembledView::Aborted), AssemblerView { partial: others, ..assembler })
    } else if is_too_large(assembler, message) {
        (
            Err(StatusCode(BAD_TCP_MESSAGE_TOO_LARGE)),
            AssemblerView { partial: others, ..assembler },
        )
    } else if chunk.chunk_type == ChunkType::Final {
        (Ok(AssembledView::Message(message.body)), AssemblerView { partial: others, ..assembler })
    } else {
        (
            Ok(AssembledView::Pending),
            AssemblerView { partial: others.push(message), ..assembler },
        )
    }
}

/// The result of the arrival of a chunk, as a value.
pub open spec fn assembled_view(result: Result<Assembled, StatusCode>) -> Result<
    AssembledView,
    StatusCode,
> {
    match result {
        Ok(assembled) => Ok(assembled.deep_view()),
        Err(status) => Err(status),
    }
}

impl Assembler {
    /// An assembler with the given limits, at which nothing has arrived.
    pub fn new(max_message_size: usize, max_chunk_count: usize) -> (r: Assembler)
        ensures
            r@ == (AssemblerView { max_message_size, max_chunk_count, partial: Seq::empty() }),
    {
        let r = Assembler { max_message_size, max_chunk_count, partial: Vec::new() };
        assert(r@.partial =~= Seq::empty());
        r
    }

    /// Takes what has arrived of the request `request_id` on the channel
    /// `secure_channel_id` out of the assembler.
    fn take_partial(&mut self, secure_channel_id: u32, request_id: u32) -> (r: Option<PartialMessage>)
        ensures
            match partial_position(old(self)@.partial, secure_channel_id, request_id) {
                Some(p) => r matches Some(message) && message@ == old(self)@.partial[p] && final(self)@ == (AssemblerView { partial: old(self)@.partial.remove(p), ..old(self)@ }),
                None => r is None && final(self)@ == old(self)@,
            },
    {
        let ghost partial = self@.partial;
        let mut i: usize = 0;
        while i < self.partial.len()
            invariant
                i <= self.partial.len(),
                *self == *old(self),
                partial == self@.partial,
                partial.len() == self.partial.len(),
                partial_position(partial, secure_channel_id, request_id) == partial_position_from(
                    partial,
                    secure_channel_id,
                    request_id,
                    i as int,
                ),
            decreases self.partial.len() - i,
        {
            assert(self.partial[i as int]@ == partial[i as int]);
            if self.partial[i].secure_channel_id == secure_channel_id && self.partial[i].request_id
                == request_id {
                let message = self.partial.remove(i);
                assert(self@.partial =~= partial.remove(i as int));
                return Some(message);
            }
            i = i + 1;
        }
        None
    }

    /// Takes a chunk that has arrived.
    pub fn receive(&mut self, chunk: Chunk) -> (r: Result<Assembled, StatusCode>)
        ensures
            (assembled_view(r), final(self)@) == received(old(self)@, chunk@),
    {
        let ghost before = self@;
        assert(chunk.body.deep_view() =~= chunk.body@);
        let mut message = match self.take_partial(chunk.secure_channel_id, chunk.request_id) {
            Some(mut message) => {
                let ghost body = message.body@;
                assert(message.body.deep_view() =~= body);
                message.body.extend_from_slice(chunk.body.as_slice());
                assert(message.body@ =~= body + chunk.body@);
                assert(message.body.deep_view() =~= message.body@);
                if message.chunk_count < usize::MAX {
                    message.chunk_count = message.chunk_count + 1;
                }
                message
            },
            None => PartialMessage {
                secure_channel_id: chunk.secure_channel_id,
                request_id: chunk.request_id,
                body: chunk.body,
                chunk_count: 1,
            },
        };
        assert(message.body.deep_view() =~= message.body@);
        assert(message@ == grown(before.partial, chunk@));
        match chunk.chunk_type {
            ChunkType::FinalError => {
                return Ok(Assembled::Aborted);
            },
            _ => {},
        }
        if (self.max_chunk_count > 0 && message.chunk_count > self.max_chunk_count) || (
        self.max_message_size > 0 && message.body.len() > self.max_message_size) {
            return Err(StatusCode(BAD_TCP_MESSAGE_TOO_LARGE));
        }
        match chunk.chunk_type {
            ChunkType::Final => {
                assert(message.body.deep_view() =~= message.body@);
                Ok(Assembled::Message(message.body))
            },
            _ => {
                let ghost others = self@.partial;
                self.partial.push(message);
                assert(self@.partial =~= others.push(message@));
                Ok(Assembled::Pending)
            },
        }
    }
}

/// The assembler after the first `n` of `chunks` have arrived.
pub open spec fn received_upto(assembler: AssemblerView, chunks: Seq<ChunkView>, n: int) -> AssemblerView
    decreases n,
{
    if n <= 0 {
        assembler
    } else {
        received(received_upto(assembler, chunks, n - 1), chunks[n - 1]).1
    }
}

/// A partial message is not found among partial messages none of which
/// belongs to its request.
pub proof fn lemma_absent_partial_is_not_found(
    partial: Seq<PartialMessageView>,
    secure_channel_id: u32,
    request_id: u32,
    from: int,
)
    requires
        0 <= from,
        forall|i: int|
            0 <= i < partial.len() ==> !((#[trigger] partial[i]).secure_channel_id
                == secure_channel_id && partial[i].request_id == request_id),
    ensures
        partial_position_from(partial, secure_channel_id, request_id, from) is None,
    decreases partial.len() - from,
{
    if from < partial.len() {
        lemma_absent_partial_is_not_found(partial, secure_channel_id, request_id, from + 1);
    }
}

/// A partial message that is added behind partial messages none of which
/// belongs to its request is found at the end.
pub proof fn lemma_added_partial_is_found(
    partial: Seq<PartialMessageView>,
    message: PartialMessageView,
    from: int,
)
    requires
        0 <= from <= partial.len(),
        forall|i: int|
            0 <= i < partial.len() ==> !((#[trigger] partial[i]).secure_channel_id
                == message.secure_channel_id && partial[i].request_id == message.request_id),
    ensures
        partial_position_from(
            partial.push(message),
            message.secure_channel_id,
            message.request_id,
            from,
        ) == Some(partial.len() as int),
    decreases partial.len() - from,
{
    if from < partial.len() {
        lemma_added_partial_is_found(partial, message, from + 1);
    }
}

/// While the chunks of a message arrive that is split into pieces, and the
/// limits let the message through, the assembler holds what has arrived of
/// it behind the other partial messages; each chunk but the last leaves the
/// message pending.
pub proof fn lemma_chunks_arrive(
    assembler: AssemblerView,
    message: Seq<u8>,
    max: nat,
    secure_channel_id: u32,
    request_id: u32,
    n: int,
)
    requires
        max > 0,
        1 <= n < pieces(message, max).len() <= usize::MAX,
        assembler.max_chunk_count == 0 || pieces(message, max).len() <= assembler.max_chunk_count,
        assembler.max_message_size == 0 || message.len() <= assembler.max_message_size,
        forall|i: int|
            0 <= i < assembler.partial.len() ==> !((#[trigger] assembler.partial[i]).secure_channel_id
                == secure_channel_id && assembler.partial[i].request_id == request_id),
    ensures
        ({
            let chunks = chunks_of(message, max, secure_channel_id, request_id);
            let before = received_upto(assembler, chunks, n - 1);
            &&& received(before, chunks[n - 1]).0 == Ok::<AssembledView, StatusCode>(
                AssembledView::Pending,
            )
            &&& received_upto(assembler, chunks, n) == (AssemblerView {
                partial: assembler.partial.push(
                    PartialMessageView {
                        secure_channel_id,
                        request_id,
                        body: joined_upto(pieces(message, max), n),
                        chunk_count: n as usize,
                    },
                ),
                ..assembler
            })
        }),
    decreases n,
{
    let bodies = pieces(message, max);
    let chunks = chunks_of(message, max, secure_channel_id, request_id);
    lemma_pieces_fit(message, max);
    lemma_joined_pieces(message, max);
    lemma_joined_upto_grows(bodies, n, bodies.len() as int);
    if n == 1 {
        lemma_absent_partial_is_not_found(assembler.partial, secure_channel_id, request_id, 0);
        assert(joined_upto(bodies, 0) =~= Seq::<u8>::empty());
        assert(joined_upto(bodies, 1) =~= bodies[0]);
    } else {
        lemma_chunks_arrive(assembler, message, max, secure_channel_id, request_id, n - 1);
        let held = PartialMessageView {
            secure_channel_id,
            request_id,
            body: joined_upto(bodies, n - 1),
            chunk_count: (n - 1) as usize,
        };
        lemma_added_partial_is_found(assembler.partial, held, 0);
        assert(assembler.partial.push(held).remove(assembler.partial.len() as int)
            =~= assembler.partial);
    }
}

/// The first pieces joined are no longer than more pieces joined.
pub proof fn lemma_joined_upto_grows(pieces: Seq<Seq<u8>>, n: int, m: int)
    requires
        0 <= n <= m <= pieces.len(),
    ensures
        joined_upto(pieces, n).len() <= joined_upto(pieces, m).len(),
    decreases m - n,
{
    if n < m {
        lemma_joined_upto_grows(pieces, n, m - 1);
    }
}

/// Putting together the chunks into which a message was split gives the
/// message back, where the limits let it through and nothing else has
/// arrived for the same request: the last chunk completes it, and the
/// assembler is left as it was.
pub proof fn lemma_assembled_chunks_are_the_message(
    assembler: AssemblerView,
    message: Seq<u8>,
    max: nat,
    secure_channel_id: u32,
    request_id: u32,
)
    requires
        max > 0,
        pieces(message, max).len() <= usize::MAX,
        assembler.max_chunk_count == 0 || pieces(message, max).len() <= assembler.max_chunk_count,
        assembler.max_message_size == 0 || message.len() <= assembler.max_message_size,
        forall|i: int|
            0 <= i < assembler.partial.len() ==> !((#[trigger] assembler.partial[i]).secure_channel_id
                == secure_channel_id && assembler.partial[i].request_id == request_id),
    ensures
        ({
            let chunks = chunks_of(message, max, secure_channel_id, request_id);
            let before = received_upto(assembler, chunks, chunks.len() - 1);
            received(before, chunks[chunks.len() - 1]) == (
                Ok::<AssembledView, StatusCode>(AssembledView::Message(message)),
                assembler,
            )
        }),
{
    let bodies = pieces(message, max);
    let chunks = chunks_of(message, max, secure_channel_id, request_id);
    let n = bodies.len() as int;
    lemma_pieces_fit(message, max);
    lemma_joined_pieces(message, max);
    if n == 1 {
        lemma_absent_partial_is_not_found(assembler.partial, secure_channel_id, request_id, 0);
        assert(joined_upto(bodies, 0) =~= Seq::<u8>::empty());
        assert(joined_upto(bodies, 1) =~= bodies[0]);
    } else {
        lemma_chunks_arrive(assembler, message, max, secure_channel_id, request_id, n - 1);
        let held = PartialMessageView {
            secure_channel_id,
            request_id,
            body: joined_upto(bodies, n - 1),
            chunk_count: (n - 1) as usize,
        };
        lemma_added_partial_is_found(assembler.partial, held, 0);
        assert(assembler.partial.push(held).remove(assembler.partial.len() as int)
            =~= assembler.partial);
    }
}

} // verus!
