//! The structured types that service messages are built from.

use crate::byte_string::ByteString;
use crate::encoding::{
    get, get_optional, has_flag, lemma_concat_assoc, lemma_concat_split, lemma_concat_take,
    lemma_parse_bound_masked, lemma_parse_truncated_masked, lemma_parse_wire_masked,
    lemma_skip_skip, lemma_tagged_parse_truncated, lemma_tagged_parse_wire, lemma_vec_len_bound,
    parse_masked, parse_optional, put, put_last, wire_masked, BinaryEncoder, DecodingLimits,
    EncodingError, Flagged, MaskedFields, Parsed, Reader,
};
use crate::node_id::{
    lemma_node_id_body_parse_bound, lemma_node_id_body_parse_truncated,
    lemma_node_id_body_parse_wire, node_id_body, node_id_form, parse_node_id_body, NodeId,
    NodeIdView,
};
use crate::string::{UAString, XmlElement};
use vstd::prelude::*;
use vstd::std_specs::cmp::PartialEqSpecImpl;

verus! {

/// A name qualified by the index of a namespace.
#[derive(Debug, Eq, Hash)]
pub struct QualifiedName {
    pub namespace_index: u16,
    pub name: UAString,
}

/// The value that a `QualifiedName` stands for.
pub struct QualifiedNameView {
    pub namespace_index: u16,
    pub name: Option<Seq<char>>,
}

impl DeepView for QualifiedName {
    type V = QualifiedNameView;

    open spec fn deep_view(&self) -> QualifiedNameView {
        QualifiedNameView {
            namespace_index: self.namespace_index.deep_view(),
            name: self.name.deep_view(),
        }
    }
}

impl View for QualifiedName {
    type V = QualifiedNameView;

    open spec fn view(&self) -> QualifiedNameView {
        self.deep_view()
    }
}

impl PartialEq for QualifiedName {
    fn eq(&self, other: &QualifiedName) -> (r: bool) {
        self.namespace_index == other.namespace_index && self.name == other.name
    }
}

impl PartialEqSpecImpl for QualifiedName {
    open spec fn obeys_eq_spec() -> bool {
        true
    }

    open spec fn eq_spec(&self, other: &QualifiedName) -> bool {
        self@ == other@
    }
}

impl Clone for QualifiedName {
    fn clone(&self) -> (r: QualifiedName)
        ensures
            r@ == self@,
    {
        QualifiedName {
            namespace_index: self.namespace_index.clone(),
            name: self.name.clone(),
        }
    }
}

impl QualifiedNameView {
    /// The fields in the order in which they travel.
    pub open spec fn fields(self) -> (u16, Option<Seq<char>>) {
        (self.namespace_index, self.name)
    }

    /// The value with the given fields.
    pub open spec fn of_fields(t: (u16, Option<Seq<char>>)) -> QualifiedNameView {
        QualifiedNameView {
            namespace_index: t.0,
            name: t.1,
        }
    }
}

/// A qualified name is its namespace index, then its name.
impl BinaryEncoder for QualifiedName {
    open spec fn wire(v: QualifiedNameView) -> Seq<u8> {
        <(u16, UAString)>::wire(v.fields())
    }

    open spec fn parse(bytes: Seq<u8>, limits: DecodingLimits) -> Parsed<QualifiedNameView> {
        match <(u16, UAString)>::parse(bytes, limits) {
            Err(e) => Err(e),
            Ok((t, n)) => Ok((QualifiedNameView::of_fields(t), n)),
        }
    }

    open spec fn encodable(v: QualifiedNameView) -> bool {
        <(u16, UAString)>::encodable(v.fields())
    }

    open spec fn within(v: QualifiedNameView, limits: DecodingLimits) -> bool {
        <(u16, UAString)>::within(v.fields(), limits)
    }

    proof fn lemma_parse_wire(v: QualifiedNameView, rest: Seq<u8>, limits: DecodingLimits) {
        <(u16, UAString)>::lemma_parse_wire(v.fields(), rest, limits);
    }

    proof fn lemma_parse_truncated(v: QualifiedNameView, k: int, limits: DecodingLimits) {
        <(u16, UAString)>::lemma_parse_truncated(v.fields(), k, limits);
    }

    proof fn lemma_parse_bound(bytes: Seq<u8>, limits: DecodingLimits) {
        <(u16, UAString)>::lemma_parse_bound(bytes, limits);
    }

    fn byte_len(&self) -> (n: usize) {
        let mut size: usize = 0;
        size += self.namespace_index.byte_len();
        size += self.name.byte_len();
        size
    }

    fn encode(&self, stream: &mut Vec<u8>) -> (r: Result<usize, EncodingError>) {
        let ghost start = stream@;
        let ghost total = Self::wire(self@);
        let ghost t = self@.fields();
        let size: usize = 0;
        let size = put(&self.namespace_index, stream, size, Ghost(start), Ghost(total), Ghost(UAString::wire(t.1)))?;
        let size = put_last(&self.name, stream, size, Ghost(start), Ghost(total))?;
        Ok(size)
    }

    fn decode(stream: &mut Reader, limits: &DecodingLimits) -> (r: Result<Self, EncodingError>) {
        let ghost start = stream@;
        let ghost taken = 0int;
        assert(start.skip(0) =~= start);
        let ghost unread = stream@;
        let namespace_index = get::<u16>(stream, limits, Ghost(start), Ghost(taken))?;
        proof {
            taken = taken + u16::parse(unread, *limits).unwrap().1;
        }
        let ghost unread = stream@;
        let name = get::<UAString>(stream, limits, Ghost(start), Ghost(taken))?;
        proof {
            taken = taken + UAString::parse(unread, *limits).unwrap().1;
        }
        Ok(QualifiedName { namespace_index, name })
    }
}

impl QualifiedName {
    /// The name `name` in namespace `namespace_index`.
    pub fn new(namespace_index: u16, name: &str) -> (r: QualifiedName)
        ensures
            r@ == (QualifiedNameView { namespace_index, name: Some(name@) }),
    {
        QualifiedName { namespace_index, name: UAString::from(name) }
    }

    /// The null name: the null string in namespace 0.
    pub fn null() -> (r: QualifiedName)
        ensures
            r@ == (QualifiedNameView { namespace_index: 0, name: None }),
    {
        QualifiedName { namespace_index: 0, name: UAString::null() }
    }

    /// Whether this is the null name.
    pub fn is_null(&self) -> (r: bool)
        ensures
            r == (self@ == (QualifiedNameView { namespace_index: 0, name: None })),
    {
        self.namespace_index == 0 && self.name.is_null()
    }
}

/// A text with the code of its locale.
#[derive(Debug, Eq, Hash)]
pub struct LocalizedText {
    pub locale: UAString,
    pub text: UAString,
}

/// The value that a `LocalizedText` stands for.
pub struct LocalizedTextView {
    pub locale: Option<Seq<char>>,
    pub text: Option<Seq<char>>,
}

impl DeepView for LocalizedText {
    type V = LocalizedTextView;

    open spec fn deep_view(&self) -> LocalizedTextView {
        LocalizedTextView {
            locale: self.locale.deep_view(),
            text: self.text.deep_view(),
        }
    }
}

impl View for LocalizedText {
    type V = LocalizedTextView;

    open spec fn view(&self) -> LocalizedTextView {
        self.deep_view()
    }
}

impl PartialEq for LocalizedText {
    fn eq(&self, other: &LocalizedText) -> (r: bool) {
        self.locale == other.locale && self.text == other.text
    }
}

impl PartialEqSpecImpl for LocalizedText {
    open spec fn obeys_eq_spec() -> bool {
        true
    }

    open spec fn eq_spec(&self, other: &LocalizedText) -> bool {
        self@ == other@
    }
}

impl Clone for LocalizedText {
    fn clone(&self) -> (r: LocalizedText)
        ensures
            r@ == self@,
    {
        LocalizedText {
            locale: self.locale.clone(),
            text: self.text.clone(),
        }
    }
}
/// The fields of a localized text, each with its flag in the mask.
pub type LocalizedTextFields = (Flagged<UAString, 1>, Flagged<UAString, 2>);

/// A string as a field that is there unless the string is null.
pub open spec fn present(text: Option<Seq<char>>) -> Option<Option<Seq<char>>> {
    if text is Some {
        Some(text)
    } else {
        None
    }
}

/// The string that a field stands for: null where the field is missing.
pub open spec fn absent_is_null(field: Option<Option<Seq<char>>>) -> Option<Seq<char>> {
    match field {
        Some(text) => text,
        None => None,
    }
}

impl LocalizedTextView {
    /// The byte that says which fields are there: 1 for the locale and 2
    /// for the text.
    pub open spec fn mask(self) -> u8 {
        ((if self.locale is Some { 1int } else { 0 }) + (if self.text is Some { 2int } else { 0 })) as u8
    }

    /// The fields in the order in which they travel.
    pub open spec fn fields(self) -> (Option<Option<Seq<char>>>, Option<Option<Seq<char>>>) {
        (present(self.locale), present(self.text))
    }

    /// The value with the given fields.
    pub open spec fn of_fields(t: (Option<Option<Seq<char>>>, Option<Option<Seq<char>>>)) -> LocalizedTextView {
        LocalizedTextView { locale: absent_is_null(t.0), text: absent_is_null(t.1) }
    }
}

/// A localized text is a mask that says which of locale and text are
/// there, then those of them that are. A null string is not there.
impl BinaryEncoder for LocalizedText {
    open spec fn wire(v: LocalizedTextView) -> Seq<u8> {
        wire_masked::<LocalizedTextFields>(v.mask(), v.fields())
    }

    open spec fn parse(bytes: Seq<u8>, limits: DecodingLimits) -> Parsed<LocalizedTextView> {
        match parse_masked::<LocalizedTextFields>(bytes, limits) {
            Err(e) => Err(e),
            Ok((t, n)) => Ok((LocalizedTextView::of_fields(t), n)),
        }
    }

    open spec fn encodable(v: LocalizedTextView) -> bool {
        UAString::encodable(v.locale) && UAString::encodable(v.text)
    }

    open spec fn within(v: LocalizedTextView, limits: DecodingLimits) -> bool {
        UAString::within(v.locale, limits) && UAString::within(v.text, limits)
    }

    proof fn lemma_parse_wire(v: LocalizedTextView, rest: Seq<u8>, limits: DecodingLimits) {
        lemma_parse_wire_masked::<LocalizedTextFields>(v.mask(), v.fields(), rest, limits);
    }

    proof fn lemma_parse_truncated(v: LocalizedTextView, k: int, limits: DecodingLimits) {
        lemma_parse_truncated_masked::<LocalizedTextFields>(v.mask(), v.fields(), k, limits);
    }

    proof fn lemma_parse_bound(bytes: Seq<u8>, limits: DecodingLimits) {
        lemma_parse_bound_masked::<LocalizedTextFields>(bytes, limits);
    }

    fn byte_len(&self) -> (n: usize) {
        let mut size: usize = 1;
        if !self.locale.is_null() {
            size = size + self.locale.byte_len();
        }
        if !self.text.is_null() {
            size = size + self.text.byte_len();
        }
        size
    }

    fn encode(&self, stream: &mut Vec<u8>) -> (r: Result<usize, EncodingError>) {
        let ghost start = stream@;
        let mut mask: u8 = 0;
        if !self.locale.is_null() {
            mask = mask + 1;
        }
        if !self.text.is_null() {
            mask = mask + 2;
        }
        stream.push(mask);
        assert(stream@ =~= start + seq![mask]);
        let mut size: usize = 1;
        if !self.locale.is_null() {
            let written = self.locale.encode(stream)?;
            proof {
                lemma_vec_len_bound(stream);
            }
            size = size + written;
        }
        if !self.text.is_null() {
            let written = self.text.encode(stream)?;
            proof {
                lemma_vec_len_bound(stream);
            }
            size = size + written;
        }
        assert(stream@ =~= start + Self::wire(self@));
        Ok(size)
    }

    fn decode(stream: &mut Reader, limits: &DecodingLimits) -> (r: Result<Self, EncodingError>) {
        let ghost start = stream@;
        let mask = u8::decode(stream, limits)?;
        let ghost unread = stream@;
        let locale = get_optional::<UAString>((mask / 1) % 2 == 1, stream, limits, Ghost(start), Ghost(1))?;
        let ghost taken: int = 1 + parse_optional::<UAString>(has_flag(mask, 1), unread, *limits).unwrap().1 as int;
        let text = get_optional::<UAString>((mask / 2) % 2 == 1, stream, limits, Ghost(start), Ghost(taken))?;
        Ok(
            LocalizedText {
                locale: match locale {
                    Some(locale) => locale,
                    None => UAString::null(),
                },
                text: match text {
                    Some(text) => text,
                    None => UAString::null(),
                },
            },
        )
    }
}

impl LocalizedText {
    /// The text `text` in the locale `locale`.
    pub fn new(locale: &str, text: &str) -> (r: LocalizedText)
        ensures
            r@ == (LocalizedTextView { locale: Some(locale@), text: Some(text@) }),
    {
        LocalizedText { locale: UAString::from(locale), text: UAString::from(text) }
    }

    /// The null text: no locale and no text.
    pub fn null() -> (r: LocalizedText)
        ensures
            r@ == (LocalizedTextView { locale: None, text: None }),
    {
        LocalizedText { locale: UAString::null(), text: UAString::null() }
    }
}

/// A node id that may name a namespace by its URI and a server by its index.
#[derive(Debug, Eq, Hash)]
pub struct ExpandedNodeId {
    pub node_id: NodeId,
    pub namespace_uri: UAString,
    pub server_index: u32,
}

/// The value that a `ExpandedNodeId` stands for.
pub struct ExpandedNodeIdView {
    pub node_id: NodeIdView,
    pub namespace_uri: Option<Seq<char>>,
    pub server_index: u32,
}

impl DeepView for ExpandedNodeId {
    type V = ExpandedNodeIdView;

    open spec fn deep_view(&self) -> ExpandedNodeIdView {
        ExpandedNodeIdView {
            node_id: self.node_id.deep_view(),
            namespace_uri: self.namespace_uri.deep_view(),
            server_index: self.server_index.deep_view(),
        }
    }
}

impl View for ExpandedNodeId {
    type V = ExpandedNodeIdView;

    open spec fn view(&self) -> ExpandedNodeIdView {
        self.deep_view()
    }
}

impl PartialEq for ExpandedNodeId {
    fn eq(&self, other: &ExpandedNodeId) -> (r: bool) {
        self.node_id == other.node_id && self.namespace_uri == other.namespace_uri && self.server_index == other.server_index
    }
}

impl PartialEqSpecImpl for ExpandedNodeId {
    open spec fn obeys_eq_spec() -> bool {
        true
    }

    open spec fn eq_spec(&self, other: &ExpandedNodeId) -> bool {
        self@ == other@
    }
}

impl Clone for ExpandedNodeId {
    fn clone(&self) -> (r: ExpandedNodeId)
        ensures
            r@ == self@,
    {
        ExpandedNodeId {
            node_id: self.node_id.clone(),
            namespace_uri: self.namespace_uri.clone(),
            server_index: self.server_index.clone(),
        }
    }
}
/// The fields of an expanded node id behind its node id, each with its flag
/// in the byte that names the form.
pub type ExpandedFields = (Flagged<UAString, 128>, Flagged<u32, 64>);

impl ExpandedNodeIdView {
    /// The byte that names the form of the node id and says which of the
    /// other fields are there: 128 for the namespace URI, 64 for the index
    /// of the server.
    pub open spec fn mask(self) -> u8 {
        (node_id_form(self.node_id) + (if self.namespace_uri is Some { 128int } else { 0 }) + (
        if self.server_index != 0 { 64int } else { 0 })) as u8
    }

    /// The first byte names the form of the node id and carries the flags
    /// of the fields that are there.
    pub proof fn lemma_mask(self)
        ensures
            (self.mask() % 64) as u8 == node_id_form(self.node_id),
            ExpandedFields::agrees(self.mask(), self.fields()),
    {
        let form = node_id_form(self.node_id);
        assert(form <= 5);
    }

    /// The fields behind the node id.
    pub open spec fn fields(self) -> (Option<Option<Seq<char>>>, Option<u32>) {
        (
            present(self.namespace_uri),
            if self.server_index != 0 {
                Some(self.server_index)
            } else {
                None
            },
        )
    }
}

/// An expanded node id is its node id, in whose first byte two flags say
/// whether a namespace URI and the index of a server follow, then those of
/// the two that are there. A null URI and the index 0 are not there.
impl BinaryEncoder for ExpandedNodeId {
    open spec fn wire(v: ExpandedNodeIdView) -> Seq<u8> {
        seq![v.mask()] + (node_id_body(v.node_id) + ExpandedFields::wire(v.fields()))
    }

    open spec fn parse(bytes: Seq<u8>, limits: DecodingLimits) -> Parsed<ExpandedNodeIdView> {
        if bytes.len() < 1 {
            Err(EncodingError::UnexpectedEof)
        } else {
            match parse_node_id_body((bytes[0] % 64) as u8, bytes.skip(1), limits) {
                Err(e) => Err(e),
                Ok((node_id, n)) => match ExpandedFields::parse(
                    bytes[0],
                    bytes.skip(1).skip(n as int),
                    limits,
                ) {
                    Err(e) => Err(e),
                    Ok((t, m)) => Ok(
                        (
                            ExpandedNodeIdView {
                                node_id,
                                namespace_uri: absent_is_null(t.0),
                                server_index: match t.1 {
                                    Some(index) => index,
                                    None => 0,
                                },
                            },
                            1 + n + m,
                        ),
                    ),
                },
            }
        }
    }

    open spec fn encodable(v: ExpandedNodeIdView) -> bool {
        NodeId::encodable(v.node_id) && UAString::encodable(v.namespace_uri)
    }

    open spec fn within(v: ExpandedNodeIdView, limits: DecodingLimits) -> bool {
        NodeId::within(v.node_id, limits) && UAString::within(v.namespace_uri, limits)
    }

    proof fn lemma_parse_wire(v: ExpandedNodeIdView, rest: Seq<u8>, limits: DecodingLimits) {
        let body = node_id_body(v.node_id);
        let fields = ExpandedFields::wire(v.fields());
        let bytes = Self::wire(v) + rest;
        v.lemma_mask();
        assert(bytes[0] == v.mask());
        assert(bytes.skip(1) =~= body + (fields + rest));
        lemma_node_id_body_parse_wire(v.node_id, fields + rest, limits);
        lemma_concat_split(body, fields + rest);
        ExpandedFields::lemma_parse_wire(v.mask(), v.fields(), rest, limits);
    }

    proof fn lemma_parse_truncated(v: ExpandedNodeIdView, k: int, limits: DecodingLimits) {
        let body = node_id_body(v.node_id);
        let fields = ExpandedFields::wire(v.fields());
        v.lemma_mask();
        if k >= 1 {
            let bytes = Self::wire(v).take(k);
            assert(bytes[0] == v.mask());
            assert(bytes.skip(1) =~= (body + fields).take(k - 1));
            lemma_concat_take(body, fields, k - 1);
            if k - 1 < body.len() {
                lemma_node_id_body_parse_truncated(v.node_id, k - 1, limits);
            } else {
                let cut = fields.take(k - 1 - body.len());
                lemma_node_id_body_parse_wire(v.node_id, cut, limits);
                lemma_concat_split(body, cut);
                assert(fields + Seq::<u8>::empty() =~= fields);
                ExpandedFields::lemma_parse_cut(
                    v.mask(),
                    v.fields(),
                    Seq::empty(),
                    k - 1 - body.len(),
                    limits,
                );
            }
        }
    }

    proof fn lemma_parse_bound(bytes: Seq<u8>, limits: DecodingLimits) {
        if bytes.len() >= 1 {
            lemma_node_id_body_parse_bound((bytes[0] % 64) as u8, bytes.skip(1), limits);
            if let Ok((node_id, n)) = parse_node_id_body(
                (bytes[0] % 64) as u8,
                bytes.skip(1),
                limits,
            ) {
                ExpandedFields::lemma_parse_bound(bytes[0], bytes.skip(1).skip(n as int), limits);
            }
        }
    }

    fn byte_len(&self) -> (n: usize) {
        let mut size: usize = 1 + self.node_id.body_len();
        if !self.namespace_uri.is_null() {
            size = size + self.namespace_uri.byte_len();
        }
        if self.server_index != 0 {
            proof {
                vstd::bytes::lemma_auto_spec_u32_to_from_le_bytes();
            }
            size = size + 4;
        }
        size
    }

    fn encode(&self, stream: &mut Vec<u8>) -> (r: Result<usize, EncodingError>) {
        let ghost start = stream@;
        let mut mask: u8 = self.node_id.form();
        if !self.namespace_uri.is_null() {
            mask = mask + 128;
        }
        if self.server_index != 0 {
            mask = mask + 64;
        }
        stream.push(mask);
        assert(stream@ =~= start + seq![mask]);
        let mut size: usize = 1;
        let written = self.node_id.encode_body(stream)?;
        proof {
            lemma_vec_len_bound(stream);
        }
        size = size + written;
        if !self.namespace_uri.is_null() {
            let written = self.namespace_uri.encode(stream)?;
            proof {
                lemma_vec_len_bound(stream);
            }
            size = size + written;
        }
        if self.server_index != 0 {
            let written = self.server_index.encode(stream)?;
            proof {
                lemma_vec_len_bound(stream);
            }
            size = size + written;
        }
        assert(stream@ =~= start + Self::wire(self@));
        Ok(size)
    }

    fn decode(stream: &mut Reader, limits: &DecodingLimits) -> (r: Result<Self, EncodingError>) {
        let ghost start = stream@;
        let mask = u8::decode(stream, limits)?;
        let ghost unread = stream@;
        let node_id = NodeId::decode_body(mask % 64, stream, limits)?;
        proof {
            lemma_node_id_body_parse_bound((mask % 64) as u8, unread, *limits);
            lemma_skip_skip(start, 1, parse_node_id_body((mask % 64) as u8, unread, *limits).unwrap().1 as int);
        }
        let ghost taken: int = 1 + parse_node_id_body((mask % 64) as u8, unread, *limits).unwrap().1 as int;
        let ghost unread = stream@;
        let namespace_uri = get_optional::<UAString>((mask / 128) % 2 == 1, stream, limits, Ghost(start), Ghost(taken))?;
        let ghost taken: int = taken + parse_optional::<UAString>(has_flag(mask, 128), unread, *limits).unwrap().1;
        let server_index = get_optional::<u32>((mask / 64) % 2 == 1, stream, limits, Ghost(start), Ghost(taken))?;
        Ok(
            ExpandedNodeId {
                node_id,
                namespace_uri: match namespace_uri {
                    Some(uri) => uri,
                    None => UAString::null(),
                },
                server_index: match server_index {
                    Some(index) => index,
                    None => 0,
                },
            },
        )
    }
}

impl ExpandedNodeId {
    /// The node `node_id` on this server.
    pub fn new(node_id: NodeId) -> (r: ExpandedNodeId)
        ensures
            r@ == ExpandedNodeIdView::local(node_id@),
    {
        ExpandedNodeId { node_id, namespace_uri: UAString::null(), server_index: 0 }
    }

    /// The null node on this server.
    pub fn null() -> (r: ExpandedNodeId)
        ensures
            r@ == ExpandedNodeIdView::local(NodeIdView::null()),
    {
        ExpandedNodeId::new(NodeId::null())
    }
}

impl ExpandedNodeIdView {
    /// The node `node_id` on this server, with no namespace URI.
    pub open spec fn local(node_id: NodeIdView) -> ExpandedNodeIdView {
        ExpandedNodeIdView { node_id, namespace_uri: None, server_index: 0 }
    }
}

/// The body of an extension object.
#[derive(Debug, PartialEq, Clone)]
pub enum ExtensionObjectEncoding {
    /// No body.
    NoBody,
    /// A body in binary form.
    ByteString(ByteString),
    /// A body in XML form.
    XmlElement(XmlElement),
}

/// The value that an `ExtensionObjectEncoding` stands for.
pub enum ExtensionObjectEncodingView {
    NoBody,
    ByteString(Option<Seq<u8>>),
    XmlElement(Option<Seq<char>>),
}

impl DeepView for ExtensionObjectEncoding {
    type V = ExtensionObjectEncodingView;

    open spec fn deep_view(&self) -> ExtensionObjectEncodingView {
        match self {
            ExtensionObjectEncoding::NoBody => ExtensionObjectEncodingView::NoBody,
            ExtensionObjectEncoding::ByteString(body) => ExtensionObjectEncodingView::ByteString(
                body@,
            ),
            ExtensionObjectEncoding::XmlElement(body) => ExtensionObjectEncodingView::XmlElement(
                body@,
            ),
        }
    }
}

impl View for ExtensionObjectEncoding {
    type V = ExtensionObjectEncodingView;

    open spec fn view(&self) -> ExtensionObjectEncodingView {
        self.deep_view()
    }
}

/// The body of an extension object is a byte that names its form, 0 for none,
/// 1 for binary and 2 for XML, then the body as a byte string or a string.
impl BinaryEncoder for ExtensionObjectEncoding {
    open spec fn wire(v: ExtensionObjectEncodingView) -> Seq<u8> {
        match v {
            ExtensionObjectEncodingView::NoBody => seq![0u8],
            ExtensionObjectEncodingView::ByteString(body) => seq![1u8] + ByteString::wire(body),
            ExtensionObjectEncodingView::XmlElement(body) => seq![2u8] + UAString::wire(body),
        }
    }

    open spec fn parse(bytes: Seq<u8>, limits: DecodingLimits) -> Parsed<
        ExtensionObjectEncodingView,
    > {
        if bytes.len() < 1 {
            Err(EncodingError::UnexpectedEof)
        } else if bytes[0] == 0 {
            Ok((ExtensionObjectEncodingView::NoBody, 1))
        } else if bytes[0] == 1 {
            match ByteString::parse(bytes.skip(1), limits) {
                Err(e) => Err(e),
                Ok((body, n)) => Ok((ExtensionObjectEncodingView::ByteString(body), 1 + n)),
            }
        } else if bytes[0] == 2 {
            match UAString::parse(bytes.skip(1), limits) {
                Err(e) => Err(e),
                Ok((body, n)) => Ok((ExtensionObjectEncodingView::XmlElement(body), 1 + n)),
            }
        } else {
            Err(EncodingError::InvalidEncoding)
        }
    }

    open spec fn encodable(v: ExtensionObjectEncodingView) -> bool {
        match v {
            ExtensionObjectEncodingView::NoBody => true,
            ExtensionObjectEncodingView::ByteString(body) => ByteString::encodable(body),
            ExtensionObjectEncodingView::XmlElement(body) => UAString::encodable(body),
        }
    }

    open spec fn within(v: ExtensionObjectEncodingView, limits: DecodingLimits) -> bool {
        match v {
            ExtensionObjectEncodingView::NoBody => true,
            ExtensionObjectEncodingView::ByteString(body) => ByteString::within(body, limits),
            ExtensionObjectEncodingView::XmlElement(body) => UAString::within(body, limits),
        }
    }

    proof fn lemma_parse_wire(v: ExtensionObjectEncodingView, rest: Seq<u8>, limits: DecodingLimits) {
        match v {
            ExtensionObjectEncodingView::NoBody => {},
            ExtensionObjectEncodingView::ByteString(body) => {
                lemma_tagged_parse_wire::<ByteString>(1, body, rest, limits);
            },
            ExtensionObjectEncodingView::XmlElement(body) => {
                lemma_tagged_parse_wire::<UAString>(2, body, rest, limits);
            },
        }
    }

    proof fn lemma_parse_truncated(v: ExtensionObjectEncodingView, k: int, limits: DecodingLimits) {
        if k >= 1 {
            match v {
                ExtensionObjectEncodingView::NoBody => {},
                ExtensionObjectEncodingView::ByteString(body) => {
                    lemma_tagged_parse_truncated::<ByteString>(1, body, k, limits);
                },
                ExtensionObjectEncodingView::XmlElement(body) => {
                    lemma_tagged_parse_truncated::<UAString>(2, body, k, limits);
                },
            }
        }
    }

    proof fn lemma_parse_bound(bytes: Seq<u8>, limits: DecodingLimits) {
    }

    fn byte_len(&self) -> (n: usize) {
        match self {
            ExtensionObjectEncoding::NoBody => 1,
            ExtensionObjectEncoding::ByteString(body) => 1 + body.byte_len(),
            ExtensionObjectEncoding::XmlElement(body) => 1 + body.byte_len(),
        }
    }

    fn encode(&self, stream: &mut Vec<u8>) -> (r: Result<usize, EncodingError>) {
        let ghost start = stream@;
        let size = match self {
            ExtensionObjectEncoding::NoBody => {
                stream.push(0);
                assert(stream@ =~= start + seq![0u8]);
                0
            },
            ExtensionObjectEncoding::ByteString(body) => {
                stream.push(1);
                let n = body.encode(stream)?;
                proof {
                    assert(start.push(1u8) =~= start + seq![1u8]);
                    lemma_concat_assoc(start, seq![1u8], ByteString::wire(body@));
                }
                n
            },
            ExtensionObjectEncoding::XmlElement(body) => {
                stream.push(2);
                let n = body.encode(stream)?;
                proof {
                    assert(start.push(2u8) =~= start + seq![2u8]);
                    lemma_concat_assoc(start, seq![2u8], UAString::wire(body@));
                }
                n
            },
        };
        proof {
            lemma_vec_len_bound(stream);
        }
        Ok(1 + size)
    }

    fn decode(stream: &mut Reader, limits: &DecodingLimits) -> (r: Result<Self, EncodingError>) {
        let form = u8::decode(stream, limits)?;
        let ghost body = stream@;
        if form == 0 {
            Ok(ExtensionObjectEncoding::NoBody)
        } else if form == 1 {
            let value = ByteString::decode(stream, limits)?;
            proof {
                let n = ByteString::parse(body, *limits).unwrap().1;
                lemma_skip_skip(old(stream)@, 1, n as int);
            }
            Ok(ExtensionObjectEncoding::ByteString(value))
        } else if form == 2 {
            let value = UAString::decode(stream, limits)?;
            proof {
                let n = UAString::parse(body, *limits).unwrap().1;
                lemma_skip_skip(old(stream)@, 1, n as int);
            }
            Ok(ExtensionObjectEncoding::XmlElement(value))
        } else {
            Err(EncodingError::InvalidEncoding)
        }
    }
}

/// A value of a type that is named by a node id and carried in encoded form.
#[derive(Debug, PartialEq, Clone)]
pub struct ExtensionObject {
    pub node_id: NodeId,
    pub body: ExtensionObjectEncoding,
}

/// The value that a `ExtensionObject` stands for.
pub struct ExtensionObjectView {
    pub node_id: NodeIdView,
    pub body: ExtensionObjectEncodingView,
}

impl DeepView for ExtensionObject {
    type V = ExtensionObjectView;

    open spec fn deep_view(&self) -> ExtensionObjectView {
        ExtensionObjectView {
            node_id: self.node_id.deep_view(),
            body: self.body.deep_view(),
        }
    }
}

impl View for ExtensionObject {
    type V = ExtensionObjectView;

    open spec fn view(&self) -> ExtensionObjectView {
        self.deep_view()
    }
}

impl ExtensionObjectView {
    /// The fields in the order in which they travel.
    pub open spec fn fields(self) -> (NodeIdView, ExtensionObjectEncodingView) {
        (self.node_id, self.body)
    }

    /// The value with the given fields.
    pub open spec fn of_fields(t: (NodeIdView, ExtensionObjectEncodingView)) -> ExtensionObjectView {
        ExtensionObjectView {
            node_id: t.0,
            body: t.1,
        }
    }
}

/// An extension object is the node id of its type, then its body.
impl BinaryEncoder for ExtensionObject {
    open spec fn wire(v: ExtensionObjectView) -> Seq<u8> {
        <(NodeId, ExtensionObjectEncoding)>::wire(v.fields())
    }

    open spec fn parse(bytes: Seq<u8>, limits: DecodingLimits) -> Parsed<ExtensionObjectView> {
        match <(NodeId, ExtensionObjectEncoding)>::parse(bytes, limits) {
            Err(e) => Err(e),
            Ok((t, n)) => Ok((ExtensionObjectView::of_fields(t), n)),
        }
    }

    open spec fn encodable(v: ExtensionObjectView) -> bool {
        <(NodeId, ExtensionObjectEncoding)>::encodable(v.fields())
    }

    open spec fn within(v: ExtensionObjectView, limits: DecodingLimits) -> bool {
        <(NodeId, ExtensionObjectEncoding)>::within(v.fields(), limits)
    }

    proof fn lemma_parse_wire(v: ExtensionObjectView, rest: Seq<u8>, limits: DecodingLimits) {
        <(NodeId, ExtensionObjectEncoding)>::lemma_parse_wire(v.fields(), rest, limits);
    }

    proof fn lemma_parse_truncated(v: ExtensionObjectView, k: int, limits: DecodingLimits) {
        <(NodeId, ExtensionObjectEncoding)>::lemma_parse_truncated(v.fields(), k, limits);
    }

    proof fn lemma_parse_bound(bytes: Seq<u8>, limits: DecodingLimits) {
        <(NodeId, ExtensionObjectEncoding)>::lemma_parse_bound(bytes, limits);
    }

    fn byte_len(&self) -> (n: usize) {
        let mut size: usize = 0;
        size += self.node_id.byte_len();
        size += self.body.byte_len();
        size
    }

    fn encode(&self, stream: &mut Vec<u8>) -> (r: Result<usize, EncodingError>) {
        let ghost start = stream@;
        let ghost total = Self::wire(self@);
        let ghost t = self@.fields();
        let size: usize = 0;
        let size = put(&self.node_id, stream, size, Ghost(start), Ghost(total), Ghost(ExtensionObjectEncoding::wire(t.1)))?;
        let size = put_last(&self.body, stream, size, Ghost(start), Ghost(total))?;
        Ok(size)
    }

    fn decode(stream: &mut Reader, limits: &DecodingLimits) -> (r: Result<Self, EncodingError>) {
        let ghost start = stream@;
        let ghost taken = 0int;
        assert(start.skip(0) =~= start);
        let ghost unread = stream@;
        let node_id = get::<NodeId>(stream, limits, Ghost(start), Ghost(taken))?;
        proof {
            taken = taken + NodeId::parse(unread, *limits).unwrap().1;
        }
        let ghost unread = stream@;
        let body = get::<ExtensionObjectEncoding>(stream, limits, Ghost(start), Ghost(taken))?;
        proof {
            taken = taken + ExtensionObjectEncoding::parse(unread, *limits).unwrap().1;
        }
        Ok(ExtensionObject { node_id, body })
    }
}
impl ExtensionObject {
    /// The extension object without type and body.
    pub fn null() -> (r: ExtensionObject)
        ensures
            r@ == ExtensionObjectView::null(),
    {
        ExtensionObject { node_id: NodeId::null(), body: ExtensionObjectEncoding::NoBody }
    }

    /// Whether there is neither type nor body.
    pub fn is_null(&self) -> (r: bool)
        ensures
            r == (self@.node_id.is_null() && self@.body is NoBody),
    {
        self.node_id.is_null() && match &self.body {
            ExtensionObjectEncoding::NoBody => true,
            _ => false,
        }
    }
}

impl ExtensionObject {
    /// The extension object that carries `encodable` in binary form under
    /// the type `node_id`; without a body where `encodable` holds a length
    /// that no length prefix can say.
    pub fn from_encodable<T: BinaryEncoder>(node_id: NodeId, encodable: &T) -> (r: ExtensionObject)
        ensures
            r@ == ExtensionObjectView::carrying::<T>(node_id@, encodable.deep_view()),
    {
        let mut stream: Vec<u8> = Vec::new();
        match encodable.encode(&mut stream) {
            Ok(_) => {
                assert(stream@ =~= T::wire(encodable.deep_view()));
                ExtensionObject {
                    node_id,
                    body: ExtensionObjectEncoding::ByteString(ByteString::from(stream)),
                }
            },
            Err(_) => ExtensionObject { node_id, body: ExtensionObjectEncoding::NoBody },
        }
    }

    /// A copy of the extension object.
    pub fn duplicate(&self) -> (r: ExtensionObject)
        ensures
            r@ == self@,
    {
        ExtensionObject {
            node_id: self.node_id.clone(),
            body: match &self.body {
                ExtensionObjectEncoding::NoBody => ExtensionObjectEncoding::NoBody,
                ExtensionObjectEncoding::ByteString(body) => ExtensionObjectEncoding::ByteString(
                    body.clone(),
                ),
                ExtensionObjectEncoding::XmlElement(body) => ExtensionObjectEncoding::XmlElement(
                    body.clone(),
                ),
            },
        }
    }

    /// The value of the type `T` that the body carries in binary form; what
    /// follows the value in the body is left aside. A body that is not in
    /// binary form is invalid.
    pub fn decode_inner<T: BinaryEncoder>(&self, limits: &DecodingLimits) -> (r: Result<
        T,
        EncodingError,
    >)
        ensures
            match self@.body {
                ExtensionObjectEncodingView::ByteString(Some(bytes)) => match T::parse(
                    bytes,
                    *limits,
                ) {
                    Ok((v, n)) => r is Ok && r.unwrap().deep_view() == v,
                    Err(e) => r == Err::<T, EncodingError>(e),
                },
                _ => r == Err::<T, EncodingError>(EncodingError::InvalidEncoding),
            },
    {
        match &self.body {
            ExtensionObjectEncoding::ByteString(body) => match &body.value {
                Some(bytes) => {
                    let mut stream = Reader::new(bytes.as_slice());
                    T::decode(&mut stream, limits)
                },
                None => Err(EncodingError::InvalidEncoding),
            },
            _ => Err(EncodingError::InvalidEncoding),
        }
    }
}

impl ExtensionObjectView {
    /// The extension object that carries `v` in binary form under the type
    /// `node_id`; without a body where `v` holds a length that no length
    /// prefix can say.
    pub open spec fn carrying<T: BinaryEncoder>(node_id: NodeIdView, v: T::V) -> ExtensionObjectView {
        ExtensionObjectView {
            node_id,
            body: if T::encodable(v) {
                ExtensionObjectEncodingView::ByteString(Some(T::wire(v)))
            } else {
                ExtensionObjectEncodingView::NoBody
            },
        }
    }

    /// The extension object without type and body.
    pub open spec fn null() -> ExtensionObjectView {
        ExtensionObjectView { node_id: NodeIdView::null(), body: ExtensionObjectEncodingView::NoBody }
    }
}

} // verus!
