//! Diagnostic information: optional details of an outcome, which may nest.

use crate::encoding::{
    byte_len_optional, has_flag, lemma_concat_assoc, lemma_concat_split,
    lemma_concat_take, lemma_skip_skip, lemma_vec_len_bound, optional_encodable, optional_within,
    put_optional, wire_optional, BinaryEncoder, DecodingLimits, EncodingError,
    Flagged, MaskedFields, Parsed, Reader,
};
use crate::status_codes::StatusCode;
use crate::string::UAString;
use vstd::prelude::*;

verus! {

/// Details of an outcome. Each field may be missing.
#[derive(Debug, PartialEq)]
pub struct DiagnosticInfo {
    /// Index of the symbolic id in the string table.
    pub symbolic_id: Option<i32>,
    /// Index of the namespace URI in the string table.
    pub namespace_uri: Option<i32>,
    /// Index of the locale in the string table.
    pub locale: Option<i32>,
    /// Index of the localized text in the string table.
    pub localized_text: Option<i32>,
    /// Details specific to the vendor.
    pub additional_info: Option<UAString>,
    /// The status code of an inner operation.
    pub inner_status_code: Option<StatusCode>,
    /// The diagnostic information of an inner operation.
    pub inner_diagnostic_info: Option<Box<DiagnosticInfo>>,
}

/// The value that a `DiagnosticInfo` stands for.
pub struct DiagnosticInfoView {
    pub symbolic_id: Option<i32>,
    pub namespace_uri: Option<i32>,
    pub locale: Option<i32>,
    pub localized_text: Option<i32>,
    pub additional_info: Option<Option<Seq<char>>>,
    pub inner_status_code: Option<StatusCode>,
    pub inner_diagnostic_info: Option<Box<DiagnosticInfoView>>,
}

impl DeepView for DiagnosticInfo {
    type V = DiagnosticInfoView;

    open spec fn deep_view(&self) -> DiagnosticInfoView
        decreases self,
    {
        DiagnosticInfoView {
            symbolic_id: self.symbolic_id,
            namespace_uri: self.namespace_uri,
            locale: self.locale,
            localized_text: self.localized_text,
            additional_info: self.additional_info.deep_view(),
            inner_status_code: self.inner_status_code,
            inner_diagnostic_info: match self.inner_diagnostic_info {
                None => None,
                Some(inner) => Some(Box::new((*inner).deep_view())),
            },
        }
    }
}

impl View for DiagnosticInfo {
    type V = DiagnosticInfoView;

    open spec fn view(&self) -> DiagnosticInfoView {
        self.deep_view()
    }
}

impl Clone for DiagnosticInfo {
    fn clone(&self) -> (r: DiagnosticInfo)
        ensures
            r@ == self@,
        decreases self,
    {
        DiagnosticInfo {
            symbolic_id: self.symbolic_id,
            namespace_uri: self.namespace_uri,
            locale: self.locale,
            localized_text: self.localized_text,
            additional_info: match &self.additional_info {
                None => None,
                Some(text) => Some(text.clone()),
            },
            inner_status_code: self.inner_status_code,
            inner_diagnostic_info: match &self.inner_diagnostic_info {
                None => None,
                Some(inner) => Some(Box::new((**inner).clone())),
            },
        }
    }
}

/// The fields other than the inner diagnostic info, in the order in which
/// they travel, each with its flag in the mask.
pub type DiagnosticFields = (
    Flagged<i32, 1>,
    (Flagged<i32, 2>, (Flagged<i32, 8>, (Flagged<i32, 4>, (Flagged<UAString, 16>, Flagged<StatusCode, 32>)))),
);

impl DiagnosticInfoView {
    /// The byte that says which fields are there: 1 for the symbolic id, 2
    /// for the namespace, 4 for the localized text, 8 for the locale, 16 for
    /// the additional info, 32 for the inner status code and 64 for the inner
    /// diagnostic info.
    pub open spec fn mask(self) -> u8 {
        ((if self.symbolic_id is Some { 1int } else { 0 }) + (if self.namespace_uri is Some { 2int } else { 0 })
            + (if self.localized_text is Some { 4int } else { 0 }) + (if self.locale is Some { 8int } else { 0 })
            + (if self.additional_info is Some { 16int } else { 0 }) + (if self.inner_status_code is Some { 32int } else { 0 })
            + (if self.inner_diagnostic_info is Some { 64int } else { 0 })) as u8
    }

    /// The fields other than the inner diagnostic info, in the order in
    /// which they travel.
    pub open spec fn fields(self) -> (
        Option<i32>,
        (Option<i32>, (Option<i32>, (Option<i32>, (Option<Option<Seq<char>>>, Option<StatusCode>)))),
    ) {
        (
            self.symbolic_id,
            (
                self.namespace_uri,
                (self.locale, (self.localized_text, (self.additional_info, self.inner_status_code))),
            ),
        )
    }

    /// The value with the given fields and without inner diagnostic info.
    pub open spec fn of_fields(
        t: (
            Option<i32>,
            (Option<i32>, (Option<i32>, (Option<i32>, (Option<Option<Seq<char>>>, Option<StatusCode>)))),
        ),
    ) -> DiagnosticInfoView {
        DiagnosticInfoView {
            symbolic_id: t.0,
            namespace_uri: t.1.0,
            locale: t.1.1.0,
            localized_text: t.1.1.1.0,
            additional_info: t.1.1.1.1.0,
            inner_status_code: t.1.1.1.1.1,
            inner_diagnostic_info: None,
        }
    }

    /// No field is there.
    pub open spec fn empty() -> DiagnosticInfoView {
        DiagnosticInfoView {
            symbolic_id: None,
            namespace_uri: None,
            locale: None,
            localized_text: None,
            additional_info: None,
            inner_status_code: None,
            inner_diagnostic_info: None,
        }
    }
}

/// The bytes of the fields other than the inner diagnostic info: of those
/// that are there, the symbolic id, the namespace, the locale, the localized
/// text, the additional info and the inner status code.
pub open spec fn fields_wire(v: DiagnosticInfoView) -> Seq<u8> {
    DiagnosticFields::wire(v.fields())
}

/// The bytes of diagnostic information: the mask, the fields that are there
/// and, where there is one, the inner diagnostic info.
pub open spec fn diagnostic_wire(v: DiagnosticInfoView) -> Seq<u8>
    decreases v,
{
    seq![v.mask()] + (fields_wire(v) + match v.inner_diagnostic_info {
        None => Seq::<u8>::empty(),
        Some(inner) => diagnostic_wire(*inner),
    })
}

/// Whether every length in diagnostic information fits its prefix.
pub open spec fn diagnostic_encodable(v: DiagnosticInfoView) -> bool
    decreases v,
{
    optional_encodable::<UAString>(v.additional_info) && match v.inner_diagnostic_info {
        None => true,
        Some(inner) => diagnostic_encodable(*inner),
    }
}

/// Whether every length in diagnostic information is within `limits`.
pub open spec fn diagnostic_within(v: DiagnosticInfoView, limits: DecodingLimits) -> bool
    decreases v,
{
    optional_within::<UAString>(v.additional_info, limits) && match v.inner_diagnostic_info {
        None => true,
        Some(inner) => diagnostic_within(*inner, limits),
    }
}

/// What decoding the fields other than the inner diagnostic info makes of
/// `bytes`, where `mask` says which of them are there.
pub open spec fn fields_parse(mask: u8, bytes: Seq<u8>, limits: DecodingLimits) -> Parsed<
    DiagnosticInfoView,
> {
    match DiagnosticFields::parse(mask, bytes, limits) {
        Err(e) => Err(e),
        Ok((t, n)) => Ok((DiagnosticInfoView::of_fields(t), n)),
    }
}

/// Decoding the fields takes no more bytes than there are.
pub proof fn lemma_fields_parse_bound(mask: u8, bytes: Seq<u8>, limits: DecodingLimits)
    ensures
        fields_parse(mask, bytes, limits) matches Ok((_, n)) ==> n <= bytes.len(),
{
    DiagnosticFields::lemma_parse_bound(mask, bytes, limits);
}

/// What decoding diagnostic information makes of `bytes`.
pub open spec fn diagnostic_parse(bytes: Seq<u8>, limits: DecodingLimits) -> Parsed<
    DiagnosticInfoView,
>
    decreases bytes.len(),
{
    if bytes.len() < 1 {
        Err(EncodingError::UnexpectedEof)
    } else {
        match fields_parse(bytes[0], bytes.skip(1), limits) {
            Err(e) => Err(e),
            Ok((fields, n)) => if has_flag(bytes[0], 64) {
                proof {
                    lemma_fields_parse_bound(bytes[0], bytes.skip(1), limits);
                }
                match diagnostic_parse(bytes.skip(1).skip(n as int), limits) {
                    Err(e) => Err(e),
                    Ok((inner, m)) => Ok(
                        (
                            DiagnosticInfoView {
                                inner_diagnostic_info: Some(Box::new(inner)),
                                ..fields
                            },
                            1 + n + m,
                        ),
                    ),
                }
            } else {
                Ok((fields, 1 + n))
            },
        }
    }
}

/// Each flag of the mask says whether its field is there.
pub proof fn lemma_mask_flags(v: DiagnosticInfoView)
    ensures
        has_flag(v.mask(), 1) == (v.symbolic_id is Some),
        has_flag(v.mask(), 2) == (v.namespace_uri is Some),
        has_flag(v.mask(), 4) == (v.localized_text is Some),
        has_flag(v.mask(), 8) == (v.locale is Some),
        has_flag(v.mask(), 16) == (v.additional_info is Some),
        has_flag(v.mask(), 32) == (v.inner_status_code is Some),
        has_flag(v.mask(), 64) == (v.inner_diagnostic_info is Some),
{
}

/// Behind a part that was read, the rest of a concatenation is left.
proof fn lemma_part_read(part: Seq<u8>, tail: Seq<u8>, rest: Seq<u8>)
    ensures
        (part + tail) + rest == part + (tail + rest),
        (part + (tail + rest)).skip(part.len() as int) == tail + rest,
{
    lemma_concat_assoc(part, tail, rest);
    lemma_concat_split(part, tail + rest);
}

/// The fields followed by `tail` are each field followed by the rest.
proof fn lemma_fields_then(v: DiagnosticInfoView, tail: Seq<u8>)
    ensures
        fields_wire(v) + tail == wire_optional::<i32>(v.symbolic_id) + (wire_optional::<i32>(
            v.namespace_uri,
        ) + (wire_optional::<i32>(v.locale) + (wire_optional::<i32>(v.localized_text) + (
        wire_optional::<UAString>(v.additional_info) + (wire_optional::<StatusCode>(
            v.inner_status_code,
        ) + tail))))),
{
    let w1 = wire_optional::<i32>(v.symbolic_id);
    let w2 = wire_optional::<i32>(v.namespace_uri);
    let w3 = wire_optional::<i32>(v.locale);
    let w4 = wire_optional::<i32>(v.localized_text);
    let w5 = wire_optional::<UAString>(v.additional_info);
    let w6 = wire_optional::<StatusCode>(v.inner_status_code);
    lemma_concat_assoc(w1, w2 + (w3 + (w4 + (w5 + w6))), tail);
    lemma_concat_assoc(w2, w3 + (w4 + (w5 + w6)), tail);
    lemma_concat_assoc(w3, w4 + (w5 + w6), tail);
    lemma_concat_assoc(w4, w5 + w6, tail);
    lemma_concat_assoc(w5, w6, tail);
}

/// The same value without its inner diagnostic info.
pub open spec fn without_inner(v: DiagnosticInfoView) -> DiagnosticInfoView {
    DiagnosticInfoView { inner_diagnostic_info: None, ..v }
}

/// Decoding the encoded fields gives them back.
pub proof fn lemma_fields_parse_wire(v: DiagnosticInfoView, rest: Seq<u8>, limits: DecodingLimits)
    requires
        optional_encodable::<UAString>(v.additional_info),
        optional_within::<UAString>(v.additional_info, limits),
    ensures
        fields_parse(v.mask(), fields_wire(v) + rest, limits) == Ok::<
            (DiagnosticInfoView, nat),
            EncodingError,
        >((without_inner(v), fields_wire(v).len())),
{
    lemma_mask_flags(v);
    DiagnosticFields::lemma_parse_wire(v.mask(), v.fields(), rest, limits);
}

/// Decoding encoded diagnostic information gives it back.
pub proof fn lemma_diagnostic_parse_wire(v: DiagnosticInfoView, rest: Seq<u8>, limits: DecodingLimits)
    requires
        diagnostic_encodable(v),
        diagnostic_within(v, limits),
    ensures
        diagnostic_parse(diagnostic_wire(v) + rest, limits) == Ok::<
            (DiagnosticInfoView, nat),
            EncodingError,
        >((v, diagnostic_wire(v).len())),
    decreases v,
{
    let fields = fields_wire(v);
    let inner_wire = match v.inner_diagnostic_info {
        None => Seq::<u8>::empty(),
        Some(inner) => diagnostic_wire(*inner),
    };
    let bytes = diagnostic_wire(v) + rest;
    lemma_mask_flags(v);
    assert(bytes.skip(1) =~= (fields + inner_wire) + rest);
    assert(bytes[0] == v.mask());
    lemma_part_read(fields, inner_wire, rest);
    lemma_fields_parse_wire(v, inner_wire + rest, limits);
    match v.inner_diagnostic_info {
        None => {
            assert(without_inner(v) == v);
        },
        Some(inner) => {
            lemma_diagnostic_parse_wire(*inner, rest, limits);
        },
    }
}

/// What decoding the fields makes of a prefix of their encoding and what
/// follows it: an error for want of bytes where a field is cut, else the
/// fields, with a prefix of what follows left over.
pub proof fn lemma_fields_cut(v: DiagnosticInfoView, tail: Seq<u8>, k: int, limits: DecodingLimits)
    requires
        optional_encodable::<UAString>(v.additional_info),
        optional_within::<UAString>(v.additional_info, limits),
        0 <= k <= fields_wire(v).len() + tail.len(),
    ensures
        k < fields_wire(v).len() ==> fields_parse(v.mask(), (fields_wire(v) + tail).take(k), limits)
            == Err::<(DiagnosticInfoView, nat), EncodingError>(EncodingError::UnexpectedEof),
        k >= fields_wire(v).len() ==> fields_parse(
            v.mask(),
            (fields_wire(v) + tail).take(k),
            limits,
        ) == Ok::<(DiagnosticInfoView, nat), EncodingError>(
            (without_inner(v), fields_wire(v).len()),
        ) && (fields_wire(v) + tail).take(k).skip(fields_wire(v).len() as int) == tail.take(
            k - fields_wire(v).len(),
        ),
{
    lemma_mask_flags(v);
    DiagnosticFields::lemma_parse_cut(v.mask(), v.fields(), tail, k, limits);
    lemma_concat_take(fields_wire(v), tail, k);
    if k >= fields_wire(v).len() {
        lemma_concat_split(fields_wire(v), tail.take(k - fields_wire(v).len()));
    }
}

/// Decoding a proper prefix of encoded diagnostic information fails for want
/// of bytes.
pub proof fn lemma_diagnostic_parse_truncated(v: DiagnosticInfoView, k: int, limits: DecodingLimits)
    requires
        diagnostic_encodable(v),
        diagnostic_within(v, limits),
        0 <= k < diagnostic_wire(v).len(),
    ensures
        diagnostic_parse(diagnostic_wire(v).take(k), limits) == Err::<
            (DiagnosticInfoView, nat),
            EncodingError,
        >(EncodingError::UnexpectedEof),
    decreases v,
{
    let fields = fields_wire(v);
    let inner_wire = match v.inner_diagnostic_info {
        None => Seq::<u8>::empty(),
        Some(inner) => diagnostic_wire(*inner),
    };
    let bytes = diagnostic_wire(v).take(k);
    lemma_mask_flags(v);
    if k >= 1 {
        assert(bytes.skip(1) =~= (fields + inner_wire).take(k - 1));
        assert(bytes[0] == v.mask());
        lemma_fields_cut(v, inner_wire, k - 1, limits);
        if k - 1 >= fields.len() {
            match v.inner_diagnostic_info {
                None => {},
                Some(inner) => {
                    lemma_diagnostic_parse_truncated(*inner, k - 1 - fields.len(), limits);
                },
            }
        }
    }
}

/// Decoding diagnostic information takes no more bytes than there are.
pub proof fn lemma_diagnostic_parse_bound(bytes: Seq<u8>, limits: DecodingLimits)
    ensures
        diagnostic_parse(bytes, limits) matches Ok((_, n)) ==> n <= bytes.len(),
    decreases bytes.len(),
{
    if bytes.len() >= 1 {
        lemma_fields_parse_bound(bytes[0], bytes.skip(1), limits);
        if let Ok((_, n)) = fields_parse(bytes[0], bytes.skip(1), limits) {
            if has_flag(bytes[0], 64) {
                lemma_diagnostic_parse_bound(bytes.skip(1).skip(n as int), limits);
            }
        }
    }
}

impl DiagnosticInfo {
    /// Diagnostic information in which no field is there.
    pub fn new() -> (r: DiagnosticInfo)
        ensures
            r@ == DiagnosticInfoView::empty(),
    {
        DiagnosticInfo {
            symbolic_id: None,
            namespace_uri: None,
            locale: None,
            localized_text: None,
            additional_info: None,
            inner_status_code: None,
            inner_diagnostic_info: None,
        }
    }

    /// The byte that says which fields are there.
    pub fn encoding_mask(&self) -> (r: u8)
        ensures
            r == self@.mask(),
    {
        let mut mask: u8 = 0;
        if self.symbolic_id.is_some() {
            mask = mask + 1;
        }
        if self.namespace_uri.is_some() {
            mask = mask + 2;
        }
        if self.localized_text.is_some() {
            mask = mask + 4;
        }
        if self.locale.is_some() {
            mask = mask + 8;
        }
        if self.additional_info.is_some() {
            mask = mask + 16;
        }
        if self.inner_status_code.is_some() {
            mask = mask + 32;
        }
        if self.inner_diagnostic_info.is_some() {
            mask = mask + 64;
        }
        mask
    }

    fn byte_len_nested(&self) -> (n: usize)
        requires
            diagnostic_wire(self@).len() <= usize::MAX,
        ensures
            n == diagnostic_wire(self@).len(),
        decreases self,
    {
        let mut size: usize = 1;
        size = size + byte_len_optional(&self.symbolic_id);
        size = size + byte_len_optional(&self.namespace_uri);
        size = size + byte_len_optional(&self.locale);
        size = size + byte_len_optional(&self.localized_text);
        size = size + byte_len_optional(&self.additional_info);
        size = size + byte_len_optional(&self.inner_status_code);
        match &self.inner_diagnostic_info {
            None => {},
            Some(inner) => {
                size = size + inner.byte_len_nested();
            },
        }
        size
    }

    fn encode_nested(&self, stream: &mut Vec<u8>) -> (r: Result<usize, EncodingError>)
        ensures
            diagnostic_encodable(self@) ==> r is Ok && r.unwrap() == diagnostic_wire(self@).len()
                && final(stream)@ == old(stream)@ + diagnostic_wire(self@),
            !diagnostic_encodable(self@) ==> r == Err::<usize, EncodingError>(
                EncodingError::InvalidEncoding,
            ) && old(stream)@.is_prefix_of(final(stream)@),
        decreases self,
    {
        let ghost start = stream@;
        let ghost total = diagnostic_wire(self@);
        let ghost w7 = match self@.inner_diagnostic_info {
            None => Seq::<u8>::empty(),
            Some(inner) => diagnostic_wire(*inner),
        };
        let ghost t6 = wire_optional::<StatusCode>(self@.inner_status_code) + w7;
        let ghost t5 = wire_optional::<UAString>(self@.additional_info) + t6;
        let ghost t4 = wire_optional::<i32>(self@.localized_text) + t5;
        let ghost t3 = wire_optional::<i32>(self@.locale) + t4;
        let ghost t2 = wire_optional::<i32>(self@.namespace_uri) + t3;
        let ghost t1 = wire_optional::<i32>(self@.symbolic_id) + t2;
        stream.push(self.encoding_mask());
        proof {
            lemma_fields_then(self@, w7);
            assert(stream@ =~= start + seq![self@.mask()]);
            lemma_concat_assoc(start, seq![self@.mask()], t1);
            lemma_vec_len_bound(stream);
        }
        let size: usize = 1;
        let size = put_optional(&self.symbolic_id, stream, size, Ghost(start), Ghost(total), Ghost(t2))?;
        let size = put_optional(&self.namespace_uri, stream, size, Ghost(start), Ghost(total), Ghost(t3))?;
        let size = put_optional(&self.locale, stream, size, Ghost(start), Ghost(total), Ghost(t4))?;
        let size = put_optional(&self.localized_text, stream, size, Ghost(start), Ghost(total), Ghost(t5))?;
        let size = put_optional(&self.additional_info, stream, size, Ghost(start), Ghost(total), Ghost(t6))?;
        let size = put_optional(&self.inner_status_code, stream, size, Ghost(start), Ghost(total), Ghost(w7))?;
        match &self.inner_diagnostic_info {
            None => {
                assert(stream@ + w7 =~= stream@);
                Ok(size)
            },
            Some(inner) => {
                let written = inner.encode_nested(stream)?;
                proof {
                    lemma_vec_len_bound(stream);
                }
                Ok(size + written)
            },
        }
    }

    /// Reads the fields other than the inner diagnostic info.
    fn decode_fields(mask: u8, stream: &mut Reader, limits: &DecodingLimits) -> (r: Result<
        DiagnosticInfo,
        EncodingError,
    >)
        ensures
            match fields_parse(mask, old(stream)@, *limits) {
                Ok((v, n)) => r is Ok && r.unwrap()@ == v && final(stream)@ == old(stream)@.skip(
                    n as int,
                ) && n <= old(stream)@.len(),
                Err(e) => r == Err::<DiagnosticInfo, EncodingError>(e),
            },
    {
        let fields = DiagnosticFields::decode(mask, stream, limits)?;
        let (
            symbolic_id,
            (namespace_uri, (locale, (localized_text, (additional_info, inner_status_code)))),
        ) = fields;
        Ok(
            DiagnosticInfo {
                symbolic_id: symbolic_id.value,
                namespace_uri: namespace_uri.value,
                locale: locale.value,
                localized_text: localized_text.value,
                additional_info: additional_info.value,
                inner_status_code: inner_status_code.value,
                inner_diagnostic_info: None,
            },
        )
    }

    fn decode_nested(stream: &mut Reader, limits: &DecodingLimits) -> (r: Result<
        DiagnosticInfo,
        EncodingError,
    >)
        ensures
            match diagnostic_parse(old(stream)@, *limits) {
                Ok((v, n)) => r is Ok && r.unwrap()@ == v && final(stream)@ == old(stream)@.skip(
                    n as int,
                ),
                Err(e) => r == Err::<DiagnosticInfo, EncodingError>(e),
            },
        decreases old(stream)@.len(),
    {
        let mask = u8::decode(stream, limits)?;
        let ghost b0 = stream@;
        let mut info = DiagnosticInfo::decode_fields(mask, stream, limits)?;
        let ghost b1 = stream@;
        proof {
            let n = fields_parse(mask, b0, *limits).unwrap().1 as int;
            lemma_skip_skip(old(stream)@, 1, n);
        }
        if (mask / 64) % 2 == 1 {
            let inner = DiagnosticInfo::decode_nested(stream, limits)?;
            proof {
                let n = fields_parse(mask, b0, *limits).unwrap().1 as int;
                lemma_diagnostic_parse_bound(b1, *limits);
                lemma_skip_skip(old(stream)@, 1 + n, diagnostic_parse(b1, *limits).unwrap().1 as int);
            }
            info.inner_diagnostic_info = Some(Box::new(inner));
        }
        Ok(info)
    }
}

/// Diagnostic information is a mask that says which fields are there, then
/// those fields.
impl BinaryEncoder for DiagnosticInfo {
    open spec fn wire(v: DiagnosticInfoView) -> Seq<u8> {
        diagnostic_wire(v)
    }

    open spec fn parse(bytes: Seq<u8>, limits: DecodingLimits) -> Parsed<DiagnosticInfoView> {
        diagnostic_parse(bytes, limits)
    }

    open spec fn encodable(v: DiagnosticInfoView) -> bool {
        diagnostic_encodable(v)
    }

    open spec fn within(v: DiagnosticInfoView, limits: DecodingLimits) -> bool {
        diagnostic_within(v, limits)
    }

    proof fn lemma_parse_wire(v: DiagnosticInfoView, rest: Seq<u8>, limits: DecodingLimits) {
        lemma_diagnostic_parse_wire(v, rest, limits);
    }

    proof fn lemma_parse_truncated(v: DiagnosticInfoView, k: int, limits: DecodingLimits) {
        lemma_diagnostic_parse_truncated(v, k, limits);
    }

    proof fn lemma_parse_bound(bytes: Seq<u8>, limits: DecodingLimits) {
        lemma_diagnostic_parse_bound(bytes, limits);
    }

    fn byte_len(&self) -> (n: usize) {
        self.byte_len_nested()
    }

    fn encode(&self, stream: &mut Vec<u8>) -> (r: Result<usize, EncodingError>) {
        self.encode_nested(stream)
    }

    fn decode(stream: &mut Reader, limits: &DecodingLimits) -> (r: Result<Self, EncodingError>) {
        DiagnosticInfo::decode_nested(stream, limits)
    }
}

} // verus!
