//! Decoding of record payloads whose encoding is not declared: plain text,
//! base64-wrapped text, zlib or gzip.
//!
//! The decodings are tried in a fixed order and the first that succeeds
//! wins. Each works on the raw bytes of the record, none on the result of
//! another. Whoever decodes says whether compressed payloads are expected;
//! zlib is tried only where they are.

use base64::Engine;
use crate::text::{bytes_of, text_of};
use std::io::Read;
use vstd::prelude::*;
use vstd::string::*;
use vstd::utf8::*;

verus! {

/// Why a payload could not be turned into text.
#[derive(Debug, PartialEq, Eq, Clone, Copy, Structural)]
pub enum FormatRecordError {
    /// No decoding recognised the payload.
    Default,
    /// The payload holds no bytes.
    EmptyRecord,
}

impl FormatRecordError {
    /// The message shown for this error.
    pub open spec fn message(self) -> Seq<char> {
        match self {
            FormatRecordError::Default => "Default error"@,
            FormatRecordError::EmptyRecord => "Empty record received"@,
        }
    }

    /// The message shown for this error, as text.
    pub fn to_string(&self) -> (text: String)
        ensures
            text@ == self.message(),
    {
        match self {
            FormatRecordError::Default => String::from_str("Default error"),
            FormatRecordError::EmptyRecord => String::from_str("Empty record received"),
        }
    }
}

/// The decoding that turned a payload into text.
#[derive(Debug, PartialEq, Eq, Clone, Copy, Structural)]
pub enum DecodingPath {
    /// The bytes are the text.
    Plain,
    /// The bytes are text that is the base64 encoding of the text.
    Base64,
    /// The bytes are a zlib stream of the text.
    Zlib,
    /// The bytes are a gzip stream of the text.
    Gzip,
}

/// The text of a payload, with the decoding that produced it.
#[derive(Debug, PartialEq, Eq)]
pub struct DecodedPayload {
    pub text: String,
    pub path: DecodingPath,
}

/// The mathematical value of a [`DecodedPayload`].
pub ghost struct Payload {
    pub text: Seq<char>,
    pub path: DecodingPath,
}

impl View for DecodedPayload {
    type V = Payload;

    open spec fn view(&self) -> Payload {
        Payload { text: self.text@, path: self.path }
    }
}

/// The value of an outcome of decoding.
pub open spec fn outcome_view(outcome: Result<DecodedPayload, FormatRecordError>) -> Result<
    Payload,
    FormatRecordError,
> {
    match outcome {
        Ok(payload) => Ok(payload@),
        Err(error) => Err(error),
    }
}

/// What `base64`'s standard engine (standard alphabet, canonical padding
/// required) decodes `input` to, and `None` where it rejects `input`.
pub uninterp spec fn base64_decoding(input: Seq<u8>) -> Option<Seq<u8>>;

/// The text that `flate2` inflates the zlib stream `stream` to, and `None`
/// where the stream is corrupt or incomplete or what it holds is not UTF-8.
pub uninterp spec fn zlib_text(stream: Seq<u8>) -> Option<Seq<char>>;

/// The text that `flate2` inflates the first member of the gzip stream
/// `stream` to, and `None` where the stream is corrupt or incomplete or what
/// it holds is not UTF-8.
pub uninterp spec fn gzip_text(stream: Seq<u8>) -> Option<Seq<char>>;

/// `std::str::Utf8Error`: why bytes are not UTF-8. It is carried, never
/// read.
#[verifier::external_type_specification]
#[verifier::external_body]
pub struct ExUtf8Error(std::str::Utf8Error);

/// `std::str::from_utf8` accepts exactly the byte sequences that are valid
/// UTF-8, and the string slice it returns then holds those bytes.
pub assume_specification<'a>[ std::str::from_utf8 ](bytes: &'a [u8]) -> (text: Result<
    &'a str,
    std::str::Utf8Error,
>)
    ensures
        text is Ok <==> valid_utf8(bytes@),
        text matches Ok(slice) ==> slice.spec_bytes() == bytes@,
;

/// Calls `Engine::decode` on `base64::engine::general_purpose::STANDARD`:
/// the result is what the crate decodes `input` to, and `None` stands for
/// any of its decode errors.
#[verifier::external_body]
fn base64_decode(input: &[u8]) -> (decoded: Option<Vec<u8>>)
    ensures
        bytes_of(decoded) == base64_decoding(input@),
{
    base64::engine::general_purpose::STANDARD.decode(input).ok()
}

/// Reads a `flate2::read::ZlibDecoder` over `stream` to its end as a string:
/// the result is all the text that the crate inflates the stream to, and
/// `None` stands for any error of the read.
#[verifier::external_body]
fn zlib_inflate(stream: &[u8]) -> (text: Option<String>)
    ensures
        text_of(text) == zlib_text(stream@),
{
    let mut buffer = String::new();
    match flate2::read::ZlibDecoder::new(stream).read_to_string(&mut buffer) {
        Ok(_) => Some(buffer),
        Err(_) => None,
    }
}

/// Reads a `flate2::read::GzDecoder` over `stream` to its end as a string:
/// the result is all the text that the crate inflates the stream's first
/// member to, and `None` stands for any error of the read.
#[verifier::external_body]
fn gzip_inflate(stream: &[u8]) -> (text: Option<String>)
    ensures
        text_of(text) == gzip_text(stream@),
{
    let mut buffer = String::new();
    match flate2::read::GzDecoder::new(stream).read_to_string(&mut buffer) {
        Ok(_) => Some(buffer),
        Err(_) => None,
    }
}

/// The byte of the base64 padding character `=`.
pub const PADDING: u8 = 0x3d;

/// Whether bytes look like base64: their last byte is the padding
/// character.
pub open spec fn ends_with_padding(bytes: Seq<u8>) -> bool {
    bytes.len() > 0 && bytes.last() == PADDING
}

/// What the text reading makes of bytes that are valid UTF-8, where
/// `attempt` is what base64 decoding made of them: the decoded text where
/// the bytes look like base64, were decoded and the result is UTF-8, and the
/// bytes' own text otherwise.
pub open spec fn text_payload(bytes: Seq<u8>, attempt: Option<Seq<u8>>) -> Payload {
    if ends_with_padding(bytes) && attempt is Some && valid_utf8(attempt->0) {
        Payload { text: decode_utf8(attempt->0), path: DecodingPath::Base64 }
    } else {
        Payload { text: decode_utf8(bytes), path: DecodingPath::Plain }
    }
}

/// What the two inflations make of bytes: zlib's text where zlib
/// succeeded, else gzip's where gzip succeeded, else the error.
pub open spec fn inflated_payload(zlib: Option<Seq<char>>, gzip: Option<Seq<char>>) -> Result<
    Payload,
    FormatRecordError,
> {
    match zlib {
        Some(text) => Ok(Payload { text, path: DecodingPath::Zlib }),
        None => match gzip {
            Some(text) => Ok(Payload { text, path: DecodingPath::Gzip }),
            None => Err(FormatRecordError::Default),
        },
    }
}

/// What counts of zlib's result: nothing where no compressed payload is
/// expected, for zlib is not tried then.
pub open spec fn zlib_attempt(expect_compressed: bool, zlib: Option<Seq<char>>) -> Option<
    Seq<char>,
> {
    if expect_compressed {
        zlib
    } else {
        None
    }
}

/// The outcome of decoding `bytes`, given what each outside decoder makes
/// of them.
pub open spec fn select_payload(
    bytes: Seq<u8>,
    expect_compressed: bool,
    base64: Option<Seq<u8>>,
    zlib: Option<Seq<char>>,
    gzip: Option<Seq<char>>,
) -> Result<Payload, FormatRecordError> {
    if bytes.len() == 0 {
        Err(FormatRecordError::EmptyRecord)
    } else if valid_utf8(bytes) {
        Ok(text_payload(bytes, base64))
    } else {
        inflated_payload(zlib_attempt(expect_compressed, zlib), gzip)
    }
}

/// What each decoding makes of `bytes`, in the order in which they are
/// tried: the text reading, zlib, gzip.
pub open spec fn attempts(
    bytes: Seq<u8>,
    expect_compressed: bool,
    base64: Option<Seq<u8>>,
    zlib: Option<Seq<char>>,
    gzip: Option<Seq<char>>,
) -> Seq<Option<Payload>> {
    seq![
        if valid_utf8(bytes) {
            Some(text_payload(bytes, base64))
        } else {
            None
        },
        match zlib_attempt(expect_compressed, zlib) {
            Some(text) => Some(Payload { text, path: DecodingPath::Zlib }),
            None => None,
        },
        match gzip {
            Some(text) => Some(Payload { text, path: DecodingPath::Gzip }),
            None => None,
        },
    ]
}

/// The first of `attempts` that gave a payload.
pub open spec fn first_success(attempts: Seq<Option<Payload>>) -> Option<Payload>
    decreases attempts.len(),
{
    if attempts.len() == 0 {
        None
    } else if attempts.first() is Some {
        attempts.first()
    } else {
        first_success(attempts.drop_first())
    }
}

/// The outcome of decoding `bytes`, where `expect_compressed` tells whether
/// compressed payloads are expected.
pub open spec fn decoded_with(bytes: Seq<u8>, expect_compressed: bool) -> Result<
    Payload,
    FormatRecordError,
> {
    select_payload(
        bytes,
        expect_compressed,
        base64_decoding(bytes),
        zlib_text(bytes),
        gzip_text(bytes),
    )
}

/// The outcome of decoding `bytes` where compressed payloads are expected.
pub open spec fn decoded(bytes: Seq<u8>) -> Result<Payload, FormatRecordError> {
    decoded_with(bytes, true)
}

/// Whether `bytes` look like base64.
pub fn has_padding(bytes: &[u8]) -> (padded: bool)
    ensures
        padded == ends_with_padding(bytes@),
{
    let n = bytes.len();
    n > 0 && bytes[n - 1] == PADDING
}

/// Reads a payload that is the text `text`, where `attempt` is what base64
/// decoding made of the text's bytes.
pub fn read_text(text: &str, attempt: Option<Vec<u8>>) -> (payload: DecodedPayload)
    ensures
        payload@ == text_payload(text.spec_bytes(), bytes_of(attempt)),
{
    proof {
        encode_utf8_decode_utf8(text@);
    }
    if has_padding(text.as_bytes()) {
        if let Some(bytes) = attempt {
            if let Ok(inner) = std::str::from_utf8(bytes.as_slice()) {
                proof {
                    encode_utf8_decode_utf8(inner@);
                }
                return DecodedPayload { text: inner.to_owned(), path: DecodingPath::Base64 };
            }
        }
    }
    DecodedPayload { text: text.to_owned(), path: DecodingPath::Plain }
}

/// Picks the first inflation that succeeded, zlib before gzip.
pub fn first_inflated(zlib: Option<String>, gzip: Option<String>) -> (outcome: Result<
    DecodedPayload,
    FormatRecordError,
>)
    ensures
        outcome_view(outcome) == inflated_payload(text_of(zlib), text_of(gzip)),
{
    match zlib {
        Some(text) => Ok(DecodedPayload { text, path: DecodingPath::Zlib }),
        None => match gzip {
            Some(text) => Ok(DecodedPayload { text, path: DecodingPath::Gzip }),
            None => Err(FormatRecordError::Default),
        },
    }
}

/// Decodes the payload of a record, where `expect_compressed` tells
/// whether compressed payloads are expected.
///
/// An empty payload is an error of its own. Bytes that are valid UTF-8 are
/// text: where they end in the padding character and are the base64
/// encoding of UTF-8 text, that text, and otherwise the bytes' own text.
/// Other bytes are inflated as a zlib stream, where compressed payloads are
/// expected, then as a gzip stream, and are unrecognised where nothing
/// succeeds.
pub fn decode_with(bytes: &[u8], expect_compressed: bool) -> (outcome: Result<
    DecodedPayload,
    FormatRecordError,
>)
    ensures
        outcome_view(outcome) == decoded_with(bytes@, expect_compressed),
        outcome == Err::<DecodedPayload, FormatRecordError>(FormatRecordError::EmptyRecord)
            <==> bytes@.len() == 0,
        outcome == Err::<DecodedPayload, FormatRecordError>(FormatRecordError::Default) <==> {
            &&& bytes@.len() > 0
            &&& !valid_utf8(bytes@)
            &&& zlib_attempt(expect_compressed, zlib_text(bytes@)) is None
            &&& gzip_text(bytes@) is None
        },
{
    if bytes.len() == 0 {
        return Err(FormatRecordError::EmptyRecord);
    }
    match std::str::from_utf8(bytes) {
        Ok(text) => {
            let attempt = if has_padding(bytes) {
                base64_decode(bytes)
            } else {
                None
            };
            Ok(read_text(text, attempt))
        },
        Err(_) => {
            let zlib = if expect_compressed {
                zlib_inflate(bytes)
            } else {
                None
            };
            let gzip = if zlib.is_none() {
                gzip_inflate(bytes)
            } else {
                None
            };
            first_inflated(zlib, gzip)
        },
    }
}

/// Decodes the payload of a record, a compressed one too.
pub fn decode(bytes: &[u8]) -> (outcome: Result<DecodedPayload, FormatRecordError>)
    ensures
        outcome_view(outcome) == decoded(bytes@),
        outcome == Err::<DecodedPayload, FormatRecordError>(FormatRecordError::EmptyRecord)
            <==> bytes@.len() == 0,
        outcome == Err::<DecodedPayload, FormatRecordError>(FormatRecordError::Default) <==> {
            &&& bytes@.len() > 0
            &&& !valid_utf8(bytes@)
            &&& zlib_text(bytes@) is None
            &&& gzip_text(bytes@) is None
        },
{
    decode_with(bytes, true)
}

/// The first two bytes of every gzip stream.
pub open spec fn starts_with_gzip_magic(bytes: Seq<u8>) -> bool {
    bytes.len() >= 2 && bytes[0] == 0x1f && bytes[1] == 0x8b
}

/// The last byte of a scalar's encoding is the padding byte for the
/// padding character alone.
proof fn lemma_last_byte_of_scalar(scalar: u32)
    requires
        is_scalar(scalar),
    ensures
        encode_scalar(scalar).len() > 0,
        encode_scalar(scalar).last() == PADDING <==> scalar == 0x3d,
{
    if has_width_1_encoding(scalar) {
        assert((scalar & 0x7F) as u8 == 0x3d <==> scalar == 0x3d) by (bit_vector)
            requires
                0 <= scalar <= 0x7F,
        ;
    } else {
        assert(0x80u8 | (scalar & 0x3F) as u8 != 0x3d) by (bit_vector);
    }
}

/// Text ends in the padding character exactly where its bytes end in the
/// padding byte.
pub proof fn lemma_padding_ends_text(text: Seq<char>)
    requires
        text.len() > 0,
    ensures
        encode_utf8(text).len() > 0,
        ends_with_padding(encode_utf8(text)) <==> text.last() == '=',
    decreases text.len(),
{
    let head = encode_scalar(text[0] as u32);
    let rest = text.drop_first();
    char_is_scalar(text[0]);
    lemma_last_byte_of_scalar(text[0] as u32);
    assert(encode_utf8(text) == head + encode_utf8(rest));
    if rest.len() == 0 {
        assert(encode_utf8(rest) =~= Seq::<u8>::empty());
        assert(encode_utf8(text) =~= head);
        if text[0] as u32 == 0x3d {
            char_u32_cast(text[0], 0x3d);
            char_u32_cast('=', 0x3d);
        }
    } else {
        lemma_padding_ends_text(rest);
        assert(text.last() == rest.last());
    }
}

/// No gzip stream is valid UTF-8: the second of its first two bytes
/// begins no character.
pub proof fn lemma_gzip_stream_is_not_text(bytes: Seq<u8>)
    requires
        starts_with_gzip_magic(bytes),
    ensures
        !valid_utf8(bytes),
{
    if valid_utf8(bytes) {
        let rest = pop_first_scalar(bytes);
        assert(rest[0] == bytes[1]);
        assert(valid_utf8(rest));
        assert(!valid_first_scalar(rest));
    }
}

/// Of the decodings of a payload that holds bytes, the first that
/// succeeds wins, and the payload is unrecognised where none does.
pub proof fn law_first_success_wins(
    bytes: Seq<u8>,
    expect_compressed: bool,
    base64: Option<Seq<u8>>,
    zlib: Option<Seq<char>>,
    gzip: Option<Seq<char>>,
)
    requires
        bytes.len() > 0,
    ensures
        select_payload(bytes, expect_compressed, base64, zlib, gzip) == (match first_success(
            attempts(bytes, expect_compressed, base64, zlib, gzip),
        ) {
            Some(payload) => Ok::<Payload, FormatRecordError>(payload),
            None => Err::<Payload, FormatRecordError>(FormatRecordError::Default),
        }),
{
    let all = attempts(bytes, expect_compressed, base64, zlib, gzip);
    let after_text = all.drop_first();
    let after_zlib = after_text.drop_first();
    assert(after_zlib.drop_first().len() == 0);
    assert(first_success(after_zlib.drop_first()) is None);
    assert(first_success(after_zlib) == after_zlib.first());
    assert(first_success(after_text) == (if after_text.first() is Some {
        after_text.first()
    } else {
        after_zlib.first()
    }));
}

/// Text that holds a character and does not end in the padding character
/// decodes to itself, and so does text that ends in it and is not the
/// base64 encoding of UTF-8 text: whether or not compressed payloads are
/// expected.
pub proof fn law_plain_text_decodes_to_itself(text: Seq<char>, expect_compressed: bool)
    requires
        text.len() > 0,
    ensures
        ({
            ||| text.last() != '='
            ||| base64_decoding(encode_utf8(text)) is None
            ||| !valid_utf8(base64_decoding(encode_utf8(text))->0)
        }) ==> decoded_with(encode_utf8(text), expect_compressed) == Ok::<
            Payload,
            FormatRecordError,
        >(Payload { text, path: DecodingPath::Plain }),
{
    lemma_padding_ends_text(text);
    encode_utf8_valid_utf8(text);
    encode_utf8_decode_utf8(text);
}

/// Text whose bytes end in the padding byte and are a base64 encoding of
/// the UTF-8 bytes of `text` decodes to `text`: whether or not compressed
/// payloads are expected.
pub proof fn law_base64_text_decodes(bytes: Seq<u8>, text: Seq<char>, expect_compressed: bool)
    requires
        valid_utf8(bytes),
        ends_with_padding(bytes),
        base64_decoding(bytes) == Some(encode_utf8(text)),
    ensures
        decoded_with(bytes, expect_compressed) == Ok::<Payload, FormatRecordError>(
            Payload { text, path: DecodingPath::Base64 },
        ),
{
    encode_utf8_valid_utf8(text);
    encode_utf8_decode_utf8(text);
}

/// A zlib stream of `text` decodes to `text` where compressed payloads
/// are expected, unless the stream itself is valid UTF-8.
pub proof fn law_zlib_stream_decodes(bytes: Seq<u8>, text: Seq<char>)
    requires
        !valid_utf8(bytes),
        zlib_text(bytes) == Some(text),
    ensures
        decoded(bytes) == Ok::<Payload, FormatRecordError>(
            Payload { text, path: DecodingPath::Zlib },
        ),
{
}

/// A gzip stream of `text` decodes to `text`, unless zlib is tried and
/// takes the stream too.
pub proof fn law_gzip_stream_decodes(bytes: Seq<u8>, text: Seq<char>, expect_compressed: bool)
    requires
        starts_with_gzip_magic(bytes),
        zlib_attempt(expect_compressed, zlib_text(bytes)) is None,
        gzip_text(bytes) == Some(text),
    ensures
        decoded_with(bytes, expect_compressed) == Ok::<Payload, FormatRecordError>(
            Payload { text, path: DecodingPath::Gzip },
        ),
{
    lemma_gzip_stream_is_not_text(bytes);
}

} // verus!
