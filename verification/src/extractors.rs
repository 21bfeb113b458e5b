//! The request extractor for protobuf bodies: which requests it accepts and
//! how each refusal is answered.

use vstd::prelude::*;

verus! {

#[verifier::external_type_specification]
#[verifier::external_body]
pub struct ExDecodeError(prost::DecodeError);

/// A request body decoded from protobuf.
pub struct Protobuf<T>(pub T);

/// Why a request body could not be taken as a protobuf message.
pub enum ProtobufRejection {
    /// The body is not a valid encoding of the message.
    ProtobufDecodeError(prost::DecodeError),
    /// The body could not be read.
    FailedToBufferBody,
    /// The request does not declare a protobuf content type.
    MissingProtobufContentType,
}

/// The media type that a protobuf request declares.
pub open spec fn protobuf_media_type() -> Seq<char> {
    "application/protobuf"@
}

/// Whether `s` begins with `prefix`.
pub open spec fn has_prefix(s: Seq<char>, prefix: Seq<char>) -> bool {
    prefix.len() <= s.len() && s.subrange(0, prefix.len() as int) == prefix
}

/// `prefix` is a prefix of `s` exactly when `s` is at least as long and
/// agrees with `prefix` on each of its characters.
pub proof fn lemma_has_prefix_charwise(s: Seq<char>, prefix: Seq<char>)
    ensures
        has_prefix(s, prefix) <==> (prefix.len() <= s.len() && forall|i: int|
            0 <= i < prefix.len() ==> s[i] == prefix[i]),
{
    if prefix.len() <= s.len() && forall|i: int| 0 <= i < prefix.len() ==> s[i] == prefix[i] {
        assert(s.subrange(0, prefix.len() as int) =~= prefix);
    }
    if has_prefix(s, prefix) {
        assert forall|i: int| 0 <= i < prefix.len() implies s[i] == prefix[i] by {
            assert(s.subrange(0, prefix.len() as int)[i] == s[i]);
        }
    }
}

/// Whether `prefix` is a prefix of `s`, compared character by character.
fn str_starts_with(s: &str, prefix: &str) -> (b: bool)
    ensures
        b == has_prefix(s@, prefix@),
        b <==> (prefix@.len() <= s@.len() && forall|i: int|
            0 <= i < prefix@.len() ==> s@[i] == prefix@[i]),
{
    proof {
        lemma_has_prefix_charwise(s@, prefix@);
    }
    let n = prefix.unicode_len();
    let m = s.unicode_len();
    if n > m {
        return false;
    }
    let mut i: usize = 0;
    while i < n
        invariant
            n == prefix@.len(),
            m == s@.len(),
            n <= m,
            i <= n,
            forall|j: int| 0 <= j < i ==> s@[j] == prefix@[j],
        decreases n - i,
    {
        if s.get_char(i) != prefix.get_char(i) {
            assert(s@.subrange(0, n as int)[i as int] != prefix@[i as int]);
            return false;
        }
        i = i + 1;
    }
    assert(s@.subrange(0, n as int) =~= prefix@);
    true
}

/// Accepts a request whose `content-type` header (when present and
/// readable as text) begins with `application/protobuf`; refuses any other.
pub fn check_content_type(content_type: Option<&str>) -> (res: Result<(), ProtobufRejection>)
    ensures
        match content_type {
            Some(v) => has_prefix(v@, protobuf_media_type()),
            None => false,
        } ==> res is Ok,
        !match content_type {
            Some(v) => has_prefix(v@, protobuf_media_type()),
            None => false,
        } ==> res matches Err(ProtobufRejection::MissingProtobufContentType),
        res is Ok <==> (content_type matches Some(v) && v@.len() >= 20 && v@.subrange(0, 20)
            == "application/protobuf"@),
        res is Ok <==> (content_type matches Some(v) && v@.len() >= 20 && forall|i: int|
            0 <= i < 20 ==> v@[i] == "application/protobuf"@[i]),
{
    proof {
        reveal_strlit("application/protobuf");
        if let Some(v) = content_type {
            lemma_has_prefix_charwise(v@, "application/protobuf"@);
        }
    }
    match content_type {
        Some(value) => {
            if str_starts_with(value, "application/protobuf") {
                Ok(())
            } else {
                Err(ProtobufRejection::MissingProtobufContentType)
            }
        },
        None => Err(ProtobufRejection::MissingProtobufContentType),
    }
}

/// The HTTP status and message with which a refusal is answered.
pub open spec fn rejection_response(r: ProtobufRejection) -> (u16, Seq<char>) {
    match r {
        ProtobufRejection::ProtobufDecodeError(_) => (400, "Protobuf decode error"@),
        ProtobufRejection::FailedToBufferBody => (500, "Error buffering request body"@),
        ProtobufRejection::MissingProtobufContentType => (
            415,
            "Missing 'content-type: application/protobuf' header"@,
        ),
    }
}

impl ProtobufRejection {
    /// The HTTP status code and body text that answer this refusal.
    pub fn status_and_body(&self) -> (res: (u16, &'static str))
        ensures
            (res.0, res.1@) == rejection_response(*self),
    {
        match self {
            ProtobufRejection::ProtobufDecodeError(_) => (400, "Protobuf decode error"),
            ProtobufRejection::FailedToBufferBody => (500, "Error buffering request body"),
            ProtobufRejection::MissingProtobufContentType => (
                415,
                "Missing 'content-type: application/protobuf' header",
            ),
        }
    }
}


/// A body that does not decode is a client error (400), a body that cannot
/// be read is a server error (500), and a request without the protobuf
/// content type is refused as an unsupported media type (415).
pub proof fn lemma_rejection_statuses(r: ProtobufRejection)
    ensures
        r is ProtobufDecodeError ==> rejection_response(r) == (400u16, "Protobuf decode error"@),
        r is FailedToBufferBody ==> rejection_response(r) == (
            500u16,
            "Error buffering request body"@,
        ),
        r is MissingProtobufContentType ==> rejection_response(r) == (
            415u16,
            "Missing 'content-type: application/protobuf' header"@,
        ),
{
}

} // verus!
