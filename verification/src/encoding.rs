//! Text encodings that the URIs and the entry names of this crate are made of:
//! base64 from the `base64` crate, and the prefix operations of `str`.

use vstd::prelude::*;
use vstd::string::StringSliceAdditionalSpecFns;
use vstd::utf8::decode_utf8;
use vstd::utf8::encode_utf8;
use vstd::utf8::encode_utf8_decode_utf8;
use vstd::utf8::valid_utf8;

verus! {

#[verifier::external_type_specification]
#[verifier::external_body]
pub struct ExFromUtf8Error(std::string::FromUtf8Error);

#[verifier::external_type_specification]
#[verifier::external_body]
pub struct ExDecodeError(base64::DecodeError);

/// The text that `base64::encode` returns for `bytes`: standard alphabet, with
/// padding.
pub uninterp spec fn base64_standard(bytes: Seq<u8>) -> Seq<char>;

/// The text that `base64::encode_config` returns for `bytes` under
/// `URL_SAFE_NO_PAD`.
pub uninterp spec fn base64_url_no_pad(bytes: Seq<u8>) -> Seq<char>;

/// The bytes that `base64::decode_config` reads out of `text` under
/// `URL_SAFE_NO_PAD`, or `None` where it rejects the text.
pub uninterp spec fn base64_url_no_pad_decoded(text: Seq<char>) -> Option<Seq<u8>>;

/// Whether `text` begins with `prefix`.
pub open spec fn is_prefix_of(prefix: Seq<char>, text: Seq<char>) -> bool {
    prefix.len() <= text.len() && text.subrange(0, prefix.len() as int) == prefix
}

/// `base64::encode`.  The result is the standard encoding of `bytes`; since
/// base64 can be decoded, no other byte string has the same encoding.
#[verifier::external_body]
pub(crate) fn encode_standard(bytes: &[u8]) -> (text: String)
    ensures
        text@ == base64_standard(bytes@),
        forall|other: Seq<u8>| #[trigger] base64_standard(other) == text@ ==> other == bytes@,
{
    base64::encode(bytes)
}

/// `base64::encode_config` with `URL_SAFE_NO_PAD`.  The result is the URL-safe
/// encoding of `bytes` without padding, and `base64::decode_config` under the
/// same configuration reads `bytes` back out of it.
#[verifier::external_body]
pub(crate) fn encode_url_no_pad(bytes: &[u8]) -> (text: String)
    ensures
        text@ == base64_url_no_pad(bytes@),
        base64_url_no_pad_decoded(text@) == Some(bytes@),
{
    base64::encode_config(bytes, base64::URL_SAFE_NO_PAD)
}

/// `base64::decode_config` with `URL_SAFE_NO_PAD`: the decoded bytes, or the
/// crate's error where `text` is no such encoding.
#[verifier::external_body]
pub(crate) fn decode_url_no_pad(text: &str) -> (r: Result<Vec<u8>, base64::DecodeError>)
    ensures
        match r {
            Ok(bytes) => base64_url_no_pad_decoded(text@) == Some(bytes@),
            Err(_) => base64_url_no_pad_decoded(text@) is None,
        },
{
    base64::decode_config(text, base64::URL_SAFE_NO_PAD)
}

/// `str::starts_with` for a string pattern: whether `text` begins with
/// `prefix`.
#[verifier::external_body]
pub(crate) fn starts_with(text: &str, prefix: &str) -> (b: bool)
    ensures
        b == is_prefix_of(prefix@, text@),
{
    text.starts_with(prefix)
}

/// `str::strip_prefix` for a string pattern: what follows `prefix` in `text`,
/// or `None` where `text` does not begin with it.
#[verifier::external_body]
pub(crate) fn strip_prefix<'a>(text: &'a str, prefix: &str) -> (rest: Option<&'a str>)
    ensures
        match rest {
            Some(tail) => is_prefix_of(prefix@, text@) && tail@ == text@.subrange(
                prefix@.len() as int,
                text@.len() as int,
            ),
            None => !is_prefix_of(prefix@, text@),
        },
{
    text.strip_prefix(prefix)
}

/// `String::from_utf8`: the text that `bytes` encode, or the error of std
/// where they are not valid UTF-8.
#[verifier::external_body]
pub(crate) fn string_from_utf8(bytes: Vec<u8>) -> (r: Result<String, std::string::FromUtf8Error>)
    ensures
        match r {
            Ok(text) => valid_utf8(bytes@) && text@ == decode_utf8(bytes@),
            Err(_) => !valid_utf8(bytes@),
        },
{
    String::from_utf8(bytes)
}

/// Two texts with the same UTF-8 encoding are the same text.
pub proof fn lemma_utf8_is_injective(a: Seq<char>, b: Seq<char>)
    requires
        encode_utf8(a) == encode_utf8(b),
    ensures
        a == b,
{
    encode_utf8_decode_utf8(a);
    encode_utf8_decode_utf8(b);
}

/// Whether two texts are the same, character by character.
pub fn same_text(a: &str, b: &str) -> (same: bool)
    ensures
        same == (a@ == b@),
{
    let x = a.as_bytes();
    let y = b.as_bytes();
    if x.len() != y.len() {
        return false;
    }
    let mut i: usize = 0;
    while i < x.len()
        invariant
            i <= x.len(),
            x@.len() == y@.len(),
            x@ == a.spec_bytes(),
            y@ == b.spec_bytes(),
            forall|j: int| 0 <= j < i ==> x@[j] == y@[j],
        decreases x.len() - i,
    {
        if x[i] != y[i] {
            return false;
        }
        i += 1;
    }
    proof {
        assert(x@ =~= y@);
        lemma_utf8_is_injective(a@, b@);
    }
    true
}

/// A text that begins with `prefix` is `prefix` followed by its tail.
pub proof fn lemma_prefix_then_tail(prefix: Seq<char>, tail: Seq<char>)
    ensures
        is_prefix_of(prefix, prefix + tail),
        (prefix + tail).subrange(prefix.len() as int, (prefix + tail).len() as int) == tail,
{
    let text = prefix + tail;
    assert(text.subrange(0, prefix.len() as int) =~= prefix);
    assert(text.subrange(prefix.len() as int, text.len() as int) =~= tail);
}

} // verus!
