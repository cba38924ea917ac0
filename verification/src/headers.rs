use vstd::prelude::*;
use vstd::utf8::{encode_utf8, is_ascii_chars, is_ascii_chars_encode_utf8};

use crate::api::ApiError;

verus! {

/// A byte that may stand in an HTTP header name, as `http` 0.2 accepts them:
/// digits, letters of either case, and ``!"#$%&'*+-.^_`|~`` (RFC 7230's token
/// characters plus `"`).
pub open spec fn is_header_name_byte(b: u8) -> bool {
    ||| 48 <= b <= 57  // '0'..='9'
    ||| 97 <= b <= 122  // 'a'..='z'
    ||| 65 <= b <= 90  // 'A'..='Z'
    ||| 33 <= b <= 39  // '!' '"' '#' '$' '%' '&' '\''
    ||| b == 42 || b == 43 || b == 45 || b == 46  // '*' '+' '-' '.'
    ||| 94 <= b <= 96  // '^' '_' '`'
    ||| b == 124 || b == 126  // '|' '~'
}

/// The bytes of a valid header name: 1 to 65535 token characters.
pub open spec fn header_name_ok(bytes: Seq<u8>) -> bool {
    &&& 1 <= bytes.len() <= 65535
    &&& forall|i: int| 0 <= i < bytes.len() ==> is_header_name_byte(#[trigger] bytes[i])
}

/// A byte that may stand in an HTTP header value: a tab, or any byte from
/// 32 to 255 but 127 (DEL).
pub open spec fn is_header_value_byte(b: u8) -> bool {
    (b >= 32 && b != 127) || b == 9
}

pub open spec fn header_value_ok(bytes: Seq<u8>) -> bool {
    forall|i: int| 0 <= i < bytes.len() ==> is_header_value_byte(#[trigger] bytes[i])
}

/// A header whose name and value, in UTF-8, are both valid.
pub open spec fn header_ok(name: Seq<char>, value: Seq<char>) -> bool {
    header_name_ok(encode_utf8(name)) && header_value_ok(encode_utf8(value))
}

pub open spec fn headers_ok(headers: Seq<(String, String)>) -> bool {
    forall|i: int| 0 <= i < headers.len() ==> header_ok(#[trigger] headers[i].0@, headers[i].1@)
}

/// `reqwest::header::HeaderName::from_bytes` (from `http` 0.2), reduced to
/// whether it accepts the bytes. Its source accepts exactly the non-empty
/// names of at most 65535 bytes that are all token characters.
#[verifier::external_body]
fn accepts_header_name(name: &[u8]) -> (ok: bool)
    ensures
        ok == header_name_ok(name@),
{
    reqwest::header::HeaderName::from_bytes(name).is_ok()
}

/// `reqwest::header::HeaderValue::from_bytes` (from `http` 0.2), reduced to
/// whether it accepts the bytes. Its documentation and source accept exactly
/// the byte strings whose bytes are tabs or lie in 32..=255 but 127.
#[verifier::external_body]
fn accepts_header_value(value: &[u8]) -> (ok: bool)
    ensures
        ok == header_value_ok(value@),
{
    reqwest::header::HeaderValue::from_bytes(value).is_ok()
}

/// Checks the configured request headers the way they are turned into an
/// HTTP header map: every name and every value must be valid.
pub fn check_request_headers(headers: &Vec<(String, String)>) -> (r: Result<(), ApiError>)
    ensures
        r is Ok <==> headers_ok(headers@),
        r matches Err(e) ==> e == ApiError::InvalidHeader,
{
    let mut i: usize = 0;
    while i < headers.len()
        invariant
            0 <= i <= headers@.len(),
            forall|j: int| 0 <= j < i ==> header_ok(#[trigger] headers@[j].0@, headers@[j].1@),
        decreases headers@.len() - i,
    {
        let name_ok = accepts_header_name(headers[i].0.as_str().as_bytes());
        let value_ok = accepts_header_value(headers[i].1.as_str().as_bytes());
        if !name_ok || !value_ok {
            assert(!header_ok(headers@[i as int].0@, headers@[i as int].1@));
            return Err(ApiError::InvalidHeader);
        }
        i = i + 1;
    }
    Ok(())
}

/// ASCII text whose characters are all valid header-name bytes.
pub open spec fn ascii_header_name(name: Seq<char>) -> bool {
    &&& 1 <= name.len() <= 65535
    &&& forall|i: int| 0 <= i < name.len() ==> '\0' <= #[trigger] name[i] <= '\u{7f}' && is_header_name_byte(name[i] as u8)
}

/// Printable ASCII text (space to `~`), or tabs.
pub open spec fn printable_ascii(value: Seq<char>) -> bool {
    forall|i: int| 0 <= i < value.len() ==> (' ' <= #[trigger] value[i] <= '~' || value[i] == '\t')
}

/// A header of ASCII text is valid when its name is made of token characters
/// and its value of printable characters: its UTF-8 bytes are its characters.
pub proof fn lemma_ascii_header_ok(name: Seq<char>, value: Seq<char>)
    requires
        ascii_header_name(name),
        printable_ascii(value),
    ensures
        header_ok(name, value),
{
    assert(is_ascii_chars(name));
    assert(is_ascii_chars(value));
    is_ascii_chars_encode_utf8(name);
    is_ascii_chars_encode_utf8(value);
    let nb = encode_utf8(name);
    let vb = encode_utf8(value);
    assert forall|i: int| 0 <= i < nb.len() implies is_header_name_byte(#[trigger] nb[i]) by {
        assert(name[i] as u8 == nb[i]);
    }
    assert forall|i: int| 0 <= i < vb.len() implies is_header_value_byte(#[trigger] vb[i]) by {
        assert(value[i] as u8 == vb[i]);
        assert(' ' <= value[i] <= '~' || value[i] == '\t');
    }
}

/// The check passes a list exactly when every header's own name is a valid
/// header name and every header's own value a valid header value, in UTF-8.
pub proof fn lemma_headers_ok_means_each_header_valid(headers: Seq<(String, String)>)
    ensures
        headers_ok(headers) <==> forall|i: int|
            0 <= i < headers.len() ==> header_name_ok(encode_utf8(#[trigger] headers[i].0@))
                && header_value_ok(encode_utf8(headers[i].1@)),
{
}

/// One header whose value is not a valid header value fails the whole list,
/// wherever it stands.
pub proof fn lemma_bad_value_fails_check(headers: Seq<(String, String)>, i: int)
    requires
        0 <= i < headers.len(),
        !header_value_ok(encode_utf8(headers[i].1@)),
    ensures
        !headers_ok(headers),
{
    assert(!header_ok(headers[i].0@, headers[i].1@));
}

/// One header whose name is not a valid header name fails the whole list,
/// wherever it stands.
pub proof fn lemma_bad_name_fails_check(headers: Seq<(String, String)>, i: int)
    requires
        0 <= i < headers.len(),
        !header_name_ok(encode_utf8(headers[i].0@)),
    ensures
        !headers_ok(headers),
{
    assert(!header_ok(headers[i].0@, headers[i].1@));
}

/// A value holding a byte that headers do not allow (a control character
/// other than tab, or DEL) is refused.
pub proof fn lemma_control_byte_refused(value: Seq<u8>, k: int)
    requires
        0 <= k < value.len(),
        value[k] < 32 && value[k] != 9 || value[k] == 127,
    ensures
        !header_value_ok(value),
{
}

/// A list passes exactly when both of its parts pass, so the check does not
/// depend on how the headers are split or ordered.
pub proof fn lemma_check_splits(a: Seq<(String, String)>, b: Seq<(String, String)>)
    ensures
        headers_ok(a + b) <==> headers_ok(a) && headers_ok(b),
{
    if headers_ok(a + b) {
        assert forall|i: int| 0 <= i < a.len() implies header_ok(#[trigger] a[i].0@, a[i].1@) by {
            assert((a + b)[i] == a[i]);
        }
        assert forall|i: int| 0 <= i < b.len() implies header_ok(#[trigger] b[i].0@, b[i].1@) by {
            assert((a + b)[a.len() + i] == b[i]);
        }
    }
    if headers_ok(a) && headers_ok(b) {
        assert forall|i: int| 0 <= i < (a + b).len() implies header_ok(#[trigger] (a + b)[i].0@, (a + b)[i].1@) by {
            if i < a.len() {
                assert((a + b)[i] == a[i]);
            } else {
                assert((a + b)[i] == b[i - a.len()]);
            }
        }
    }
}

/// A list passes exactly when each of its headers, checked alone, passes.
pub proof fn lemma_check_is_per_header(headers: Seq<(String, String)>)
    ensures
        headers_ok(headers) <==> forall|i: int| 0 <= i < headers.len() ==> headers_ok(seq![#[trigger] headers[i]]),
{
    assert forall|i: int| 0 <= i < headers.len() implies (headers_ok(seq![#[trigger] headers[i]]) <==> header_ok(
        headers[i].0@,
        headers[i].1@,
    )) by {
        assert(seq![headers[i]][0] == headers[i]);
    }
}

} // verus!
