//! The bearer key that guards the writing endpoints.
use vstd::prelude::*;
use axum::http::header::ToStrError;
use axum::http::{HeaderMap, HeaderValue};
use crate::rejection::Rejection;

verus! {

/// The header map of a request.
#[verifier::external_type_specification]
#[verifier::external_body]
#[verifier::reject_recursive_types(T)]
pub struct ExHeaderMap<T>(axum::http::HeaderMap<T>);

/// The value of one header.
#[verifier::external_type_specification]
#[verifier::external_body]
pub struct ExHeaderValue(axum::http::HeaderValue);

/// The error of reading a header value as text.
#[verifier::external_type_specification]
#[verifier::external_body]
pub struct ExToStrError(axum::http::header::ToStrError);

/// What a header map holds: for each header name, in lower case, that is
/// present, the bytes of the first value under it.
pub uninterp spec fn header_values(headers: HeaderMap<HeaderValue>) -> Map<Seq<char>, Seq<u8>>;

/// The bytes that a header value holds.
pub uninterp spec fn header_bytes(value: HeaderValue) -> Seq<u8>;

/// The bytes of the first `Authorization` value of a request, if there is one.
pub open spec fn authorization_of(headers: HeaderMap<HeaderValue>) -> Option<Seq<u8>> {
    if header_values(headers).contains_key("authorization"@) {
        Some(header_values(headers)["authorization"@])
    } else {
        None
    }
}

/// A byte that header text may hold: a printable ASCII character or a tab.
pub open spec fn visible_ascii(byte: u8) -> bool {
    32 <= byte < 127 || byte == 9
}

/// The text of a header value, which exists where every byte is visible ASCII.
pub open spec fn header_text(bytes: Seq<u8>) -> Option<Seq<char>> {
    if forall|i: int| 0 <= i < bytes.len() ==> visible_ascii(#[trigger] bytes[i]) {
        Some(bytes.map_values(|byte: u8| byte as char))
    } else {
        None
    }
}

/// `HeaderMap::get` with the name `AUTHORIZATION`: the first value under that
/// name, or `None` where the map has no value under it.
#[verifier::external_body]
fn get_authorization(headers: &HeaderMap<HeaderValue>) -> (value: Option<&HeaderValue>)
    ensures
        match value {
            Some(value) => {
                &&& header_values(*headers).contains_key("authorization"@)
                &&& header_values(*headers)["authorization"@] == header_bytes(*value)
            },
            None => !header_values(*headers).contains_key("authorization"@),
        },
{
    headers.get(axum::http::header::AUTHORIZATION)
}

/// `HeaderValue::to_str`: the bytes as text where all of them are visible
/// ASCII, and an error otherwise.
pub assume_specification[ HeaderValue::to_str ](value: &HeaderValue) -> (text: Result<
    &str,
    ToStrError,
>)
    ensures
        match text {
            Ok(text) => header_text(header_bytes(*value)) == Some(text@),
            Err(_) => header_text(header_bytes(*value)) is None,
        },
;

/// The header text that carries a key.
pub open spec fn bearer(key: Seq<char>) -> Seq<char> {
    "Bearer "@ + key
}

/// The verdict on header text: it is exactly the text that carries the key, or
/// the key is refused.
pub open spec fn text_verdict(text: Option<Seq<char>>, expected: Seq<char>) -> Result<
    (),
    Rejection,
> {
    match text {
        None => Err(Rejection::MissingAuth),
        Some(text) => if text == bearer(expected) {
            Ok(())
        } else {
            Err(Rejection::BadAuth)
        },
    }
}

/// The verdict on the bytes of an `Authorization` value. Bytes that are no
/// text count as the empty text.
pub open spec fn key_verdict(value: Option<Seq<u8>>, expected: Seq<char>) -> Result<
    (),
    Rejection,
> {
    match value {
        None => text_verdict(None, expected),
        Some(bytes) => match header_text(bytes) {
            Some(text) => text_verdict(Some(text), expected),
            None => text_verdict(Some(Seq::empty()), expected),
        },
    }
}

/// Judges the text of an `Authorization` header against the expected key.
pub fn check_key(got: Option<&str>, expected: &str) -> (verdict: Result<(), Rejection>)
    ensures
        verdict == text_verdict(
            match got {
                Some(text) => Some(text@),
                None => None,
            },
            expected@,
        ),
{
    match got {
        None => Err(Rejection::MissingAuth),
        Some(text) => {
            let wanted = "Bearer ".to_owned().concat(expected);
            if text.to_owned() == wanted {
                Ok(())
            } else {
                Err(Rejection::BadAuth)
            }
        },
    }
}

/// Judges the headers of a request against the expected key: refused as
/// missing where there is no `Authorization` header, and as bad where the
/// first one is not exactly `Bearer ` and the key.
pub fn require_key(headers: &HeaderMap<HeaderValue>, expected: &str) -> (verdict: Result<
    (),
    Rejection,
>)
    ensures
        verdict == key_verdict(authorization_of(*headers), expected@),
{
    match get_authorization(headers) {
        None => check_key(None, expected),
        Some(value) => match value.to_str() {
            Ok(text) => check_key(Some(text), expected),
            Err(_) => {
                proof {
                    reveal_strlit("");
                    assert(""@ =~= Seq::<char>::empty());
                }
                check_key(Some(""), expected)
            },
        },
    }
}

/// The bytes of a text whose characters are all visible ASCII.
pub open spec fn visible_bytes(text: Seq<char>) -> Seq<u8> {
    text.map_values(|c: char| c as u8)
}

/// A text that can stand in a header: printable ASCII characters and tabs.
pub open spec fn visible_text(text: Seq<char>) -> bool {
    forall|i: int| 0 <= i < text.len() ==> ' ' <= #[trigger] text[i] <= '~' || text[i] == '\t'
}

/// One header value opens the door for at most one key.
pub proof fn law_header_fits_one_key(value: Option<Seq<u8>>, key: Seq<char>, other: Seq<char>)
    requires
        key_verdict(value, key) is Ok,
        key_verdict(value, other) is Ok,
    ensures
        key == other,
{
    let prefix = "Bearer "@;
    assert(bearer(key) == bearer(other));
    assert(key =~= bearer(key).subrange(prefix.len() as int, bearer(key).len() as int));
    assert(other =~= bearer(other).subrange(prefix.len() as int, bearer(other).len() as int));
}

/// For a key of visible ASCII characters there is exactly one header value
/// that is accepted: `Bearer `, followed by the key.
pub proof fn law_visible_key_has_one_header(key: Seq<char>, value: Seq<u8>)
    requires
        visible_text(key),
    ensures
        key_verdict(Some(value), key) is Ok <==> value == visible_bytes(bearer(key)),
{
    reveal_strlit("Bearer ");
    let wanted = visible_bytes(bearer(key));
    assert(visible_text(bearer(key)));
    assert forall|i: int| 0 <= i < wanted.len() implies visible_ascii(#[trigger] wanted[i])
        && wanted[i] as char == bearer(key)[i] by {
        let c = bearer(key)[i];
        assert(' ' <= c <= '~' || c == '\t');
        assert(wanted[i] == c as u8);
    }
    assert(wanted.map_values(|byte: u8| byte as char) =~= bearer(key));
    if key_verdict(Some(value), key) is Ok {
        if header_text(value) is Some {
            assert(value.len() == bearer(key).len());
            assert forall|i: int| 0 <= i < value.len() implies value[i] == wanted[i] by {
                assert(value.map_values(|byte: u8| byte as char)[i] == bearer(key)[i]);
            }
            assert(value =~= wanted);
        } else {
            assert(bearer(key).len() > 0);
        }
    }
}

/// A key with a character that no header text can hold is never accepted.
pub proof fn law_hidden_key_is_never_accepted(key: Seq<char>, value: Option<Seq<u8>>)
    requires
        !visible_text(key),
    ensures
        key_verdict(value, key) is Err,
{
    reveal_strlit("Bearer ");
    if key_verdict(value, key) is Ok {
        let bytes = value.unwrap();
        let i = choose|i: int|
            0 <= i < key.len() && !(' ' <= #[trigger] key[i] <= '~' || key[i] == '\t');
        assert(bearer(key)[i + 7] == key[i]);
        if header_text(bytes) is Some {
            let text = bytes.map_values(|byte: u8| byte as char);
            assert(text == bearer(key));
            assert(text[i + 7] == key[i] && bytes[i + 7] as char == key[i]);
            assert(visible_ascii(bytes[i + 7]));
        } else {
            assert(bearer(key).len() > 0);
        }
    }
}

/// A text carries the key exactly where it holds seven characters more than the
/// key, `B`, `e`, `a`, `r`, `e`, `r` and a space, and then the key character by
/// character. Any other text is bad, and no text is missing.
pub proof fn law_accepted_text_ends_with_the_key(text: Seq<char>, key: Seq<char>)
    ensures
        text_verdict(None, key) == Err::<(), Rejection>(Rejection::MissingAuth),
        text_verdict(Some(text), key) == if text.len() == key.len() + 7 && text[0] == 'B' && text[1]
            == 'e' && text[2] == 'a' && text[3] == 'r' && text[4] == 'e' && text[5] == 'r'
            && text[6] == ' ' && text.skip(7) == key {
            Ok::<(), Rejection>(())
        } else {
            Err::<(), Rejection>(Rejection::BadAuth)
        },
{
    reveal_strlit("Bearer ");
    let start = "Bearer "@;
    if text == start + key {
        assert(text.skip(7) =~= key);
    }
    if text.len() == key.len() + 7 && text[0] == 'B' && text[1] == 'e' && text[2] == 'a' && text[3]
        == 'r' && text[4] == 'e' && text[5] == 'r' && text[6] == ' ' && text.skip(7) == key {
        assert forall|i: int| 0 <= i < text.len() implies text[i] == (start + key)[i] by {
            if i >= 7 {
                assert(text[i] == text.skip(7)[i - 7]);
            }
        }
        assert(text =~= start + key);
    }
}

/// What is judged as text is let in exactly with the key behind `Bearer `, as
/// long as the key may be.
pub proof fn law_check_key_lets_in_the_key_alone(
    got: Option<&str>,
    expected: &str,
    verdict: Result<(), Rejection>,
)
    requires
        call_ensures(check_key, (got, expected), verdict),
    ensures
        match got {
            None => verdict == Err::<(), Rejection>(Rejection::MissingAuth),
            Some(text) => verdict == if text@.len() == expected@.len() + 7 && text@[0] == 'B'
                && text@[1] == 'e' && text@[2] == 'a' && text@[3] == 'r' && text@[4] == 'e'
                && text@[5] == 'r' && text@[6] == ' ' && text@.skip(7) == expected@ {
                Ok::<(), Rejection>(())
            } else {
                Err::<(), Rejection>(Rejection::BadAuth)
            },
        },
{
    if let Some(text) = got {
        law_accepted_text_ends_with_the_key(text@, expected@);
    }
}

/// A request is let in exactly where its first `Authorization` value holds the
/// bytes of `Bearer ` and then, byte for byte, the characters of the key, each a
/// printable ASCII character or a tab. Without such a header it is refused as
/// missing, and otherwise as bad.
pub proof fn law_require_key_lets_in_the_key_alone(
    headers: &HeaderMap<HeaderValue>,
    expected: &str,
    verdict: Result<(), Rejection>,
)
    requires
        call_ensures(require_key, (headers, expected), verdict),
    ensures
        ({
            let values = header_values(*headers);
            let bytes = values["authorization"@];
            let key = expected@;
            verdict == if !values.contains_key("authorization"@) {
                Err::<(), Rejection>(Rejection::MissingAuth)
            } else if bytes.len() == key.len() + 7 && bytes[0] == 0x42 && bytes[1] == 0x65
                && bytes[2] == 0x61 && bytes[3] == 0x72 && bytes[4] == 0x65 && bytes[5] == 0x72
                && bytes[6] == 0x20 && forall|i: int|
                0 <= i < key.len() ==> (32 <= #[trigger] key[i] as int <= 126 || key[i] as int == 9)
                    && bytes[i + 7] as int == key[i] as int {
                Ok::<(), Rejection>(())
            } else {
                Err::<(), Rejection>(Rejection::BadAuth)
            }
        }),
{
    let values = header_values(*headers);
    if values.contains_key("authorization"@) {
        let bytes = values["authorization"@];
        let key = expected@;
        let text = bytes.map_values(|byte: u8| byte as char);
        law_accepted_text_ends_with_the_key(text, key);
        law_accepted_text_ends_with_the_key(Seq::empty(), key);
        if verdict is Ok {
            assert(header_text(bytes) == Some(text));
            assert(text[0] == bytes[0] as char && text[6] == bytes[6] as char);
            assert forall|i: int| 0 <= i < key.len() implies (32 <= #[trigger] key[i] as int <= 126
                || key[i] as int == 9) && bytes[i + 7] as int == key[i] as int by {
                assert(key[i] == text.skip(7)[i]);
                assert(visible_ascii(bytes[i + 7]));
            }
        }
        if bytes.len() == key.len() + 7 && bytes[0] == 0x42 && bytes[1] == 0x65 && bytes[2] == 0x61
            && bytes[3] == 0x72 && bytes[4] == 0x65 && bytes[5] == 0x72 && bytes[6] == 0x20
            && forall|i: int|
            0 <= i < key.len() ==> (32 <= #[trigger] key[i] as int <= 126 || key[i] as int == 9)
                && bytes[i + 7] as int == key[i] as int {
            assert forall|i: int| 0 <= i < bytes.len() implies visible_ascii(
                #[trigger] bytes[i],
            ) by {
                if i >= 7 {
                    assert(bytes[(i - 7) + 7] as int == key[i - 7] as int);
                }
            }
            assert forall|i: int| 0 <= i < key.len() implies text.skip(7)[i] == key[i] by {
                assert(bytes[i + 7] as int == key[i] as int);
            }
            assert(text.skip(7) =~= key);
        }
    }
}

} // verus!
