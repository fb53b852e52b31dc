//! The header set that every request to the registry carries.

use crate::error::AppError;
use reqwest::header::{HeaderMap, HeaderValue, InvalidHeaderValue};
use vstd::prelude::*;
use vstd::string::StringExecFns;
use vstd::utf8::{encode_scalar, encode_utf8};

verus! {

/// `reqwest::header::HeaderMap`, the multimap from header names to header values of the
/// `http` crate. Opaque here: `header_map_fields` names what it holds.
#[verifier::external_type_specification]
#[verifier::external_body]
#[verifier::reject_recursive_types(T)]
pub struct ExHeaderMap<T>(reqwest::header::HeaderMap<T>);

/// `reqwest::header::HeaderValue`, the byte string of one header field. Opaque here:
/// `header_value_bytes` names what it holds.
#[verifier::external_type_specification]
#[verifier::external_body]
pub struct ExHeaderValue(reqwest::header::HeaderValue);

/// Header fields as a mathematical value: under each name the bytes of its values, first
/// value first.
pub type HeaderFields = Map<Seq<char>, Seq<Seq<u8>>>;

/// The bytes that a header value holds.
pub uninterp spec fn header_value_bytes(value: HeaderValue) -> Seq<u8>;

/// What a header map holds: under each name, as the map stores it (in lower case), the
/// bytes of the values of that name, first value first.
pub uninterp spec fn header_map_fields(map: HeaderMap) -> Map<Seq<char>, Seq<Seq<u8>>>;

/// The name of the header that identifies the client.
pub const USER_AGENT_NAME: &'static str = "User-Agent";

/// The client's name.
pub const USER_AGENT: &'static str = "github_package_gc";

/// The name of the header that asks for a media type.
pub const ACCEPT_NAME: &'static str = "Accept";

/// The registry's JSON media type.
pub const ACCEPT: &'static str = "application/vnd.github+json";

/// The name of the header that carries the credential.
pub const AUTHORIZATION_NAME: &'static str = "Authorization";

/// What precedes the token in the credential.
pub const BEARER: &'static str = "Bearer ";

/// The name of the header that pins the version of the registry's interface.
pub const API_VERSION_NAME: &'static str = "X-GitHub-Api-Version";

/// The version of the registry's interface that the requests are written for.
pub const API_VERSION: &'static str = "2022-11-28";

/// What a run needs to know before its first request.
pub struct Config {
    /// The bearer token that authenticates every request.
    pub token: String,
}

/// Whether a header value may hold the byte: a tab, or anything from the space up but
/// the delete character.
pub open spec fn is_value_byte(byte: u8) -> bool {
    byte >= 32 && byte != 127 || byte == 9
}

/// Whether a header value may hold every byte of the sequence.
pub open spec fn is_value_bytes(bytes: Seq<u8>) -> bool {
    forall|i: int| 0 <= i < bytes.len() ==> is_value_byte(#[trigger] bytes[i])
}

/// Whether a header value may hold the character: as `is_value_byte`, and every
/// character beyond ASCII.
pub open spec fn is_value_char(c: char) -> bool {
    c == '\t' || (c >= ' ' && c != '\u{7f}')
}

/// Whether a header value may hold the text.
pub open spec fn is_value_text(text: Seq<char>) -> bool {
    forall|i: int| 0 <= i < text.len() ==> is_value_char(#[trigger] text[i])
}

/// Whether a header name may hold the character: a letter, a digit, or one of the
/// punctuation marks of an HTTP token.
pub open spec fn is_name_char(c: char) -> bool {
    ||| 'a' <= c <= 'z'
    ||| 'A' <= c <= 'Z'
    ||| '0' <= c <= '9'
    ||| c == '!'
    ||| c == '#'
    ||| c == '$'
    ||| c == '%'
    ||| c == '&'
    ||| c == '\''
    ||| c == '*'
    ||| c == '+'
    ||| c == '-'
    ||| c == '.'
    ||| c == '^'
    ||| c == '_'
    ||| c == '`'
    ||| c == '|'
    ||| c == '~'
}

/// Whether the text is a header name that fits the map's scratch buffer.
pub open spec fn is_header_name(name: Seq<char>) -> bool {
    &&& 1 <= name.len() <= 64
    &&& forall|i: int| 0 <= i < name.len() ==> is_name_char(#[trigger] name[i])
}

/// The character with an ASCII capital replaced by its small letter.
pub open spec fn lowercase_char(c: char) -> char {
    if 'A' <= c <= 'Z' {
        ((c as u8 + 32) as u8) as char
    } else {
        c
    }
}

/// The text with each ASCII capital replaced by its small letter.
pub open spec fn ascii_lowercase(text: Seq<char>) -> Seq<char> {
    text.map_values(|c: char| lowercase_char(c))
}

/// The credential that authenticates with the token.
pub open spec fn credential(token: Seq<char>) -> Seq<char> {
    BEARER@ + token
}

/// The header set of a request that authenticates with the token.
pub open spec fn request_headers(token: Seq<char>) -> HeaderFields {
    HeaderFields::empty().insert("user-agent"@, seq![encode_utf8(USER_AGENT@)]).insert(
        "accept"@,
        seq![encode_utf8(ACCEPT@)],
    ).insert("authorization"@, seq![encode_utf8(credential(token))]).insert(
        "x-github-api-version"@,
        seq![encode_utf8(API_VERSION@)],
    )
}

/// `HeaderMap::new`: the new map holds nothing.
pub assume_specification[ reqwest::header::HeaderMap::new ]() -> (headers: HeaderMap)
    ensures
        header_map_fields(headers) == HeaderFields::empty(),
;

/// `HeaderValue::from_str`: the text is accepted exactly when each of its bytes is a tab
/// or at least 32 and not 127, and the value then holds the bytes of the text.
pub assume_specification[ reqwest::header::HeaderValue::from_str ](src: &str) -> (parsed: Result<HeaderValue, InvalidHeaderValue>)
    ensures
        parsed is Ok <==> is_value_bytes(encode_utf8(src@)),
        parsed matches Ok(value) ==> header_value_bytes(value) == encode_utf8(src@),
;

/// `HeaderMap::insert` with a static string as the name: the value becomes the only one
/// under the name, which the map stores in lower case, and the other names keep theirs.
/// The call panics on a name that is no header name, and when the map cannot grow: the
/// contract leaves out both, the second by a bound far below the map's limit.
#[verifier::external_body]
fn insert_header(map: &mut HeaderMap, name: &'static str, value: HeaderValue)
    requires
        is_header_name(name@),
        header_map_fields(*old(map)).dom().finite(),
        header_map_fields(*old(map)).dom().len() < 1024,
    ensures
        header_map_fields(*final(map)) == header_map_fields(*old(map)).insert(
            ascii_lowercase(name@),
            seq![header_value_bytes(value)],
        ),
{
    map.insert(name, value);
}

/// The bytes of a character's encoding are acceptable in a header value exactly when
/// the character is.
proof fn lemma_value_scalar(c: char)
    ensures
        is_value_bytes(encode_scalar(c as u32)) <==> is_value_char(c),
{
    let s = c as u32;
    let bytes = encode_scalar(s);
    assert(forall|x: u8| #![auto] (0x80u8 | x) >= 0x80 && (0x80u8 | x) != 127) by (bit_vector);
    assert(forall|x: u8| #![auto] (0xC0u8 | x) >= 0x80 && (0xC0u8 | x) != 127) by (bit_vector);
    assert(forall|x: u8| #![auto] (0xE0u8 | x) >= 0x80 && (0xE0u8 | x) != 127) by (bit_vector);
    assert(forall|x: u8| #![auto] (0xF0u8 | x) >= 0x80 && (0xF0u8 | x) != 127) by (bit_vector);
    if s <= 0x7F {
        assert((s & 0x7F) as u8 == s) by (bit_vector)
            requires
                s <= 0x7F,
        ;
        assert(bytes[0] == s);
    }
}

/// The encoding of a text is acceptable in a header value exactly when each character
/// of the text is.
pub proof fn lemma_value_text(text: Seq<char>)
    ensures
        is_value_bytes(encode_utf8(text)) <==> is_value_text(text),
    decreases text.len(),
{
    if text.len() > 0 {
        let head = encode_scalar(text[0] as u32);
        let rest = encode_utf8(text.drop_first());
        lemma_value_scalar(text[0]);
        lemma_value_text(text.drop_first());
        if is_value_bytes(encode_utf8(text)) {
            assert forall|i: int| 0 <= i < head.len() implies is_value_byte(#[trigger] head[i]) by {
                assert(head[i] == (head + rest)[i]);
            }
            assert forall|i: int| 0 <= i < rest.len() implies is_value_byte(#[trigger] rest[i]) by {
                assert(rest[i] == (head + rest)[i + head.len()]);
            }
            assert forall|i: int| 0 <= i < text.len() implies is_value_char(#[trigger] text[i]) by {
                if i > 0 {
                    assert(text[i] == text.drop_first()[i - 1]);
                }
            }
        }
    }
}

/// The names and the fixed values of the request headers are what the map and the
/// value parser accept, and the map stores each name as the header set spells it.
proof fn lemma_fixed_headers()
    ensures
        is_header_name(USER_AGENT_NAME@),
        is_header_name(ACCEPT_NAME@),
        is_header_name(AUTHORIZATION_NAME@),
        is_header_name(API_VERSION_NAME@),
        ascii_lowercase(USER_AGENT_NAME@) == "user-agent"@,
        ascii_lowercase(ACCEPT_NAME@) == "accept"@,
        ascii_lowercase(AUTHORIZATION_NAME@) == "authorization"@,
        ascii_lowercase(API_VERSION_NAME@) == "x-github-api-version"@,
        is_value_text(USER_AGENT@),
        is_value_text(ACCEPT@),
        is_value_text(API_VERSION@),
        is_value_text(BEARER@),
{
    reveal_strlit("User-Agent");
    reveal_strlit("Accept");
    reveal_strlit("Authorization");
    reveal_strlit("X-GitHub-Api-Version");
    reveal_strlit("user-agent");
    reveal_strlit("accept");
    reveal_strlit("authorization");
    reveal_strlit("x-github-api-version");
    reveal_strlit("github_package_gc");
    reveal_strlit("application/vnd.github+json");
    reveal_strlit("2022-11-28");
    reveal_strlit("Bearer ");
}

/// A credential is acceptable as a header value exactly when its token is.
pub proof fn lemma_credential(token: Seq<char>)
    ensures
        is_value_text(credential(token)) <==> is_value_text(token),
{
    lemma_fixed_headers();
    let text = credential(token);
    if is_value_text(text) {
        assert forall|i: int| 0 <= i < token.len() implies is_value_char(#[trigger] token[i]) by {
            assert(token[i] == text[BEARER@.len() + i]);
        }
    }
}

/// The header set of every request: the client's name, the registry's media type, the
/// credential and the interface version. The set is built exactly when the token holds
/// only characters that a header value may hold; else the value parser's refusal is
/// returned.
pub fn get_headers(config: &Config) -> (headers: Result<HeaderMap, AppError>)
    ensures
        headers is Ok <==> is_value_text(config.token@),
        headers matches Ok(fields) ==> header_map_fields(fields) == request_headers(config.token@),
        headers matches Err(failure) ==> failure is InvalidHeaderValue,
{
    proof {
        lemma_fixed_headers();
        lemma_value_text(USER_AGENT@);
        lemma_value_text(ACCEPT@);
        lemma_value_text(API_VERSION@);
        lemma_value_text(credential(config.token@));
        lemma_credential(config.token@);
    }
    let mut headers = HeaderMap::new();
    let user_agent = match HeaderValue::from_str(USER_AGENT) {
        Ok(value) => value,
        Err(error) => { return Err(AppError::from(error)); },
    };
    insert_header(&mut headers, USER_AGENT_NAME, user_agent);
    let accept = match HeaderValue::from_str(ACCEPT) {
        Ok(value) => value,
        Err(error) => { return Err(AppError::from(error)); },
    };
    insert_header(&mut headers, ACCEPT_NAME, accept);
    let mut bearer = String::from_str(BEARER);
    bearer.append(config.token.as_str());
    let authorization = match HeaderValue::from_str(bearer.as_str()) {
        Ok(value) => value,
        Err(error) => { return Err(AppError::from(error)); },
    };
    insert_header(&mut headers, AUTHORIZATION_NAME, authorization);
    let api_version = match HeaderValue::from_str(API_VERSION) {
        Ok(value) => value,
        Err(error) => { return Err(AppError::from(error)); },
    };
    insert_header(&mut headers, API_VERSION_NAME, api_version);
    Ok(headers)
}

} // verus!
