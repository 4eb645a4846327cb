use vstd::prelude::*;
use vstd::string::{StringExecFns, StrSliceExecFns};
use vstd::utf8::{encode_utf8, is_ascii_chars, is_ascii_chars_encode_utf8};
use crate::error::{AppError, ErrorKind, prefix_of};
use crate::file::is_hex_char;
use crate::jwt::{DecodingKey, accepted_claims, ed25519_signature_ok};
use crate::text::{decimal, signed_decimal, push_decimal, i64_to_string};

verus! {

/// The query parameters a request may carry its token in.
#[derive(Debug, Clone)]
pub struct Params {
    pub access_token: Option<String>,
}

/// A refused request: the HTTP status and the text of the answer.
#[derive(Debug)]
pub struct Rejection {
    pub status: u16,
    pub message: String,
}

/// The token of a request: the one in its `Authorization: Bearer` header,
/// else the one in its `access_token` query parameter.
pub open spec fn request_token(header: Option<String>, params: Params) -> Option<Seq<char>> {
    match header {
        Some(t) => Some(t@),
        None => match params.access_token {
            Some(t) => Some(t@),
            None => None,
        },
    }
}

/// Picks the token of a request; a request without one is refused with 400.
pub fn token_of_request(header: Option<String>, params: Params) -> (r: Result<String, Rejection>)
    ensures
        request_token(header, params) matches Some(t) ==> (r matches Ok(s) && s@ == t),
        request_token(header, params) is None ==> (r matches Err(rej)
            && rej.status == 400 && rej.message@ == "Missing token"@),
{
    match header {
        Some(t) => Ok(t),
        None => match params.access_token {
            Some(t) => Ok(t),
            None => Err(Rejection { status: 400, message: String::from_str("Missing token") }),
        },
    }
}

/// Answers the outcome of checking a token: the claims about the user go on
/// with the request; a token that does not check is refused with 403.
pub fn token_outcome(checked: Result<String, AppError>) -> (r: Result<String, Rejection>)
    ensures
        checked is Ok <==> r is Ok,
        checked matches Ok(c) ==> r == Ok::<String, Rejection>(c),
        checked matches Err(e) ==> (r matches Err(rej) && rej.status == 403
            && rej.message@ == "Invalid token: "@ + prefix_of(e@.0) + e@.1),
{
    match checked {
        Ok(claims) => Ok(claims),
        Err(e) => {
            let mut m = String::from_str("Invalid token: ");
            let text = e.message();
            m.append(text.as_str());
            Err(Rejection { status: 403, message: m })
        },
    }
}

/// Authenticates a request: picks its token and checks it with `dk`. The
/// claims of an accepted token go on with the request; a token that does
/// not check is refused with 403 and the token error.
pub fn verify_token(dk: &DecodingKey, header: Option<String>, params: Params) -> (r: Result<String, Rejection>)
    ensures
        request_token(header, params) is None ==> (r matches Err(rej)
            && rej.status == 400 && rej.message@ == "Missing token"@),
        request_token(header, params) is Some ==> (r is Ok || (r matches Err(rej) && rej.status == 403
            && ("Invalid token: "@ + prefix_of(ErrorKind::Jwt)).is_prefix_of(rej.message@))),
        r matches Ok(c) ==> (request_token(header, params) matches Some(t) && accepted_claims(t, c@)
            && ed25519_signature_ok(dk.public_key(), t)),
{
    let token = token_of_request(header, params)?;
    let checked = dk.verify(token.as_str());
    let ghost seen = checked;
    let r = token_outcome(checked);
    proof {
        if let Err(e) = seen {
            let head = "Invalid token: "@ + prefix_of(ErrorKind::Jwt);
            let m = r->Err_0.message@;
            assert(m == head + e@.1);
            assert(m.subrange(0, head.len() as int) =~= head);
        }
    }
    r
}

/// Which chat and user a request to a chat concerns; without a readable chat
/// id it is refused with 400, without an authenticated user with 401.
pub fn chat_access(chat_id: Option<u64>, user_id: Option<i64>) -> (r: Result<(u64, i64), Rejection>)
    ensures
        chat_id is None ==> (r matches Err(rej) && rej.status == 400 && rej.message@ == "Invalid chat ID"@),
        chat_id is Some && user_id is None ==> (r matches Err(rej) && rej.status == 401
            && rej.message@ == "User not authenticated"@),
        chat_id is Some && user_id is Some ==> r == Ok::<(u64, i64), Rejection>((chat_id->0, user_id->0)),
{
    match chat_id {
        None => Err(Rejection { status: 400, message: String::from_str("Invalid chat ID") }),
        Some(c) => match user_id {
            None => Err(Rejection { status: 401, message: String::from_str("User not authenticated") }),
            Some(u) => Ok((c, u)),
        },
    }
}

/// Lets a request to a chat through only for a member of the chat; a failed
/// membership lookup counts as not a member.
pub fn membership_outcome(is_member: Result<bool, AppError>, user_id: i64, chat_id: u64) -> (r: Result<(), AppError>)
    ensures
        is_member == Ok::<bool, AppError>(true) <==> r is Ok,
        r matches Err(e) ==> e@ == (ErrorKind::CreateMessageError,
            "User "@ + signed_decimal(user_id as int) + " is not a member of the chat "@ + decimal(chat_id as nat)),
{
    let member = match is_member {
        Ok(b) => b,
        Err(_) => false,
    };
    if member {
        Ok(())
    } else {
        let mut m = String::from_str("User ");
        let u = i64_to_string(user_id);
        m.append(u.as_str());
        m.append(" is not a member of the chat ");
        push_decimal(&mut m, chat_id);
        Err(AppError::CreateMessageError(m))
    }
}

/// Whether the position of a UUID's text holds a hyphen.
pub open spec fn uuid_hyphen_at(i: int) -> bool {
    i == 8 || i == 13 || i == 18 || i == 23
}

/// The text of a version-7 UUID in hyphenated lower-case form: 36
/// characters, hyphens at positions 8, 13, 18 and 23, hexadecimal digits
/// elsewhere, the version digit `7` at 14 and the variant (`8` to `b`) at 19.
pub open spec fn uuid_v7_text(s: Seq<char>) -> bool {
    &&& s.len() == 36
    &&& forall|i: int| 0 <= i < 36 ==> (uuid_hyphen_at(i) ==> #[trigger] s[i] == '-')
    &&& forall|i: int| 0 <= i < 36 ==> (!uuid_hyphen_at(i) ==> is_hex_char(#[trigger] s[i]))
    &&& s[14] == '7'
    &&& (s[19] == '8' || s[19] == '9' || s[19] == 'a' || s[19] == 'b')
}

/// The same form, as the bytes of a header value.
pub open spec fn uuid_v7_bytes(b: Seq<u8>) -> bool {
    &&& b.len() == 36
    &&& forall|i: int| 0 <= i < 36 ==> (uuid_hyphen_at(i) ==> #[trigger] b[i] == 45u8)
    &&& forall|i: int| 0 <= i < 36 ==> (!uuid_hyphen_at(i) ==>
            ((48u8 <= #[trigger] b[i] && b[i] <= 57u8) || (97u8 <= b[i] && b[i] <= 102u8)))
    &&& b[14] == 55u8
    &&& (b[19] == 56u8 || b[19] == 57u8 || b[19] == 97u8 || b[19] == 98u8)
}

/// Calls `uuid::Uuid::now_v7` and writes it with `to_string`, which gives the
/// hyphenated lower-case form with the version and variant set. The UUID
/// holds the time and random bits, so only its form is stated.
#[verifier::external_body]
fn new_uuid_v7() -> (s: String)
    ensures
        uuid_v7_text(s@),
{
    uuid::Uuid::now_v7().to_string()
}

/// Whether bytes may stand in an HTTP header value, as `HeaderValue::from_str`
/// checks: each is a tab or a visible character, never DEL.
pub open spec fn header_value_ok(bytes: Seq<u8>) -> bool {
    forall|i: int| 0 <= i < bytes.len() ==> (#[trigger] bytes[i] >= 32 && bytes[i] != 127) || bytes[i] == 9
}

/// Checks bytes as `HeaderValue::from_str` does.
pub fn is_header_value(bytes: &Vec<u8>) -> (b: bool)
    ensures
        b == header_value_ok(bytes@),
{
    let mut i: usize = 0;
    while i < bytes.len()
        invariant
            i <= bytes.len(),
            forall|j: int| 0 <= j < i ==> (#[trigger] bytes@[j] >= 32 && bytes@[j] != 127) || bytes@[j] == 9,
        decreases bytes.len() - i,
    {
        let b = bytes[i];
        if !((b >= 32 && b != 127) || b == 9) {
            return false;
        }
        i = i + 1;
    }
    true
}

/// The request id a request is answered with: the one it came with, else a
/// fresh UUID (version 7).
pub fn set_request_id(existing: Option<Vec<u8>>) -> (r: Option<Vec<u8>>)
    ensures
        existing matches Some(e) ==> r == Some(e),
        existing is None ==> (r matches Some(id) && uuid_v7_bytes(id@) && header_value_ok(id@)),
{
    match existing {
        Some(e) => Some(e),
        None => {
            let id = new_uuid_v7();
            let bytes = id.as_str().as_bytes_vec();
            proof {
                assert(is_ascii_chars(id@)) by {
                    assert forall|i: int| 0 <= i < id@.len() implies '\0' <= #[trigger] id@[i] <= '\u{7f}' by {
                        if uuid_hyphen_at(i) {
                            assert(id@[i] == '-');
                        } else {
                            assert(is_hex_char(id@[i]));
                        }
                    }
                }
                is_ascii_chars_encode_utf8(id@);
                assert forall|i: int| 0 <= i < bytes@.len() implies
                    (#[trigger] bytes@[i] >= 32 && bytes@[i] != 127) || bytes@[i] == 9 by {
                    assert(id@[i] as u8 == encode_utf8(id@)[i]);
                    if uuid_hyphen_at(i) {
                        assert(id@[i] == '-');
                    } else {
                        assert(is_hex_char(id@[i]));
                    }
                }
                assert forall|i: int| 0 <= i < 36 && uuid_hyphen_at(i) implies #[trigger] bytes@[i] == 45u8 by {
                    assert(id@[i] as u8 == encode_utf8(id@)[i]);
                }
                assert forall|i: int| 0 <= i < 36 && !uuid_hyphen_at(i) implies
                    ((48u8 <= #[trigger] bytes@[i] && bytes@[i] <= 57u8) || (97u8 <= bytes@[i] && bytes@[i] <= 102u8)) by {
                    assert(id@[i] as u8 == encode_utf8(id@)[i]);
                    assert(is_hex_char(id@[i]));
                }
                assert(id@[14] as u8 == encode_utf8(id@)[14]);
                assert(id@[19] as u8 == encode_utf8(id@)[19]);
            }
            if is_header_value(&bytes) {
                Some(bytes)
            } else {
                None
            }
        },
    }
}

} // verus!
