use chat::middleware::{chat_access, is_header_value, membership_outcome, set_request_id, token_of_request, token_outcome};
use chat::{AppError, ErrorKind, Params};

#[test]
fn header_token_wins_over_query() {
    let t = token_of_request(Some("h".to_string()), Params { access_token: Some("q".to_string()) });
    assert_eq!(t.unwrap(), "h");
    let t = token_of_request(None, Params { access_token: Some("q".to_string()) });
    assert_eq!(t.unwrap(), "q");
}

#[test]
fn checked_claims_pass_through() {
    assert_eq!(token_outcome(Ok("{\"id\":1}".to_string())).unwrap(), "{\"id\":1}");
}

#[test]
fn failed_token_check_is_forbidden() {
    let r = token_outcome(Err(AppError::Jwt("bad".to_string()))).unwrap_err();
    assert_eq!(r.status, 403);
    assert_eq!(r.message, "Invalid token: JWT error: bad");
}

#[test]
fn chat_access_cases() {
    let r = chat_access(None, Some(1)).unwrap_err();
    assert_eq!((r.status, r.message.as_str()), (400, "Invalid chat ID"));
    let r = chat_access(Some(1), None).unwrap_err();
    assert_eq!((r.status, r.message.as_str()), (401, "User not authenticated"));
    assert_eq!(chat_access(Some(5), Some(2)).unwrap(), (5, 2));
}

#[test]
fn only_members_reach_a_chat() {
    assert!(membership_outcome(Ok(true), 1, 1).is_ok());
    let e = membership_outcome(Ok(false), 1, 5).unwrap_err();
    assert_eq!(e.kind(), ErrorKind::CreateMessageError);
    assert_eq!(e.detail(), "User 1 is not a member of the chat 5");
    assert_eq!(e.status_code(), 400);
    let e = membership_outcome(Err(AppError::Database("down".to_string())), -3, 7).unwrap_err();
    assert_eq!(e.detail(), "User -3 is not a member of the chat 7");
}

#[test]
fn request_ids() {
    let kept = set_request_id(Some(b"abc".to_vec())).unwrap();
    assert_eq!(kept, b"abc".to_vec());
    let fresh = set_request_id(None).unwrap();
    assert_eq!(fresh.len(), 36);
    let text = String::from_utf8(fresh).unwrap();
    for i in [8, 13, 18, 23] {
        assert_eq!(&text[i..i + 1], "-");
    }
    assert_eq!(&text[14..15], "7");
    assert!("89ab".contains(&text[19..20]));
    assert_ne!(set_request_id(None), set_request_id(None));
}

#[test]
fn header_values() {
    assert!(is_header_value(&b"a b\tc".to_vec()));
    assert!(!is_header_value(&b"a\nb".to_vec()));
    assert!(!is_header_value(&vec![127u8]));
}
