use fta::auth_header::{authenticate, extract_token_from_header, optional_user};
use fta::error::AppError;
use fta::tokens::Claims;

#[test]
fn test_extract_bearer_token() {
    let header = b"Bearer abc.def.ghi";
    assert_eq!(extract_token_from_header(Some(&header[..])), Ok("abc.def.ghi".to_string()));
}

#[test]
fn header_problems_have_their_messages() {
    assert_eq!(
        extract_token_from_header(None),
        Err("Missing Authorization header".to_string())
    );
    assert_eq!(
        extract_token_from_header(Some(&b"Basic abc"[..])),
        Err("Authorization header must start with 'Bearer '".to_string())
    );
    assert_eq!(
        extract_token_from_header(Some(&b"bearer abc"[..])),
        Err("Authorization header must start with 'Bearer '".to_string())
    );
    assert_eq!(
        extract_token_from_header(Some(&b"Bearer "[..])),
        Err("Token is empty".to_string())
    );
    assert_eq!(
        extract_token_from_header(Some(&[66u8, 101, 0xC3, 0xA9][..])),
        Err("Invalid Authorization header".to_string())
    );
    assert_eq!(
        extract_token_from_header(Some(&b"Bearer a\nb"[..])),
        Err("Invalid Authorization header".to_string())
    );
}

#[test]
fn token_keeps_inner_spaces_and_tabs() {
    assert_eq!(
        extract_token_from_header(Some(&b"Bearer  a\tb "[..])),
        Ok(" a\tb ".to_string())
    );
}

#[test]
fn only_access_tokens_sign_in() {
    let access = Claims::new_access_token(5, "u@x.y".to_string(), 0);
    let user = authenticate(Ok(access)).unwrap();
    assert_eq!(user.user_id, 5);
    assert_eq!(user.email, "u@x.y");

    let refresh = Claims::new_refresh_token(5, "u@x.y".to_string(), 0);
    assert_eq!(authenticate(Ok(refresh)).err(), Some("Invalid token type".to_string()));

    let failed = authenticate(Err(AppError::Failure("Token has expired".to_string())));
    assert_eq!(failed.err(), Some("Invalid token: Token has expired".to_string()));

    assert!(optional_user(Err(AppError::Failure("x".to_string()))).is_none());
    let refresh = Claims::new_refresh_token(5, "u@x.y".to_string(), 0);
    assert!(optional_user(Ok(refresh)).is_none());
    let access = Claims::new_access_token(6, "v@x.y".to_string(), 0);
    assert_eq!(optional_user(Ok(access)).map(|u| u.user_id), Some(6));
}
