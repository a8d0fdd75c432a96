use oauth::error::{AppError, ErrorResponse, ErrorStackItem};
use oauth::text::{
    followed_by, decimal_text, is_blank, join, last_path_segment, same_text,
    same_text_ignoring_ascii_case,
};
use oauth::web::{answer, extract_token, status_of_success, Answer, Endpoint};

#[test]
fn blank_texts() {
    assert!(is_blank(""));
    assert!(is_blank(" \t\n\u{a0}\u{3000}"));
    assert!(!is_blank(" a "));
    assert!(!is_blank("\u{200b}"));
}

#[test]
fn texts_compare() {
    assert!(same_text("abc", "abc"));
    assert!(!same_text("abc", "abd"));
    assert!(!same_text("abc", "ab"));
    assert!(same_text("", ""));
    assert!(same_text_ignoring_ascii_case("TrUe", "true"));
    assert!(!same_text_ignoring_ascii_case("tru", "true"));
    assert!(!same_text_ignoring_ascii_case("\u{212a}", "k"));
}

#[test]
fn joins_with_separator() {
    assert_eq!(join(&vec![], ", "), "");
    assert_eq!(join(&vec!["a".to_string()], ", "), "a");
    assert_eq!(join(&vec!["a".to_string(), "b".to_string(), "".to_string()], ", "), "a, b, ");
    assert_eq!(followed_by("ab", "cd"), "abcd");
}

#[test]
fn last_segments() {
    assert_eq!(last_path_segment("http://kc/admin/realms/r/users/abc123"), "abc123");
    assert_eq!(last_path_segment("abc"), "abc");
    assert_eq!(last_path_segment("a/b/"), "");
    assert_eq!(last_path_segment(""), "");
    assert_eq!(last_path_segment("/é/ü"), "ü");
}

#[test]
fn decimal_texts() {
    assert_eq!(decimal_text(0), "0");
    assert_eq!(decimal_text(7), "7");
    assert_eq!(decimal_text(404), "404");
    assert_eq!(decimal_text(65535), "65535");
    assert_eq!(decimal_text(1000), "1000");
}

#[test]
fn error_statuses() {
    assert_eq!(AppError::ValidationError { details: "x".into() }.status_code(), 400);
    assert_eq!(AppError::InvalidCredentials { code: 401 }.status_code(), 401);
    assert_eq!(AppError::InvalidToken { code: 401 }.status_code(), 401);
    assert_eq!(AppError::Forbidden { code: 403 }.status_code(), 403);
    assert_eq!(
        AppError::NotFound { code: 404, resource: "user".into(), id: "u".into() }.status_code(),
        404
    );
    assert_eq!(
        AppError::Conflict { code: 409, resource: "user".into(), details: "d".into() }
            .status_code(),
        409
    );
    let external = |code| AppError::ExternalServiceError { code, details: "d".into(), source: None };
    assert_eq!(external(502).status_code(), 502);
    assert_eq!(external(400).status_code(), 400);
    assert_eq!(external(418).status_code(), 418);
    assert_eq!(external(599).status_code(), 599);
    assert_eq!(external(600).status_code(), 500);
    assert_eq!(external(999).status_code(), 500);
    assert_eq!(external(1000).status_code(), 500);
    assert_eq!(external(0).status_code(), 500);
    assert_eq!(external(100).status_code(), 500);
    assert_eq!(external(399).status_code(), 500);
}

#[test]
fn no_failure_has_a_status_of_success() {
    for code in [200u16, 201, 204, 299, 302] {
        let error = AppError::ExternalServiceError { code, details: "d".into(), source: None };
        assert_eq!(error.status_code(), 500, "{code}");
        assert_eq!(error.error_code(), code.to_string());
    }
    for code in 0..=u16::MAX {
        let error = AppError::ExternalServiceError { code, details: String::new(), source: None };
        let status = error.status_code();
        assert!((400..=599).contains(&status), "{code}");
    }
}

#[test]
fn error_descriptions_and_codes() {
    let e = AppError::ValidationError { details: "a, b".into() };
    assert_eq!(e.description(), "Invalid input: a, b");
    assert_eq!(e.error_code(), "OA-001");
    assert_eq!(AppError::InvalidCredentials { code: 401 }.description(), "Invalid credentials");
    assert_eq!(AppError::InvalidToken { code: 401 }.description(), "Invalid or expired token");
    assert_eq!(AppError::Forbidden { code: 403 }.description(), "Forbidden");
    let nf = AppError::NotFound { code: 404, resource: "role".into(), id: "r9".into() };
    assert_eq!(nf.description(), "role with id r9 not found");
    assert_eq!(nf.error_code(), "404");
    let c = AppError::Conflict { code: 409, resource: "user".into(), details: "taken".into() };
    assert_eq!(c.description(), "user conflict: taken");
    let x = AppError::ExternalServiceError { code: 503, details: "kc down".into(), source: None };
    assert_eq!(x.description(), "External service error: kc down");
    assert_eq!(x.error_code(), "503");
}

#[test]
fn error_response_carries_the_chain() {
    let chain = vec![
        ErrorStackItem { source: "Error { kind: Connect }".into(), description: "refused".into() },
        ErrorStackItem { source: "Os { code: 111 }".into(), description: "os error".into() },
    ];
    let x = AppError::ExternalServiceError {
        code: 500,
        details: "refused".into(),
        source: Some(chain.clone()),
    };
    assert_eq!(
        x.error_response(),
        ErrorResponse {
            error_code: "500".into(),
            error_description: "External service error: refused".into(),
            error_source: "OAuthAPI".into(),
            error_stack: chain,
        }
    );
    let plain = AppError::Forbidden { code: 403 }.error_response();
    assert_eq!(plain.error_stack, vec![]);
    assert_eq!(plain.error_code, "403");
}

#[test]
fn tokens_and_answers() {
    assert_eq!(extract_token(Some("Bearer t")), Ok("Bearer t".to_string()));
    assert_eq!(extract_token(None), Err(AppError::InvalidToken { code: 401 }));
    assert_eq!(status_of_success(Endpoint::Login), 201);
    assert_eq!(status_of_success(Endpoint::CreateUser), 201);
    assert_eq!(status_of_success(Endpoint::CreateRole), 201);
    assert_eq!(status_of_success(Endpoint::GetUsers), 200);
    assert_eq!(status_of_success(Endpoint::UpdatePassword), 200);
    assert_eq!(status_of_success(Endpoint::DeleteUser), 204);
    assert_eq!(status_of_success(Endpoint::AddRoleToUser), 204);
    let ok: Answer<u8> = answer(Endpoint::GetUser, Ok(5));
    assert_eq!(ok, Answer::Success { status: 200, body: 5 });
    let no: Answer<u8> = answer(Endpoint::GetUser, Err(AppError::Forbidden { code: 403 }));
    match no {
        Answer::Failure { status, error } => {
            assert_eq!(status, 403);
            assert_eq!(error.error_description, "Forbidden");
        }
        other => panic!("expected a failure, got {:?}", other),
    }
}

#[test]
fn ascii_white_space_is_space_and_tab_to_carriage_return() {
    for code in 0u8..128 {
        let c = char::from(code);
        let expected = c == ' ' || ('\u{9}'..='\u{d}').contains(&c);
        assert_eq!(is_blank(&c.to_string()), expected, "{code}");
    }
    assert!(is_blank(" \t\n\u{b}\u{c}\r"));
    assert!(!is_blank("\u{1c}"));
    assert!(!is_blank(" \u{0}"));
}
