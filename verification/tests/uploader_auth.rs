use regelrecht_upload::sessions::{
    clip_user_agent, extract_session_token, extract_uploader_session_token,
    generate_session_token, hash_token,
};

#[test]
fn uploader_auth_test_hash_token_is_sha256() {
    let hash = hash_token("test-uploader-token");
    // SHA-256 produces 64-character hex string
    assert_eq!(hash.len(), 64);
    assert!(hash.chars().all(|c| c.is_ascii_hexdigit()));
}

#[test]
fn uploader_auth_test_hash_token_is_deterministic() {
    let hash1 = hash_token("same-token");
    let hash2 = hash_token("same-token");
    assert_eq!(hash1, hash2);
}

#[test]
fn uploader_auth_test_generate_session_token_length() {
    let token = generate_session_token();
    // 32 random bytes = 64 hex chars
    assert_eq!(token.len(), 64);
    assert!(token.chars().all(|c| c.is_ascii_hexdigit()));
}

#[test]
fn uploader_auth_test_generate_session_token_unique() {
    let t1 = generate_session_token();
    let t2 = generate_session_token();
    assert_ne!(t1, t2);
}

#[test]
fn test_extract_uploader_session_token() {
    assert_eq!(
        extract_uploader_session_token(Some("rr_uploader_session=abc123xyz; other=xyz")),
        Some("abc123xyz".to_string())
    );
}

#[test]
fn test_extract_uploader_session_token_missing() {
    assert_eq!(extract_uploader_session_token(None), None);
}

#[test]
fn test_extract_uploader_session_token_wrong_cookie() {
    assert_eq!(extract_uploader_session_token(Some("rr_admin_session=abc123")), None);
}

#[test]
fn the_two_kinds_of_session_do_not_read_each_others_cookie() {
    let header = "rr_uploader_session=up; rr_admin_session=ad";
    assert_eq!(extract_uploader_session_token(Some(header)), Some("up".to_string()));
    assert_eq!(extract_session_token(Some(header)), Some("ad".to_string()));
    assert_eq!(extract_session_token(Some("rr_uploader_session=up")), None);
}

#[test]
fn user_agent_is_clipped_to_500_characters() {
    let long: String = "x".repeat(600);
    assert_eq!(clip_user_agent(&long).chars().count(), 500);
    assert_eq!(clip_user_agent("short"), "short");
    let exact: String = "é".repeat(500);
    assert_eq!(clip_user_agent(&exact), exact);
}
