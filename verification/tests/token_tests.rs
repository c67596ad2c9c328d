use rs_backend::error::AuthError;
use rs_backend::role::Role;
use rs_backend::token::{judge, ClaimFields, Claims, DecodeFault, TokenCodec, DEFAULT_TTL};

fn codec() -> TokenCodec {
    TokenCodec::new(b"a-test-secret".to_vec())
}

fn parts(token: &str) -> Vec<String> {
    token.split('.').map(|part| part.to_string()).collect()
}

#[test]
fn issued_token_has_three_parts() {
    let token = codec().issue_at(7, "alice", Role::Student, 1_000, DEFAULT_TTL).unwrap();
    let pieces = parts(&token);
    assert_eq!(pieces.len(), 3);
    assert!(pieces.iter().all(|piece| !piece.is_empty()));
}

#[test]
fn issued_token_has_the_standard_header() {
    let token = codec().issue_at(7, "alice", Role::Student, 1_000, DEFAULT_TTL).unwrap();
    // base64url of {"typ":"JWT","alg":"HS256"}
    assert_eq!(parts(&token)[0], "eyJ0eXAiOiJKV1QiLCJhbGciOiJIUzI1NiJ9");
}

#[test]
fn issue_then_validate_returns_the_claims() {
    let codec = codec();
    let token = codec.issue_at(7, "alice", Role::Student, 1_000, DEFAULT_TTL).unwrap();
    let claims = codec.validate_at(&token, 1_000).unwrap();
    assert_eq!(
        claims,
        Claims { sub: 7, exp: 4_600, username: "alice".to_string(), role: Role::Student }
    );
}

#[test]
fn token_is_valid_until_the_second_before_expiry() {
    let codec = codec();
    let token = codec.issue_at(1, "bob", Role::Teacher, 50, 10).unwrap();
    assert!(codec.validate_at(&token, 59).is_ok());
    assert_eq!(codec.validate_at(&token, 60), Err(AuthError::Expired));
    assert_eq!(codec.validate_at(&token, 61), Err(AuthError::Expired));
    assert_eq!(codec.validate_at(&token, u64::MAX), Err(AuthError::Expired));
}

#[test]
fn zero_ttl_token_is_never_valid() {
    let codec = codec();
    let token = codec.issue_at(1, "bob", Role::Teacher, 50, 0).unwrap();
    assert_eq!(codec.validate_at(&token, 50), Err(AuthError::Expired));
    assert!(codec.validate_at(&token, 49).is_ok());
}

#[test]
fn expiry_that_cannot_be_represented_issues_nothing() {
    assert_eq!(codec().issue_at(1, "bob", Role::Admin, u64::MAX, 1), None);
    assert!(codec().issue_at(1, "bob", Role::Admin, u64::MAX, 0).is_some());
}

#[test]
fn other_secret_fails_the_signature() {
    let token = codec().issue_at(7, "alice", Role::Student, 1_000, DEFAULT_TTL).unwrap();
    let other = TokenCodec::new(b"another-secret".to_vec());
    assert_eq!(other.validate_at(&token, 1_000), Err(AuthError::InvalidSignature));
}

#[test]
fn altered_payload_fails_the_signature() {
    let codec = codec();
    let student = codec.issue_at(7, "alice", Role::Student, 1_000, DEFAULT_TTL).unwrap();
    let admin = codec.issue_at(7, "alice", Role::Admin, 1_000, DEFAULT_TTL).unwrap();
    let student_parts = parts(&student);
    let admin_parts = parts(&admin);
    assert_ne!(student_parts[1], admin_parts[1]);
    // a well-formed payload under a signature made for another one
    let forged = format!("{}.{}.{}", student_parts[0], admin_parts[1], student_parts[2]);
    assert_eq!(codec.validate_at(&forged, 1_000), Err(AuthError::InvalidSignature));
    assert_eq!(codec.validate_at(&admin, 1_000).unwrap().role, Role::Admin);
}

#[test]
fn signature_is_checked_before_expiry() {
    let codec = codec();
    let token = codec.issue_at(7, "alice", Role::Student, 1_000, 10).unwrap();
    let other = TokenCodec::new(b"another-secret".to_vec());
    assert_eq!(other.validate_at(&token, 5_000), Err(AuthError::InvalidSignature));
}

#[test]
fn text_that_is_no_token_is_malformed() {
    let codec = codec();
    assert_eq!(codec.validate_at("", 0), Err(AuthError::Malformed));
    assert_eq!(codec.validate_at("not-a-token", 0), Err(AuthError::Malformed));
    assert_eq!(codec.validate_at("a.b", 0), Err(AuthError::Malformed));
    assert_eq!(codec.validate_at("a.b.c", 0), Err(AuthError::Malformed));
}

#[test]
fn token_under_another_scheme_is_refused_for_its_signature() {
    // header {"alg":"HS384","typ":"JWT"}, payload {"sub":1}, no real signature
    let token = "eyJhbGciOiJIUzM4NCIsInR5cCI6IkpXVCJ9.eyJzdWIiOjF9.AAAA";
    assert_eq!(codec().validate_at(token, 0), Err(AuthError::InvalidSignature));
}

#[test]
fn negative_subject_survives_the_round_trip() {
    let codec = codec();
    let token = codec.issue_at(i32::MIN, "", Role::Admin, 0, u64::MAX).unwrap();
    let claims = codec.validate_at(&token, u64::MAX - 1).unwrap();
    assert_eq!(
        claims,
        Claims { sub: i32::MIN, exp: u64::MAX, username: String::new(), role: Role::Admin }
    );
}

#[test]
fn handle_with_quotes_and_unicode_survives_the_round_trip() {
    let codec = codec();
    let handle = "al\"ice\\ \u{00e9}\u{4e16}\n";
    let token = codec.issue_at(3, handle, Role::Teacher, 10, 10).unwrap();
    assert_eq!(codec.validate_at(&token, 10).unwrap().username, handle);
}

#[test]
fn validate_against_the_clock_accepts_a_fresh_token() {
    let codec = codec();
    let token = codec.issue(7, "alice", Role::Student, DEFAULT_TTL).unwrap();
    let claims = codec.validate(&token).unwrap();
    assert_eq!(claims.sub, 7);
    assert_eq!(claims.username, "alice");
    assert_eq!(claims.role, Role::Student);
}

#[test]
fn validate_against_the_clock_refuses_an_old_token() {
    let codec = codec();
    let token = codec.issue_at(7, "alice", Role::Student, 1_000, DEFAULT_TTL).unwrap();
    assert_eq!(codec.validate(&token), Err(AuthError::Expired));
}

#[test]
fn default_ttl_is_one_hour() {
    assert_eq!(DEFAULT_TTL, 3600);
}

fn fields(sub: Option<i64>, exp: Option<u64>, username: Option<&str>, role: Option<&str>) -> ClaimFields {
    ClaimFields {
        sub,
        exp,
        username: username.map(|text| text.to_string()),
        role: role.map(|text| text.to_string()),
    }
}

#[test]
fn claims_need_all_four_members() {
    assert!(Claims::from_fields(fields(Some(1), Some(2), Some("alice"), Some("student"))).is_some());
    assert_eq!(Claims::from_fields(fields(None, Some(2), Some("alice"), Some("student"))), None);
    assert_eq!(Claims::from_fields(fields(Some(1), None, Some("alice"), Some("student"))), None);
    assert_eq!(Claims::from_fields(fields(Some(1), Some(2), None, Some("student"))), None);
    assert_eq!(Claims::from_fields(fields(Some(1), Some(2), Some("alice"), None)), None);
    assert_eq!(Claims::from_fields(fields(None, None, None, None)), None);
}

#[test]
fn claims_refuse_a_subject_outside_i32() {
    let with_sub = |sub: i64| fields(Some(sub), Some(2), Some("alice"), Some("student"));
    assert_eq!(Claims::from_fields(with_sub(2_147_483_648)), None);
    assert_eq!(Claims::from_fields(with_sub(-2_147_483_649)), None);
    assert_eq!(Claims::from_fields(with_sub(i64::MAX)), None);
    assert_eq!(
        Claims::from_fields(with_sub(2_147_483_647)),
        Some(Claims { sub: i32::MAX, exp: 2, username: "alice".to_string(), role: Role::Student })
    );
    assert_eq!(
        Claims::from_fields(with_sub(-2_147_483_648)),
        Some(Claims { sub: i32::MIN, exp: 2, username: "alice".to_string(), role: Role::Student })
    );
}

#[test]
fn claims_refuse_an_unknown_role() {
    assert_eq!(Claims::from_fields(fields(Some(1), Some(2), Some("alice"), Some("superuser"))), None);
    assert_eq!(Claims::from_fields(fields(Some(1), Some(2), Some("alice"), Some("Admin"))), None);
    assert_eq!(Claims::from_fields(fields(Some(1), Some(2), Some("alice"), Some(""))), None);
}

#[test]
fn claims_are_live_before_their_expiry_only() {
    let claims = Claims { sub: 1, exp: 10, username: "a".to_string(), role: Role::Admin };
    assert!(claims.is_live_at(0));
    assert!(claims.is_live_at(9));
    assert!(!claims.is_live_at(10));
    assert!(!claims.is_live_at(11));
}

#[test]
fn judge_gives_each_fault_its_reason() {
    assert_eq!(judge(Err(DecodeFault::InvalidSignature), 0), Err(AuthError::InvalidSignature));
    assert_eq!(judge(Err(DecodeFault::InvalidAlgorithm), 0), Err(AuthError::InvalidSignature));
    assert_eq!(judge(Err(DecodeFault::Unreadable), 0), Err(AuthError::Malformed));
    assert_eq!(DecodeFault::InvalidSignature.reason(), AuthError::InvalidSignature);
    assert_eq!(DecodeFault::InvalidAlgorithm.reason(), AuthError::InvalidSignature);
    assert_eq!(DecodeFault::Unreadable.reason(), AuthError::Malformed);
}

#[test]
fn judge_orders_unreadable_before_expired() {
    // no claims and long past any expiry: still malformed
    assert_eq!(judge(Ok(fields(Some(1), Some(10), Some("a"), None)), 1_000), Err(AuthError::Malformed));
    assert_eq!(judge(Ok(fields(None, None, None, None)), 0), Err(AuthError::Malformed));
    let claims = Claims { sub: 1, exp: 10, username: "a".to_string(), role: Role::Admin };
    assert_eq!(judge(Ok(fields(Some(1), Some(10), Some("a"), Some("admin"))), 9), Ok(claims));
    assert_eq!(
        judge(Ok(fields(Some(1), Some(10), Some("a"), Some("admin"))), 10),
        Err(AuthError::Expired)
    );
}

/// A token with this payload, signed as the codec signs.
fn signed(members: Vec<(&str, serde_json::Value)>, secret: &[u8]) -> String {
    let mut payload = serde_json::Map::new();
    for (name, value) in members {
        payload.insert(name.to_string(), value);
    }
    jsonwebtoken::encode(
        &jsonwebtoken::Header::default(),
        &payload,
        &jsonwebtoken::EncodingKey::from_secret(secret),
    )
    .unwrap()
}

fn good_members() -> Vec<(&'static str, serde_json::Value)> {
    vec![
        ("sub", serde_json::Value::from(7)),
        ("exp", serde_json::Value::from(100u64)),
        ("username", serde_json::Value::from("alice")),
        ("role", serde_json::Value::from("teacher")),
    ]
}

fn with_member(name: &'static str, value: serde_json::Value) -> Vec<(&'static str, serde_json::Value)> {
    let mut members: Vec<_> = good_members().into_iter().filter(|(n, _)| *n != name).collect();
    members.push((name, value));
    members
}

fn without_member(name: &str) -> Vec<(&'static str, serde_json::Value)> {
    good_members().into_iter().filter(|(n, _)| *n != name).collect()
}

#[test]
fn token_signed_elsewhere_with_the_same_secret_validates() {
    let token = signed(good_members(), b"a-test-secret");
    assert_eq!(
        codec().validate_at(&token, 99),
        Ok(Claims { sub: 7, exp: 100, username: "alice".to_string(), role: Role::Teacher })
    );
    assert_eq!(codec().validate_at(&token, 100), Err(AuthError::Expired));
}

#[test]
fn issued_token_is_the_one_the_signing_scheme_gives() {
    let token = codec().issue_at(7, "alice", Role::Teacher, 40, 60).unwrap();
    assert_eq!(token, signed(good_members(), b"a-test-secret"));
}

#[test]
fn payload_without_a_member_is_malformed() {
    for name in ["sub", "exp", "username", "role"] {
        let token = signed(without_member(name), b"a-test-secret");
        assert_eq!(codec().validate_at(&token, 0), Err(AuthError::Malformed), "{}", name);
    }
    let token = signed(Vec::new(), b"a-test-secret");
    assert_eq!(codec().validate_at(&token, 0), Err(AuthError::Malformed));
}

#[test]
fn payload_with_a_member_of_the_wrong_kind_is_malformed() {
    let cases = vec![
        with_member("sub", serde_json::Value::from("7")),
        with_member("sub", serde_json::Value::from(7.5)),
        with_member("sub", serde_json::Value::from(2_147_483_648i64)),
        with_member("sub", serde_json::Value::Null),
        with_member("exp", serde_json::Value::from(-1)),
        with_member("exp", serde_json::Value::from("100")),
        with_member("exp", serde_json::Value::from(100.0)),
        with_member("username", serde_json::Value::from(5)),
        with_member("username", serde_json::Value::Bool(true)),
        with_member("role", serde_json::Value::from(1)),
        with_member("role", serde_json::Value::from("superuser")),
    ];
    for members in cases {
        let token = signed(members.clone(), b"a-test-secret");
        assert_eq!(codec().validate_at(&token, 0), Err(AuthError::Malformed), "{:?}", members);
    }
}

#[test]
fn malformed_payload_under_another_secret_fails_the_signature_first() {
    let token = signed(without_member("role"), b"another-secret");
    assert_eq!(codec().validate_at(&token, 0), Err(AuthError::InvalidSignature));
}

#[test]
fn other_members_of_the_payload_are_ignored() {
    let mut members = good_members();
    members.push(("iat", serde_json::Value::from(5)));
    members.push(("aud", serde_json::Value::from("anyone")));
    members.push(("nested", serde_json::Value::Array(vec![serde_json::Value::from(1)])));
    let token = signed(members, b"a-test-secret");
    assert_eq!(
        codec().validate_at(&token, 99),
        Ok(Claims { sub: 7, exp: 100, username: "alice".to_string(), role: Role::Teacher })
    );
}

#[test]
fn expiry_is_exact_without_leeway() {
    let token = signed(good_members(), b"a-test-secret");
    assert!(codec().validate_at(&token, 99).is_ok());
    for now in [100, 101, 130, 159, 160, 161] {
        assert_eq!(codec().validate_at(&token, now), Err(AuthError::Expired), "{}", now);
    }
}

#[test]
fn token_signed_under_a_longer_hash_is_refused_for_its_signature() {
    let mut payload = serde_json::Map::new();
    for (name, value) in good_members() {
        payload.insert(name.to_string(), value);
    }
    let token = jsonwebtoken::encode(
        &jsonwebtoken::Header::new(jsonwebtoken::Algorithm::HS512),
        &payload,
        &jsonwebtoken::EncodingKey::from_secret(b"a-test-secret"),
    )
    .unwrap();
    assert_eq!(codec().validate_at(&token, 0), Err(AuthError::InvalidSignature));
}

#[test]
fn truncated_signature_fails() {
    let token = codec().issue_at(7, "alice", Role::Student, 1_000, DEFAULT_TTL).unwrap();
    let cut = &token[..token.len() - 1];
    assert_eq!(codec().validate_at(cut, 1_000), Err(AuthError::InvalidSignature));
    let unsigned = format!("{}.", &token[..token.rfind('.').unwrap()]);
    assert_eq!(codec().validate_at(&unsigned, 1_000), Err(AuthError::InvalidSignature));
}

#[test]
fn empty_secret_still_signs_and_checks() {
    let codec = TokenCodec::new(Vec::new());
    let token = codec.issue_at(1, "a", Role::Student, 0, 10).unwrap();
    assert!(codec.validate_at(&token, 0).is_ok());
    assert_eq!(
        TokenCodec::new(b"x".to_vec()).validate_at(&token, 0),
        Err(AuthError::InvalidSignature)
    );
}

fn base64url(bytes: &[u8]) -> String {
    let alphabet = b"ABCDEFGHIJKLMNOPQRSTUVWXYZabcdefghijklmnopqrstuvwxyz0123456789-_";
    let mut out = String::new();
    for chunk in bytes.chunks(3) {
        let b0 = chunk[0] as u32;
        let b1 = *chunk.get(1).unwrap_or(&0) as u32;
        let b2 = *chunk.get(2).unwrap_or(&0) as u32;
        let n = (b0 << 16) | (b1 << 8) | b2;
        out.push(alphabet[(n >> 18) as usize & 63] as char);
        out.push(alphabet[(n >> 12) as usize & 63] as char);
        if chunk.len() > 1 {
            out.push(alphabet[(n >> 6) as usize & 63] as char);
        }
        if chunk.len() > 2 {
            out.push(alphabet[n as usize & 63] as char);
        }
    }
    out
}

/// A token with this payload text, signed with HMAC-SHA256.
fn signed_text(payload: &str, secret: &[u8]) -> String {
    let message =
        format!("{}.{}", base64url(br#"{"typ":"JWT","alg":"HS256"}"#), base64url(payload.as_bytes()));
    let signature = jsonwebtoken::crypto::sign(
        message.as_bytes(),
        &jsonwebtoken::EncodingKey::from_secret(secret),
        jsonwebtoken::Algorithm::HS256,
    )
    .unwrap();
    format!("{}.{}", message, signature)
}

#[test]
fn members_may_come_in_any_order_and_layout() {
    let expected = Claims { sub: 7, exp: 100, username: "alice".to_string(), role: Role::Teacher };
    for payload in [
        r#"{"sub":7,"exp":100,"username":"alice","role":"teacher"}"#,
        r#"{"role":"teacher","username":"alice","exp":100,"sub":7}"#,
        r#" { "sub" : 7 , "exp" : 100 , "username" : "alice" , "role" : "teacher" } "#,
        r#"{"sub":7,"exp":100,"username":"alice","role":"teacher","iat":1}"#,
    ] {
        let token = signed_text(payload, b"a-test-secret");
        assert_eq!(codec().validate_at(&token, 99), Ok(expected.clone()), "{}", payload);
    }
}

#[test]
fn issued_payload_is_the_json_object_of_the_four_members() {
    let token = codec().issue_at(7, "alice", Role::Teacher, 40, 60).unwrap();
    assert_eq!(
        token,
        signed_text(r#"{"exp":100,"role":"teacher","sub":7,"username":"alice"}"#, b"a-test-secret")
    );
}

#[test]
fn signed_payload_that_is_no_object_is_malformed() {
    for payload in ["[7,100,\"alice\",\"teacher\"]", "7", "\"alice\"", "null", "{", "", "{\"sub\":7"] {
        let token = signed_text(payload, b"a-test-secret");
        assert_eq!(codec().validate_at(&token, 0), Err(AuthError::Malformed), "{}", payload);
    }
}

#[test]
fn signed_payload_with_a_list_for_a_subject_is_malformed() {
    let token = signed_text(
        r#"{"sub":[7],"exp":100,"username":"alice","role":"teacher"}"#,
        b"a-test-secret",
    );
    assert_eq!(codec().validate_at(&token, 0), Err(AuthError::Malformed));
}

#[test]
fn issue_with_zero_ttl_gives_a_token_that_has_expired() {
    let codec = codec();
    let token = codec.issue(7, "alice", Role::Student, 0).unwrap();
    assert_eq!(codec.validate(&token), Err(AuthError::Expired));
    assert!(codec.validate_at(&token, 0).is_ok());
}

#[test]
fn issue_for_longer_than_time_lasts_gives_nothing() {
    assert_eq!(codec().issue(7, "alice", Role::Student, u64::MAX), None);
}

#[test]
fn issue_sets_the_expiry_from_the_clock() {
    let codec = codec();
    let before = std::time::SystemTime::now()
        .duration_since(std::time::UNIX_EPOCH)
        .unwrap()
        .as_secs();
    let token = codec.issue(7, "alice", Role::Student, 100).unwrap();
    let exp = codec.validate(&token).unwrap().exp;
    assert!(before + 100 <= exp && exp <= before + 102);
}

#[test]
fn every_issued_token_has_the_three_part_form() {
    for (handle, secret) in [("", &b""[..]), ("alice", &b"k"[..]), ("a.b.c", &b"a.b"[..]), ("\u{e9}.", &b"."[..])] {
        let token = TokenCodec::new(secret.to_vec())
            .issue_at(-1, handle, Role::Admin, 0, u64::MAX)
            .unwrap();
        let pieces = parts(&token);
        assert_eq!(pieces.len(), 3, "{}", token);
        assert!(pieces.iter().all(|piece| !piece.is_empty()));
        assert!(token.chars().all(|c| c == '.' || c == '-' || c == '_' || c.is_ascii_alphanumeric()));
    }
}
