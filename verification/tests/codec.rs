use ccb_common::claims::Claims;
use ccb_common::codec::{claims_from, decode, encode, RawClaims, VerificationError};
use ccb_common::role::UserRole;

fn alice() -> Claims {
    Claims { sub: String::from("alice"), role: UserRole::Student, exp: 2_000 }
}

fn raw(sub: Option<&str>, role: Option<&str>, exp: Option<u64>) -> RawClaims {
    RawClaims { sub: sub.map(String::from), role: role.map(String::from), exp }
}

/// A token made by `jsonwebtoken` itself, outside the library, with HS256.
fn foreign_token(claims: &serde_json::Map<String, serde_json::Value>, secret: &str) -> String {
    jsonwebtoken::encode(
        &jsonwebtoken::Header::default(),
        claims,
        &jsonwebtoken::EncodingKey::from_secret(secret.as_bytes()),
    )
    .unwrap()
}

fn payload(sub: &str, role: &str, exp: u64) -> serde_json::Map<String, serde_json::Value> {
    let mut claims = serde_json::Map::new();
    claims.insert(String::from("sub"), serde_json::Value::from(sub));
    claims.insert(String::from("role"), serde_json::Value::from(role));
    claims.insert(String::from("exp"), serde_json::Value::from(exp));
    claims
}

#[test]
fn encode_then_decode_recovers_the_claims() {
    let token = encode(&alice(), "secret").unwrap();
    assert_eq!(decode(&token, "secret", 1_999), Ok(alice()));
    assert_eq!(decode(&token, "secret", 0), Ok(alice()));
}

#[test]
fn round_trip_keeps_every_role() {
    for role in [UserRole::Student, UserRole::Instructor, UserRole::Admin] {
        let claims = Claims { sub: String::from("someone"), role, exp: 10 };
        let token = encode(&claims, "s3cr3t").unwrap();
        assert_eq!(decode(&token, "s3cr3t", 9), Ok(claims));
    }
}

#[test]
fn round_trip_keeps_a_subject_that_needs_escaping() {
    let claims = Claims {
        sub: String::from("a\"b\\c\n\u{1}\u{e9}\u{1F600}"),
        role: UserRole::Admin,
        exp: usize::MAX,
    };
    let token = encode(&claims, "secret").unwrap();
    assert_eq!(decode(&token, "secret", u64::MAX - 1), Ok(claims));
}

#[test]
fn round_trip_keeps_an_empty_subject() {
    let claims = Claims { sub: String::new(), role: UserRole::Student, exp: 5 };
    let token = encode(&claims, "").unwrap();
    assert_eq!(decode(&token, "", 4), Ok(claims));
}

#[test]
fn encode_writes_the_compact_form_with_lower_case_role() {
    let token = encode(&alice(), "secret").unwrap();
    assert_eq!(
        token,
        "eyJ0eXAiOiJKV1QiLCJhbGciOiJIUzI1NiJ9.\
         eyJleHAiOjIwMDAsInJvbGUiOiJzdHVkZW50Iiwic3ViIjoiYWxpY2UifQ.\
         2wJruf83SLtXaA5wi_7fT5cj50EFmr1iI9_cVemZ7eY"
    );
}

#[test]
fn encode_is_read_by_the_signing_crate_as_the_three_claims() {
    let token = encode(&alice(), "secret").unwrap();
    let mut validation = jsonwebtoken::Validation::new(jsonwebtoken::Algorithm::HS256);
    validation.validate_exp = false;
    let data = jsonwebtoken::decode::<serde_json::Value>(
        &token,
        &jsonwebtoken::DecodingKey::from_secret(b"secret"),
        &validation,
    )
    .unwrap();
    assert_eq!(data.claims, serde_json::Value::Object(payload("alice", "student", 2_000)));
    assert_eq!(data.header.alg, jsonwebtoken::Algorithm::HS256);
}

#[test]
fn decode_rejects_at_the_instant_of_expiry() {
    let token = encode(&alice(), "secret").unwrap();
    assert_eq!(decode(&token, "secret", 2_000), Err(VerificationError));
}

#[test]
fn decode_rejects_after_expiry() {
    let token = encode(&alice(), "secret").unwrap();
    assert_eq!(decode(&token, "secret", 2_001), Err(VerificationError));
    assert_eq!(decode(&token, "secret", 2_030), Err(VerificationError));
    assert_eq!(decode(&token, "secret", u64::MAX), Err(VerificationError));
}

#[test]
fn decode_rejects_an_expired_token_with_a_bad_signature() {
    let token = encode(&alice(), "secret").unwrap();
    assert_eq!(decode(&token, "other", 2_001), Err(VerificationError));
}

#[test]
fn decode_rejects_another_secret() {
    let token = encode(&alice(), "secret").unwrap();
    assert_eq!(decode(&token, "Secret", 1), Err(VerificationError));
    assert_eq!(decode(&token, "secret ", 1), Err(VerificationError));
    assert_eq!(decode(&token, "", 1), Err(VerificationError));
}

#[test]
fn hmac_pads_a_short_secret_with_zero_bytes() {
    // Two secrets that differ only in trailing zero bytes are one HMAC key.
    let token = encode(&alice(), "k").unwrap();
    assert_eq!(encode(&alice(), "k\0").unwrap(), token);
    assert_eq!(decode(&token, "k\0", 1), Ok(alice()));
}

#[test]
fn decode_rejects_a_changed_payload() {
    let token = encode(&alice(), "secret").unwrap();
    let forged = foreign_token(&payload("alice", "admin", 2_000), "guess");
    let parts: Vec<&str> = token.split('.').collect();
    let forged_parts: Vec<&str> = forged.split('.').collect();
    let spliced = format!("{}.{}.{}", parts[0], forged_parts[1], parts[2]);
    assert_eq!(decode(&spliced, "secret", 1), Err(VerificationError));
}

#[test]
fn decode_rejects_what_is_no_token() {
    for text in ["", "abc", "a.b", "a.b.c", "..", "a.b.c.d"] {
        assert_eq!(decode(text, "secret", 1), Err(VerificationError));
    }
}

#[test]
fn decode_reads_a_token_made_elsewhere() {
    let token = foreign_token(&payload("bob", "instructor", 77), "shared");
    assert_eq!(
        decode(&token, "shared", 76),
        Ok(Claims { sub: String::from("bob"), role: UserRole::Instructor, exp: 77 })
    );
}

#[test]
fn decode_ignores_members_it_does_not_know() {
    let mut claims = payload("bob", "admin", 77);
    claims.insert(String::from("iat"), serde_json::Value::from(3u64));
    claims.insert(String::from("name"), serde_json::Value::from("Bob"));
    let token = foreign_token(&claims, "shared");
    assert_eq!(
        decode(&token, "shared", 76),
        Ok(Claims { sub: String::from("bob"), role: UserRole::Admin, exp: 77 })
    );
}

#[test]
fn decode_rejects_a_role_that_is_not_in_lower_case() {
    let token = foreign_token(&payload("bob", "Student", 77), "shared");
    assert_eq!(decode(&token, "shared", 1), Err(VerificationError));
}

#[test]
fn decode_rejects_a_missing_member() {
    for missing in ["sub", "role", "exp"] {
        let mut claims = payload("bob", "student", 77);
        claims.remove(missing);
        let token = foreign_token(&claims, "shared");
        assert_eq!(decode(&token, "shared", 1), Err(VerificationError));
    }
}

#[test]
fn decode_rejects_a_member_of_the_wrong_type() {
    let mut claims = payload("bob", "student", 77);
    claims.insert(String::from("sub"), serde_json::Value::from(5u64));
    assert_eq!(decode(&foreign_token(&claims, "shared"), "shared", 1), Err(VerificationError));

    let mut claims = payload("bob", "student", 77);
    claims.insert(String::from("role"), serde_json::Value::from(true));
    assert_eq!(decode(&foreign_token(&claims, "shared"), "shared", 1), Err(VerificationError));

    let mut claims = payload("bob", "student", 77);
    claims.insert(String::from("exp"), serde_json::Value::from("77"));
    assert_eq!(decode(&foreign_token(&claims, "shared"), "shared", 1), Err(VerificationError));

    let mut claims = payload("bob", "student", 77);
    claims.insert(String::from("exp"), serde_json::Value::from(-5i64));
    assert_eq!(decode(&foreign_token(&claims, "shared"), "shared", 1), Err(VerificationError));
}

#[test]
fn decode_rejects_another_algorithm() {
    let token = jsonwebtoken::encode(
        &jsonwebtoken::Header::new(jsonwebtoken::Algorithm::HS384),
        &payload("bob", "student", 77),
        &jsonwebtoken::EncodingKey::from_secret(b"shared"),
    )
    .unwrap();
    assert_eq!(decode(&token, "shared", 1), Err(VerificationError));
}

#[test]
fn claims_from_accepts_well_formed_claims_before_expiry() {
    assert_eq!(
        claims_from(Some(raw(Some("abc"), Some("admin"), Some(100))), 99),
        Ok(Claims { sub: String::from("abc"), role: UserRole::Admin, exp: 100 })
    );
    assert_eq!(
        claims_from(Some(raw(Some(""), Some("student"), Some(1))), 0),
        Ok(Claims { sub: String::new(), role: UserRole::Student, exp: 1 })
    );
}

#[test]
fn claims_from_rejects_expiry_at_or_before_now() {
    assert_eq!(
        claims_from(Some(raw(Some("abc"), Some("admin"), Some(100))), 100),
        Err(VerificationError)
    );
    assert_eq!(
        claims_from(Some(raw(Some("abc"), Some("admin"), Some(100))), 101),
        Err(VerificationError)
    );
    assert_eq!(
        claims_from(Some(raw(Some("abc"), Some("admin"), Some(0))), 0),
        Err(VerificationError)
    );
}

#[test]
fn claims_from_rejects_a_failed_signature() {
    assert_eq!(claims_from(None, 0), Err(VerificationError));
}

#[test]
fn claims_from_rejects_absent_members() {
    assert_eq!(claims_from(Some(raw(None, Some("admin"), Some(100))), 1), Err(VerificationError));
    assert_eq!(claims_from(Some(raw(Some("abc"), None, Some(100))), 1), Err(VerificationError));
    assert_eq!(claims_from(Some(raw(Some("abc"), Some("admin"), None)), 1), Err(VerificationError));
}

#[test]
fn claims_from_rejects_unknown_roles() {
    for role in ["", "Admin", "ADMIN", "root", "student ", "teacher"] {
        assert_eq!(
            claims_from(Some(raw(Some("abc"), Some(role), Some(100))), 1),
            Err(VerificationError)
        );
    }
}
