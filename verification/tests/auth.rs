use hotel_orders::auth::{
    accept_claims, admin_of, authenticate, ensure_own_org, hash_password, hashed, issue_token,
    issue_token_at, unless_refused, verify_password, verify_token, AuthUser, Claims, TokenBody,
};
use hotel_orders::clock::utc_now_ms;
use hotel_orders::error::{AppError, Status};

#[test]
fn hashed_passwords_can_be_verified() {
    let hash = hash_password("correct horse").unwrap();
    assert!(hash.starts_with("$argon2id$"));
    assert!(verify_password("correct horse", &hash).unwrap());
    assert!(!verify_password("wrong horse", &hash).unwrap());
    assert_ne!(hash, hash_password("correct horse").unwrap());
}

#[test]
fn a_hash_that_cannot_be_read_is_an_internal_error() {
    let e = verify_password("x", "not a hash").unwrap_err();
    assert_eq!(e.status, Status::InternalServerError);
    assert!(!e.message.is_empty());
}

#[test]
fn failed_hashing_is_an_internal_error() {
    let e = hashed(Err("too long".to_string())).unwrap_err();
    assert_eq!(e.status, Status::InternalServerError);
    assert_eq!(e.message, "password hashing error: too long");
    assert_eq!(hashed(Ok("h".to_string())).unwrap(), "h");
}

#[test]
fn issued_tokens_are_accepted() {
    let token = issue_token("u1", "o1", "secret").unwrap();
    let before = utc_now_ms() / 1000;
    let claims = verify_token(&token, "secret").unwrap();
    assert_eq!(claims.sub, "u1");
    assert_eq!(claims.org_id, "o1");
    assert!(claims.exp >= before + 604_700 && claims.exp <= before + 604_900);
}

#[test]
fn tokens_last_a_week() {
    let now = utc_now_ms();
    let token = issue_token_at("u", "o", "s", now).unwrap();
    assert_eq!(verify_token(&token, "s").unwrap().exp, now / 1000 + 604_800);
}

#[test]
fn other_secrets_and_expired_tokens_are_refused() {
    let token = issue_token("u1", "o1", "secret").unwrap();
    let e = verify_token(&token, "other").unwrap_err();
    assert_eq!(e.status, Status::Unauthorized);
    assert_eq!(e.message, "invalid token: InvalidSignature");
    let old = issue_token_at("u1", "o1", "secret", utc_now_ms() - 604_800_000 - 120_000).unwrap();
    assert_eq!(verify_token(&old, "secret").unwrap_err().message, "invalid token: ExpiredSignature");
    assert_eq!(verify_token("junk", "secret").unwrap_err().message, "invalid token: InvalidToken");
}

#[test]
fn tokens_have_to_carry_all_claims() {
    let body = |sub: bool, org: bool, exp: bool| {
        Ok(TokenBody {
            sub: Ok(if sub { Some("u".to_string()) } else { None }),
            org_id: Ok(if org { Some("o".to_string()) } else { None }),
            exp: Ok(if exp { Some(5) } else { None }),
        })
    };
    let claims = accept_claims(body(true, true, true)).unwrap();
    assert_eq!((claims.sub.as_str(), claims.org_id.as_str(), claims.exp), ("u", "o", 5));
    for (b, field) in [
        (body(false, true, true), "sub"),
        (body(true, false, true), "org_id"),
        (body(true, true, false), "exp"),
    ] {
        let e = accept_claims(b).unwrap_err();
        assert_eq!(e.status, Status::Unauthorized);
        assert_eq!(e.message, format!("invalid token: JSON error: missing field `{}`", field));
    }
    let e = accept_claims(Err("InvalidSignature".to_string())).unwrap_err();
    assert_eq!(e.message, "invalid token: InvalidSignature");
}

#[test]
fn refused_tokens_give_no_claims() {
    let claims = || Claims { sub: "u".to_string(), org_id: "o".to_string(), exp: 1 };
    assert_eq!(unless_refused(claims(), Ok(())).unwrap().sub, "u");
    let e = unless_refused(claims(), Err("ExpiredSignature".to_string())).unwrap_err();
    assert_eq!((e.status, e.message.as_str()), (Status::Unauthorized, "invalid token: ExpiredSignature"));
}

fn foreign_token(members: &[(&str, serde_json::Value)]) -> String {
    let body: serde_json::Map<String, serde_json::Value> =
        members.iter().map(|(k, v)| (k.to_string(), v.clone())).collect();
    jsonwebtoken::encode(
        &jsonwebtoken::Header::default(),
        &body,
        &jsonwebtoken::EncodingKey::from_secret(b"s"),
    )
    .unwrap()
}

#[test]
fn foreign_tokens_are_refused_for_their_claims() {
    let soon = serde_json::Value::from(utc_now_ms() / 1000 + 100);
    let text = serde_json::Value::from("x");
    let refusal = |members: &[(&str, serde_json::Value)]| {
        let e = verify_token(&foreign_token(members), "s").unwrap_err();
        assert_eq!(e.status, Status::Unauthorized);
        e.message
    };
    assert_eq!(
        refusal(&[("sub", text.clone()), ("exp", soon.clone())]),
        "invalid token: JSON error: missing field `org_id`"
    );
    assert_eq!(
        refusal(&[("sub", text.clone()), ("exp", serde_json::Value::from(1))]),
        "invalid token: JSON error: missing field `org_id`"
    );
    assert_eq!(
        refusal(&[("sub", text.clone()), ("org_id", serde_json::Value::from(5)), ("exp", soon.clone())]),
        "invalid token: JSON error: invalid type: integer `5`, expected a string"
    );
    assert_eq!(
        refusal(&[("sub", text.clone()), ("org_id", text.clone()), ("exp", text.clone())]),
        "invalid token: JSON error: invalid type: string \"x\", expected i64"
    );
    assert_eq!(
        refusal(&[("sub", text.clone()), ("org_id", text.clone()), ("exp", serde_json::Value::from(1))]),
        "invalid token: ExpiredSignature"
    );
    assert_eq!(
        refusal(&[("sub", text.clone()), ("org_id", text.clone()), ("exp", soon.clone()), ("aud", text.clone())]),
        "invalid token: InvalidAudience"
    );
    let good = foreign_token(&[("sub", text.clone()), ("org_id", text), ("exp", soon), ("more", true.into())]);
    assert_eq!(verify_token(&good, "s").unwrap().sub, "x");
}

#[test]
fn members_that_are_no_claims_are_not_read() {
    let soon = serde_json::Value::from(utc_now_ms() / 1000 + 100);
    let text = serde_json::Value::from("x");
    let mut deep = serde_json::Value::from(1);
    for _ in 0..200 {
        deep = serde_json::Value::from(vec![deep]);
    }
    for (name, value) in [("$serde_json::private::RawValue", 0.into()), ("deep", deep)] {
        let token = foreign_token(&[
            (name, value),
            ("sub", text.clone()),
            ("org_id", text.clone()),
            ("exp", soon.clone()),
        ]);
        assert_eq!(verify_token(&token, "s").unwrap().org_id, "x");
    }
}

#[test]
fn the_text_of_a_token() {
    assert_eq!(
        issue_token_at("u", "o", "k", 0).unwrap(),
        "eyJ0eXAiOiJKV1QiLCJhbGciOiJIUzI1NiJ9.eyJzdWIiOiJ1Iiwib3JnX2lkIjoibyIsImV4cCI6NjA0ODAwfQ\
         .l2ZfFvb0l6u-TbatnraCMmXYkhab-O0hXkWgqCTiICk"
    );
}

#[test]
fn tokens_are_good_for_the_leeway_after_they_expire() {
    let week = 604_800_000;
    let late = issue_token_at("u", "o", "s", utc_now_ms() - week - 30_000).unwrap();
    assert_eq!(verify_token(&late, "s").unwrap().org_id, "o");
}

#[test]
fn authorization_headers() {
    let e = authenticate(None, "s").unwrap_err();
    assert_eq!((e.status, e.message.as_str()), (Status::Unauthorized, "missing Authorization header"));
    for header in ["", "Bearer", "bearer x", "Basic abc"] {
        let e = authenticate(Some(header), "s").unwrap_err();
        assert_eq!((e.status, e.message.as_str()), (Status::Unauthorized, "expected 'Bearer <token>'"));
    }
    let e = authenticate(Some("Bearer x"), "s").unwrap_err();
    assert_eq!((e.status, e.message.as_str()), (Status::Unauthorized, "invalid token: InvalidToken"));
    let token = issue_token("u1", "o1", "s").unwrap();
    let user = authenticate(Some(&format!("Bearer {}", token)), "s").unwrap();
    assert_eq!((user.user_id.as_str(), user.org_id.as_str()), ("u1", "o1"));
}

#[test]
fn admins_are_who_the_claims_say() {
    let claims = Claims { sub: "u".to_string(), org_id: "o".to_string(), exp: 1 };
    let user = admin_of(Ok(claims)).unwrap();
    assert_eq!((user.user_id.as_str(), user.org_id.as_str()), ("u", "o"));
    assert_eq!(admin_of(Err(AppError::unauthorized("no"))).unwrap_err().message, "no");
}

#[test]
fn own_org_only() {
    let user = AuthUser { user_id: "u".to_string(), org_id: "o".to_string() };
    assert!(ensure_own_org(&user, "o").is_ok());
    let e = ensure_own_org(&user, "p").unwrap_err();
    assert_eq!(e.status, Status::Forbidden);
    assert_eq!(e.message, "you do not have access to this restaurant");
}
