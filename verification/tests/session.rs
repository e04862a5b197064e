use techfest::failure::Failure;
use techfest::role::Role;
use techfest::session::{
    claims_from, find_named, open, open_session, resolve, resolve_optional, seal, session_token,
    sign, start_session, subject, SessionCookie, UserClaims, COOKIE_MAX_AGE, SESSION_LIFETIME,
};
use techfest::user::User;

fn user(id: i32, password_hash: &str) -> User {
    User {
        id,
        name: "N".to_string(),
        dob: 1,
        email: "a@b".to_string(),
        phone: "1".to_string(),
        role: Role::STUDENT_COORDINATOR,
        photo_hash: Some(vec![1, 2, 3]),
        verified: true,
        password_hash: password_hash.to_string(),
    }
}

#[test]
fn session_lasts_a_day() {
    assert_eq!(SESSION_LIFETIME, 24 * 60 * 60);
    assert_eq!(COOKIE_MAX_AGE, 12 * 60 * 60);
    let claims = UserClaims::try_from(&user(4, "hash"), 1_700_000_000).unwrap();
    assert_eq!(claims, UserClaims { id: 4, hash: "hash".to_string(), exp: 1_700_086_400 });
}

#[test]
fn session_cannot_be_counted_past_the_end_of_time() {
    let u = user(4, "hash");
    assert_eq!(
        UserClaims::try_from(&u, u64::MAX - 86_399),
        Err(Failure::UpstreamUnavailable)
    );
    assert_eq!(UserClaims::try_from(&u, u64::MAX), Err(Failure::UpstreamUnavailable));
    assert_eq!(UserClaims::try_from(&u, u64::MAX - 86_400).unwrap().exp, u64::MAX);
    assert_eq!(UserClaims::try_from(&u, 0).unwrap().exp, 86_400);
}

#[test]
fn claims_expire_at_their_second() {
    let claims = UserClaims { id: 1, hash: "h".to_string(), exp: 100 };
    assert!(claims.is_live(99));
    assert!(!claims.is_live(100));
    assert!(!claims.is_live(101));
    assert!(claims.is_live(0));
}

#[test]
fn fresh_claims_resolve_to_the_user() {
    let u = user(4, "hash");
    let claims = UserClaims::try_from(&u, 1000).unwrap();
    assert_eq!(subject(&Some(claims.clone()), 1000), Ok(4));
    assert_eq!(resolve(&Some(claims.clone()), 1000, Some(u.clone())), Ok(u.clone()));
    assert_eq!(resolve(&Some(claims.clone()), 1000 + 86_399, Some(u.clone())), Ok(u.clone()));
    assert_eq!(
        resolve(&Some(claims), 1000 + 86_400, Some(u)),
        Err(Failure::Unauthenticated)
    );
}

#[test]
fn password_change_ends_the_session() {
    let before = user(4, "old");
    let after = user(4, "new");
    let claims = UserClaims::try_from(&before, 1000).unwrap();
    assert_eq!(resolve(&Some(claims.clone()), 1001, Some(before.clone())), Ok(before));
    assert_eq!(resolve(&Some(claims), 1001, Some(after)), Err(Failure::Unauthenticated));
}

#[test]
fn missing_token_unknown_user_and_foreign_user_are_unauthenticated() {
    let u = user(4, "hash");
    let claims = UserClaims::try_from(&u, 1000).unwrap();
    assert_eq!(resolve(&None, 1000, Some(u.clone())), Err(Failure::Unauthenticated));
    assert_eq!(resolve(&Some(claims.clone()), 1000, None), Err(Failure::Unauthenticated));
    assert_eq!(
        resolve(&Some(claims), 1000, Some(user(5, "hash"))),
        Err(Failure::Unauthenticated)
    );
    assert_eq!(subject(&None, 1000), Err(Failure::Unauthenticated));
    let expired = UserClaims { id: 4, hash: "hash".to_string(), exp: 1000 };
    assert_eq!(subject(&Some(expired), 1000), Err(Failure::Unauthenticated));
}

#[test]
fn optional_principal_is_anonymous_where_nothing_resolves() {
    let u = user(4, "hash");
    let claims = UserClaims::try_from(&u, 1000).unwrap();
    assert_eq!(resolve_optional(&None, 1000, None), None);
    assert_eq!(resolve_optional(&None, 1000, Some(u.clone())), None);
    assert_eq!(resolve_optional(&Some(claims.clone()), 1000, Some(u.clone())), Some(u.clone()));
    assert_eq!(resolve_optional(&Some(claims.clone()), 1000, None), None);
    assert_eq!(resolve_optional(&Some(claims.clone()), 1000, Some(user(4, "other"))), None);
    assert_eq!(resolve_optional(&Some(claims.clone()), 1000, Some(user(5, "hash"))), None);
    assert_eq!(resolve_optional(&Some(claims), 1000 + 86_400, Some(u)), None);
}

#[test]
fn session_cookie_attributes() {
    let cookie = UserClaims::cookie("signed".to_string());
    assert_eq!(cookie.name, "jwt-token");
    assert_eq!(cookie.value, "signed");
    assert_eq!(cookie.path, "/");
    assert_eq!(cookie.max_age, 43_200);
    assert!(cookie.http_only);
    assert!(cookie.secure);
    assert!(cookie.cross_site);
    assert!(cookie.partitioned);
}

#[test]
fn session_token_is_read_from_the_cookie_header() {
    assert_eq!(session_token("jwt-token=abc"), Some("abc".to_string()));
    assert_eq!(session_token("a=1; jwt-token=abc; b=2"), Some("abc".to_string()));
    assert_eq!(session_token("a=1;jwt-token=abc"), Some("abc".to_string()));
    assert_eq!(session_token("  jwt-token = abc  "), Some("abc".to_string()));
    assert_eq!(session_token("jwt-token=first; jwt-token=second"), Some("first".to_string()));
    assert_eq!(session_token("novalue; jwt-token=x"), Some("x".to_string()));
    assert_eq!(session_token("jwt-token="), Some("".to_string()));
}

#[test]
fn header_without_session_cookie() {
    assert_eq!(session_token(""), None);
    assert_eq!(session_token("a=1; b=2"), None);
    assert_eq!(session_token("jwt-token"), None);
    assert_eq!(session_token("JWT-TOKEN=abc"), None);
    assert_eq!(session_token("xjwt-token=abc"), None);
    assert_eq!(session_token("a=jwt-token"), None);
}

#[test]
fn first_pair_of_a_name_wins() {
    let pairs = vec![
        ("a".to_string(), "1".to_string()),
        ("b".to_string(), "2".to_string()),
        ("a".to_string(), "3".to_string()),
    ];
    assert_eq!(find_named(&pairs, &"a".to_string()), Some("1".to_string()));
    assert_eq!(find_named(&pairs, &"b".to_string()), Some("2".to_string()));
    assert_eq!(find_named(&pairs, &"c".to_string()), None);
    assert_eq!(find_named(&Vec::new(), &"a".to_string()), None);
}

#[test]
fn signed_token_opens_to_its_claims() {
    for claims in [
        UserClaims { id: 4, hash: "hash".to_string(), exp: 1_700_086_400 },
        UserClaims { id: 0, hash: "".to_string(), exp: 0 },
        UserClaims { id: i32::MAX, hash: "$argon2id$v=19$m=1\"\\".to_string(), exp: u64::MAX },
        UserClaims { id: i32::MIN, hash: "\u{00e9}\u{4e2d}".to_string(), exp: 1 },
    ] {
        let token = sign(&claims, b"secret").unwrap();
        assert_eq!(token.split('.').count(), 3);
        assert_eq!(open(&token, b"secret"), Some(claims));
    }
}

#[test]
fn signing_is_a_function_of_claims_and_secret() {
    let claims = UserClaims { id: 4, hash: "hash".to_string(), exp: 100 };
    let token = sign(&claims, b"secret").unwrap();
    assert_eq!(sign(&claims, b"secret").unwrap(), token);
    assert_ne!(sign(&claims, b"other").unwrap(), token);
    let later = UserClaims { exp: 101, ..claims.clone() };
    assert_ne!(sign(&later, b"secret").unwrap(), token);
    assert!(token.starts_with("eyJ"));
}

#[test]
fn token_with_broken_signature_does_not_open() {
    let claims = UserClaims { id: 4, hash: "hash".to_string(), exp: 100 };
    let token = sign(&claims, b"secret").unwrap();
    assert_eq!(open(&token, b"other secret"), None);
    assert_eq!(open(&token, b""), None);
    let mut forged = token.clone();
    let last = forged.pop().unwrap();
    forged.push(if last == 'A' { 'B' } else { 'A' });
    assert_eq!(open(&forged, b"secret"), None);
    let parts: Vec<&str> = token.split('.').collect();
    let other = sign(&UserClaims { id: 5, hash: "hash".to_string(), exp: 100 }, b"secret").unwrap();
    let stolen: Vec<&str> = other.split('.').collect();
    let spliced = format!("{}.{}.{}", parts[0], stolen[1], parts[2]);
    assert_eq!(open(&spliced, b"secret"), None);
    assert_eq!(open("", b"secret"), None);
    assert_eq!(open("a.b.c", b"secret"), None);
    assert_eq!(open("not a token", b"secret"), None);
}

#[test]
fn expired_token_still_opens_and_then_fails_to_resolve() {
    let u = user(4, "hash");
    let token = sign(&UserClaims { id: 4, hash: "hash".to_string(), exp: 10 }, b"secret").unwrap();
    let opened = open(&token, b"secret");
    assert_eq!(opened, Some(UserClaims { id: 4, hash: "hash".to_string(), exp: 10 }));
    assert_eq!(resolve(&opened, 9, Some(u.clone())), Ok(u.clone()));
    assert_eq!(resolve(&opened, 10, Some(u)), Err(Failure::Unauthenticated));
}

#[test]
fn claims_need_the_id_of_a_user() {
    assert_eq!(
        claims_from(Some((7, "h".to_string(), 9))),
        Some(UserClaims { id: 7, hash: "h".to_string(), exp: 9 })
    );
    assert_eq!(
        claims_from(Some((-2_147_483_648, "h".to_string(), 9))),
        Some(UserClaims { id: i32::MIN, hash: "h".to_string(), exp: 9 })
    );
    assert_eq!(claims_from(Some((2_147_483_648, "h".to_string(), 9))), None);
    assert_eq!(claims_from(Some((-2_147_483_649, "h".to_string(), 9))), None);
    assert_eq!(claims_from(None), None);
}

#[test]
fn started_session_resolves_from_the_cookie_header() {
    let u = user(4, "hash");
    let cookie = start_session(&u, 1000, b"secret").unwrap();
    assert_eq!(cookie.name, "jwt-token");
    assert_eq!(cookie.max_age, 43_200);
    let header = format!("theme=dark; {}={}; other=1", cookie.name, cookie.value);
    let opened = open_session(&header, b"secret");
    assert_eq!(opened, Some(UserClaims { id: 4, hash: "hash".to_string(), exp: 87_400 }));
    assert_eq!(resolve(&opened, 2000, Some(u.clone())), Ok(u.clone()));
    assert_eq!(resolve(&opened, 2000, Some(user(4, "changed"))), Err(Failure::Unauthenticated));
    assert_eq!(open_session(&header, b"another secret"), None);
    assert_eq!(open_session("theme=dark", b"secret"), None);
    assert_eq!(open_session("jwt-token=garbage", b"secret"), None);
    assert_eq!(start_session(&u, u64::MAX, b"secret"), Err(Failure::UpstreamUnavailable));
}

#[test]
fn sealed_claims_come_in_the_session_cookie() {
    let claims = UserClaims { id: 4, hash: "hash".to_string(), exp: 87_400 };
    let token = sign(&claims, b"secret").unwrap();
    let expected = SessionCookie {
        name: "jwt-token".to_string(),
        value: token,
        path: "/".to_string(),
        max_age: 43_200,
        http_only: true,
        secure: true,
        cross_site: true,
        partitioned: true,
    };
    assert_eq!(seal(&claims, b"secret"), Ok(expected.clone()));
    assert_eq!(start_session(&user(4, "hash"), 1000, b"secret"), Ok(expected));
}

#[test]
fn signing_succeeds_for_every_claim_and_secret() {
    for secret in [&b""[..], &b"k"[..], &[0u8; 200][..]] {
        for claims in [
            UserClaims { id: 0, hash: String::new(), exp: 0 },
            UserClaims { id: i32::MIN, hash: "\u{0}\n\"".to_string(), exp: u64::MAX },
            UserClaims { id: i32::MAX, hash: "x".repeat(10_000), exp: 1 },
        ] {
            let token = sign(&claims, secret).unwrap();
            assert_eq!(open(&token, secret), Some(claims));
        }
    }
}
