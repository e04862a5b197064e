use std::collections::hash_map::DefaultHasher;
use std::hash::Hasher;
use techfest::failure::Failure;
use techfest::role::Role;
use techfest::token::{
    Claim, LinkMail, ResetClaims, ResetPasswordQuery, TokenEngine, VerificationClaims,
    VerificationQuery,
};
use techfest::user::User;

fn user(id: i32, email: &str, password_hash: &str) -> User {
    User {
        id,
        name: "N".to_string(),
        dob: 1,
        email: email.to_string(),
        phone: "1".to_string(),
        role: Role::PARTICIPANT,
        photo_hash: None,
        verified: false,
        password_hash: password_hash.to_string(),
    }
}

fn verification(id: i32, pass_hash: &str) -> VerificationClaims {
    VerificationClaims { id, pass_hash: pass_hash.to_string() }
}

fn expected_verification_token(seed: u64, id: i32, pass_hash: &str) -> u64 {
    let mut hasher = DefaultHasher::new();
    hasher.write(&seed.to_le_bytes());
    hasher.write(&id.to_le_bytes());
    hasher.write(pass_hash.as_bytes());
    hasher.finish()
}

#[test]
fn verification_token_is_the_keyed_hash_of_the_fields() {
    for (seed, id, hash) in [
        (0u64, 0i32, ""),
        (1, 1, "x"),
        (0xdead_beef_0123_4567, 42, "$argon2id$v=19$m=19456,t=2,p=1$c2FsdA$aGFzaA"),
        (u64::MAX, -1, "\u{00e9}"),
        (7, i32::MIN, "abc"),
    ] {
        assert_eq!(
            verification(id, hash).token(seed),
            expected_verification_token(seed, id, hash)
        );
    }
}

#[test]
fn reset_token_is_the_keyed_hash_of_address_and_inner_token() {
    let claims = ResetClaims {
        email: "a@sliet.ac.in".to_string(),
        verification_claims: verification(5, "hash"),
    };
    let inner = expected_verification_token(11, 5, "hash");
    let mut hasher = DefaultHasher::new();
    hasher.write(&22u64.to_le_bytes());
    hasher.write(b"a@sliet.ac.in");
    hasher.write(&inner.to_le_bytes());
    assert_eq!(claims.token(22, 11), hasher.finish());
}

#[test]
fn issued_token_verifies() {
    let engine = TokenEngine::new(3, 4);
    let v = Claim::Verification(verification(9, "hash"));
    let r = Claim::Reset(ResetClaims {
        email: "a@b".to_string(),
        verification_claims: verification(9, "hash"),
    });
    assert!(engine.verify(&v, engine.issue(&v)));
    assert!(engine.verify(&r, engine.issue(&r)));
}

#[test]
fn changed_claim_does_not_verify() {
    let engine = TokenEngine::new(3, 4);
    let issued = Claim::Verification(verification(9, "hash"));
    let token = engine.issue(&issued);
    assert!(!engine.verify(&Claim::Verification(verification(10, "hash")), token));
    assert!(!engine.verify(&Claim::Verification(verification(9, "hash2")), token));
    assert!(!engine.verify(&Claim::Verification(verification(9, "")), token));
    let reset = ResetClaims { email: "a@b".to_string(), verification_claims: verification(9, "h") };
    let reset_token = engine.issue(&Claim::Reset(reset.clone()));
    let other_address = ResetClaims { email: "c@b".to_string(), ..reset.clone() };
    let other_id = ResetClaims { verification_claims: verification(8, "h"), ..reset.clone() };
    let other_hash = ResetClaims { verification_claims: verification(9, "i"), ..reset.clone() };
    assert!(!engine.verify(&Claim::Reset(other_address), reset_token));
    assert!(!engine.verify(&Claim::Reset(other_id), reset_token));
    assert!(!engine.verify(&Claim::Reset(other_hash), reset_token));
}

#[test]
fn token_of_one_purpose_does_not_verify_for_the_other() {
    let engine = TokenEngine::new(3, 4);
    let v = Claim::Verification(verification(9, "hash"));
    let r = Claim::Reset(ResetClaims {
        email: "".to_string(),
        verification_claims: verification(9, "hash"),
    });
    assert!(!engine.verify(&r, engine.issue(&v)));
    assert!(!engine.verify(&v, engine.issue(&r)));
}

#[test]
fn token_depends_on_the_seed() {
    let claim = Claim::Verification(verification(9, "hash"));
    let a = TokenEngine::new(1, 1);
    let b = TokenEngine::new(2, 1);
    assert_ne!(a.issue(&claim), b.issue(&claim));
    assert!(!b.verify(&claim, a.issue(&claim)));
    let reset = Claim::Reset(ResetClaims {
        email: "a@b".to_string(),
        verification_claims: verification(9, "hash"),
    });
    let c = TokenEngine::new(1, 2);
    assert_ne!(a.issue(&reset), b.issue(&reset));
    assert_ne!(a.issue(&reset), c.issue(&reset));
}

#[test]
fn generated_engines_have_their_own_seeds() {
    let a = TokenEngine::generate();
    let b = TokenEngine::generate();
    assert_ne!(a, b);
    assert_ne!(a.verification_seed, a.reset_seed);
    let claim = Claim::Verification(verification(1, "h"));
    assert!(a.verify(&claim, a.issue(&claim)));
    assert!(!b.verify(&claim, a.issue(&claim)));
}

#[test]
fn password_change_invalidates_verification_token() {
    let engine = TokenEngine::new(5, 6);
    let before = user(3, "a@b", "old-hash");
    let link = engine.verification_link(&before);
    assert_eq!(link.id, 3);
    assert_eq!(engine.redeem_verification(&link, Some("old-hash".to_string())), Ok(()));
    assert_eq!(
        engine.redeem_verification(&link, Some("new-hash".to_string())),
        Err(Failure::Unauthorized)
    );
}

#[test]
fn verification_fails_for_unknown_user_and_wrong_token() {
    let engine = TokenEngine::new(5, 6);
    let u = user(3, "a@b", "hash");
    let link = engine.verification_link(&u);
    assert_eq!(engine.redeem_verification(&link, None), Err(Failure::Unauthorized));
    let wrong = VerificationQuery { id: 3, token: link.token.wrapping_add(1) };
    assert_eq!(
        engine.redeem_verification(&wrong, Some("hash".to_string())),
        Err(Failure::Unauthorized)
    );
    let other = VerificationQuery { id: 4, token: link.token };
    assert_eq!(
        engine.redeem_verification(&other, Some("hash".to_string())),
        Err(Failure::Unauthorized)
    );
}

#[test]
fn reset_link_is_bound_to_address_and_password() {
    let engine = TokenEngine::new(5, 6);
    let u = user(3, "a@b", "hash");
    let link: ResetPasswordQuery = engine.reset_link(&u);
    assert_eq!(link.id, 3);
    assert_eq!(engine.redeem_reset(link.token, &Some(u.clone())), Ok(()));
    assert_eq!(engine.redeem_reset(link.token, &None), Err(Failure::Unauthorized));
    let moved = user(3, "c@d", "hash");
    assert_eq!(engine.redeem_reset(link.token, &Some(moved)), Err(Failure::Unauthorized));
    let changed = user(3, "a@b", "hash2");
    assert_eq!(engine.redeem_reset(link.token, &Some(changed)), Err(Failure::Unauthorized));
    assert_eq!(
        engine.redeem_reset(engine.verification_link(&u).token, &Some(u)),
        Err(Failure::Unauthorized)
    );
}

#[test]
fn claims_are_read_off_the_user() {
    let u = user(3, "a@b", "hash");
    assert_eq!(VerificationClaims::from(&u), verification(3, "hash"));
    assert_eq!(
        ResetClaims::from(&u),
        ResetClaims { email: "a@b".to_string(), verification_claims: verification(3, "hash") }
    );
}

#[test]
fn reset_mail_goes_to_the_user_found_and_to_nobody_else() {
    let engine = TokenEngine::new(5, 6);
    let mut u = user(3, "a@b", "hash");
    u.name = "Asha".to_string();
    assert_eq!(
        engine.request_reset(&Some(u.clone())),
        Ok(LinkMail {
            name: "Asha".to_string(),
            email: "a@b".to_string(),
            id: 3,
            token: engine.reset_link(&u).token,
        })
    );
    assert_eq!(engine.request_reset(&None), Err(Failure::Unauthorized));
    let mail = engine.request_reset(&Some(u.clone())).unwrap();
    assert_eq!(engine.redeem_reset(mail.token, &Some(u.clone())), Ok(()));
    assert_eq!(
        engine.verification_mail(&u),
        LinkMail {
            name: "Asha".to_string(),
            email: "a@b".to_string(),
            id: 3,
            token: engine.verification_link(&u).token,
        }
    );
}
