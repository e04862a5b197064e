//! Stateless tokens for e-mail verification and password reset.
//!
//! A token is a keyed hash of a claim: the secret seed of its purpose goes
//! into the hasher first, then the fields of the claim in a fixed order.
//! Nothing is stored when a token is issued. To verify one, the same hash is
//! computed from what the user record holds now and compared with the token
//! that came in. Both claims hold the password hash, so a change of password
//! invalidates every token issued before it. The tokens carry no expiry of
//! their own, and since the seeds live in memory only, a restart of the
//! process invalidates all of them.

use crate::failure::Failure;
use crate::text::utf8;
use crate::user::User;
use std::collections::hash_map::DefaultHasher;
use std::hash::Hasher;
use vstd::bytes::{spec_u32_to_le_bytes, spec_u64_to_le_bytes, u32_to_le_bytes, u64_to_le_bytes};
use vstd::prelude::*;
use vstd::std_specs::hash::DefaultHasherAdditionalSpecFns;

verus! {

/// What a verification token vouches for.
#[derive(Clone, Debug, PartialEq, Eq)]
pub struct VerificationClaims {
    pub id: i32,
    pub pass_hash: String,
}

/// What a password-reset token vouches for.
#[derive(Clone, Debug, PartialEq, Eq)]
pub struct ResetClaims {
    pub email: String,
    pub verification_claims: VerificationClaims,
}

/// A claim of either purpose.
#[derive(Clone, Debug, PartialEq, Eq)]
pub enum Claim {
    Verification(VerificationClaims),
    Reset(ResetClaims),
}

/// The request that redeems a verification token.
#[derive(Clone, Copy, Debug, PartialEq, Eq, Structural)]
pub struct VerificationQuery {
    pub id: i32,
    pub token: u64,
}

/// The request that redeems a reset token and sets the new password.
#[derive(Clone, Debug)]
pub struct PasswordResetQuery {
    pub id: i32,
    pub token: u64,
    pub password: String,
}

/// The request for a reset mail.
#[derive(Clone, Debug)]
pub struct ResetSendQuery {
    pub email: String,
}

/// The query part of a reset link.
#[derive(Clone, Copy, Debug, PartialEq, Eq, Structural)]
pub struct ResetPasswordQuery {
    pub id: i32,
    pub token: u64,
}

/// A mail that carries a link: whom it goes to, and the query of the link.
#[derive(Clone, Debug, PartialEq, Eq)]
pub struct LinkMail {
    pub name: String,
    pub email: String,
    pub id: i32,
    pub token: u64,
}

/// The secret seeds, one for each purpose. They are made once when the
/// process starts and handed to whoever issues or verifies tokens.
#[derive(Clone, Copy, Debug, PartialEq, Eq, Structural)]
pub struct TokenEngine {
    pub verification_seed: u64,
    pub reset_seed: u64,
}

/// The bytes of a user id: its two's complement in 32 bits, least
/// significant byte first.
pub open spec fn id_bytes(id: i32) -> Seq<u8> {
    spec_u32_to_le_bytes(#[verifier::truncate] (id as u32))
}

/// The hash of `fields`, written one after the other into a fresh hasher
/// behind the eight bytes of `seed`.
pub open spec fn keyed_hash(seed: u64, fields: Seq<Seq<u8>>) -> u64 {
    DefaultHasher::spec_finish(seq![spec_u64_to_le_bytes(seed)] + fields)
}

impl VerificationClaims {
    /// The hash input: the id, then the password hash as raw bytes.
    pub open spec fn fields(self) -> Seq<Seq<u8>> {
        seq![id_bytes(self.id), utf8(self.pass_hash@)]
    }

    pub open spec fn token_under(self, seed: u64) -> u64 {
        keyed_hash(seed, self.fields())
    }

    /// The token of this claim under `seed`.
    pub fn token(&self, seed: u64) -> (t: u64)
        ensures
            t == self.token_under(seed),
    {
        let mut hasher = DefaultHasher::new();
        let seed_bytes = u64_to_le_bytes(seed);
        hasher.write(seed_bytes.as_slice());
        let id = u32_to_le_bytes(self.id as u32);
        hasher.write(id.as_slice());
        hasher.write(self.pass_hash.as_str().as_bytes());
        proof {
            assert(hasher@ =~= seq![spec_u64_to_le_bytes(seed)] + self.fields());
        }
        hasher.finish()
    }
}

impl ResetClaims {
    /// The hash input: the address as raw bytes, then the verification token
    /// of the claim inside.
    pub open spec fn fields(self, verification_seed: u64) -> Seq<Seq<u8>> {
        seq![
            utf8(self.email@),
            spec_u64_to_le_bytes(self.verification_claims.token_under(verification_seed)),
        ]
    }

    pub open spec fn token_under(self, reset_seed: u64, verification_seed: u64) -> u64 {
        keyed_hash(reset_seed, self.fields(verification_seed))
    }

    /// The claim that the record of `user` stands for now.
    pub open spec fn of(user: User) -> ResetClaims {
        ResetClaims {
            email: user.email,
            verification_claims: VerificationClaims { id: user.id, pass_hash: user.password_hash },
        }
    }

    /// The token of this claim under the two seeds.
    pub fn token(&self, reset_seed: u64, verification_seed: u64) -> (t: u64)
        ensures
            t == self.token_under(reset_seed, verification_seed),
    {
        let inner = self.verification_claims.token(verification_seed);
        let mut hasher = DefaultHasher::new();
        let seed_bytes = u64_to_le_bytes(reset_seed);
        hasher.write(seed_bytes.as_slice());
        hasher.write(self.email.as_str().as_bytes());
        let inner_bytes = u64_to_le_bytes(inner);
        hasher.write(inner_bytes.as_slice());
        proof {
            assert(hasher@ =~= seq![spec_u64_to_le_bytes(reset_seed)] + self.fields(
                verification_seed,
            ));
        }
        hasher.finish()
    }

    /// The claim that the record of `user` stands for now.
    pub fn from(value: &User) -> (claims: ResetClaims)
        ensures
            claims == ResetClaims::of(*value),
    {
        ResetClaims {
            email: value.email.clone(),
            verification_claims: VerificationClaims {
                id: value.id,
                pass_hash: value.password_hash.clone(),
            },
        }
    }
}

impl VerificationClaims {
    /// The claim that the record of `user` stands for now.
    pub open spec fn of(user: User) -> VerificationClaims {
        VerificationClaims { id: user.id, pass_hash: user.password_hash }
    }

    /// The claim that the record of `user` stands for now.
    pub fn from(value: &User) -> (claims: VerificationClaims)
        ensures
            claims == VerificationClaims::of(*value),
    {
        VerificationClaims { id: value.id, pass_hash: value.password_hash.clone() }
    }
}

/// Calls `rand::random::<u64>()`. Nothing is claimed of the number.
#[verifier::external_body]
fn random_seed() -> u64 {
    rand::random::<u64>()
}

impl TokenEngine {
    /// The token that stands for `claim`.
    pub open spec fn token_of(self, claim: Claim) -> u64 {
        match claim {
            Claim::Verification(c) => c.token_under(self.verification_seed),
            Claim::Reset(c) => c.token_under(self.reset_seed, self.verification_seed),
        }
    }

    /// An engine over the given seeds.
    pub fn new(verification_seed: u64, reset_seed: u64) -> (engine: TokenEngine)
        ensures
            engine.verification_seed == verification_seed,
            engine.reset_seed == reset_seed,
    {
        TokenEngine { verification_seed, reset_seed }
    }

    /// An engine over two fresh random seeds.
    pub fn generate() -> TokenEngine {
        let verification_seed = random_seed();
        let reset_seed = random_seed();
        TokenEngine::new(verification_seed, reset_seed)
    }

    /// Issues the token for `claim`.
    pub fn issue(&self, claim: &Claim) -> (token: u64)
        ensures
            token == self.token_of(*claim),
    {
        match claim {
            Claim::Verification(c) => c.token(self.verification_seed),
            Claim::Reset(c) => c.token(self.reset_seed, self.verification_seed),
        }
    }

    /// Whether `token` is the token of `claim_now`.
    pub open spec fn accepts(self, claim_now: Claim, token: u64) -> bool {
        token == self.token_of(claim_now)
    }

    /// Whether `token` is the token of `claim_now`, the claim as the user
    /// record states it at this moment.
    pub fn verify(&self, claim_now: &Claim, token: u64) -> (valid: bool)
        ensures
            valid == self.accepts(*claim_now, token),
    {
        self.issue(claim_now) == token
    }

    /// What redeeming a verification token comes to. `stored_hash` is the
    /// password hash found for the id in the query, if the user exists.
    pub open spec fn verification_verdict(
        self,
        query: VerificationQuery,
        stored_hash: Option<String>,
    ) -> Result<(), Failure> {
        match stored_hash {
            Some(hash) if self.accepts(
                Claim::Verification(VerificationClaims { id: query.id, pass_hash: hash }),
                query.token,
            ) => Ok(()),
            _ => Err(Failure::Unauthorized),
        }
    }

    /// Decides whether the user named in `query` may be marked verified.
    pub fn redeem_verification(&self, query: &VerificationQuery, stored_hash: Option<String>) -> (r:
        Result<(), Failure>)
        ensures
            r == self.verification_verdict(*query, stored_hash),
    {
        match stored_hash {
            None => Err(Failure::Unauthorized),
            Some(hash) => {
                let claim = Claim::Verification(
                    VerificationClaims { id: query.id, pass_hash: hash },
                );
                if self.verify(&claim, query.token) {
                    Ok(())
                } else {
                    Err(Failure::Unauthorized)
                }
            },
        }
    }

    /// What redeeming a reset token comes to. `user` is the record found
    /// for the id in the query, if there is one.
    pub open spec fn reset_verdict(self, token: u64, user: Option<User>) -> Result<(), Failure> {
        match user {
            Some(u) if self.accepts(Claim::Reset(ResetClaims::of(u)), token) => Ok(()),
            _ => Err(Failure::Unauthorized),
        }
    }

    /// Decides whether the password of the user found for a reset request
    /// may be replaced.
    pub fn redeem_reset(&self, token: u64, user: &Option<User>) -> (r: Result<(), Failure>)
        ensures
            r == self.reset_verdict(token, *user),
    {
        match user {
            None => Err(Failure::Unauthorized),
            Some(u) => {
                let claim = Claim::Reset(ResetClaims::from(u));
                if self.verify(&claim, token) {
                    Ok(())
                } else {
                    Err(Failure::Unauthorized)
                }
            },
        }
    }

    /// The mail that a request for a reset leads to, given the record found
    /// for the address: a mail to that user with the reset link of the
    /// record as it stands. An address that belongs to nobody gets no mail.
    pub open spec fn reset_mail(self, found: Option<User>) -> Result<LinkMail, Failure> {
        match found {
            Some(user) => Ok(
                LinkMail {
                    name: user.name,
                    email: user.email,
                    id: user.id,
                    token: self.token_of(Claim::Reset(ResetClaims::of(user))),
                },
            ),
            None => Err(Failure::Unauthorized),
        }
    }

    /// Decides on a request for a reset mail.
    pub fn request_reset(&self, found: &Option<User>) -> (r: Result<LinkMail, Failure>)
        ensures
            r == self.reset_mail(*found),
    {
        match found {
            None => Err(Failure::Unauthorized),
            Some(user) => {
                let link = self.reset_link(user);
                Ok(
                    LinkMail {
                        name: user.name.clone(),
                        email: user.email.clone(),
                        id: link.id,
                        token: link.token,
                    },
                )
            },
        }
    }

    /// The mail that asks a user to verify the address.
    pub fn verification_mail(&self, user: &User) -> (mail: LinkMail)
        ensures
            mail == (LinkMail {
                name: user.name,
                email: user.email,
                id: user.id,
                token: self.token_of(Claim::Verification(VerificationClaims::of(*user))),
            }),
    {
        let link = self.verification_link(user);
        LinkMail {
            name: user.name.clone(),
            email: user.email.clone(),
            id: link.id,
            token: link.token,
        }
    }

    /// The query of the link mailed for verification: the user's id and the
    /// token of the record as it stands.
    pub fn verification_link(&self, user: &User) -> (query: VerificationQuery)
        ensures
            query.id == user.id,
            query.token == self.token_of(Claim::Verification(VerificationClaims::of(*user))),
    {
        let claims = VerificationClaims::from(user);
        VerificationQuery { id: user.id, token: claims.token(self.verification_seed) }
    }

    /// The query of the link mailed for a password reset.
    pub fn reset_link(&self, user: &User) -> (query: ResetPasswordQuery)
        ensures
            query.id == user.id,
            query.token == self.token_of(Claim::Reset(ResetClaims::of(*user))),
    {
        let claims = ResetClaims::from(user);
        ResetPasswordQuery {
            id: user.id,
            token: claims.token(self.reset_seed, self.verification_seed),
        }
    }
}

/// A token verifies against the claim it was issued for.
pub proof fn issued_token_verifies(engine: TokenEngine, claim: Claim)
    ensures
        engine.accepts(claim, engine.token_of(claim)),
{
}

/// The bytes of an id determine the id.
pub proof fn id_bytes_are_injective(a: i32, b: i32)
    requires
        a != b,
    ensures
        id_bytes(a) != id_bytes(b),
{
    vstd::bytes::lemma_auto_spec_u32_to_from_le_bytes();
    assert(#[verifier::truncate] (a as u32) != #[verifier::truncate] (b as u32)) by (bit_vector)
        requires
            a != b,
    ;
    let x = #[verifier::truncate] (a as u32);
    let y = #[verifier::truncate] (b as u32);
    assert(spec_u32_to_le_bytes(x).len() == 4);
    assert(spec_u32_to_le_bytes(y).len() == 4);
}

/// The bytes of a text determine the text.
pub proof fn utf8_is_injective(a: Seq<char>, b: Seq<char>)
    requires
        a != b,
    ensures
        utf8(a) != utf8(b),
{
    vstd::utf8::encode_utf8_decode_utf8(a);
    vstd::utf8::encode_utf8_decode_utf8(b);
}

/// Two verification claims that differ in any field are hashed from
/// different input. So a token issued for one verifies against the other
/// only if the hash function takes two different inputs to one value.
pub proof fn changed_verification_claim(
    engine: TokenEngine,
    issued: VerificationClaims,
    now: VerificationClaims,
)
    requires
        issued.id != now.id || issued.pass_hash@ != now.pass_hash@,
    ensures
        issued.fields() != now.fields(),
        engine.accepts(Claim::Verification(now), engine.token_of(Claim::Verification(issued)))
            <==> keyed_hash(engine.verification_seed, issued.fields()) == keyed_hash(
            engine.verification_seed,
            now.fields(),
        ),
{
    if issued.id != now.id {
        id_bytes_are_injective(issued.id, now.id);
        assert(issued.fields()[0] != now.fields()[0]);
    } else {
        utf8_is_injective(issued.pass_hash@, now.pass_hash@);
        assert(issued.fields()[1] != now.fields()[1]);
    }
}

/// Two reset claims that differ in the address, or whose inner claims have
/// different tokens, are hashed from different input.
pub proof fn changed_reset_claim(engine: TokenEngine, issued: ResetClaims, now: ResetClaims)
    requires
        issued.email@ != now.email@ || issued.verification_claims.token_under(
            engine.verification_seed,
        ) != now.verification_claims.token_under(engine.verification_seed),
    ensures
        issued.fields(engine.verification_seed) != now.fields(engine.verification_seed),
        engine.accepts(Claim::Reset(now), engine.token_of(Claim::Reset(issued))) <==> keyed_hash(
            engine.reset_seed,
            issued.fields(engine.verification_seed),
        ) == keyed_hash(engine.reset_seed, now.fields(engine.verification_seed)),
{
    let seed = engine.verification_seed;
    if issued.email@ != now.email@ {
        utf8_is_injective(issued.email@, now.email@);
        assert(issued.fields(seed)[0] != now.fields(seed)[0]);
    } else {
        vstd::bytes::lemma_auto_spec_u64_to_from_le_bytes();
        assert(issued.fields(seed)[1] != now.fields(seed)[1]);
    }
}

/// A reset token does not survive the reset. Once the password hash of the
/// user differs, the token issued before is hashed from other input than the
/// token the record stands for now, at the inner hash and so at the outer:
/// it is still accepted only if the hash function takes two different
/// inputs to one value, at one of the two.
pub proof fn replayed_reset_is_refused(engine: TokenEngine, before: User, after: User)
    requires
        before.id == after.id,
        before.password_hash@ != after.password_hash@,
    ensures
        VerificationClaims::of(before).fields() != VerificationClaims::of(after).fields(),
        engine.reset_verdict(
            engine.token_of(Claim::Reset(ResetClaims::of(before))),
            Some(after),
        ).is_ok() ==> keyed_hash(
            engine.verification_seed,
            VerificationClaims::of(before).fields(),
        ) == keyed_hash(engine.verification_seed, VerificationClaims::of(after).fields()) || (
        ResetClaims::of(before).fields(engine.verification_seed) != ResetClaims::of(after).fields(
            engine.verification_seed,
        ) && keyed_hash(
            engine.reset_seed,
            ResetClaims::of(before).fields(engine.verification_seed),
        ) == keyed_hash(
            engine.reset_seed,
            ResetClaims::of(after).fields(engine.verification_seed),
        )),
        engine.reset_verdict(
            engine.token_of(Claim::Reset(ResetClaims::of(before))),
            Some(after),
        ).is_err() ==> engine.reset_verdict(
            engine.token_of(Claim::Reset(ResetClaims::of(before))),
            Some(after),
        ) == Err::<(), Failure>(Failure::Unauthorized),
{
    changed_verification_claim(
        engine,
        VerificationClaims::of(before),
        VerificationClaims::of(after),
    );
    let inner_before = VerificationClaims::of(before).token_under(engine.verification_seed);
    let inner_after = VerificationClaims::of(after).token_under(engine.verification_seed);
    if inner_before != inner_after {
        changed_reset_claim(engine, ResetClaims::of(before), ResetClaims::of(after));
    }
}

/// A change of password changes what the verification token of the user is
/// hashed from: a token issued before the change verifies afterwards only
/// if the hash function takes the two inputs to one value.
pub proof fn password_change_invalidates(engine: TokenEngine, before: User, after: User)
    requires
        before.id == after.id,
        before.password_hash@ != after.password_hash@,
    ensures
        VerificationClaims::of(before).fields() != VerificationClaims::of(after).fields(),
        engine.verification_verdict(
            VerificationQuery {
                id: before.id,
                token: engine.token_of(Claim::Verification(VerificationClaims::of(before))),
            },
            Some(after.password_hash),
        ).is_ok() <==> keyed_hash(
            engine.verification_seed,
            VerificationClaims::of(before).fields(),
        ) == keyed_hash(engine.verification_seed, VerificationClaims::of(after).fields()),
{
    changed_verification_claim(
        engine,
        VerificationClaims::of(before),
        VerificationClaims::of(after),
    );
}

} // verus!
