//! The user record that acts as principal, and the rules read off its
//! e-mail address.

use crate::failure::Failure;
use crate::role::Role;
use crate::text::{
    after_last, after_last_at, after_last_of_none, ends_with, folded, is_last_index, trimmed,
    trimmed_at, utf8, AT_SIGN,
};
use crate::text::{last_index_in, range_equals, range_matches_folded, trim_range};
use vstd::prelude::*;

verus! {

/// A stored user. After a session has been resolved this is the principal
/// of the request: `id`, `role` and `verified` are what policy reads.
#[derive(Clone, Debug, PartialEq, Eq)]
pub struct User {
    pub id: i32,
    pub name: String,
    /// Date of birth as a day number of the proleptic Gregorian calendar,
    /// day 1 being the first of January of the year 1.
    pub dob: i32,
    pub email: String,
    pub phone: String,
    pub role: Role,
    pub photo_hash: Option<Vec<u8>>,
    pub verified: bool,
    pub password_hash: String,
}

/// The institution's own mail domain, `sliet.ac.in`, as bytes.
pub open spec fn institution_domain() -> Seq<u8> {
    seq![0x73u8, 0x6c, 0x69, 0x65, 0x74, 0x2e, 0x61, 0x63, 0x2e, 0x69, 0x6e]
}

/// The part of `address` behind its last `@`, if it has one.
pub open spec fn mail_domain(address: Seq<u8>) -> Option<Seq<u8>> {
    after_last(address, AT_SIGN)
}

/// Whether the address, whitespace at its ends aside, lies in the
/// institution's domain, spelled exactly.
pub open spec fn is_institutional(address: Seq<u8>) -> bool {
    mail_domain(trimmed(address)) == Some(institution_domain())
}

/// What sign-up as a student makes of an address: it must hold an `@`, and
/// what follows the last one must be the institution's domain in any letter
/// case.
pub open spec fn student_address_verdict(address: Seq<u8>) -> Result<(), Failure> {
    match mail_domain(address) {
        None => Err(Failure::ValidationFailed),
        Some(domain) => if folded(domain) == institution_domain() {
            Ok(())
        } else {
            Err(Failure::Unauthorized)
        },
    }
}

/// The domain of an address is what follows the position of its last `@`.
pub proof fn mail_domain_at(address: Seq<u8>, at: int)
    requires
        is_last_index(address, AT_SIGN, at),
    ensures
        mail_domain(address) == Some(address.subrange(at + 1, address.len() as int)),
{
    after_last_at(address, AT_SIGN, at);
}

/// The institution's domain as an array.
fn domain_bytes() -> (r: [u8; 11])
    ensures
        r@ == institution_domain(),
{
    let bytes: [u8; 11] = [0x73, 0x6c, 0x69, 0x65, 0x74, 0x2e, 0x61, 0x63, 0x2e, 0x69, 0x6e];
    assert(bytes@ =~= institution_domain());
    bytes
}

/// Whether an address, whitespace at its ends aside, lies in the
/// institution's domain.
pub fn address_is_institutional(address: &str) -> (r: bool)
    ensures
        r == is_institutional(utf8(address@)),
{
    let bytes = address.as_bytes();
    let (from, to) = trim_range(bytes);
    proof {
        trimmed_at(bytes@, from as int, to as int);
    }
    match last_index_in(bytes, from, to, AT_SIGN) {
        None => {
            proof {
                after_last_of_none(bytes@.subrange(from as int, to as int), AT_SIGN);
            }
            false
        },
        Some(at) => {
            let ghost part = bytes@.subrange(from as int, to as int);
            proof {
                mail_domain_at(part, at - from);
                assert(part.subrange(at - from + 1, part.len() as int) =~= bytes@.subrange(
                    at + 1,
                    to as int,
                ));
            }
            let domain = domain_bytes();
            range_equals(bytes, at + 1, to, domain.as_slice())
        },
    }
}

/// Judges the address given at student sign-up.
pub fn check_student_address(address: &str) -> (r: Result<(), Failure>)
    ensures
        r == student_address_verdict(utf8(address@)),
{
    let bytes = address.as_bytes();
    let n: usize = bytes.len();
    assert(bytes@.subrange(0, n as int) =~= bytes@);
    match last_index_in(bytes, 0, n, AT_SIGN) {
        None => {
            proof {
                after_last_of_none(bytes@, AT_SIGN);
            }
            Err(Failure::ValidationFailed)
        },
        Some(at) => {
            proof {
                mail_domain_at(bytes@, at as int);
            }
            let domain = domain_bytes();
            let same = range_matches_folded(bytes, at + 1, n, domain.as_slice());
            proof {
                assert(folded(institution_domain()) =~= institution_domain());
            }
            if same {
                Ok(())
            } else {
                Err(Failure::Unauthorized)
            }
        },
    }
}

impl User {
    /// Whether the user counts as having paid: members of the institution
    /// always do, anyone else by the payment record the caller looked up.
    pub open spec fn payment_done(self, payment_recorded: bool) -> bool {
        is_institutional(utf8(self.email@)) || payment_recorded
    }

    /// The payment-satisfied predicate. `payment_recorded` is what the
    /// payment records say of this user.
    pub fn is_payment_done(&self, payment_recorded: bool) -> (r: bool)
        ensures
            r == self.payment_done(payment_recorded),
    {
        address_is_institutional(self.email.as_str()) || payment_recorded
    }
}

/// An address that ends in `@sliet.ac.in` is institutional whatever stands
/// before, since the domain itself holds no `@`.
pub proof fn institutional_by_suffix(address: Seq<u8>)
    requires
        ends_with(address, seq![AT_SIGN] + institution_domain()),
    ensures
        mail_domain(address) == Some(institution_domain()),
{
    let tail = seq![AT_SIGN] + institution_domain();
    let at = address.len() - 12;
    assert(tail.len() == 12);
    let cut = address.subrange(at, address.len() as int);
    assert(cut == tail);
    assert(address[at] == cut[0]);
    assert forall|j: int| at < j < address.len() implies #[trigger] address[j] != AT_SIGN by {
        assert(address[j] == cut[j - at]);
        assert(cut[j - at] == institution_domain()[j - at - 1]);
    }
    mail_domain_at(address, at);
    assert(address.subrange(at + 1, address.len() as int) =~= institution_domain()) by {
        assert forall|k: int| 0 <= k < 11 implies address.subrange(
            at + 1,
            address.len() as int,
        )[k] == institution_domain()[k] by {
            assert(address[at + 1 + k] == cut[k + 1]);
        }
    }
}

} // verus!
