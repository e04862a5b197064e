//! The closed set of roles and their authority ladder.

use vstd::prelude::*;

verus! {

/// The role a user holds. Authority descends in declaration order, but the
/// ladder is defined by [`Role::rank`], not by the order of the variants.
#[allow(non_camel_case_types)]
#[derive(Clone, Copy, Debug, PartialEq, Eq, Structural)]
pub enum Role {
    SUPER_ADMIN,
    FACULTY_COORDINATOR,
    STUDENT_COORDINATOR,
    PARTICIPANT,
}

impl Role {
    /// Position on the authority ladder: the larger, the more authority.
    pub open spec fn rank(self) -> nat {
        match self {
            Role::SUPER_ADMIN => 3,
            Role::FACULTY_COORDINATOR => 2,
            Role::STUDENT_COORDINATOR => 1,
            Role::PARTICIPANT => 0,
        }
    }

    /// The name shown to people.
    pub open spec fn label_text(self) -> Seq<char> {
        match self {
            Role::SUPER_ADMIN => "Super Admin"@,
            Role::FACULTY_COORDINATOR => "Faculty Coordinator"@,
            Role::STUDENT_COORDINATOR => "Student Coordinator"@,
            Role::PARTICIPANT => "Participant"@,
        }
    }

    /// All roles, highest authority first.
    pub open spec fn ladder() -> Seq<Role> {
        seq![
            Role::SUPER_ADMIN,
            Role::FACULTY_COORDINATOR,
            Role::STUDENT_COORDINATOR,
            Role::PARTICIPANT,
        ]
    }

    pub fn authority(self) -> (r: u8)
        ensures
            r == self.rank(),
    {
        match self {
            Role::SUPER_ADMIN => 3,
            Role::FACULTY_COORDINATOR => 2,
            Role::STUDENT_COORDINATOR => 1,
            Role::PARTICIPANT => 0,
        }
    }

    /// Whether `self` stands strictly above `other` on the ladder.
    pub fn outranks(self, other: Role) -> (r: bool)
        ensures
            r == (self.rank() > other.rank()),
    {
        self.authority() > other.authority()
    }

    pub fn is_admin(self) -> (r: bool)
        ensures
            r == (self == Role::SUPER_ADMIN),
    {
        match self {
            Role::SUPER_ADMIN => true,
            _ => false,
        }
    }

    pub fn label(self) -> (r: String)
        ensures
            r@ == self.label_text(),
    {
        match self {
            Role::SUPER_ADMIN => "Super Admin".to_owned(),
            Role::FACULTY_COORDINATOR => "Faculty Coordinator".to_owned(),
            Role::STUDENT_COORDINATOR => "Student Coordinator".to_owned(),
            Role::PARTICIPANT => "Participant".to_owned(),
        }
    }

    pub fn variants() -> (r: Vec<Role>)
        ensures
            r@ == Role::ladder(),
    {
        let mut all: Vec<Role> = Vec::new();
        all.push(Role::SUPER_ADMIN);
        all.push(Role::FACULTY_COORDINATOR);
        all.push(Role::STUDENT_COORDINATOR);
        all.push(Role::PARTICIPANT);
        proof {
            assert(all@ =~= Role::ladder());
        }
        all
    }
}

/// The ladder is a strict total order: two roles of equal rank are the same
/// role, and the administrator stands above every other role.
pub proof fn ladder_is_total(a: Role, b: Role)
    ensures
        a.rank() == b.rank() <==> a == b,
        a != Role::SUPER_ADMIN ==> Role::SUPER_ADMIN.rank() > a.rank(),
        Role::ladder().contains(a),
{
    assert(Role::ladder()[0] == Role::SUPER_ADMIN);
    assert(Role::ladder()[1] == Role::FACULTY_COORDINATOR);
    assert(Role::ladder()[2] == Role::STUDENT_COORDINATOR);
    assert(Role::ladder()[3] == Role::PARTICIPANT);
}

} // verus!
