//! The authorization policy: who may do what to a domain, an event or a
//! workshop.
//!
//! A decision is a function of the principal, the operation and the
//! coordinator relations that hold between the two. It runs in three steps:
//! the verification gate of the operation, the role gate, and for the two
//! coordinator roles the relation lookups. A student coordinator is let
//! through by either of two independent relations, one to the domain and one
//! to the event or workshop itself; only when both are missing is the
//! operation denied.

use crate::failure::Failure;
use crate::role::Role;
use crate::user::User;
use vstd::prelude::*;

verus! {

/// Everything policy is asked about.
#[derive(Clone, Copy, Debug, PartialEq, Eq, Structural)]
pub enum Operation {
    CreateDomain,
    DeleteDomain,
    ChangeDomain,
    SetDomainPhoto,
    AddDomainFacultyCoordinator,
    AddDomainStudentCoordinator,
    CreateEvent,
    DeleteEvent,
    ChangeEvent,
    SetEventPhoto,
    AddEventCoordinator,
    GetEventIndividualAttendance,
    MarkEventIndividualAttendance,
    RemoveEventIndividualAttendance,
    GetEventTeamAttendance,
    MarkEventTeamAttendance,
    RemoveEventTeamAttendance,
    JoinEventIndividual,
    LeaveEventIndividual,
    CreateWorkshop,
    DeleteWorkshop,
    ChangeWorkshop,
    SetWorkshopPhoto,
    AddWorkshopCoordinator,
    GetWorkshopAttendance,
    MarkWorkshopAttendance,
    RemoveWorkshopAttendance,
    JoinWorkshop,
    LeaveWorkshop,
}

/// What an operation asks of the caller before any role is looked at.
#[derive(Clone, Copy, Debug, PartialEq, Eq, Structural)]
pub enum Gate {
    /// Nothing.
    Open,
    /// A verified e-mail address.
    Verified,
    /// A verified e-mail address and a satisfied payment.
    VerifiedAndPaid,
}

/// Which roles and relations let a caller through.
#[derive(Clone, Copy, Debug, PartialEq, Eq, Structural)]
pub enum Rule {
    /// Any role.
    Anyone,
    /// The administrator alone.
    AdminOnly,
    /// The administrator, or a faculty coordinator of the domain.
    FacultyOfDomain,
    /// The administrator, or a faculty or student coordinator of the domain.
    DomainCoordinator,
    /// As `DomainCoordinator`, and a student coordinator of the event or
    /// workshop itself passes too.
    ResourceCoordinator,
}

/// The family of resources an operation acts on.
#[derive(Clone, Copy, Debug, PartialEq, Eq, Structural)]
pub enum ResourceKind {
    Domain,
    Event,
    Workshop,
}

/// The outcome of one relation lookup.
#[derive(Clone, Copy, Debug, PartialEq, Eq, Structural)]
pub enum Lookup {
    /// The row exists.
    Found,
    /// No such row.
    Missing,
    /// The lookup itself failed. Policy treats this as `Missing`.
    Failed,
}

/// The three relation lookups a decision may read.
#[derive(Clone, Copy, Debug, PartialEq, Eq, Structural)]
pub struct Paths {
    /// A faculty-coordinator row for (caller, domain of the target).
    pub faculty_domain: Lookup,
    /// A student-coordinator row for (caller, domain of the target).
    pub student_domain: Lookup,
    /// A student-coordinator row for (caller, the event or workshop).
    pub student_resource: Lookup,
}

/// Which lookups a decision needs.
#[derive(Clone, Copy, Debug, PartialEq, Eq, Structural)]
pub struct LookupPlan {
    pub faculty_domain: bool,
    pub student_domain: bool,
    pub student_resource: bool,
}

#[derive(Clone, Copy, Debug, PartialEq, Eq, Structural)]
pub enum Decision {
    Allow,
    Deny,
}

/// What an operation is aimed at. For an operation on a domain, and for the
/// creation of an event or workshop, `domain_id` is that domain and
/// `resource_id` is not read. For an operation on an existing event or
/// workshop, `resource_id` names it and `domain_id` is the domain it
/// belongs to.
#[derive(Clone, Copy, Debug, PartialEq, Eq, Structural)]
pub struct Target {
    pub domain_id: i32,
    pub resource_id: i32,
}

/// The coordinator relations, each row a pair of the coordinator's user id
/// and the id of what is coordinated.
#[derive(Clone, Debug)]
pub struct CoordinatorRows {
    pub faculty_domain: Vec<(i32, i32)>,
    pub student_domain: Vec<(i32, i32)>,
    pub student_event: Vec<(i32, i32)>,
    pub student_workshop: Vec<(i32, i32)>,
}

impl Lookup {
    pub open spec fn found(self) -> bool {
        self == Lookup::Found
    }

    pub fn is_found(self) -> (r: bool)
        ensures
            r == self.found(),
    {
        match self {
            Lookup::Found => true,
            _ => false,
        }
    }

    /// The lookup outcome that a storage answer stands for: a row, no row,
    /// or an error.
    pub fn from_query(answer: Result<bool, Failure>) -> (r: Lookup)
        ensures
            r == match answer {
                Ok(true) => Lookup::Found,
                Ok(false) => Lookup::Missing,
                Err(_) => Lookup::Failed,
            },
    {
        match answer {
            Ok(true) => Lookup::Found,
            Ok(false) => Lookup::Missing,
            Err(_) => Lookup::Failed,
        }
    }
}

impl Paths {
    /// The outcome where no relation was found, or none was looked for.
    pub fn none() -> (r: Paths)
        ensures
            !r.faculty_domain.found(),
            !r.student_domain.found(),
            !r.student_resource.found(),
            r.faculty_domain == Lookup::Missing,
            r.student_domain == Lookup::Missing,
            r.student_resource == Lookup::Missing,
    {
        Paths {
            faculty_domain: Lookup::Missing,
            student_domain: Lookup::Missing,
            student_resource: Lookup::Missing,
        }
    }
}

impl Decision {
    pub open spec fn allowed(self) -> bool {
        self == Decision::Allow
    }

    pub fn is_allowed(self) -> (r: bool)
        ensures
            r == self.allowed(),
    {
        match self {
            Decision::Allow => true,
            Decision::Deny => false,
        }
    }

    /// A denial always surfaces as `Unauthorized`, whatever caused it.
    pub fn into_result(self) -> (r: Result<(), Failure>)
        ensures
            r == (if self.allowed() {
                Ok::<(), Failure>(())
            } else {
                Err::<(), Failure>(Failure::Unauthorized)
            }),
    {
        match self {
            Decision::Allow => Ok(()),
            Decision::Deny => Err(Failure::Unauthorized),
        }
    }
}

impl Operation {
    /// What the operation asks of the caller's standing. Creating, deleting
    /// and changing a domain and reading attendance ask nothing; the photo
    /// and the coordinators of a domain ask a verified address; everything
    /// else, on events and workshops alike, asks a verified address and a
    /// settled payment.
    pub open spec fn gate(self) -> Gate {
        match self {
            Operation::CreateDomain
            | Operation::DeleteDomain
            | Operation::ChangeDomain
            | Operation::GetEventIndividualAttendance
            | Operation::GetEventTeamAttendance
            | Operation::GetWorkshopAttendance => Gate::Open,
            Operation::SetDomainPhoto
            | Operation::AddDomainFacultyCoordinator
            | Operation::AddDomainStudentCoordinator => Gate::Verified,
            _ => Gate::VerifiedAndPaid,
        }
    }

    pub open spec fn rule(self) -> Rule {
        match self {
            Operation::CreateDomain
            | Operation::DeleteDomain
            | Operation::ChangeDomain
            | Operation::SetDomainPhoto
            | Operation::AddDomainFacultyCoordinator
            | Operation::AddDomainStudentCoordinator
            | Operation::AddEventCoordinator => Rule::AdminOnly,
            Operation::AddWorkshopCoordinator => Rule::FacultyOfDomain,
            Operation::CreateEvent | Operation::CreateWorkshop => Rule::DomainCoordinator,
            Operation::JoinEventIndividual
            | Operation::LeaveEventIndividual
            | Operation::JoinWorkshop
            | Operation::LeaveWorkshop => Rule::Anyone,
            _ => Rule::ResourceCoordinator,
        }
    }

    /// The operation on an event that an operation on a workshop
    /// corresponds to.
    pub open spec fn event_twin(self) -> Option<Operation> {
        match self {
            Operation::CreateWorkshop => Some(Operation::CreateEvent),
            Operation::DeleteWorkshop => Some(Operation::DeleteEvent),
            Operation::ChangeWorkshop => Some(Operation::ChangeEvent),
            Operation::SetWorkshopPhoto => Some(Operation::SetEventPhoto),
            Operation::AddWorkshopCoordinator => Some(Operation::AddEventCoordinator),
            Operation::GetWorkshopAttendance => Some(Operation::GetEventIndividualAttendance),
            Operation::MarkWorkshopAttendance => Some(Operation::MarkEventIndividualAttendance),
            Operation::RemoveWorkshopAttendance => Some(
                Operation::RemoveEventIndividualAttendance,
            ),
            Operation::JoinWorkshop => Some(Operation::JoinEventIndividual),
            Operation::LeaveWorkshop => Some(Operation::LeaveEventIndividual),
            _ => None,
        }
    }

    pub open spec fn kind(self) -> ResourceKind {
        match self {
            Operation::CreateDomain
            | Operation::DeleteDomain
            | Operation::ChangeDomain
            | Operation::SetDomainPhoto
            | Operation::AddDomainFacultyCoordinator
            | Operation::AddDomainStudentCoordinator => ResourceKind::Domain,
            Operation::CreateWorkshop
            | Operation::DeleteWorkshop
            | Operation::ChangeWorkshop
            | Operation::SetWorkshopPhoto
            | Operation::AddWorkshopCoordinator
            | Operation::GetWorkshopAttendance
            | Operation::MarkWorkshopAttendance
            | Operation::RemoveWorkshopAttendance
            | Operation::JoinWorkshop
            | Operation::LeaveWorkshop => ResourceKind::Workshop,
            _ => ResourceKind::Event,
        }
    }

    pub fn required_gate(self) -> (r: Gate)
        ensures
            r == self.gate(),
    {
        match self {
            Operation::CreateDomain
            | Operation::DeleteDomain
            | Operation::ChangeDomain
            | Operation::GetEventIndividualAttendance
            | Operation::GetEventTeamAttendance
            | Operation::GetWorkshopAttendance => Gate::Open,
            Operation::SetDomainPhoto
            | Operation::AddDomainFacultyCoordinator
            | Operation::AddDomainStudentCoordinator => Gate::Verified,
            _ => Gate::VerifiedAndPaid,
        }
    }

    pub fn required_rule(self) -> (r: Rule)
        ensures
            r == self.rule(),
    {
        match self {
            Operation::CreateDomain
            | Operation::DeleteDomain
            | Operation::ChangeDomain
            | Operation::SetDomainPhoto
            | Operation::AddDomainFacultyCoordinator
            | Operation::AddDomainStudentCoordinator
            | Operation::AddEventCoordinator => Rule::AdminOnly,
            Operation::AddWorkshopCoordinator => Rule::FacultyOfDomain,
            Operation::CreateEvent | Operation::CreateWorkshop => Rule::DomainCoordinator,
            Operation::JoinEventIndividual
            | Operation::LeaveEventIndividual
            | Operation::JoinWorkshop
            | Operation::LeaveWorkshop => Rule::Anyone,
            _ => Rule::ResourceCoordinator,
        }
    }

    pub fn resource_kind(self) -> (r: ResourceKind)
        ensures
            r == self.kind(),
    {
        match self {
            Operation::CreateDomain
            | Operation::DeleteDomain
            | Operation::ChangeDomain
            | Operation::SetDomainPhoto
            | Operation::AddDomainFacultyCoordinator
            | Operation::AddDomainStudentCoordinator => ResourceKind::Domain,
            Operation::CreateWorkshop
            | Operation::DeleteWorkshop
            | Operation::ChangeWorkshop
            | Operation::SetWorkshopPhoto
            | Operation::AddWorkshopCoordinator
            | Operation::GetWorkshopAttendance
            | Operation::MarkWorkshopAttendance
            | Operation::RemoveWorkshopAttendance
            | Operation::JoinWorkshop
            | Operation::LeaveWorkshop => ResourceKind::Workshop,
            _ => ResourceKind::Event,
        }
    }
}

impl Gate {
    pub open spec fn passes(self, verified: bool, paid: bool) -> bool {
        match self {
            Gate::Open => true,
            Gate::Verified => verified,
            Gate::VerifiedAndPaid => verified && paid,
        }
    }

    pub fn is_passed(self, verified: bool, paid: bool) -> (r: bool)
        ensures
            r == self.passes(verified, paid),
    {
        match self {
            Gate::Open => true,
            Gate::Verified => verified,
            Gate::VerifiedAndPaid => verified && paid,
        }
    }
}

impl Rule {
    /// Whether `role` passes, given which relation rows exist. The student
    /// paths are joined by a plain "or": neither is consulted in place of
    /// the other.
    pub open spec fn admits(
        self,
        role: Role,
        faculty_domain: bool,
        student_domain: bool,
        student_resource: bool,
    ) -> bool {
        match self {
            Rule::Anyone => true,
            Rule::AdminOnly => role == Role::SUPER_ADMIN,
            Rule::FacultyOfDomain => role == Role::SUPER_ADMIN || (role
                == Role::FACULTY_COORDINATOR && faculty_domain),
            Rule::DomainCoordinator => role == Role::SUPER_ADMIN || (role
                == Role::FACULTY_COORDINATOR && faculty_domain) || (role
                == Role::STUDENT_COORDINATOR && student_domain),
            Rule::ResourceCoordinator => role == Role::SUPER_ADMIN || (role
                == Role::FACULTY_COORDINATOR && faculty_domain) || (role
                == Role::STUDENT_COORDINATOR && (student_domain || student_resource)),
        }
    }

    /// The lookups whose outcome can change the verdict for `role`.
    pub open spec fn plan(self, role: Role) -> LookupPlan {
        LookupPlan {
            faculty_domain: role == Role::FACULTY_COORDINATOR && (self == Rule::FacultyOfDomain
                || self == Rule::DomainCoordinator || self == Rule::ResourceCoordinator),
            student_domain: role == Role::STUDENT_COORDINATOR && (self == Rule::DomainCoordinator
                || self == Rule::ResourceCoordinator),
            student_resource: role == Role::STUDENT_COORDINATOR && self
                == Rule::ResourceCoordinator,
        }
    }
}

/// The policy itself: what the operation asks of the caller's standing,
/// then its rule.
pub open spec fn permits(
    role: Role,
    verified: bool,
    paid: bool,
    op: Operation,
    faculty_domain: bool,
    student_domain: bool,
    student_resource: bool,
) -> bool {
    op.gate().passes(verified, paid) && op.rule().admits(
        role,
        faculty_domain,
        student_domain,
        student_resource,
    )
}

/// The lookups to run before `decide` is asked about `op` for a caller of
/// this role and standing. Nothing is looked up for a caller who is stopped
/// before any role is looked at.
pub fn lookups_needed(role: Role, verified: bool, paid: bool, op: Operation) -> (r: LookupPlan)
    ensures
        r == (if op.gate().passes(verified, paid) {
            op.rule().plan(role)
        } else {
            (LookupPlan { faculty_domain: false, student_domain: false, student_resource: false })
        }),
{
    if !op.required_gate().is_passed(verified, paid) {
        return LookupPlan { faculty_domain: false, student_domain: false, student_resource: false };
    }
    let rule = op.required_rule();
    let faculty = match role {
        Role::FACULTY_COORDINATOR => true,
        _ => false,
    };
    let student = match role {
        Role::STUDENT_COORDINATOR => true,
        _ => false,
    };
    let (by_faculty, by_student_domain, by_student_resource) = match rule {
        Rule::Anyone | Rule::AdminOnly => (false, false, false),
        Rule::FacultyOfDomain => (true, false, false),
        Rule::DomainCoordinator => (true, true, false),
        Rule::ResourceCoordinator => (true, true, true),
    };
    LookupPlan {
        faculty_domain: faculty && by_faculty,
        student_domain: student && by_student_domain,
        student_resource: student && by_student_resource,
    }
}

/// Decides on `op` for `user`, given whether the payment predicate holds of
/// the user and what the relation lookups gave.
pub fn decide(user: &User, paid: bool, op: Operation, paths: Paths) -> (r: Decision)
    ensures
        r.allowed() == permits(
            user.role,
            user.verified,
            paid,
            op,
            paths.faculty_domain.found(),
            paths.student_domain.found(),
            paths.student_resource.found(),
        ),
{
    if !op.required_gate().is_passed(user.verified, paid) {
        return Decision::Deny;
    }
    if user.role.is_admin() {
        return Decision::Allow;
    }
    let by_faculty = paths.faculty_domain.is_found();
    let by_domain = paths.student_domain.is_found();
    let by_resource = paths.student_resource.is_found();
    let allowed = match op.required_rule() {
        Rule::Anyone => true,
        Rule::AdminOnly => false,
        Rule::FacultyOfDomain => match user.role {
            Role::FACULTY_COORDINATOR => by_faculty,
            _ => false,
        },
        Rule::DomainCoordinator => match user.role {
            Role::FACULTY_COORDINATOR => by_faculty,
            Role::STUDENT_COORDINATOR => by_domain,
            _ => false,
        },
        Rule::ResourceCoordinator => match user.role {
            Role::FACULTY_COORDINATOR => by_faculty,
            Role::STUDENT_COORDINATOR => by_domain || by_resource,
            _ => false,
        },
    };
    if allowed {
        Decision::Allow
    } else {
        Decision::Deny
    }
}

/// Authorizes `op` for `user`: settles the payment predicate from the
/// user's address and the payment record, decides, and reports a denial as
/// `Unauthorized`.
pub fn authorize(user: &User, payment_recorded: bool, op: Operation, paths: Paths) -> (r: Result<
    (),
    Failure,
>)
    ensures
        r == (if permits(
            user.role,
            user.verified,
            user.payment_done(payment_recorded),
            op,
            paths.faculty_domain.found(),
            paths.student_domain.found(),
            paths.student_resource.found(),
        ) {
            Ok::<(), Failure>(())
        } else {
            Err::<(), Failure>(Failure::Unauthorized)
        }),
{
    let paid = user.is_payment_done(payment_recorded);
    decide(user, paid, op, paths).into_result()
}

/// The target of an operation on an event or a workshop, given the answer
/// of the store to the question for its domain. What does not exist
/// belongs to no domain and is no target, and a question that failed is
/// taken as one that found nothing.
pub fn resource_target(domain: Result<Option<i32>, Failure>, resource: i32) -> (r: Option<Target>)
    ensures
        r == (match domain {
            Ok(Some(found)) => Some(Target { domain_id: found, resource_id: resource }),
            _ => None,
        }),
{
    match domain {
        Ok(Some(found)) => Some(Target { domain_id: found, resource_id: resource }),
        _ => None,
    }
}

/// The policy where the target may be missing: what does not exist has no
/// coordinators, so no relation counts for it, whatever the lookups say.
pub open spec fn permits_at(
    role: Role,
    verified: bool,
    paid: bool,
    op: Operation,
    exists: bool,
    paths: Paths,
) -> bool {
    permits(
        role,
        verified,
        paid,
        op,
        exists && paths.faculty_domain.found(),
        exists && paths.student_domain.found(),
        exists && paths.student_resource.found(),
    )
}

/// The lookups to run before `authorize_at` is asked: those that
/// `lookups_needed` names where there is a target, and none where there is
/// not.
pub fn lookups_at(
    role: Role,
    verified: bool,
    paid: bool,
    op: Operation,
    target: Option<Target>,
) -> (r: LookupPlan)
    ensures
        r == (if target.is_some() && op.gate().passes(verified, paid) {
            op.rule().plan(role)
        } else {
            (LookupPlan { faculty_domain: false, student_domain: false, student_resource: false })
        }),
{
    match target {
        Some(_) => lookups_needed(role, verified, paid, op),
        None => LookupPlan { faculty_domain: false, student_domain: false, student_resource: false },
    }
}

/// Authorizes `op` for `user` on a target that may be missing. For a
/// target that is missing, the outcomes of lookups are not read.
pub fn authorize_at(
    user: &User,
    payment_recorded: bool,
    op: Operation,
    target: Option<Target>,
    paths: Paths,
) -> (r: Result<(), Failure>)
    ensures
        r == (if permits_at(
            user.role,
            user.verified,
            user.payment_done(payment_recorded),
            op,
            target.is_some(),
            paths,
        ) {
            Ok::<(), Failure>(())
        } else {
            Err::<(), Failure>(Failure::Unauthorized)
        }),
{
    match target {
        Some(_) => authorize(user, payment_recorded, op, paths),
        None => authorize(user, payment_recorded, op, Paths::none()),
    }
}

/// What deleting a domain comes to. The administrator alone deletes
/// domains, and a domain that events or workshops still belong to stays:
/// nothing is deleted along with it.
pub open spec fn domain_deletion_verdict(role: Role, referenced: bool) -> Result<(), Failure> {
    if role != Role::SUPER_ADMIN {
        Err(Failure::Unauthorized)
    } else if referenced {
        Err(Failure::Conflict)
    } else {
        Ok(())
    }
}

/// Decides on the deletion of a domain. `referenced` says whether an event
/// or a workshop still belongs to it.
pub fn domain_deletion(user: &User, referenced: bool) -> (r: Result<(), Failure>)
    ensures
        r == domain_deletion_verdict(user.role, referenced),
{
    if !user.role.is_admin() {
        Err(Failure::Unauthorized)
    } else if referenced {
        Err(Failure::Conflict)
    } else {
        Ok(())
    }
}

/// Whether `rows` holds the pair `(who, what)`.
pub fn has_row(rows: &Vec<(i32, i32)>, who: i32, what: i32) -> (r: bool)
    ensures
        r == rows@.contains((who, what)),
{
    let mut i: usize = 0;
    while i < rows.len()
        invariant
            i <= rows@.len(),
            forall|j: int| 0 <= j < i ==> rows@[j] != (who, what),
        decreases rows@.len() - i,
    {
        let row = rows[i];
        if row.0 == who && row.1 == what {
            assert(rows@[i as int] == (who, what));
            return true;
        }
        i = i + 1;
    }
    false
}

impl CoordinatorRows {
    /// The rows that relate a student coordinator to a single resource of
    /// the given kind: none for a domain.
    pub open spec fn student_resource_rows(self, kind: ResourceKind) -> Seq<(i32, i32)> {
        match kind {
            ResourceKind::Domain => Seq::empty(),
            ResourceKind::Event => self.student_event@,
            ResourceKind::Workshop => self.student_workshop@,
        }
    }

    /// Whether these rows let `user` perform `op` on `target`.
    pub open spec fn permit(self, user: User, paid: bool, op: Operation, target: Target) -> bool {
        permits(
            user.role,
            user.verified,
            paid,
            op,
            self.faculty_domain@.contains((user.id, target.domain_id)),
            self.student_domain@.contains((user.id, target.domain_id)),
            self.student_resource_rows(op.kind()).contains((user.id, target.resource_id)),
        )
    }

    pub fn new() -> (r: CoordinatorRows)
        ensures
            r.faculty_domain@.len() == 0,
            r.student_domain@.len() == 0,
            r.student_event@.len() == 0,
            r.student_workshop@.len() == 0,
    {
        CoordinatorRows {
            faculty_domain: Vec::new(),
            student_domain: Vec::new(),
            student_event: Vec::new(),
            student_workshop: Vec::new(),
        }
    }

    /// Looks the three relations up for `user` and `target`.
    pub fn paths(&self, user: &User, op: Operation, target: Target) -> (r: Paths)
        ensures
            r.faculty_domain.found() == self.faculty_domain@.contains(
                (user.id, target.domain_id),
            ),
            r.student_domain.found() == self.student_domain@.contains(
                (user.id, target.domain_id),
            ),
            r.student_resource.found() == self.student_resource_rows(op.kind()).contains(
                (user.id, target.resource_id),
            ),
            r.faculty_domain != Lookup::Failed,
            r.student_domain != Lookup::Failed,
            r.student_resource != Lookup::Failed,
    {
        let faculty = has_row(&self.faculty_domain, user.id, target.domain_id);
        let domain = has_row(&self.student_domain, user.id, target.domain_id);
        let resource = match op.resource_kind() {
            ResourceKind::Domain => {
                assert(!Seq::<(i32, i32)>::empty().contains((user.id, target.resource_id)));
                false
            },
            ResourceKind::Event => has_row(&self.student_event, user.id, target.resource_id),
            ResourceKind::Workshop => has_row(
                &self.student_workshop,
                user.id,
                target.resource_id,
            ),
        };
        Paths {
            faculty_domain: Lookup::from_query(Ok(faculty)),
            student_domain: Lookup::from_query(Ok(domain)),
            student_resource: Lookup::from_query(Ok(resource)),
        }
    }

    /// The policy decision for `user`, `op` and `target` under these rows.
    pub fn check(&self, user: &User, paid: bool, op: Operation, target: Target) -> (r: Decision)
        ensures
            r.allowed() == self.permit(*user, paid, op, target),
    {
        let paths = self.paths(user, op, target);
        decide(user, paid, op, paths)
    }
}

/// A lookup that the plan leaves out cannot change the decision: whatever
/// two sets of outcomes agree on the planned lookups give the same verdict.
pub proof fn unplanned_lookups_do_not_matter(
    role: Role,
    verified: bool,
    paid: bool,
    op: Operation,
    a: Paths,
    b: Paths,
)
    requires
        op.rule().plan(role).faculty_domain ==> a.faculty_domain.found()
            == b.faculty_domain.found(),
        op.rule().plan(role).student_domain ==> a.student_domain.found()
            == b.student_domain.found(),
        op.rule().plan(role).student_resource ==> a.student_resource.found()
            == b.student_resource.found(),
    ensures
        permits(
            role,
            verified,
            paid,
            op,
            a.faculty_domain.found(),
            a.student_domain.found(),
            a.student_resource.found(),
        ) == permits(
            role,
            verified,
            paid,
            op,
            b.faculty_domain.found(),
            b.student_domain.found(),
            b.student_resource.found(),
        ),
{
}

/// The administrator passes every rule: what the operation asks of
/// verification and payment aside, no relation is needed.
pub proof fn admin_passes_every_rule(verified: bool, paid: bool, op: Operation, paths: Paths)
    ensures
        permits(
            Role::SUPER_ADMIN,
            verified,
            paid,
            op,
            paths.faculty_domain.found(),
            paths.student_domain.found(),
            paths.student_resource.found(),
        ) == op.gate().passes(verified, paid),
{
}

/// Operations on domains are the administrator's alone.
pub proof fn domain_operations_are_admin_only(user: User, paid: bool, op: Operation, paths: Paths)
    requires
        op.kind() == ResourceKind::Domain,
        user.role != Role::SUPER_ADMIN,
    ensures
        !permits(
            user.role,
            user.verified,
            paid,
            op,
            paths.faculty_domain.found(),
            paths.student_domain.found(),
            paths.student_resource.found(),
        ),
{
}

/// An administrator may delete any domain, verified or not.
pub proof fn admin_may_delete_domain(rows: CoordinatorRows, user: User, paid: bool, target: Target)
    requires
        user.role == Role::SUPER_ADMIN,
    ensures
        rows.permit(user, paid, Operation::DeleteDomain, target),
{
}

/// Deleting a domain is refused to whoever policy denies `DeleteDomain`,
/// and to nobody else for want of permission.
pub proof fn domain_deletion_follows_policy(user: User, paid: bool, referenced: bool, paths: Paths)
    ensures
        domain_deletion_verdict(user.role, referenced) == Err::<(), Failure>(Failure::Unauthorized)
            <==> !permits(
            user.role,
            user.verified,
            paid,
            Operation::DeleteDomain,
            paths.faculty_domain.found(),
            paths.student_domain.found(),
            paths.student_resource.found(),
        ),
        user.role == Role::SUPER_ADMIN && !referenced ==> domain_deletion_verdict(
            user.role,
            referenced,
        ).is_ok(),
{
}

/// Without a coordinator relation to a domain, nobody but the administrator
/// may create an event in it.
pub proof fn create_event_needs_relation(
    rows: CoordinatorRows,
    user: User,
    paid: bool,
    target: Target,
)
    requires
        user.role != Role::SUPER_ADMIN,
        !rows.faculty_domain@.contains((user.id, target.domain_id)),
        !rows.student_domain@.contains((user.id, target.domain_id)),
    ensures
        !rows.permit(user, paid, Operation::CreateEvent, target),
{
}

/// A verified, paid student coordinator of a domain may change every event
/// of that domain, with or without a relation to the event itself.
pub proof fn domain_path_suffices(rows: CoordinatorRows, user: User, paid: bool, target: Target)
    requires
        user.role == Role::STUDENT_COORDINATOR,
        user.verified,
        paid,
        rows.student_domain@.contains((user.id, target.domain_id)),
    ensures
        rows.permit(user, paid, Operation::ChangeEvent, target),
{
}

/// A verified, paid student coordinator of an event may change it, with or
/// without a relation to the event's domain.
pub proof fn resource_path_suffices(rows: CoordinatorRows, user: User, paid: bool, target: Target)
    requires
        user.role == Role::STUDENT_COORDINATOR,
        user.verified,
        paid,
        rows.student_event@.contains((user.id, target.resource_id)),
    ensures
        rows.permit(user, paid, Operation::ChangeEvent, target),
{
}

/// A student coordinator is denied a guarded operation exactly when both
/// relations are missing.
pub proof fn student_denied_only_if_both_paths_fail(
    verified: bool,
    paid: bool,
    op: Operation,
    paths: Paths,
)
    requires
        op.rule() == Rule::ResourceCoordinator,
        op.gate().passes(verified, paid),
    ensures
        !permits(
            Role::STUDENT_COORDINATOR,
            verified,
            paid,
            op,
            paths.faculty_domain.found(),
            paths.student_domain.found(),
            paths.student_resource.found(),
        ) <==> (!paths.student_domain.found() && !paths.student_resource.found()),
{
}

/// Every operation on a workshop asks of the caller's standing what its
/// counterpart on an event asks, and lets the same callers through. The one
/// difference is who may add a coordinator: to a workshop a faculty
/// coordinator of its domain too, to an event the administrator alone.
pub proof fn workshops_follow_events(op: Operation)
    requires
        op.event_twin().is_some(),
    ensures
        op.kind() == ResourceKind::Workshop,
        op.event_twin().unwrap().kind() == ResourceKind::Event,
        op.gate() == op.event_twin().unwrap().gate(),
        op != Operation::AddWorkshopCoordinator ==> op.rule() == op.event_twin().unwrap().rule(),
{
}

/// Setting a photo and taking back a mark of attendance are refused to an
/// unverified caller, and to one whose payment is not settled, whatever
/// the role and the relations, for workshops as for events.
pub proof fn photos_and_attendance_need_standing(
    role: Role,
    verified: bool,
    paid: bool,
    op: Operation,
    paths: Paths,
)
    requires
        !(verified && paid),
        op == Operation::SetWorkshopPhoto || op == Operation::SetEventPhoto || op
            == Operation::RemoveWorkshopAttendance || op
            == Operation::RemoveEventIndividualAttendance || op
            == Operation::RemoveEventTeamAttendance || op == Operation::MarkWorkshopAttendance
            || op == Operation::MarkEventIndividualAttendance || op
            == Operation::MarkEventTeamAttendance,
    ensures
        !permits(
            role,
            verified,
            paid,
            op,
            paths.faculty_domain.found(),
            paths.student_domain.found(),
            paths.student_resource.found(),
        ),
{
}

/// On what does not exist, only a caller who needs no relation passes:
/// the administrator, and anyone where the rule asks for no role.
pub proof fn missing_target_has_no_coordinators(
    role: Role,
    verified: bool,
    paid: bool,
    op: Operation,
    paths: Paths,
)
    ensures
        permits_at(role, verified, paid, op, false, paths) == (op.gate().passes(verified, paid)
            && (role == Role::SUPER_ADMIN || op.rule() == Rule::Anyone)),
        permits_at(role, verified, paid, op, true, paths) == permits(
            role,
            verified,
            paid,
            op,
            paths.faculty_domain.found(),
            paths.student_domain.found(),
            paths.student_resource.found(),
        ),
{
}

/// The verification gate comes first: an unverified caller is denied every
/// operation that has one, whatever the role and the relations.
pub proof fn unverified_is_denied(user: User, paid: bool, op: Operation, paths: Paths)
    requires
        !user.verified,
        op.gate() != Gate::Open,
    ensures
        !permits(
            user.role,
            user.verified,
            paid,
            op,
            paths.faculty_domain.found(),
            paths.student_domain.found(),
            paths.student_resource.found(),
        ),
{
}

} // verus!
