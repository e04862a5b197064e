use techfest::authz::{
    authorize, authorize_at, decide, domain_deletion, has_row, lookups_at, lookups_needed,
    resource_target, CoordinatorRows, Decision, Gate, Lookup, LookupPlan,
    Operation, Paths, ResourceKind, Rule, Target,
};
use techfest::failure::Failure;
use techfest::role::Role;
use techfest::user::User;

fn person(id: i32, role: Role, verified: bool) -> User {
    User {
        id,
        name: "Someone".to_string(),
        dob: 730_000,
        email: "someone@example.org".to_string(),
        phone: "000".to_string(),
        role,
        photo_hash: None,
        verified,
        password_hash: "hash".to_string(),
    }
}

fn no_paths() -> Paths {
    Paths::none()
}

const ALL_OPERATIONS: [Operation; 29] = [
    Operation::CreateDomain,
    Operation::DeleteDomain,
    Operation::ChangeDomain,
    Operation::SetDomainPhoto,
    Operation::AddDomainFacultyCoordinator,
    Operation::AddDomainStudentCoordinator,
    Operation::CreateEvent,
    Operation::DeleteEvent,
    Operation::ChangeEvent,
    Operation::SetEventPhoto,
    Operation::AddEventCoordinator,
    Operation::GetEventIndividualAttendance,
    Operation::MarkEventIndividualAttendance,
    Operation::RemoveEventIndividualAttendance,
    Operation::GetEventTeamAttendance,
    Operation::MarkEventTeamAttendance,
    Operation::RemoveEventTeamAttendance,
    Operation::JoinEventIndividual,
    Operation::LeaveEventIndividual,
    Operation::CreateWorkshop,
    Operation::DeleteWorkshop,
    Operation::ChangeWorkshop,
    Operation::SetWorkshopPhoto,
    Operation::AddWorkshopCoordinator,
    Operation::GetWorkshopAttendance,
    Operation::MarkWorkshopAttendance,
    Operation::RemoveWorkshopAttendance,
    Operation::JoinWorkshop,
    Operation::LeaveWorkshop,
];

#[test]
fn create_event_without_relation_is_denied() {
    let rows = CoordinatorRows::new();
    let target = Target { domain_id: 4, resource_id: 0 };
    for role in [Role::FACULTY_COORDINATOR, Role::STUDENT_COORDINATOR, Role::PARTICIPANT] {
        let user = person(10, role, true);
        assert_eq!(rows.check(&user, true, Operation::CreateEvent, target), Decision::Deny);
    }
}

#[test]
fn relation_to_another_domain_does_not_count() {
    let mut rows = CoordinatorRows::new();
    rows.faculty_domain.push((10, 5));
    rows.student_domain.push((11, 5));
    let target = Target { domain_id: 4, resource_id: 0 };
    let faculty = person(10, Role::FACULTY_COORDINATOR, true);
    let student = person(11, Role::STUDENT_COORDINATOR, true);
    assert_eq!(rows.check(&faculty, true, Operation::CreateEvent, target), Decision::Deny);
    assert_eq!(rows.check(&student, true, Operation::CreateEvent, target), Decision::Deny);
    let right = Target { domain_id: 5, resource_id: 0 };
    assert_eq!(rows.check(&faculty, true, Operation::CreateEvent, right), Decision::Allow);
    assert_eq!(rows.check(&student, true, Operation::CreateEvent, right), Decision::Allow);
}

#[test]
fn domain_coordinator_changes_event_without_event_row() {
    let mut rows = CoordinatorRows::new();
    rows.student_domain.push((7, 3));
    let student = person(7, Role::STUDENT_COORDINATOR, true);
    let event = Target { domain_id: 3, resource_id: 41 };
    assert_eq!(rows.check(&student, true, Operation::ChangeEvent, event), Decision::Allow);
}

#[test]
fn event_coordinator_changes_event_without_domain_row() {
    let mut rows = CoordinatorRows::new();
    rows.student_event.push((7, 41));
    let student = person(7, Role::STUDENT_COORDINATOR, true);
    let event = Target { domain_id: 3, resource_id: 41 };
    assert_eq!(rows.check(&student, true, Operation::ChangeEvent, event), Decision::Allow);
    assert_eq!(rows.check(&student, true, Operation::DeleteEvent, event), Decision::Allow);
    assert_eq!(rows.check(&student, true, Operation::SetEventPhoto, event), Decision::Allow);
    assert_eq!(
        rows.check(&student, true, Operation::MarkEventTeamAttendance, event),
        Decision::Allow
    );
    let other = Target { domain_id: 3, resource_id: 42 };
    assert_eq!(rows.check(&student, true, Operation::ChangeEvent, other), Decision::Deny);
}

#[test]
fn event_row_does_not_open_workshops() {
    let mut rows = CoordinatorRows::new();
    rows.student_event.push((7, 41));
    let student = person(7, Role::STUDENT_COORDINATOR, true);
    let workshop = Target { domain_id: 3, resource_id: 41 };
    assert_eq!(rows.check(&student, true, Operation::ChangeWorkshop, workshop), Decision::Deny);
    rows.student_workshop.push((7, 41));
    assert_eq!(rows.check(&student, true, Operation::ChangeWorkshop, workshop), Decision::Allow);
}

#[test]
fn event_row_does_not_allow_creation() {
    let mut rows = CoordinatorRows::new();
    rows.student_event.push((7, 41));
    let student = person(7, Role::STUDENT_COORDINATOR, true);
    let target = Target { domain_id: 3, resource_id: 41 };
    assert_eq!(rows.check(&student, true, Operation::CreateEvent, target), Decision::Deny);
}

#[test]
fn failed_domain_lookup_does_not_hide_event_row() {
    let student = person(7, Role::STUDENT_COORDINATOR, true);
    let paths = Paths {
        faculty_domain: Lookup::Missing,
        student_domain: Lookup::Failed,
        student_resource: Lookup::Found,
    };
    assert_eq!(decide(&student, true, Operation::ChangeEvent, paths), Decision::Allow);
    let reversed = Paths {
        faculty_domain: Lookup::Missing,
        student_domain: Lookup::Found,
        student_resource: Lookup::Failed,
    };
    assert_eq!(decide(&student, true, Operation::ChangeEvent, reversed), Decision::Allow);
    let neither = Paths {
        faculty_domain: Lookup::Found,
        student_domain: Lookup::Failed,
        student_resource: Lookup::Missing,
    };
    assert_eq!(decide(&student, true, Operation::ChangeEvent, neither), Decision::Deny);
}

#[test]
fn unverified_participant_cannot_create_event() {
    let user = person(1, Role::PARTICIPANT, false);
    let rows = CoordinatorRows::new();
    let target = Target { domain_id: 1, resource_id: 0 };
    let decision = rows.check(&user, true, Operation::CreateEvent, target);
    assert_eq!(decision, Decision::Deny);
    assert_eq!(decision.into_result(), Err(Failure::Unauthorized));
    assert_eq!(
        lookups_needed(user.role, user.verified, true, Operation::CreateEvent),
        LookupPlan { faculty_domain: false, student_domain: false, student_resource: false }
    );
}

#[test]
fn unverified_admin_is_stopped_where_verification_is_asked() {
    let admin = person(1, Role::SUPER_ADMIN, false);
    assert_eq!(decide(&admin, true, Operation::CreateEvent, no_paths()), Decision::Deny);
    assert_eq!(decide(&admin, true, Operation::SetDomainPhoto, no_paths()), Decision::Deny);
    assert_eq!(decide(&admin, false, Operation::CreateDomain, no_paths()), Decision::Allow);
}

#[test]
fn unpaid_user_is_stopped_where_payment_is_asked() {
    let admin = person(1, Role::SUPER_ADMIN, true);
    assert_eq!(decide(&admin, false, Operation::CreateEvent, no_paths()), Decision::Deny);
    assert_eq!(decide(&admin, false, Operation::SetDomainPhoto, no_paths()), Decision::Allow);
    assert_eq!(decide(&admin, true, Operation::CreateEvent, no_paths()), Decision::Allow);
}

#[test]
fn admin_deletes_domain() {
    let admin = person(1, Role::SUPER_ADMIN, true);
    let rows = CoordinatorRows::new();
    let target = Target { domain_id: 7, resource_id: 0 };
    let decision = rows.check(&admin, true, Operation::DeleteDomain, target);
    assert_eq!(decision, Decision::Allow);
    assert_eq!(decision.into_result(), Ok(()));
}

#[test]
fn domain_operations_are_for_the_admin_alone() {
    let all = Paths {
        faculty_domain: Lookup::Found,
        student_domain: Lookup::Found,
        student_resource: Lookup::Found,
    };
    for op in ALL_OPERATIONS {
        if op.resource_kind() != ResourceKind::Domain {
            continue;
        }
        assert_eq!(op.required_rule(), Rule::AdminOnly);
        for role in [Role::FACULTY_COORDINATOR, Role::STUDENT_COORDINATOR, Role::PARTICIPANT] {
            assert_eq!(decide(&person(2, role, true), true, op, all), Decision::Deny);
        }
        assert_eq!(decide(&person(2, Role::SUPER_ADMIN, true), true, op, all), Decision::Allow);
    }
}

#[test]
fn participants_only_join_and_leave() {
    let all = Paths {
        faculty_domain: Lookup::Found,
        student_domain: Lookup::Found,
        student_resource: Lookup::Found,
    };
    let participant = person(3, Role::PARTICIPANT, true);
    for op in ALL_OPERATIONS {
        let expected = match op {
            Operation::JoinEventIndividual
            | Operation::LeaveEventIndividual
            | Operation::JoinWorkshop
            | Operation::LeaveWorkshop => Decision::Allow,
            _ => Decision::Deny,
        };
        assert_eq!(decide(&participant, true, op, all), expected);
    }
}

#[test]
fn student_cannot_add_workshop_coordinator() {
    let all = Paths {
        faculty_domain: Lookup::Found,
        student_domain: Lookup::Found,
        student_resource: Lookup::Found,
    };
    let student = person(3, Role::STUDENT_COORDINATOR, true);
    let faculty = person(4, Role::FACULTY_COORDINATOR, true);
    assert_eq!(decide(&student, true, Operation::AddWorkshopCoordinator, all), Decision::Deny);
    assert_eq!(decide(&faculty, true, Operation::AddWorkshopCoordinator, all), Decision::Allow);
    assert_eq!(decide(&faculty, true, Operation::AddEventCoordinator, all), Decision::Deny);
}

#[test]
fn operations_have_their_own_conditions() {
    assert_eq!(Operation::DeleteDomain.required_gate(), Gate::Open);
    assert_eq!(Operation::SetDomainPhoto.required_gate(), Gate::Verified);
    assert_eq!(Operation::CreateEvent.required_gate(), Gate::VerifiedAndPaid);
    assert_eq!(Operation::GetEventTeamAttendance.required_gate(), Gate::Open);
    assert_eq!(Operation::SetWorkshopPhoto.required_gate(), Gate::VerifiedAndPaid);
    assert_eq!(Operation::SetEventPhoto.required_gate(), Gate::VerifiedAndPaid);
    assert_eq!(Operation::RemoveWorkshopAttendance.required_gate(), Gate::VerifiedAndPaid);
    assert_eq!(Operation::RemoveEventTeamAttendance.required_gate(), Gate::VerifiedAndPaid);
    assert_eq!(Operation::GetWorkshopAttendance.required_gate(), Gate::Open);
    assert_eq!(Operation::MarkWorkshopAttendance.required_gate(), Gate::VerifiedAndPaid);
    assert_eq!(Operation::CreateWorkshop.required_rule(), Rule::DomainCoordinator);
    assert_eq!(Operation::ChangeWorkshop.required_rule(), Rule::ResourceCoordinator);
    assert_eq!(Operation::JoinWorkshop.required_rule(), Rule::Anyone);
    assert_eq!(Operation::ChangeWorkshop.resource_kind(), ResourceKind::Workshop);
    assert_eq!(Operation::ChangeEvent.resource_kind(), ResourceKind::Event);
    assert!(Gate::VerifiedAndPaid.is_passed(true, true));
    assert!(!Gate::VerifiedAndPaid.is_passed(true, false));
    assert!(Gate::Verified.is_passed(true, false));
    assert!(!Gate::Verified.is_passed(false, true));
}

#[test]
fn lookups_follow_role_and_rule() {
    let none = LookupPlan { faculty_domain: false, student_domain: false, student_resource: false };
    assert_eq!(lookups_needed(Role::SUPER_ADMIN, true, true, Operation::ChangeEvent), none);
    assert_eq!(lookups_needed(Role::PARTICIPANT, true, true, Operation::ChangeEvent), none);
    assert_eq!(
        lookups_needed(Role::FACULTY_COORDINATOR, true, true, Operation::ChangeEvent),
        LookupPlan { faculty_domain: true, student_domain: false, student_resource: false }
    );
    assert_eq!(
        lookups_needed(Role::STUDENT_COORDINATOR, true, true, Operation::ChangeEvent),
        LookupPlan { faculty_domain: false, student_domain: true, student_resource: true }
    );
    assert_eq!(
        lookups_needed(Role::STUDENT_COORDINATOR, true, true, Operation::CreateEvent),
        LookupPlan { faculty_domain: false, student_domain: true, student_resource: false }
    );
    assert_eq!(
        lookups_needed(Role::STUDENT_COORDINATOR, true, true, Operation::AddWorkshopCoordinator),
        none
    );
    assert_eq!(lookups_needed(Role::STUDENT_COORDINATOR, true, false, Operation::ChangeEvent), none);
}

#[test]
fn lookup_outcomes() {
    assert_eq!(Lookup::from_query(Ok(true)), Lookup::Found);
    assert_eq!(Lookup::from_query(Ok(false)), Lookup::Missing);
    assert_eq!(Lookup::from_query(Err(Failure::UpstreamUnavailable)), Lookup::Failed);
    assert!(Lookup::Found.is_found());
    assert!(!Lookup::Missing.is_found());
    assert!(!Lookup::Failed.is_found());
    assert!(Decision::Allow.is_allowed());
    assert!(!Decision::Deny.is_allowed());
}

#[test]
fn rows_are_found_by_both_ids() {
    let rows = vec![(1, 2), (3, 4)];
    assert!(has_row(&rows, 1, 2));
    assert!(has_row(&rows, 3, 4));
    assert!(!has_row(&rows, 1, 4));
    assert!(!has_row(&rows, 2, 1));
    assert!(!has_row(&Vec::new(), 1, 2));
}

#[test]
fn paths_are_read_off_the_rows() {
    let mut rows = CoordinatorRows::new();
    rows.faculty_domain.push((9, 2));
    rows.student_workshop.push((9, 5));
    let user = person(9, Role::FACULTY_COORDINATOR, true);
    let target = Target { domain_id: 2, resource_id: 5 };
    assert_eq!(
        rows.paths(&user, Operation::ChangeWorkshop, target),
        Paths {
            faculty_domain: Lookup::Found,
            student_domain: Lookup::Missing,
            student_resource: Lookup::Found,
        }
    );
    assert_eq!(
        rows.paths(&user, Operation::ChangeEvent, target),
        Paths {
            faculty_domain: Lookup::Found,
            student_domain: Lookup::Missing,
            student_resource: Lookup::Missing,
        }
    );
    assert_eq!(
        rows.paths(&user, Operation::ChangeDomain, target).student_resource,
        Lookup::Missing
    );
}

#[test]
fn admin_deletes_unreferenced_domain_only() {
    let admin = person(1, Role::SUPER_ADMIN, false);
    assert_eq!(domain_deletion(&admin, false), Ok(()));
    assert_eq!(domain_deletion(&admin, true), Err(Failure::Conflict));
    for role in [Role::FACULTY_COORDINATOR, Role::STUDENT_COORDINATOR, Role::PARTICIPANT] {
        assert_eq!(domain_deletion(&person(2, role, true), false), Err(Failure::Unauthorized));
        assert_eq!(domain_deletion(&person(2, role, true), true), Err(Failure::Unauthorized));
    }
}

#[test]
fn authorization_settles_payment_from_the_address() {
    let mut member = person(5, Role::SUPER_ADMIN, true);
    assert_eq!(
        authorize(&member, false, Operation::CreateEvent, no_paths()),
        Err(Failure::Unauthorized)
    );
    assert_eq!(authorize(&member, true, Operation::CreateEvent, no_paths()), Ok(()));
    member.email = "someone@sliet.ac.in".to_string();
    assert_eq!(authorize(&member, false, Operation::CreateEvent, no_paths()), Ok(()));
    member.verified = false;
    assert_eq!(
        authorize(&member, true, Operation::CreateEvent, no_paths()),
        Err(Failure::Unauthorized)
    );
}

#[test]
fn no_relation_is_three_missing_lookups() {
    assert_eq!(
        Paths::none(),
        Paths {
            faculty_domain: Lookup::Missing,
            student_domain: Lookup::Missing,
            student_resource: Lookup::Missing,
        }
    );
}

#[test]
fn unverified_caller_cannot_set_a_workshop_photo() {
    let all = Paths {
        faculty_domain: Lookup::Found,
        student_domain: Lookup::Found,
        student_resource: Lookup::Found,
    };
    for role in Role::variants() {
        for op in [
            Operation::SetWorkshopPhoto,
            Operation::SetEventPhoto,
            Operation::RemoveWorkshopAttendance,
            Operation::RemoveEventIndividualAttendance,
            Operation::RemoveEventTeamAttendance,
        ] {
            assert_eq!(decide(&person(3, role, false), true, op, all), Decision::Deny);
            assert_eq!(decide(&person(3, role, true), false, op, all), Decision::Deny);
        }
    }
    let admin = person(1, Role::SUPER_ADMIN, true);
    assert_eq!(decide(&admin, true, Operation::SetWorkshopPhoto, no_paths()), Decision::Allow);
    let student = person(2, Role::STUDENT_COORDINATOR, true);
    let by_workshop = Paths {
        faculty_domain: Lookup::Missing,
        student_domain: Lookup::Missing,
        student_resource: Lookup::Found,
    };
    assert_eq!(decide(&student, true, Operation::SetWorkshopPhoto, by_workshop), Decision::Allow);
    assert_eq!(
        decide(&student, true, Operation::RemoveWorkshopAttendance, by_workshop),
        Decision::Allow
    );
}

#[test]
fn workshop_operations_ask_what_their_event_twins_ask() {
    let twins = [
        (Operation::CreateWorkshop, Operation::CreateEvent),
        (Operation::DeleteWorkshop, Operation::DeleteEvent),
        (Operation::ChangeWorkshop, Operation::ChangeEvent),
        (Operation::SetWorkshopPhoto, Operation::SetEventPhoto),
        (Operation::AddWorkshopCoordinator, Operation::AddEventCoordinator),
        (Operation::GetWorkshopAttendance, Operation::GetEventIndividualAttendance),
        (Operation::MarkWorkshopAttendance, Operation::MarkEventIndividualAttendance),
        (Operation::RemoveWorkshopAttendance, Operation::RemoveEventIndividualAttendance),
        (Operation::JoinWorkshop, Operation::JoinEventIndividual),
        (Operation::LeaveWorkshop, Operation::LeaveEventIndividual),
    ];
    for (workshop, event) in twins {
        assert_eq!(workshop.required_gate(), event.required_gate());
        if workshop != Operation::AddWorkshopCoordinator {
            assert_eq!(workshop.required_rule(), event.required_rule());
        }
    }
}

#[test]
fn target_is_what_the_store_found() {
    assert_eq!(resource_target(Ok(Some(3)), 41), Some(Target { domain_id: 3, resource_id: 41 }));
    assert_eq!(resource_target(Ok(None), 41), None);
    assert_eq!(resource_target(Err(Failure::UpstreamUnavailable), 41), None);
}

#[test]
fn missing_target_has_no_coordinators() {
    let all = Paths {
        faculty_domain: Lookup::Found,
        student_domain: Lookup::Found,
        student_resource: Lookup::Found,
    };
    let none = LookupPlan { faculty_domain: false, student_domain: false, student_resource: false };
    let target = Some(Target { domain_id: 3, resource_id: 41 });
    for role in [Role::FACULTY_COORDINATOR, Role::STUDENT_COORDINATOR, Role::PARTICIPANT] {
        let user = person(5, role, true);
        assert_eq!(
            authorize_at(&user, true, Operation::ChangeEvent, None, all),
            Err(Failure::Unauthorized)
        );
        assert_eq!(lookups_at(role, true, true, Operation::ChangeEvent, None), none);
        assert_eq!(authorize_at(&user, true, Operation::JoinEventIndividual, None, all), Ok(()));
    }
    let student = person(5, Role::STUDENT_COORDINATOR, true);
    assert_eq!(authorize_at(&student, true, Operation::ChangeEvent, target, all), Ok(()));
    assert_eq!(
        lookups_at(Role::STUDENT_COORDINATOR, true, true, Operation::ChangeEvent, target),
        lookups_needed(Role::STUDENT_COORDINATOR, true, true, Operation::ChangeEvent)
    );
    let admin = person(1, Role::SUPER_ADMIN, true);
    assert_eq!(authorize_at(&admin, true, Operation::ChangeEvent, None, no_paths()), Ok(()));
}
