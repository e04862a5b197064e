use techfest::failure::Failure;
use techfest::role::Role;

#[test]
fn ladder_runs_from_admin_to_participant() {
    assert_eq!(
        Role::variants(),
        vec![
            Role::SUPER_ADMIN,
            Role::FACULTY_COORDINATOR,
            Role::STUDENT_COORDINATOR,
            Role::PARTICIPANT
        ]
    );
    assert_eq!(Role::SUPER_ADMIN.authority(), 3);
    assert_eq!(Role::FACULTY_COORDINATOR.authority(), 2);
    assert_eq!(Role::STUDENT_COORDINATOR.authority(), 1);
    assert_eq!(Role::PARTICIPANT.authority(), 0);
}

#[test]
fn outranks_is_strict() {
    let all = Role::variants();
    for (i, a) in all.iter().enumerate() {
        for (j, b) in all.iter().enumerate() {
            assert_eq!(a.outranks(*b), i < j);
        }
    }
    assert!(Role::SUPER_ADMIN.is_admin());
    assert!(!Role::FACULTY_COORDINATOR.is_admin());
}

#[test]
fn role_labels() {
    assert_eq!(Role::SUPER_ADMIN.label(), "Super Admin");
    assert_eq!(Role::FACULTY_COORDINATOR.label(), "Faculty Coordinator");
    assert_eq!(Role::STUDENT_COORDINATOR.label(), "Student Coordinator");
    assert_eq!(Role::PARTICIPANT.label(), "Participant");
}

#[test]
fn failure_status_codes() {
    assert_eq!(Failure::Unauthenticated.status_code(), 401);
    assert_eq!(Failure::Unauthorized.status_code(), 401);
    assert_eq!(Failure::NotFound.status_code(), 404);
    assert_eq!(Failure::Conflict.status_code(), 409);
    assert_eq!(Failure::ValidationFailed.status_code(), 400);
    assert_eq!(Failure::UpstreamUnavailable.status_code(), 500);
}
