use techfest::failure::Failure;
use techfest::password::{check, PasswordCheck};
use techfest::role::Role;
use techfest::signup::{
    get_departments, needs_first_admin, Department, Faculty, FacultySignUp, NewFacultyProfile, NewStudentProfile,
    Student, StudentSignUp, Title,
};
use techfest::user::User;

fn student_form(email: &str) -> StudentSignUp {
    StudentSignUp {
        name: "Asha".to_string(),
        dob: 730_120,
        email: email.to_string(),
        phone: "98".to_string(),
        password: "secret words".to_string(),
        college: "SLIET".to_string(),
        reg_no: "2130001".to_string(),
        dept: Department::ECE,
    }
}

fn stored(id: i32) -> User {
    User {
        id,
        name: "Asha".to_string(),
        dob: 730_120,
        email: "asha@sliet.ac.in".to_string(),
        phone: "98".to_string(),
        role: Role::PARTICIPANT,
        photo_hash: None,
        verified: false,
        password_hash: "h".to_string(),
    }
}

#[test]
fn student_form_becomes_an_unverified_participant() {
    let user = student_form("asha@sliet.ac.in").try_into().unwrap();
    assert_eq!(user.id, 0);
    assert_eq!(user.name, "Asha");
    assert_eq!(user.dob, 730_120);
    assert_eq!(user.email, "asha@sliet.ac.in");
    assert_eq!(user.phone, "98");
    assert_eq!(user.role, Role::PARTICIPANT);
    assert_eq!(user.photo_hash, None);
    assert!(!user.verified);
    assert_ne!(user.password_hash, "secret words");
    assert_eq!(check("secret words", &user.password_hash), PasswordCheck::Match);
}

#[test]
fn student_sign_up_is_screened_by_address() {
    assert!(student_form("asha@sliet.ac.in").screen().is_ok());
    assert!(student_form("asha@SLIET.AC.IN").screen().is_ok());
    assert_eq!(student_form("asha@example.org").screen(), Err(Failure::Unauthorized));
    assert_eq!(student_form("asha.sliet.ac.in").screen(), Err(Failure::ValidationFailed));
    assert!(student_form("asha@example.org").try_into().is_ok());
}

#[test]
fn faculty_form_keeps_the_role_it_asks_for() {
    let form = FacultySignUp {
        name: "Dr. Rao".to_string(),
        dob: 720_000,
        email: "rao@example.org".to_string(),
        phone: "97".to_string(),
        role: Role::FACULTY_COORDINATOR,
        password: "another secret".to_string(),
        title: Title::PROF,
        dept: Department::PHY,
    };
    let user = form.clone().try_into().unwrap();
    assert_eq!(user.id, 0);
    assert_eq!(user.role, Role::FACULTY_COORDINATOR);
    assert_eq!(user.email, "rao@example.org");
    assert!(!user.verified);
    assert_eq!(check("another secret", &user.password_hash), PasswordCheck::Match);
    assert_eq!(
        form.to_faculty(&stored(21)),
        Faculty { user_id: 21, title: Title::PROF, dept: Department::PHY }
    );
}

#[test]
fn student_record_goes_with_the_stored_user() {
    assert_eq!(
        student_form("asha@sliet.ac.in").to_student(&stored(17)),
        Student {
            user_id: 17,
            college: "SLIET".to_string(),
            reg_no: "2130001".to_string(),
            dept: Department::ECE,
        }
    );
    let profile = NewStudentProfile {
        college: "Elsewhere".to_string(),
        reg_no: "7".to_string(),
        dept: Department::CS,
    };
    assert_eq!(
        profile.into_student(&stored(18)),
        Student {
            user_id: 18,
            college: "Elsewhere".to_string(),
            reg_no: "7".to_string(),
            dept: Department::CS,
        }
    );
    let faculty = NewFacultyProfile { title: Title::GUEST, dept: Department::MH };
    assert_eq!(
        faculty.into_faculty(&stored(19)),
        Faculty { user_id: 19, title: Title::GUEST, dept: Department::MH }
    );
}

#[test]
fn departments_are_listed_with_code_and_name() {
    let list = get_departments();
    assert_eq!(list.len(), 12);
    assert_eq!(list[0], ("CS".to_string(), "Computer Science".to_string()));
    assert_eq!(
        list[3],
        ("ECE".to_string(), "Electronics and Communication Engineering".to_string())
    );
    assert_eq!(list[11], ("CHM".to_string(), "Chemistry".to_string()));
    let all = Department::variants();
    for (i, department) in all.iter().enumerate() {
        assert_eq!(list[i].0, department.code());
        assert_eq!(list[i].1, department.label());
        assert_eq!(list[i].0, format!("{:?}", department));
    }
    assert_eq!(Department::MATHS.label(), "Maths");
    assert_eq!(Department::DS.label(), "Disability Studies");
}

#[test]
fn first_admin_is_verified_from_the_start() {
    assert!(needs_first_admin(0));
    assert!(needs_first_admin(-1));
    assert!(!needs_first_admin(1));
    assert!(!needs_first_admin(2));
    let admin = student_form("root@example.org").into_admin().unwrap();
    assert_eq!(admin.id, 0);
    assert_eq!(admin.role, Role::SUPER_ADMIN);
    assert!(admin.verified);
    assert_eq!(admin.email, "root@example.org");
    assert_eq!(admin.name, "Asha");
    assert_eq!(admin.photo_hash, None);
    assert_eq!(check("secret words", &admin.password_hash), PasswordCheck::Match);
}
