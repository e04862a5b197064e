//! Sign-up: the forms of students and faculty, and the records made of
//! them.

use crate::failure::Failure;
use crate::password::{checked, hash, PasswordCheck};
use crate::role::Role;
use crate::text::utf8;
use crate::user::{check_student_address, student_address_verdict, User};
use vstd::prelude::*;

verus! {

/// The departments of the institution.
#[derive(Clone, Copy, Debug, PartialEq, Eq, Structural)]
pub enum Department {
    CS,
    CT,
    CEN,
    ECE,
    EIE,
    FET,
    MECH,
    DS,
    MH,
    PHY,
    MATHS,
    CHM,
}

/// The titles of faculty.
#[derive(Clone, Copy, Debug, PartialEq, Eq, Structural)]
pub enum Title {
    PROF,
    ASOCP,
    ASP,
    GUEST,
}

/// What is known of a user as a student.
#[derive(Clone, Debug, PartialEq, Eq)]
pub struct Student {
    pub user_id: i32,
    pub college: String,
    pub reg_no: String,
    pub dept: Department,
}

/// What is known of a user as a member of faculty.
#[derive(Clone, Copy, Debug, PartialEq, Eq, Structural)]
pub struct Faculty {
    pub user_id: i32,
    pub title: Title,
    pub dept: Department,
}

/// The form a student signs up with.
#[derive(Clone, Debug)]
pub struct StudentSignUp {
    pub name: String,
    /// Date of birth, as the day number that `User::dob` holds.
    pub dob: i32,
    pub email: String,
    pub phone: String,
    pub password: String,
    pub college: String,
    pub reg_no: String,
    pub dept: Department,
}

/// The form a member of faculty signs up with.
#[derive(Clone, Debug)]
pub struct FacultySignUp {
    pub name: String,
    /// Date of birth, as the day number that `User::dob` holds.
    pub dob: i32,
    pub email: String,
    pub phone: String,
    pub role: Role,
    pub password: String,
    pub title: Title,
    pub dept: Department,
}

/// The student details of a user who already has an account.
#[derive(Clone, Debug)]
pub struct NewStudentProfile {
    pub college: String,
    pub reg_no: String,
    pub dept: Department,
}

/// The faculty details of a user who already has an account.
#[derive(Clone, Copy, Debug)]
pub struct NewFacultyProfile {
    pub title: Title,
    pub dept: Department,
}

impl Department {
    /// The short name, as it is stored and sent.
    pub open spec fn code_text(self) -> Seq<char> {
        match self {
            Department::CS => "CS"@,
            Department::CT => "CT"@,
            Department::CEN => "CEN"@,
            Department::ECE => "ECE"@,
            Department::EIE => "EIE"@,
            Department::FET => "FET"@,
            Department::MECH => "MECH"@,
            Department::DS => "DS"@,
            Department::MH => "MH"@,
            Department::PHY => "PHY"@,
            Department::MATHS => "MATHS"@,
            Department::CHM => "CHM"@,
        }
    }

    /// The full name, as it is shown.
    pub open spec fn label_text(self) -> Seq<char> {
        match self {
            Department::CS => "Computer Science"@,
            Department::CT => "Chemical Technology"@,
            Department::CEN => "Civil Engineering"@,
            Department::ECE => "Electronics and Communication Engineering"@,
            Department::EIE => "Instrumentation Engineering"@,
            Department::FET => "Food Engineering and Technology"@,
            Department::MECH => "Mechanical Engineering"@,
            Department::DS => "Disability Studies"@,
            Department::MH => "Management and Humanities"@,
            Department::PHY => "Physics"@,
            Department::MATHS => "Maths"@,
            Department::CHM => "Chemistry"@,
        }
    }

    /// All departments, in the order in which they are listed.
    pub open spec fn all() -> Seq<Department> {
        seq![
            Department::CS,
            Department::CT,
            Department::CEN,
            Department::ECE,
            Department::EIE,
            Department::FET,
            Department::MECH,
            Department::DS,
            Department::MH,
            Department::PHY,
            Department::MATHS,
            Department::CHM,
        ]
    }

    pub fn code(self) -> (r: String)
        ensures
            r@ == self.code_text(),
    {
        match self {
            Department::CS => "CS".to_owned(),
            Department::CT => "CT".to_owned(),
            Department::CEN => "CEN".to_owned(),
            Department::ECE => "ECE".to_owned(),
            Department::EIE => "EIE".to_owned(),
            Department::FET => "FET".to_owned(),
            Department::MECH => "MECH".to_owned(),
            Department::DS => "DS".to_owned(),
            Department::MH => "MH".to_owned(),
            Department::PHY => "PHY".to_owned(),
            Department::MATHS => "MATHS".to_owned(),
            Department::CHM => "CHM".to_owned(),
        }
    }

    pub fn label(self) -> (r: String)
        ensures
            r@ == self.label_text(),
    {
        match self {
            Department::CS => "Computer Science".to_owned(),
            Department::CT => "Chemical Technology".to_owned(),
            Department::CEN => "Civil Engineering".to_owned(),
            Department::ECE => "Electronics and Communication Engineering".to_owned(),
            Department::EIE => "Instrumentation Engineering".to_owned(),
            Department::FET => "Food Engineering and Technology".to_owned(),
            Department::MECH => "Mechanical Engineering".to_owned(),
            Department::DS => "Disability Studies".to_owned(),
            Department::MH => "Management and Humanities".to_owned(),
            Department::PHY => "Physics".to_owned(),
            Department::MATHS => "Maths".to_owned(),
            Department::CHM => "Chemistry".to_owned(),
        }
    }

    pub fn variants() -> (r: Vec<Department>)
        ensures
            r@ == Department::all(),
    {
        let mut list: Vec<Department> = Vec::new();
        list.push(Department::CS);
        list.push(Department::CT);
        list.push(Department::CEN);
        list.push(Department::ECE);
        list.push(Department::EIE);
        list.push(Department::FET);
        list.push(Department::MECH);
        list.push(Department::DS);
        list.push(Department::MH);
        list.push(Department::PHY);
        list.push(Department::MATHS);
        list.push(Department::CHM);
        proof {
            assert(list@ =~= Department::all());
        }
        list
    }
}

/// The directory of departments: for each, in order, its short name and
/// its full name.
pub fn get_departments() -> (r: Vec<(String, String)>)
    ensures
        r@.len() == Department::all().len(),
        forall|i: int|
            0 <= i < r@.len() ==> (#[trigger] r@[i]).0@ == Department::all()[i].code_text()
                && r@[i].1@ == Department::all()[i].label_text(),
{
    let all = Department::variants();
    let mut list: Vec<(String, String)> = Vec::new();
    let mut i: usize = 0;
    while i < all.len()
        invariant
            i <= all@.len(),
            all@ == Department::all(),
            list@.len() == i,
            forall|j: int|
                0 <= j < i ==> (#[trigger] list@[j]).0@ == Department::all()[j].code_text()
                    && list@[j].1@ == Department::all()[j].label_text(),
        decreases all@.len() - i,
    {
        let department = all[i];
        list.push((department.code(), department.label()));
        i = i + 1;
    }
    list
}

/// The record that sign-up makes of a form, before it is stored: not yet
/// numbered, not verified, without a photo.
pub open spec fn is_new_account(
    user: User,
    name: String,
    dob: i32,
    email: String,
    phone: String,
    role: Role,
    password: String,
) -> bool {
    &&& user.id == 0
    &&& user.name == name
    &&& user.dob == dob
    &&& user.email == email
    &&& user.phone == phone
    &&& user.role == role
    &&& user.photo_hash.is_none()
    &&& !user.verified
    &&& checked(utf8(password@), user.password_hash@) == PasswordCheck::Match
}

impl StudentSignUp {
    /// Makes the user record of this form. A student starts as a
    /// participant. Fails only where the password cannot be hashed.
    pub fn try_into(self) -> (r: Result<User, Failure>)
        ensures
            r matches Ok(user) ==> is_new_account(
                user,
                self.name,
                self.dob,
                self.email,
                self.phone,
                Role::PARTICIPANT,
                self.password,
            ),
            r matches Err(failure) ==> failure == Failure::UpstreamUnavailable,
    {
        match hash(self.password.as_str()) {
            Err(failure) => Err(failure),
            Ok(password_hash) => Ok(
                User {
                    id: 0,
                    name: self.name,
                    dob: self.dob,
                    email: self.email,
                    phone: self.phone,
                    role: Role::PARTICIPANT,
                    photo_hash: None,
                    verified: false,
                    password_hash,
                },
            ),
        }
    }

    /// The student record that goes with the stored user.
    pub fn to_student(self, user: &User) -> (student: Student)
        ensures
            student.user_id == user.id,
            student.college == self.college,
            student.reg_no == self.reg_no,
            student.dept == self.dept,
    {
        Student {
            user_id: user.id,
            college: self.college,
            reg_no: self.reg_no,
            dept: self.dept,
        }
    }

    /// Screens the form: only addresses of the institution may sign up as
    /// students. Then makes the user record.
    pub fn screen(self) -> (r: Result<User, Failure>)
        ensures
            student_address_verdict(utf8(self.email@)) matches Err(failure) ==> r == Err::<
                User,
                Failure,
            >(failure),
            r matches Ok(user) ==> student_address_verdict(utf8(self.email@)).is_ok()
                && is_new_account(
                user,
                self.name,
                self.dob,
                self.email,
                self.phone,
                Role::PARTICIPANT,
                self.password,
            ),
            r matches Err(failure) ==> student_address_verdict(utf8(self.email@)) == Err::<
                (),
                Failure,
            >(failure) || failure == Failure::UpstreamUnavailable,
    {
        match check_student_address(self.email.as_str()) {
            Err(failure) => Err(failure),
            Ok(()) => self.try_into(),
        }
    }
}

/// Whether the service still lacks its administrator: it does as long as
/// no user holds that role.
pub fn needs_first_admin(admins: i64) -> (r: bool)
    ensures
        r == (admins < 1),
{
    admins < 1
}

/// The record of the first administrator, made of a sign-up form: verified
/// from the start, and not yet numbered.
pub open spec fn is_first_admin(user: User, form: StudentSignUp) -> bool {
    &&& user.id == 0
    &&& user.name == form.name
    &&& user.dob == form.dob
    &&& user.email == form.email
    &&& user.phone == form.phone
    &&& user.role == Role::SUPER_ADMIN
    &&& user.photo_hash.is_none()
    &&& user.verified
    &&& checked(utf8(form.password@), user.password_hash@) == PasswordCheck::Match
}

impl StudentSignUp {
    /// Makes the record of the first administrator of this form. Fails
    /// only where the password cannot be hashed.
    pub fn into_admin(self) -> (r: Result<User, Failure>)
        ensures
            r matches Ok(user) ==> is_first_admin(user, self),
            r matches Err(failure) ==> failure == Failure::UpstreamUnavailable,
    {
        match self.try_into() {
            Err(failure) => Err(failure),
            Ok(user) => Ok(
                User {
                    id: user.id,
                    name: user.name,
                    dob: user.dob,
                    email: user.email,
                    phone: user.phone,
                    role: Role::SUPER_ADMIN,
                    photo_hash: user.photo_hash,
                    verified: true,
                    password_hash: user.password_hash,
                },
            ),
        }
    }
}

impl FacultySignUp {
    /// Makes the user record of this form, with the role the form asks
    /// for. Fails only where the password cannot be hashed.
    pub fn try_into(self) -> (r: Result<User, Failure>)
        ensures
            r matches Ok(user) ==> is_new_account(
                user,
                self.name,
                self.dob,
                self.email,
                self.phone,
                self.role,
                self.password,
            ),
            r matches Err(failure) ==> failure == Failure::UpstreamUnavailable,
    {
        match hash(self.password.as_str()) {
            Err(failure) => Err(failure),
            Ok(password_hash) => Ok(
                User {
                    id: 0,
                    name: self.name,
                    dob: self.dob,
                    email: self.email,
                    phone: self.phone,
                    role: self.role,
                    photo_hash: None,
                    verified: false,
                    password_hash,
                },
            ),
        }
    }

    /// The faculty record that goes with the stored user.
    pub fn to_faculty(self, user: &User) -> (faculty: Faculty)
        ensures
            faculty.user_id == user.id,
            faculty.title == self.title,
            faculty.dept == self.dept,
    {
        Faculty { user_id: user.id, title: self.title, dept: self.dept }
    }
}

impl NewStudentProfile {
    /// The student record of `user` with these details.
    pub fn into_student(self, user: &User) -> (student: Student)
        ensures
            student.user_id == user.id,
            student.college == self.college,
            student.reg_no == self.reg_no,
            student.dept == self.dept,
    {
        Student {
            user_id: user.id,
            college: self.college,
            reg_no: self.reg_no,
            dept: self.dept,
        }
    }
}

impl NewFacultyProfile {
    /// The faculty record of `user` with these details.
    pub fn into_faculty(self, user: &User) -> (faculty: Faculty)
        ensures
            faculty.user_id == user.id,
            faculty.title == self.title,
            faculty.dept == self.dept,
    {
        Faculty { user_id: user.id, title: self.title, dept: self.dept }
    }
}

} // verus!
