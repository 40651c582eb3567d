//! The class register: classes by number, each with its students by number.

use vstd::prelude::*;
use crate::http::Status;

verus! {

/// A student of a class.
#[derive(Clone, Debug, PartialEq, Eq)]
pub struct Student {
    pub student_number: u32,
    pub name: String,
}

/// The mathematical value of a [`Student`].
pub struct StudentView {
    pub student_number: nat,
    pub name: Seq<char>,
}

impl View for Student {
    type V = StudentView;

    open spec fn view(&self) -> StudentView {
        StudentView { student_number: self.student_number as nat, name: self.name@ }
    }
}

/// A class and its students.
#[derive(Clone, Debug, PartialEq, Eq)]
pub struct Class {
    pub class_number: u32,
    pub students: Vec<Student>,
}

/// The place of the first class numbered `class_number`, or the length of the
/// register where there is none.
pub open spec fn first_class(classes: Seq<Class>, class_number: u32) -> int
    decreases classes.len(),
{
    if classes.len() == 0 {
        0
    } else if classes[0].class_number == class_number {
        0
    } else {
        1 + first_class(classes.drop_first(), class_number)
    }
}

/// The place of the first student numbered `student_number`, or the length of
/// the list where there is none.
pub open spec fn first_student(students: Seq<Student>, student_number: u32) -> int
    decreases students.len(),
{
    if students.len() == 0 {
        0
    } else if students[0].student_number == student_number {
        0
    } else {
        1 + first_student(students.drop_first(), student_number)
    }
}

/// The student numbered `student_number` of the class numbered `class_number`:
/// the first such student of the first such class. There is none where no
/// class has the number, or where the first class that has it holds no student
/// of that number.
pub open spec fn enrolled(classes: Seq<Class>, class_number: u32, student_number: u32) -> Option<
    StudentView,
> {
    let c = first_class(classes, class_number);
    if c < classes.len() {
        let students = classes[c].students@;
        let s = first_student(students, student_number);
        if s < students.len() {
            Some(students[s]@)
        } else {
            None
        }
    } else {
        None
    }
}

/// The first class of the number lies within the register or at its end, bears
/// the number where it lies within, and no class before it does.
pub proof fn lemma_first_class(classes: Seq<Class>, class_number: u32)
    ensures
        0 <= first_class(classes, class_number) <= classes.len(),
        first_class(classes, class_number) < classes.len() ==> classes[first_class(
            classes,
            class_number,
        )].class_number == class_number,
        forall|i: int|
            0 <= i < first_class(classes, class_number) ==> (#[trigger] classes[i]).class_number
                != class_number,
    decreases classes.len(),
{
    if classes.len() > 0 && classes[0].class_number != class_number {
        let rest = classes.drop_first();
        lemma_first_class(rest, class_number);
        assert forall|i: int| 0 <= i < first_class(classes, class_number) implies (
        #[trigger] classes[i]).class_number != class_number by {
            if i > 0 {
                assert(classes[i] == rest[i - 1]);
            }
        }
    }
}

/// The first student of the number lies within the list or at its end, bears
/// the number where it lies within, and no student before it does.
pub proof fn lemma_first_student(students: Seq<Student>, student_number: u32)
    ensures
        0 <= first_student(students, student_number) <= students.len(),
        first_student(students, student_number) < students.len() ==> students[first_student(
            students,
            student_number,
        )].student_number == student_number,
        forall|i: int|
            0 <= i < first_student(students, student_number) ==> (
            #[trigger] students[i]).student_number != student_number,
    decreases students.len(),
{
    if students.len() > 0 && students[0].student_number != student_number {
        let rest = students.drop_first();
        lemma_first_student(rest, student_number);
        assert forall|i: int| 0 <= i < first_student(students, student_number) implies (
        #[trigger] students[i]).student_number != student_number by {
            if i > 0 {
                assert(students[i] == rest[i - 1]);
            }
        }
    }
}

fn find_in_class(students: &Vec<Student>, student_number: u32) -> (found: Option<Student>)
    ensures
        first_student(students@, student_number) < students.len() ==> found is Some
            && found->Some_0@ == students[first_student(students@, student_number)]@,
        first_student(students@, student_number) >= students.len() ==> found is None,
{
    let mut at: usize = 0;
    while at < students.len()
        invariant
            at <= students.len(),
            forall|i: int| 0 <= i < at ==> (#[trigger] students[i]).student_number != student_number,
        decreases students.len() - at,
    {
        if students[at].student_number == student_number {
            proof {
                lemma_first_student(students@, student_number);
            }
            return Some(
                Student {
                    student_number: students[at].student_number,
                    name: students[at].name.clone(),
                },
            );
        }
        at = at + 1;
    }
    proof {
        lemma_first_student(students@, student_number);
    }
    None
}

/// Looks a student up by class number and student number.
pub fn find_student(classes: &Vec<Class>, class_number: u32, student_number: u32) -> (found:
    Option<Student>)
    ensures
        match found {
            Some(student) => enrolled(classes@, class_number, student_number) == Some(student@),
            None => enrolled(classes@, class_number, student_number) is None,
        },
{
    let mut at: usize = 0;
    while at < classes.len()
        invariant
            at <= classes.len(),
            forall|i: int| 0 <= i < at ==> (#[trigger] classes[i]).class_number != class_number,
        decreases classes.len() - at,
    {
        if classes[at].class_number == class_number {
            proof {
                lemma_first_class(classes@, class_number);
            }
            return find_in_class(&classes[at].students, student_number);
        }
        at = at + 1;
    }
    proof {
        lemma_first_class(classes@, class_number);
    }
    None
}

/// Answers a request for a student: the student under status 200, or status
/// 400 with an error text.
pub fn get_student(classes: &Vec<Class>, class_number: u32, student_number: u32) -> (reply: (
    Status,
    Result<Student, String>,
))
    ensures
        match reply.1 {
            Ok(student) => enrolled(classes@, class_number, student_number) == Some(student@)
                && reply.0 == Status::Success,
            Err(text) => enrolled(classes@, class_number, student_number) is None && reply.0
                == Status::BadRequest && text@ == "Student Not Found"@,
        },
{
    match find_student(classes, class_number, student_number) {
        Some(student) => (Status::Success, Ok(student)),
        None => (Status::BadRequest, Err("Student Not Found".to_owned())),
    }
}

} // verus!
