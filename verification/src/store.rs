//! The relational store, modeled in memory: one vector per table, with the
//! uniqueness constraints the schema declares and the invariant that every
//! persisted exam aggregate is structurally well-formed. Multi-entity writes
//! mutate the store only after every check has passed, so each operation is
//! atomic: on any error the store is exactly what it was.

use vstd::prelude::*;

use crate::errors::ClassError;
use crate::model::{exam_eq, Class, Exam, StudentAnswer, User};
use crate::strutil::str_eq;
use crate::validate::exam_valid;

verus! {

/// An enrollment record: the student has access to the class's exams.
#[derive(Debug)]
pub struct Enrollment {
    pub student_id: String,
    pub class_id: String,
}

/// The whole persisted state.
#[derive(Debug)]
pub struct Store {
    pub classes: Vec<Class>,
    pub enrollments: Vec<Enrollment>,
    pub users: Vec<User>,
    pub exams: Vec<Exam>,
    pub student_answers: Vec<StudentAnswer>,
}

/// No two classes share an identity.
pub open spec fn class_ids_unique(cs: Seq<Class>) -> bool {
    forall|i: int, j: int|
        0 <= i < cs.len() && 0 <= j < cs.len() && i != j ==> (#[trigger] cs[i]).id@ != (
        #[trigger] cs[j]).id@
}

/// No two classes share a code.
pub open spec fn class_codes_unique(cs: Seq<Class>) -> bool {
    forall|i: int, j: int|
        0 <= i < cs.len() && 0 <= j < cs.len() && i != j ==> (#[trigger] cs[i]).code@ != (
        #[trigger] cs[j]).code@
}

/// No two users share an identity.
pub open spec fn user_ids_unique(us: Seq<User>) -> bool {
    forall|i: int, j: int|
        0 <= i < us.len() && 0 <= j < us.len() && i != j ==> (#[trigger] us[i]).id@ != (
        #[trigger] us[j]).id@
}

/// No two exams share an identity.
pub open spec fn exam_ids_unique(es: Seq<Exam>) -> bool {
    forall|i: int, j: int|
        0 <= i < es.len() && 0 <= j < es.len() && i != j ==> (#[trigger] es[i]).id@ != (
        #[trigger] es[j]).id@
}

/// Every persisted exam aggregate is structurally well-formed.
pub open spec fn exams_all_valid(es: Seq<Exam>) -> bool {
    forall|i: int| 0 <= i < es.len() ==> exam_valid(#[trigger] es[i])
}

/// The row at index `i` is keyed by (`student`, `question`).
pub open spec fn sa_at(rows: Seq<StudentAnswer>, student: Seq<char>, question: Seq<char>, i: int) -> bool {
    &&& 0 <= i < rows.len()
    &&& rows[i].student_id@ == student
    &&& rows[i].question_id@ == question
}

/// Some row is keyed by (`student`, `question`).
pub open spec fn has_row(rows: Seq<StudentAnswer>, student: Seq<char>, question: Seq<char>) -> bool {
    exists|i: int| sa_at(rows, student, question, i)
}

/// The index of the row keyed by (`student`, `question`); under
/// `sa_keys_unique` it is the only one.
pub open spec fn row_index(rows: Seq<StudentAnswer>, student: Seq<char>, question: Seq<char>) -> int {
    choose|i: int| sa_at(rows, student, question, i)
}

/// At most one row per (student, question): the table's primary key.
pub open spec fn sa_keys_unique(rows: Seq<StudentAnswer>) -> bool {
    forall|i: int, j: int|
        0 <= i < rows.len() && 0 <= j < rows.len() && i != j ==> !((#[trigger] rows[i]).student_id@
            == (#[trigger] rows[j]).student_id@ && rows[i].question_id@ == rows[j].question_id@)
}

/// Some exam has identity `id`.
pub open spec fn has_exam(es: Seq<Exam>, id: Seq<char>) -> bool {
    exists|i: int| 0 <= i < es.len() && (#[trigger] es[i]).id@ == id
}

/// The index of the exam with identity `id`; under `exam_ids_unique` it is
/// the only one.
pub open spec fn exam_index(es: Seq<Exam>, id: Seq<char>) -> int {
    choose|i: int| 0 <= i < es.len() && (#[trigger] es[i]).id@ == id
}

/// Under unique identities, an exam's position is determined by its identity.
pub proof fn lemma_exam_index(es: Seq<Exam>, id: Seq<char>, i: int)
    requires
        exam_ids_unique(es),
        0 <= i < es.len(),
        es[i].id@ == id,
    ensures
        has_exam(es, id),
        exam_index(es, id) == i,
{
    assert(has_exam(es, id));
    let j = exam_index(es, id);
    assert(es[j].id@ == id);
}

/// Under unique keys, a row's position is determined by its key.
pub proof fn lemma_row_index(rows: Seq<StudentAnswer>, student: Seq<char>, question: Seq<char>, i: int)
    requires
        sa_keys_unique(rows),
        sa_at(rows, student, question, i),
    ensures
        has_row(rows, student, question),
        row_index(rows, student, question) == i,
{
    assert(has_row(rows, student, question));
    let j = row_index(rows, student, question);
    assert(sa_at(rows, student, question, j));
}

/// `user` owns the class `class`.
pub open spec fn spec_is_teacher(s: Store, user: Seq<char>, class: Seq<char>) -> bool {
    exists|i: int|
        0 <= i < s.classes@.len() && (#[trigger] s.classes@[i]).id@ == class && s.classes@[i].user_id@
            == user
}

/// `user` is enrolled in the class `class`.
pub open spec fn spec_is_student(s: Store, user: Seq<char>, class: Seq<char>) -> bool {
    exists|i: int|
        0 <= i < s.enrollments@.len() && (#[trigger] s.enrollments@[i]).student_id@ == user
            && s.enrollments@[i].class_id@ == class
}

/// Some class has identity `id`.
pub open spec fn has_class(cs: Seq<Class>, id: Seq<char>) -> bool {
    exists|i: int| 0 <= i < cs.len() && (#[trigger] cs[i]).id@ == id
}

/// Some class has code `code`.
pub open spec fn has_class_code(cs: Seq<Class>, code: Seq<char>) -> bool {
    exists|i: int| 0 <= i < cs.len() && (#[trigger] cs[i]).code@ == code
}

/// Some user has identity `id`.
pub open spec fn has_user(us: Seq<User>, id: Seq<char>) -> bool {
    exists|i: int| 0 <= i < us.len() && (#[trigger] us[i]).id@ == id
}

impl Store {
    /// Schema constraints and the persisted-validity invariant: every
    /// operation of the store preserves this.
    pub open spec fn wf(self) -> bool {
        &&& class_ids_unique(self.classes@)
        &&& class_codes_unique(self.classes@)
        &&& user_ids_unique(self.users@)
        &&& exam_ids_unique(self.exams@)
        &&& exams_all_valid(self.exams@)
        &&& sa_keys_unique(self.student_answers@)
    }

    /// An empty store.
    pub fn new() -> (s: Store)
        ensures
            s.wf(),
            s.classes@.len() == 0,
            s.enrollments@.len() == 0,
            s.users@.len() == 0,
            s.exams@.len() == 0,
            s.student_answers@.len() == 0,
    {
        Store {
            classes: Vec::new(),
            enrollments: Vec::new(),
            users: Vec::new(),
            exams: Vec::new(),
            student_answers: Vec::new(),
        }
    }

    /// The position of the exam with identity `exam_id`, if any.
    #[verifier::loop_isolation(false)]
    pub(crate) fn find_exam(&self, exam_id: &str) -> (r: Option<usize>)
        ensures
            match r {
                Some(i) => i < self.exams@.len() && self.exams@[i as int].id@ == exam_id@,
                None => !has_exam(self.exams@, exam_id@),
            },
    {
        let mut i: usize = 0;
        while i < self.exams.len()
            invariant
                0 <= i <= self.exams@.len(),
                forall|j: int| 0 <= j < i ==> (#[trigger] self.exams@[j]).id@ != exam_id@,
            decreases self.exams@.len() - i,
        {
            if str_eq(self.exams[i].id.as_str(), exam_id) {
                return Some(i);
            }
            i = i + 1;
        }
        None
    }

    /// Point read of an exam together with its full question/answer tree,
    /// as a clone of the stored aggregate.
    pub fn get_with_relations(&self, exam_id: &str) -> (r: Option<Exam>)
        requires
            self.wf(),
        ensures
            match r {
                Some(e) => {
                    &&& has_exam(self.exams@, exam_id@)
                    &&& exam_eq(e, self.exams@[exam_index(self.exams@, exam_id@)])
                    &&& e.id@ == exam_id@
                },
                None => !has_exam(self.exams@, exam_id@),
            },
    {
        match self.find_exam(exam_id) {
            Some(i) => {
                proof {
                    lemma_exam_index(self.exams@, exam_id@, i as int);
                }
                Some(self.exams[i].clone())
            },
            None => None,
        }
    }

    /// True exactly when `user_id` is the creator of the class `class_id`.
    #[verifier::loop_isolation(false)]
    pub fn is_teacher(&self, user_id: &str, class_id: &str) -> (r: bool)
        ensures
            r == spec_is_teacher(*self, user_id@, class_id@),
    {
        let mut i: usize = 0;
        while i < self.classes.len()
            invariant
                0 <= i <= self.classes@.len(),
                forall|j: int|
                    0 <= j < i ==> !((#[trigger] self.classes@[j]).id@ == class_id@
                        && self.classes@[j].user_id@ == user_id@),
            decreases self.classes@.len() - i,
        {
            if str_eq(self.classes[i].id.as_str(), class_id) && str_eq(
                self.classes[i].user_id.as_str(),
                user_id,
            ) {
                return true;
            }
            i = i + 1;
        }
        false
    }

    /// True exactly when `user_id` has an enrollment record for the class
    /// `class_id`.
    #[verifier::loop_isolation(false)]
    pub fn is_student(&self, user_id: &str, class_id: &str) -> (r: bool)
        ensures
            r == spec_is_student(*self, user_id@, class_id@),
    {
        let mut i: usize = 0;
        while i < self.enrollments.len()
            invariant
                0 <= i <= self.enrollments@.len(),
                forall|j: int|
                    0 <= j < i ==> !((#[trigger] self.enrollments@[j]).student_id@ == user_id@
                        && self.enrollments@[j].class_id@ == class_id@),
            decreases self.enrollments@.len() - i,
        {
            if str_eq(self.enrollments[i].student_id.as_str(), user_id) && str_eq(
                self.enrollments[i].class_id.as_str(),
                class_id,
            ) {
                return true;
            }
            i = i + 1;
        }
        false
    }

    /// The position of the class with identity `class_id`, if any.
    #[verifier::loop_isolation(false)]
    pub(crate) fn find_class(&self, class_id: &str) -> (r: Option<usize>)
        ensures
            match r {
                Some(i) => i < self.classes@.len() && self.classes@[i as int].id@ == class_id@,
                None => !has_class(self.classes@, class_id@),
            },
    {
        let mut i: usize = 0;
        while i < self.classes.len()
            invariant
                0 <= i <= self.classes@.len(),
                forall|j: int| 0 <= j < i ==> (#[trigger] self.classes@[j]).id@ != class_id@,
            decreases self.classes@.len() - i,
        {
            if str_eq(self.classes[i].id.as_str(), class_id) {
                return Some(i);
            }
            i = i + 1;
        }
        None
    }

    /// Point read of a class by identity.
    pub fn get_class(&self, class_id: &str) -> (r: Option<&Class>)
        ensures
            match r {
                Some(c) => exists|i: int|
                    0 <= i < self.classes@.len() && *c == #[trigger] self.classes@[i] && c.id@
                        == class_id@,
                None => !has_class(self.classes@, class_id@),
            },
    {
        match self.find_class(class_id) {
            Some(i) => Some(&self.classes[i]),
            None => None,
        }
    }

    /// Point read of a class by code.
    #[verifier::loop_isolation(false)]
    pub fn get_by_code(&self, code: &str) -> (r: Option<&Class>)
        ensures
            match r {
                Some(c) => exists|i: int|
                    0 <= i < self.classes@.len() && *c == #[trigger] self.classes@[i] && c.code@
                        == code@,
                None => !has_class_code(self.classes@, code@),
            },
    {
        let mut i: usize = 0;
        while i < self.classes.len()
            invariant
                0 <= i <= self.classes@.len(),
                forall|j: int| 0 <= j < i ==> (#[trigger] self.classes@[j]).code@ != code@,
            decreases self.classes@.len() - i,
        {
            if str_eq(self.classes[i].code.as_str(), code) {
                return Some(&self.classes[i]);
            }
            i = i + 1;
        }
        None
    }

    /// Point read of a user by identity.
    #[verifier::loop_isolation(false)]
    pub fn get_user(&self, user_id: &str) -> (r: Option<&User>)
        ensures
            match r {
                Some(u) => exists|i: int|
                    0 <= i < self.users@.len() && *u == #[trigger] self.users@[i] && u.id@
                        == user_id@,
                None => !has_user(self.users@, user_id@),
            },
    {
        let mut i: usize = 0;
        while i < self.users.len()
            invariant
                0 <= i <= self.users@.len(),
                forall|j: int| 0 <= j < i ==> (#[trigger] self.users@[j]).id@ != user_id@,
            decreases self.users@.len() - i,
        {
            if str_eq(self.users[i].id.as_str(), user_id) {
                return Some(&self.users[i]);
            }
            i = i + 1;
        }
        None
    }

    /// Creates a class, refusing a code that is already in use. On error the
    /// store is unchanged; on success the class is appended (or, when its
    /// identity already exists, that row's code, name and description are
    /// rewritten, as the underlying upsert would).
    pub fn create_class(&mut self, class: Class) -> (r: Result<(), ClassError>)
        requires
            old(self).wf(),
        ensures
            final(self).wf(),
            final(self).enrollments@ == old(self).enrollments@,
            final(self).users@ == old(self).users@,
            final(self).exams@ == old(self).exams@,
            final(self).student_answers@ == old(self).student_answers@,
            match r {
                Err(e) => {
                    &&& e == ClassError::CodeInUse
                    &&& has_class_code(old(self).classes@, class.code@)
                    &&& final(self).classes@ == old(self).classes@
                },
                Ok(()) => {
                    &&& !has_class_code(old(self).classes@, class.code@)
                    &&& if has_class(old(self).classes@, class.id@) {
                        final(self).classes@.len() == old(self).classes@.len() && exists|i: int|
                            {
                                &&& 0 <= i < old(self).classes@.len()
                                &&& (#[trigger] old(self).classes@[i]).id@ == class.id@
                                &&& final(self).classes@[i].id == old(self).classes@[i].id
                                &&& final(self).classes@[i].user_id == old(self).classes@[i].user_id
                                &&& final(self).classes@[i].code == class.code
                                &&& final(self).classes@[i].name == class.name
                                &&& final(self).classes@[i].description == class.description
                                &&& forall|j: int|
                                    0 <= j < old(self).classes@.len() && j != i
                                        ==> final(self).classes@[j] == old(self).classes@[j]
                            }
                    } else {
                        final(self).classes@ == old(self).classes@.push(class)
                    }
                },
            },
    {
        if self.get_by_code(class.code.as_str()).is_some() {
            return Err(ClassError::CodeInUse);
        }
        match self.find_class(class.id.as_str()) {
            Some(i) => {
                let ghost idx: int = i as int;
                let updated = Class {
                    id: self.classes[i].id.clone(),
                    code: class.code,
                    name: class.name,
                    description: class.description,
                    user_id: self.classes[i].user_id.clone(),
                };
                self.classes.set(i, updated);
                proof {
                    assert(final(self).classes@[idx].id@ == old(self).classes@[idx].id@);
                    assert forall|a: int, b: int|
                        0 <= a < final(self).classes@.len() && 0 <= b < final(self).classes@.len()
                            && a != b implies (#[trigger] final(self).classes@[a]).id@ != (
                    #[trigger] final(self).classes@[b]).id@ by {
                        assert(old(self).classes@[a].id@ != old(self).classes@[b].id@);
                    }
                    assert forall|a: int, b: int|
                        0 <= a < final(self).classes@.len() && 0 <= b < final(self).classes@.len()
                            && a != b implies (#[trigger] final(self).classes@[a]).code@ != (
                    #[trigger] final(self).classes@[b]).code@ by {
                        assert(old(self).classes@[a].code@ != old(self).classes@[b].code@);
                    }
                }
                Ok(())
            },
            None => {
                self.classes.push(class);
                Ok(())
            },
        }
    }

    /// Records an enrollment of `student_id` in `class_id`, requiring both
    /// to resolve. On error the store is unchanged.
    pub fn enroll_student(&mut self, student_id: &str, class_id: &str) -> (r: Result<
        (),
        ClassError,
    >)
        requires
            old(self).wf(),
        ensures
            final(self).wf(),
            final(self).classes@ == old(self).classes@,
            final(self).users@ == old(self).users@,
            final(self).exams@ == old(self).exams@,
            final(self).student_answers@ == old(self).student_answers@,
            match r {
                Err(e) => {
                    &&& e == ClassError::NotFound
                    &&& !(has_user(old(self).users@, student_id@) && has_class(
                        old(self).classes@,
                        class_id@,
                    ))
                    &&& final(self).enrollments@ == old(self).enrollments@
                },
                Ok(()) => {
                    &&& has_user(old(self).users@, student_id@)
                    &&& has_class(old(self).classes@, class_id@)
                    &&& final(self).enrollments@.len() == old(self).enrollments@.len() + 1
                    &&& (forall|j: int|
                        0 <= j < old(self).enrollments@.len() ==> final(self).enrollments@[j] == old(
                            self,
                        ).enrollments@[j])
                    &&& final(self).enrollments@.last().student_id@ == student_id@
                    &&& final(self).enrollments@.last().class_id@ == class_id@
                    &&& spec_is_student(*final(self), student_id@, class_id@)
                },
            },
    {
        if self.get_user(student_id).is_none() {
            return Err(ClassError::NotFound);
        }
        if self.find_class(class_id).is_none() {
            return Err(ClassError::NotFound);
        }
        let row = Enrollment { student_id: student_id.to_owned(), class_id: class_id.to_owned() };
        self.enrollments.push(row);
        proof {
            let n = old(self).enrollments@.len() as int;
            assert(self.enrollments@[n].student_id@ == student_id@);
            assert(spec_is_student(*self, student_id@, class_id@));
        }
        Ok(())
    }

    /// Upserts a user by identity: inserts it, or rewrites the stored name
    /// and avatar when the identity already exists.
    #[verifier::loop_isolation(false)]
    pub fn save_user(&mut self, user: User)
        requires
            old(self).wf(),
        ensures
            final(self).wf(),
            final(self).classes@ == old(self).classes@,
            final(self).enrollments@ == old(self).enrollments@,
            final(self).exams@ == old(self).exams@,
            final(self).student_answers@ == old(self).student_answers@,
            has_user(final(self).users@, user.id@),
            if has_user(old(self).users@, user.id@) {
                final(self).users@.len() == old(self).users@.len() && exists|i: int|
                    {
                        &&& 0 <= i < old(self).users@.len()
                        &&& (#[trigger] old(self).users@[i]).id@ == user.id@
                        &&& final(self).users@[i] == user
                        &&& forall|j: int|
                            0 <= j < old(self).users@.len() && j != i ==> final(self).users@[j]
                                == old(self).users@[j]
                    }
            } else {
                final(self).users@ == old(self).users@.push(user)
            },
    {
        let mut i: usize = 0;
        let n: usize = self.users.len();
        while i < n
            invariant
                *old(self) == *self,
                n == self.users@.len(),
                0 <= i <= n,
                forall|j: int| 0 <= j < i ==> (#[trigger] self.users@[j]).id@ != user.id@,
            decreases n - i,
        {
            if str_eq(self.users[i].id.as_str(), user.id.as_str()) {
                let ghost idx: int = i as int;
                let replacement = User { id: user.id, name: user.name, avatar_url: user.avatar_url };
                self.users.set(i, replacement);
                proof {
                    assert(final(self).users@[idx].id@ == old(self).users@[idx].id@);
                    assert forall|a: int, b: int|
                        0 <= a < final(self).users@.len() && 0 <= b < final(self).users@.len() && a
                            != b implies (#[trigger] final(self).users@[a]).id@ != (
                    #[trigger] final(self).users@[b]).id@ by {
                        assert(old(self).users@[a].id@ != old(self).users@[b].id@);
                    }
                }
                return ;
            }
            i = i + 1;
        }
        self.users.push(user);
        proof {
            let n = old(self).users@.len() as int;
            assert(self.users@[n].id@ == user.id@);
            assert(has_user(self.users@, user.id@));
        }
    }
}

} // verus!
