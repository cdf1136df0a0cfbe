//! Listing reads: exams of a class (without their nested questions), a
//! student's enrolled classes with their exams, and the class dashboards
//! with enrollment counts.

use vstd::prelude::*;

use crate::model::{Class, Exam};
use crate::store::{spec_is_student, Enrollment, Store};
use crate::strutil::str_eq;

verus! {

/// `a` is the relation-free summary of `b`: same identity, name, window and
/// class, and no questions.
pub open spec fn exam_summary_eq(a: Exam, b: Exam) -> bool {
    &&& a.id == b.id
    &&& a.name == b.name
    &&& a.start_date == b.start_date
    &&& a.end_date == b.end_date
    &&& a.class_id == b.class_id
    &&& a.questions@.len() == 0
}

/// `rs` summarizes `es` element by element.
pub open spec fn summaries_match(rs: Seq<Exam>, es: Seq<Exam>) -> bool {
    rs.len() == es.len() && forall|i: int|
        0 <= i < rs.len() ==> exam_summary_eq(#[trigger] rs[i], es[i])
}

/// The exams of class `class`, in table order.
pub open spec fn exams_of_class(es: Seq<Exam>, class: Seq<char>) -> Seq<Exam>
    decreases es.len(),
{
    if es.len() == 0 {
        Seq::empty()
    } else {
        let prefix = exams_of_class(es.drop_last(), class);
        if es.last().class_id@ == class {
            prefix.push(es.last())
        } else {
            prefix
        }
    }
}

/// How many enrollment rows the class `class` has.
pub open spec fn enrollment_count(es: Seq<Enrollment>, class: Seq<char>) -> int
    decreases es.len(),
{
    if es.len() == 0 {
        0int
    } else {
        enrollment_count(es.drop_last(), class) + if es.last().class_id@ == class {
            1int
        } else {
            0int
        }
    }
}

/// The classes owned by `user`, each with its enrollment count, in table
/// order.
pub open spec fn teacher_class_counts(s: Store, cs: Seq<Class>, user: Seq<char>) -> Seq<(Class, i64)>
    decreases cs.len(),
{
    if cs.len() == 0 {
        Seq::empty()
    } else {
        let prefix = teacher_class_counts(s, cs.drop_last(), user);
        if cs.last().user_id@ == user {
            prefix.push((cs.last(), enrollment_count(s.enrollments@, cs.last().id@) as i64))
        } else {
            prefix
        }
    }
}

/// The classes `user` is not enrolled in, each with its enrollment count, in
/// table order.
pub open spec fn open_class_counts(s: Store, cs: Seq<Class>, user: Seq<char>) -> Seq<(Class, i64)>
    decreases cs.len(),
{
    if cs.len() == 0 {
        Seq::empty()
    } else {
        let prefix = open_class_counts(s, cs.drop_last(), user);
        if !spec_is_student(s, user, cs.last().id@) {
            prefix.push((cs.last(), enrollment_count(s.enrollments@, cs.last().id@) as i64))
        } else {
            prefix
        }
    }
}

/// The classes `user` is enrolled in, in table order.
pub open spec fn enrolled_classes(s: Store, cs: Seq<Class>, user: Seq<char>) -> Seq<Class>
    decreases cs.len(),
{
    if cs.len() == 0 {
        Seq::empty()
    } else {
        let prefix = enrolled_classes(s, cs.drop_last(), user);
        if spec_is_student(s, user, cs.last().id@) {
            prefix.push(cs.last())
        } else {
            prefix
        }
    }
}

impl Store {
    /// How many enrollment rows the class `class_id` has.
    #[verifier::loop_isolation(false)]
    pub fn count_enrollments(&self, class_id: &str) -> (n: i64)
        requires
            self.enrollments@.len() <= 0x7fff_ffff_ffff_ffff,
        ensures
            n == enrollment_count(self.enrollments@, class_id@),
    {
        let es: &Vec<Enrollment> = &self.enrollments;
        let mut n: i64 = 0;
        let mut i: usize = 0;
        while i < es.len()
            invariant
                0 <= i <= es@.len(),
                0 <= n <= i,
                n == enrollment_count(es@.take(i as int), class_id@),
            decreases es@.len() - i,
        {
            proof {
                assert(es@.take(i + 1).drop_last() =~= es@.take(i as int));
                assert(es@.take(i + 1).last() == es@[i as int]);
            }
            if str_eq(es[i].class_id.as_str(), class_id) {
                n = n + 1;
            }
            i = i + 1;
        }
        proof {
            assert(es@.take(es@.len() as int) =~= es@);
        }
        n
    }

    /// The exams of class `class_id` without their nested questions, in
    /// table order.
    #[verifier::loop_isolation(false)]
    pub fn list_exam_by_class_without_relations(&self, class_id: &str) -> (r: Vec<Exam>)
        ensures
            summaries_match(r@, exams_of_class(self.exams@, class_id@)),
    {
        let es: &Vec<Exam> = &self.exams;
        let mut out: Vec<Exam> = Vec::new();
        let mut i: usize = 0;
        while i < es.len()
            invariant
                0 <= i <= es@.len(),
                summaries_match(out@, exams_of_class(es@.take(i as int), class_id@)),
            decreases es@.len() - i,
        {
            proof {
                assert(es@.take(i + 1).drop_last() =~= es@.take(i as int));
                assert(es@.take(i + 1).last() == es@[i as int]);
            }
            if str_eq(es[i].class_id.as_str(), class_id) {
                let summary = Exam {
                    id: es[i].id.clone(),
                    name: es[i].name.clone(),
                    start_date: es[i].start_date,
                    end_date: es[i].end_date,
                    class_id: es[i].class_id.clone(),
                    questions: Vec::new(),
                };
                out.push(summary);
            }
            i = i + 1;
        }
        proof {
            assert(es@.take(es@.len() as int) =~= es@);
        }
        out
    }

    /// The classes owned by `user_id`, each with its enrollment count.
    #[verifier::loop_isolation(false)]
    pub fn get_by_user_id_with_student_count(&self, user_id: &str) -> (r: Vec<(Class, i64)>)
        requires
            self.enrollments@.len() <= 0x7fff_ffff_ffff_ffff,
        ensures
            r@ == teacher_class_counts(*self, self.classes@, user_id@),
    {
        let cs: &Vec<Class> = &self.classes;
        let mut out: Vec<(Class, i64)> = Vec::new();
        let mut i: usize = 0;
        while i < cs.len()
            invariant
                0 <= i <= cs@.len(),
                out@ == teacher_class_counts(*self, cs@.take(i as int), user_id@),
            decreases cs@.len() - i,
        {
            proof {
                assert(cs@.take(i + 1).drop_last() =~= cs@.take(i as int));
                assert(cs@.take(i + 1).last() == cs@[i as int]);
            }
            if str_eq(cs[i].user_id.as_str(), user_id) {
                let n = self.count_enrollments(cs[i].id.as_str());
                out.push((cs[i].clone(), n));
                proof {
                    assert(out@ =~= teacher_class_counts(*self, cs@.take(i + 1), user_id@));
                }
            } else {
                proof {
                    assert(out@ =~= teacher_class_counts(*self, cs@.take(i + 1), user_id@));
                }
            }
            i = i + 1;
        }
        proof {
            assert(cs@.take(cs@.len() as int) =~= cs@);
        }
        out
    }

    /// The classes `user_id` is not enrolled in, each with its enrollment
    /// count: what a student may still subscribe to.
    #[verifier::loop_isolation(false)]
    pub fn get_by_user_where_is_not_enrolled_with_student_count(&self, user_id: &str) -> (r: Vec<
        (Class, i64),
    >)
        requires
            self.enrollments@.len() <= 0x7fff_ffff_ffff_ffff,
        ensures
            r@ == open_class_counts(*self, self.classes@, user_id@),
    {
        let cs: &Vec<Class> = &self.classes;
        let mut out: Vec<(Class, i64)> = Vec::new();
        let mut i: usize = 0;
        while i < cs.len()
            invariant
                0 <= i <= cs@.len(),
                out@ == open_class_counts(*self, cs@.take(i as int), user_id@),
            decreases cs@.len() - i,
        {
            proof {
                assert(cs@.take(i + 1).drop_last() =~= cs@.take(i as int));
                assert(cs@.take(i + 1).last() == cs@[i as int]);
            }
            if !self.is_student(user_id, cs[i].id.as_str()) {
                let n = self.count_enrollments(cs[i].id.as_str());
                out.push((cs[i].clone(), n));
                proof {
                    assert(out@ =~= open_class_counts(*self, cs@.take(i + 1), user_id@));
                }
            } else {
                proof {
                    assert(out@ =~= open_class_counts(*self, cs@.take(i + 1), user_id@));
                }
            }
            i = i + 1;
        }
        proof {
            assert(cs@.take(cs@.len() as int) =~= cs@);
        }
        out
    }

    /// For each class `student_id` is enrolled in, the class and its exams
    /// without their nested questions, in table order.
    #[verifier::loop_isolation(false)]
    pub fn list_exam_group_by_class_without_relations_by_student(&self, student_id: &str) -> (r:
        Vec<(Class, Vec<Exam>)>)
        ensures
            r@.len() == enrolled_classes(*self, self.classes@, student_id@).len(),
            forall|j: int|
                0 <= j < r@.len() ==> {
                    let cls = enrolled_classes(*self, self.classes@, student_id@)[j];
                    (#[trigger] r@[j]).0 == cls && summaries_match(
                        r@[j].1@,
                        exams_of_class(self.exams@, cls.id@),
                    )
                },
    {
        let cs: &Vec<Class> = &self.classes;
        let mut out: Vec<(Class, Vec<Exam>)> = Vec::new();
        let mut i: usize = 0;
        while i < cs.len()
            invariant
                0 <= i <= cs@.len(),
                out@.len() == enrolled_classes(*self, cs@.take(i as int), student_id@).len(),
                forall|j: int|
                    0 <= j < out@.len() ==> {
                        let cls = enrolled_classes(*self, cs@.take(i as int), student_id@)[j];
                        (#[trigger] out@[j]).0 == cls && summaries_match(
                            out@[j].1@,
                            exams_of_class(self.exams@, cls.id@),
                        )
                    },
            decreases cs@.len() - i,
        {
            proof {
                assert(cs@.take(i + 1).drop_last() =~= cs@.take(i as int));
                assert(cs@.take(i + 1).last() == cs@[i as int]);
            }
            if self.is_student(student_id, cs[i].id.as_str()) {
                let exams = self.list_exam_by_class_without_relations(cs[i].id.as_str());
                out.push((cs[i].clone(), exams));
                proof {
                    let pre = enrolled_classes(*self, cs@.take(i as int), student_id@);
                    let post = enrolled_classes(*self, cs@.take(i + 1), student_id@);
                    assert(post == pre.push(cs@[i as int]));
                    assert forall|j: int| 0 <= j < out@.len() implies {
                        let cls = post[j];
                        (#[trigger] out@[j]).0 == cls && summaries_match(
                            out@[j].1@,
                            exams_of_class(self.exams@, cls.id@),
                        )
                    } by {
                        if j < pre.len() {
                            assert(post[j] == pre[j]);
                        } else {
                            assert(post[j] == cs@[i as int]);
                        }
                    }
                }
            }
            i = i + 1;
        }
        proof {
            assert(cs@.take(cs@.len() as int) =~= cs@);
        }
        out
    }
}

} // verus!
