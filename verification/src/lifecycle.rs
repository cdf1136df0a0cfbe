//! Exam lifecycle: creation, edit and deletion of whole exam aggregates.
//! Every mutation is gated by authorization, structural validation and the
//! temporal policy, and is atomic: on any error the store is unchanged.

use vstd::prelude::*;
use vstd::pervasive::VecAdditionalExecFns;

use crate::errors::ExamError;
use crate::model::Exam;
use crate::policy::spec_schedule_ok;
use crate::policy::schedule_ok;
use crate::store::{exam_index, has_exam, spec_is_teacher, Store};
use crate::validate::{exam_valid, first_violation, validate_exam};

verus! {

/// The outcome of creating `exam` in `s` as `teacher` at instant `now`:
/// the teacher must own the class, the aggregate must be well-formed, the
/// schedule must be acceptable, and the identity must be fresh (a duplicate
/// identity is a storage conflict, not a business error).
pub open spec fn create_check(s: Store, exam: Exam, teacher: Seq<char>, now: int) -> Result<
    (),
    ExamError,
> {
    if !spec_is_teacher(s, teacher, exam.class_id@) {
        Err(ExamError::Unauthorized)
    } else {
        match first_violation(exam) {
            Some(rule) => Err(ExamError::Validation(rule)),
            None => if !spec_schedule_ok(now, exam.start_date as int, exam.end_date as int) {
                Err(ExamError::InvalidSchedule)
            } else if has_exam(s.exams@, exam.id@) {
                Err(ExamError::PersistenceFailure)
            } else {
                Ok(())
            },
        }
    }
}

/// The outcome of replacing the stored exam with `exam` as `teacher` at
/// instant `now`: the identity must resolve, the *stored* start must not
/// have passed (the stored date gates the edit, never the incoming one), the
/// teacher must own the stored exam's class, and the new aggregate must be
/// well-formed with an acceptable schedule.
pub open spec fn edit_check(s: Store, exam: Exam, teacher: Seq<char>, now: int) -> Result<
    (),
    ExamError,
> {
    if !has_exam(s.exams@, exam.id@) {
        Err(ExamError::NotFound)
    } else {
        let stored = s.exams@[exam_index(s.exams@, exam.id@)];
        if stored.start_date <= now {
            Err(ExamError::ExamAlreadyStarted)
        } else if !spec_is_teacher(s, teacher, stored.class_id@) {
            Err(ExamError::Unauthorized)
        } else {
            match first_violation(exam) {
                Some(rule) => Err(ExamError::Validation(rule)),
                None => if !spec_schedule_ok(now, exam.start_date as int, exam.end_date as int) {
                    Err(ExamError::InvalidSchedule)
                } else {
                    Ok(())
                },
            }
        }
    }
}

/// The outcome of deleting the exam `exam_id` as `teacher` at instant `now`:
/// the identity must resolve, the teacher must own the exam's class, and the
/// stored start must not have passed.
pub open spec fn delete_check(s: Store, exam_id: Seq<char>, teacher: Seq<char>, now: int) -> Result<
    (),
    ExamError,
> {
    if !has_exam(s.exams@, exam_id) {
        Err(ExamError::NotFound)
    } else {
        let stored = s.exams@[exam_index(s.exams@, exam_id)];
        if !spec_is_teacher(s, teacher, stored.class_id@) {
            Err(ExamError::Unauthorized)
        } else if stored.start_date <= now {
            Err(ExamError::ExamAlreadyStarted)
        } else {
            Ok(())
        }
    }
}

/// The outcome of teacher `teacher` fetching the exam `exam_id` for
/// editing at instant `now`: the identity must resolve, the teacher must
/// own the exam's class, and the stored start must not have passed.
pub open spec fn exam_for_edit_check(s: Store, exam_id: Seq<char>, teacher: Seq<char>, now: int) -> Result<
    (),
    ExamError,
> {
    if !has_exam(s.exams@, exam_id) {
        Err(ExamError::NotFound)
    } else {
        let stored = s.exams@[exam_index(s.exams@, exam_id)];
        if !spec_is_teacher(s, teacher, stored.class_id@) {
            Err(ExamError::Unauthorized)
        } else if stored.start_date <= now {
            Err(ExamError::ExamAlreadyStarted)
        } else {
            Ok(())
        }
    }
}

impl Store {
    /// Creates `exam` with all its questions and answers as one atomic
    /// write, after authorization, structural validation and the schedule
    /// check; `now` is the instant of the request. On any error the store is
    /// exactly what it was.
    pub fn save_exam(&mut self, exam: Exam, teacher_id: &str, now: i64) -> (r: Result<
        (),
        ExamError,
    >)
        requires
            old(self).wf(),
        ensures
            final(self).wf(),
            r == create_check(*old(self), exam, teacher_id@, now as int),
            final(self).classes@ == old(self).classes@,
            final(self).enrollments@ == old(self).enrollments@,
            final(self).users@ == old(self).users@,
            final(self).student_answers@ == old(self).student_answers@,
            r is Ok ==> final(self).exams@ == old(self).exams@.push(exam),
            r is Err ==> final(self).exams@ == old(self).exams@,
    {
        if !self.is_teacher(teacher_id, exam.class_id.as_str()) {
            return Err(ExamError::Unauthorized);
        }
        if let Err(rule) = validate_exam(&exam) {
            return Err(ExamError::Validation(rule));
        }
        if !schedule_ok(now, exam.start_date, exam.end_date) {
            return Err(ExamError::InvalidSchedule);
        }
        if self.find_exam(exam.id.as_str()).is_some() {
            return Err(ExamError::PersistenceFailure);
        }
        let ghost pre = self.exams@;
        let ghost fresh = exam;
        self.exams.push(exam);
        proof {
            let n = pre.len() as int;
            assert(self.exams@[n] == fresh);
            assert forall|a: int, b: int|
                0 <= a < self.exams@.len() && 0 <= b < self.exams@.len() && a != b implies (
            #[trigger] self.exams@[a]).id@ != (#[trigger] self.exams@[b]).id@ by {
                if a < n && b < n {
                    assert(pre[a].id@ != pre[b].id@);
                } else if a == n {
                    assert(self.exams@[b] == pre[b]);
                } else {
                    assert(self.exams@[a] == pre[a]);
                }
            }
            assert forall|i: int| 0 <= i < self.exams@.len() implies exam_valid(
                #[trigger] self.exams@[i],
            ) by {
                if i < n {
                    assert(exam_valid(pre[i]));
                }
            }
        }
        Ok(())
    }

    /// Replaces the stored exam of the same identity with `exam` — nested
    /// questions and answers are rewritten wholesale, the exam keeps its
    /// identity and its stored class — after the temporal gate against the
    /// *stored* start date, authorization, validation and the schedule
    /// check. On any error the store is exactly what it was.
    pub fn edit_exam(&mut self, exam: Exam, teacher_id: &str, now: i64) -> (r: Result<
        (),
        ExamError,
    >)
        requires
            old(self).wf(),
        ensures
            final(self).wf(),
            r == edit_check(*old(self), exam, teacher_id@, now as int),
            final(self).classes@ == old(self).classes@,
            final(self).enrollments@ == old(self).enrollments@,
            final(self).users@ == old(self).users@,
            final(self).student_answers@ == old(self).student_answers@,
            r is Err ==> final(self).exams@ == old(self).exams@,
            r is Ok ==> {
                let idx = exam_index(old(self).exams@, exam.id@);
                &&& final(self).exams@.len() == old(self).exams@.len()
                &&& (forall|k: int|
                    0 <= k < old(self).exams@.len() && k != idx ==> final(self).exams@[k] == old(
                        self,
                    ).exams@[k])
                &&& final(self).exams@[idx].id == exam.id
                &&& final(self).exams@[idx].name == exam.name
                &&& final(self).exams@[idx].start_date == exam.start_date
                &&& final(self).exams@[idx].end_date == exam.end_date
                &&& final(self).exams@[idx].class_id == old(self).exams@[idx].class_id
                &&& final(self).exams@[idx].questions == exam.questions
            },
    {
        let idx: usize = match self.find_exam(exam.id.as_str()) {
            None => {
                return Err(ExamError::NotFound);
            },
            Some(i) => i,
        };
        proof {
            crate::store::lemma_exam_index(self.exams@, exam.id@, idx as int);
        }
        if self.exams[idx].start_date <= now {
            return Err(ExamError::ExamAlreadyStarted);
        }
        let stored_class = self.exams[idx].class_id.clone();
        if !self.is_teacher(teacher_id, stored_class.as_str()) {
            return Err(ExamError::Unauthorized);
        }
        if let Err(rule) = validate_exam(&exam) {
            return Err(ExamError::Validation(rule));
        }
        if !schedule_ok(now, exam.start_date, exam.end_date) {
            return Err(ExamError::InvalidSchedule);
        }
        let ghost pre = self.exams@;
        let ghost incoming = exam;
        let replacement = Exam {
            id: exam.id,
            name: exam.name,
            start_date: exam.start_date,
            end_date: exam.end_date,
            class_id: stored_class,
            questions: exam.questions,
        };
        self.exams.set(idx, replacement);
        proof {
            let n = pre.len() as int;
            let i = idx as int;
            assert(self.exams@[i].id@ == pre[i].id@);
            assert(exam_valid(incoming));
            assert(exam_valid(self.exams@[i]));
            assert forall|a: int, b: int|
                0 <= a < self.exams@.len() && 0 <= b < self.exams@.len() && a != b implies (
            #[trigger] self.exams@[a]).id@ != (#[trigger] self.exams@[b]).id@ by {
                assert(pre[a].id@ != pre[b].id@);
                assert(self.exams@[a].id@ == pre[a].id@ && self.exams@[b].id@ == pre[b].id@);
            }
            assert forall|k: int| 0 <= k < self.exams@.len() implies exam_valid(
                #[trigger] self.exams@[k],
            ) by {
                if k != i {
                    assert(exam_valid(pre[k]));
                }
            }
        }
        Ok(())
    }

    /// The full exam tree for the teacher's edit page, released only while
    /// the exam can still be edited: it must exist, be owned through its
    /// class by `teacher_id`, and not yet have started.
    pub fn get_exam_for_edit(&self, exam_id: &str, teacher_id: &str, now: i64) -> (r: Result<
        Exam,
        ExamError,
    >)
        requires
            self.wf(),
        ensures
            match r {
                Err(err) => exam_for_edit_check(*self, exam_id@, teacher_id@, now as int) == Err::<
                    (),
                    ExamError,
                >(err),
                Ok(e) => {
                    &&& exam_for_edit_check(*self, exam_id@, teacher_id@, now as int) is Ok
                    &&& crate::model::exam_eq(e, self.exams@[exam_index(self.exams@, exam_id@)])
                },
            },
    {
        let idx: usize = match self.find_exam(exam_id) {
            None => {
                return Err(ExamError::NotFound);
            },
            Some(i) => i,
        };
        proof {
            crate::store::lemma_exam_index(self.exams@, exam_id@, idx as int);
        }
        let stored_class = self.exams[idx].class_id.clone();
        if !self.is_teacher(teacher_id, stored_class.as_str()) {
            return Err(ExamError::Unauthorized);
        }
        if self.exams[idx].start_date <= now {
            return Err(ExamError::ExamAlreadyStarted);
        }
        Ok(self.exams[idx].clone())
    }

    /// Deletes the exam and all its nested questions and answers as one
    /// atomic removal, after authorization and the temporal gate against the
    /// stored start date. Student answers are never deleted by this
    /// subsystem. On any error the store is exactly what it was.
    pub fn delete_exam(&mut self, exam_id: &str, teacher_id: &str, now: i64) -> (r: Result<
        (),
        ExamError,
    >)
        requires
            old(self).wf(),
        ensures
            final(self).wf(),
            r == delete_check(*old(self), exam_id@, teacher_id@, now as int),
            final(self).classes@ == old(self).classes@,
            final(self).enrollments@ == old(self).enrollments@,
            final(self).users@ == old(self).users@,
            final(self).student_answers@ == old(self).student_answers@,
            r is Err ==> final(self).exams@ == old(self).exams@,
            r is Ok ==> final(self).exams@ == old(self).exams@.remove(
                exam_index(old(self).exams@, exam_id@),
            ),
    {
        let idx: usize = match self.find_exam(exam_id) {
            None => {
                return Err(ExamError::NotFound);
            },
            Some(i) => i,
        };
        proof {
            crate::store::lemma_exam_index(self.exams@, exam_id@, idx as int);
        }
        let stored_class = self.exams[idx].class_id.clone();
        if !self.is_teacher(teacher_id, stored_class.as_str()) {
            return Err(ExamError::Unauthorized);
        }
        if self.exams[idx].start_date <= now {
            return Err(ExamError::ExamAlreadyStarted);
        }
        let ghost pre = self.exams@;
        self.exams.remove(idx);
        proof {
            let i = idx as int;
            assert forall|a: int, b: int|
                0 <= a < self.exams@.len() && 0 <= b < self.exams@.len() && a != b implies (
            #[trigger] self.exams@[a]).id@ != (#[trigger] self.exams@[b]).id@ by {
                let a0 = if a < i { a } else { a + 1 };
                let b0 = if b < i { b } else { b + 1 };
                assert(self.exams@[a] == pre[a0] && self.exams@[b] == pre[b0]);
                assert(pre[a0].id@ != pre[b0].id@);
            }
            assert forall|k: int| 0 <= k < self.exams@.len() implies exam_valid(
                #[trigger] self.exams@[k],
            ) by {
                let k0 = if k < i { k } else { k + 1 };
                assert(self.exams@[k] == pre[k0]);
                assert(exam_valid(pre[k0]));
            }
        }
        Ok(())
    }
}

} // verus!
