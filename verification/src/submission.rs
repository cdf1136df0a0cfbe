//! Answer submission: one answer per student per question, idempotently
//! upserted while the exam is open, plus the student-facing reads.

use vstd::prelude::*;
use vstd::pervasive::VecAdditionalExecFns;

use crate::errors::ExamError;
use crate::model::{exam_eq, Exam, Question, StudentAnswer};
use crate::policy::{spec_phase, phase, Phase};
use crate::store::{
    exam_index, has_exam, has_row, lemma_exam_index, lemma_row_index, row_index, sa_at,
    spec_is_student, Store,
};
use crate::strutil::str_eq;

verus! {

/// The index of the first question of `qs` with identity `id`, if any.
pub open spec fn question_lookup(qs: Seq<Question>, id: Seq<char>) -> Option<int>
    decreases qs.len(),
{
    if qs.len() == 0 {
        None
    } else if qs[0].id@ == id {
        Some(0int)
    } else {
        match question_lookup(qs.drop_first(), id) {
            None => None,
            Some(i) => Some(i + 1),
        }
    }
}

/// Some question of `e` has identity `id`.
pub open spec fn question_in_exam(e: Exam, id: Seq<char>) -> bool {
    question_lookup(e.questions@, id) is Some
}

/// Some answer of `q` has identity `id`.
pub open spec fn answer_in_question(q: Question, id: Seq<char>) -> bool {
    exists|i: int| 0 <= i < q.answers@.len() && (#[trigger] q.answers@[i]).id@ == id
}

/// What `question_lookup` finds is the first match.
pub proof fn lemma_question_lookup(qs: Seq<Question>, id: Seq<char>)
    ensures
        match question_lookup(qs, id) {
            Some(i) => 0 <= i < qs.len() && qs[i].id@ == id && forall|j: int|
                0 <= j < i ==> (#[trigger] qs[j]).id@ != id,
            None => forall|j: int| 0 <= j < qs.len() ==> (#[trigger] qs[j]).id@ != id,
        },
    decreases qs.len(),
{
    if qs.len() > 0 && qs[0].id@ != id {
        let rest = qs.drop_first();
        lemma_question_lookup(rest, id);
        match question_lookup(rest, id) {
            Some(i) => {
                assert(rest[i] == qs[i + 1]);
                assert forall|j: int| 0 <= j < i + 1 implies (#[trigger] qs[j]).id@ != id by {
                    if j > 0 {
                        assert(rest[j - 1] == qs[j]);
                        assert(rest[j - 1].id@ != id);
                    }
                }
            },
            None => {
                assert forall|j: int| 0 <= j < qs.len() implies (#[trigger] qs[j]).id@ != id by {
                    if j > 0 {
                        assert(rest[j - 1] == qs[j]);
                        assert(rest[j - 1].id@ != id);
                    }
                }
            },
        }
    }
}

/// The outcome of student `student` submitting answer `answer` to question
/// `question` of exam `exam_id` at instant `now`: the exam must resolve, the
/// student must be enrolled in its class, the exam must be open, and the
/// question and answer must belong to it. A resubmission is never an error.
pub open spec fn submit_check(
    s: Store,
    exam_id: Seq<char>,
    student: Seq<char>,
    question: Seq<char>,
    answer: Seq<char>,
    now: int,
) -> Result<(), ExamError> {
    if !has_exam(s.exams@, exam_id) {
        Err(ExamError::NotFound)
    } else {
        let e = s.exams@[exam_index(s.exams@, exam_id)];
        if !spec_is_student(s, student, e.class_id@) {
            Err(ExamError::Unauthorized)
        } else if spec_phase(now, e.start_date as int, e.end_date as int) != Phase::Open {
            Err(ExamError::ExamNotOpen)
        } else {
            match question_lookup(e.questions@, question) {
                None => Err(ExamError::QuestionNotFound),
                Some(qi) => if !answer_in_question(e.questions@[qi], answer) {
                    Err(ExamError::AnswerNotFound)
                } else {
                    Ok(())
                },
            }
        }
    }
}

/// How a successful submission changes the student-answer table: the first
/// submission for a key appends a row stamped `created_at = updated_at =
/// now`; a resubmission rewrites the chosen answer and `updated_at` of the
/// one existing row, leaving `created_at` and every other row untouched.
pub open spec fn submit_upsert(
    pre: Seq<StudentAnswer>,
    post: Seq<StudentAnswer>,
    student: Seq<char>,
    question: Seq<char>,
    answer: Seq<char>,
    now: i64,
) -> bool {
    if has_row(pre, student, question) {
        let j = row_index(pre, student, question);
        &&& post.len() == pre.len()
        &&& (forall|k: int| 0 <= k < pre.len() && k != j ==> post[k] == pre[k])
        &&& post[j].student_id == pre[j].student_id
        &&& post[j].question_id == pre[j].question_id
        &&& post[j].answer_id@ == answer
        &&& post[j].created_at == pre[j].created_at
        &&& post[j].updated_at == Some(now)
    } else {
        &&& post.len() == pre.len() + 1
        &&& (forall|k: int| 0 <= k < pre.len() ==> post[k] == pre[k])
        &&& post.last().student_id@ == student
        &&& post.last().question_id@ == question
        &&& post.last().answer_id@ == answer
        &&& post.last().created_at == Some(now)
        &&& post.last().updated_at == Some(now)
    }
}

/// The row is student `student`'s choice for a question belonging to exam
/// `e`.
pub open spec fn relevant_row(row: StudentAnswer, student: Seq<char>, e: Exam) -> bool {
    row.student_id@ == student && question_in_exam(e, row.question_id@)
}

/// The identities of the answers `student` has chosen for questions of `e`,
/// in row order.
pub open spec fn chosen_answer_ids(rows: Seq<StudentAnswer>, student: Seq<char>, e: Exam) -> Seq<
    String,
>
    decreases rows.len(),
{
    if rows.len() == 0 {
        Seq::empty()
    } else {
        let prefix = chosen_answer_ids(rows.drop_last(), student, e);
        if relevant_row(rows.last(), student, e) {
            prefix.push(rows.last().answer_id)
        } else {
            prefix
        }
    }
}

/// One row extends the chosen-answer list exactly when it is relevant.
pub proof fn lemma_chosen_push(
    rows: Seq<StudentAnswer>,
    row: StudentAnswer,
    student: Seq<char>,
    e: Exam,
)
    ensures
        relevant_row(row, student, e) ==> chosen_answer_ids(rows.push(row), student, e)
            == chosen_answer_ids(rows, student, e).push(row.answer_id),
        !relevant_row(row, student, e) ==> chosen_answer_ids(rows.push(row), student, e)
            == chosen_answer_ids(rows, student, e),
{
    assert(rows.push(row).drop_last() =~= rows);
    assert(rows.push(row).last() == row);
}

/// The outcome of student `student` asking for exam `exam_id`: the exam must
/// resolve and the student must be enrolled in its class. Retrieval itself
/// has no temporal gate.
pub open spec fn student_exam_check(s: Store, exam_id: Seq<char>, student: Seq<char>) -> Result<
    (),
    ExamError,
> {
    if !has_exam(s.exams@, exam_id) {
        Err(ExamError::NotFound)
    } else if !spec_is_student(s, student, s.exams@[exam_index(s.exams@, exam_id)].class_id@) {
        Err(ExamError::Unauthorized)
    } else {
        Ok(())
    }
}

/// The outcome of student `student` asking for their result on exam
/// `exam_id` at instant `now`: as `student_exam_check`, and the result is
/// withheld until the exam is closed.
pub open spec fn result_check(s: Store, exam_id: Seq<char>, student: Seq<char>, now: int) -> Result<
    (),
    ExamError,
> {
    match student_exam_check(s, exam_id, student) {
        Err(e) => Err(e),
        Ok(()) => {
            let e = s.exams@[exam_index(s.exams@, exam_id)];
            if spec_phase(now, e.start_date as int, e.end_date as int) != Phase::Closed {
                Err(ExamError::ExamNotOpen)
            } else {
                Ok(())
            }
        },
    }
}

impl Store {
    /// The position of the first question of the stored exam at `idx` with
    /// identity `question_id`, if any.
    #[verifier::loop_isolation(false)]
    pub(crate) fn find_question(&self, idx: usize, question_id: &str) -> (r: Option<usize>)
        requires
            idx < self.exams@.len(),
        ensures
            match r {
                Some(i) => Some(i as int) == question_lookup(
                    self.exams@[idx as int].questions@,
                    question_id@,
                ),
                None => question_lookup(self.exams@[idx as int].questions@, question_id@) is None,
            },
    {
        let qs: &Vec<Question> = &self.exams[idx].questions;
        proof {
            lemma_question_lookup(qs@, question_id@);
        }
        let mut i: usize = 0;
        while i < qs.len()
            invariant
                0 <= i <= qs@.len(),
                forall|j: int| 0 <= j < i ==> (#[trigger] qs@[j]).id@ != question_id@,
            decreases qs@.len() - i,
        {
            if str_eq(qs[i].id.as_str(), question_id) {
                return Some(i);
            }
            i = i + 1;
        }
        None
    }

    /// The position of the row keyed by (`student_id`, `question_id`), if
    /// any.
    #[verifier::loop_isolation(false)]
    fn find_row(&self, student_id: &str, question_id: &str) -> (r: Option<usize>)
        ensures
            match r {
                Some(i) => sa_at(self.student_answers@, student_id@, question_id@, i as int),
                None => !has_row(self.student_answers@, student_id@, question_id@),
            },
    {
        let mut i: usize = 0;
        while i < self.student_answers.len()
            invariant
                0 <= i <= self.student_answers@.len(),
                forall|j: int|
                    0 <= j < i ==> !((#[trigger] self.student_answers@[j]).student_id@
                        == student_id@ && self.student_answers@[j].question_id@ == question_id@),
            decreases self.student_answers@.len() - i,
        {
            if str_eq(self.student_answers[i].student_id.as_str(), student_id) && str_eq(
                self.student_answers[i].question_id.as_str(),
                question_id,
            ) {
                return Some(i);
            }
            i = i + 1;
        }
        None
    }

    /// Submits one answer of one student to one question of an open exam, as
    /// a single atomic upsert keyed by (student, question): the first
    /// submission inserts a row stamped `created_at = updated_at = now`; a
    /// resubmission rewrites the chosen answer and `updated_at`, never
    /// `created_at`, and never adds a row. On any error the store is exactly
    /// what it was.
    pub fn save_answer(
        &mut self,
        exam_id: &str,
        student_id: &str,
        question_id: &str,
        answer_id: &str,
        now: i64,
    ) -> (r: Result<(), ExamError>)
        requires
            old(self).wf(),
        ensures
            final(self).wf(),
            r == submit_check(
                *old(self),
                exam_id@,
                student_id@,
                question_id@,
                answer_id@,
                now as int,
            ),
            final(self).classes@ == old(self).classes@,
            final(self).enrollments@ == old(self).enrollments@,
            final(self).users@ == old(self).users@,
            final(self).exams@ == old(self).exams@,
            r is Err ==> final(self).student_answers@ == old(self).student_answers@,
            r is Ok ==> submit_upsert(
                old(self).student_answers@,
                final(self).student_answers@,
                student_id@,
                question_id@,
                answer_id@,
                now,
            ),
    {
        let idx: usize = match self.find_exam(exam_id) {
            None => {
                return Err(ExamError::NotFound);
            },
            Some(i) => i,
        };
        proof {
            lemma_exam_index(self.exams@, exam_id@, idx as int);
        }
        let class_id = self.exams[idx].class_id.clone();
        if !self.is_student(student_id, class_id.as_str()) {
            return Err(ExamError::Unauthorized);
        }
        let e_start = self.exams[idx].start_date;
        let e_end = self.exams[idx].end_date;
        match phase(now, e_start, e_end) {
            Phase::Open => {},
            _ => {
                return Err(ExamError::ExamNotOpen);
            },
        }
        let qi: usize = match self.find_question(idx, question_id) {
            None => {
                return Err(ExamError::QuestionNotFound);
            },
            Some(i) => i,
        };
        proof {
            lemma_question_lookup(self.exams@[idx as int].questions@, question_id@);
        }
        let mut answer_found: bool = false;
        let q: &Question = &self.exams[idx].questions[qi];
        let m: usize = q.answers.len();
        let mut k: usize = 0;
        #[verifier::loop_isolation(false)]
        while k < m
            invariant
                m == q.answers@.len(),
                0 <= k <= m,
                answer_found ==> answer_in_question(*q, answer_id@),
                !answer_found ==> forall|l: int|
                    0 <= l < k ==> (#[trigger] q.answers@[l]).id@ != answer_id@,
            decreases m - k,
        {
            if str_eq(q.answers[k].id.as_str(), answer_id) {
                answer_found = true;
                break ;
            }
            k = k + 1;
        }
        if !answer_found {
            return Err(ExamError::AnswerNotFound);
        }
        let ghost pre = self.student_answers@;
        match self.find_row(student_id, question_id) {
            Some(j) => {
                proof {
                    lemma_row_index(pre, student_id@, question_id@, j as int);
                }
                let updated = StudentAnswer {
                    student_id: self.student_answers[j].student_id.clone(),
                    question_id: self.student_answers[j].question_id.clone(),
                    answer_id: answer_id.to_owned(),
                    created_at: self.student_answers[j].created_at,
                    updated_at: Some(now),
                };
                self.student_answers.set(j, updated);
                proof {
                    assert forall|a: int, b: int|
                        0 <= a < self.student_answers@.len() && 0 <= b
                            < self.student_answers@.len() && a != b implies !((
                    #[trigger] self.student_answers@[a]).student_id@ == (
                    #[trigger] self.student_answers@[b]).student_id@
                        && self.student_answers@[a].question_id@
                        == self.student_answers@[b].question_id@) by {
                        assert(self.student_answers@[a].student_id@ == pre[a].student_id@
                            && self.student_answers@[a].question_id@ == pre[a].question_id@);
                        assert(self.student_answers@[b].student_id@ == pre[b].student_id@
                            && self.student_answers@[b].question_id@ == pre[b].question_id@);
                    }
                }
                Ok(())
            },
            None => {
                let row = StudentAnswer {
                    student_id: student_id.to_owned(),
                    question_id: question_id.to_owned(),
                    answer_id: answer_id.to_owned(),
                    created_at: Some(now),
                    updated_at: Some(now),
                };
                self.student_answers.push(row);
                proof {
                    let n = pre.len() as int;
                    assert forall|a: int, b: int|
                        0 <= a < self.student_answers@.len() && 0 <= b
                            < self.student_answers@.len() && a != b implies !((
                    #[trigger] self.student_answers@[a]).student_id@ == (
                    #[trigger] self.student_answers@[b]).student_id@
                        && self.student_answers@[a].question_id@
                        == self.student_answers@[b].question_id@) by {
                        if a < n && b < n {
                            assert(self.student_answers@[a] == pre[a]);
                            assert(self.student_answers@[b] == pre[b]);
                        } else if a == n {
                            assert(self.student_answers@[b] == pre[b]);
                            assert(!sa_at(pre, student_id@, question_id@, b));
                        } else {
                            assert(self.student_answers@[a] == pre[a]);
                            assert(!sa_at(pre, student_id@, question_id@, a));
                        }
                    }
                }
                Ok(())
            },
        }
    }

    /// The identities of the answers `student_id` has chosen for questions
    /// of exam `exam_id`, in row order; empty when the exam does not
    /// resolve.
    #[verifier::loop_isolation(false)]
    pub fn get_student_answers(&self, student_id: &str, exam_id: &str) -> (r: Vec<String>)
        requires
            self.wf(),
        ensures
            has_exam(self.exams@, exam_id@) ==> r@ == chosen_answer_ids(
                self.student_answers@,
                student_id@,
                self.exams@[exam_index(self.exams@, exam_id@)],
            ),
            !has_exam(self.exams@, exam_id@) ==> r@.len() == 0,
    {
        let idx: usize = match self.find_exam(exam_id) {
            None => {
                return Vec::new();
            },
            Some(i) => i,
        };
        proof {
            lemma_exam_index(self.exams@, exam_id@, idx as int);
        }
        let ghost e = self.exams@[idx as int];
        let rows: &Vec<StudentAnswer> = &self.student_answers;
        let mut out: Vec<String> = Vec::new();
        let mut i: usize = 0;
        while i < rows.len()
            invariant
                0 <= i <= rows@.len(),
                out@ == chosen_answer_ids(rows@.take(i as int), student_id@, e),
            decreases rows@.len() - i,
        {
            let row_matches: bool = if str_eq(rows[i].student_id.as_str(), student_id) {
                self.find_question(idx, rows[i].question_id.as_str()).is_some()
            } else {
                false
            };
            proof {
                assert(rows@.take(i + 1) =~= rows@.take(i as int).push(rows@[i as int]));
                assert(row_matches == relevant_row(rows@[i as int], student_id@, e));
                lemma_chosen_push(rows@.take(i as int), rows@[i as int], student_id@, e);
            }
            if row_matches {
                out.push(rows[i].answer_id.clone());
                proof {
                    assert(out@ =~= chosen_answer_ids(rows@.take(i + 1), student_id@, e));
                }
            } else {
                proof {
                    assert(out@ =~= chosen_answer_ids(rows@.take(i + 1), student_id@, e));
                }
            }
            i = i + 1;
        }
        proof {
            assert(rows@.take(rows@.len() as int) =~= rows@);
        }
        out
    }

    /// The exam tree together with the student's own chosen answer
    /// identities, after authorization. Retrieval has no temporal gate; what
    /// may be disclosed of it is the caller's concern.
    pub fn get_student_exam(&self, exam_id: &str, student_id: &str) -> (r: Result<
        (Exam, Vec<String>),
        ExamError,
    >)
        requires
            self.wf(),
        ensures
            match r {
                Err(err) => student_exam_check(*self, exam_id@, student_id@) == Err::<
                    (),
                    ExamError,
                >(err),
                Ok((exam, chosen)) => {
                    &&& student_exam_check(*self, exam_id@, student_id@) is Ok
                    &&& exam_eq(exam, self.exams@[exam_index(self.exams@, exam_id@)])
                    &&& chosen@ == chosen_answer_ids(
                        self.student_answers@,
                        student_id@,
                        self.exams@[exam_index(self.exams@, exam_id@)],
                    )
                },
            },
    {
        let idx: usize = match self.find_exam(exam_id) {
            None => {
                return Err(ExamError::NotFound);
            },
            Some(i) => i,
        };
        proof {
            lemma_exam_index(self.exams@, exam_id@, idx as int);
        }
        let class_id = self.exams[idx].class_id.clone();
        if !self.is_student(student_id, class_id.as_str()) {
            return Err(ExamError::Unauthorized);
        }
        let exam = self.exams[idx].clone();
        let chosen = self.get_student_answers(student_id, exam_id);
        Ok((exam, chosen))
    }

    /// The exam tree and the student's chosen answer identities, released
    /// only once the exam is closed: before `end_date` has passed the result
    /// is withheld.
    pub fn get_exam_result(&self, exam_id: &str, student_id: &str, now: i64) -> (r: Result<
        (Exam, Vec<String>),
        ExamError,
    >)
        requires
            self.wf(),
        ensures
            match r {
                Err(err) => result_check(*self, exam_id@, student_id@, now as int) == Err::<
                    (),
                    ExamError,
                >(err),
                Ok((exam, chosen)) => {
                    &&& result_check(*self, exam_id@, student_id@, now as int) is Ok
                    &&& exam_eq(exam, self.exams@[exam_index(self.exams@, exam_id@)])
                    &&& chosen@ == chosen_answer_ids(
                        self.student_answers@,
                        student_id@,
                        self.exams@[exam_index(self.exams@, exam_id@)],
                    )
                },
            },
    {
        let (exam, chosen) = match self.get_student_exam(exam_id, student_id) {
            Err(err) => {
                return Err(err);
            },
            Ok(p) => p,
        };
        match phase(now, exam.start_date, exam.end_date) {
            Phase::Closed => Ok((exam, chosen)),
            _ => Err(ExamError::ExamNotOpen),
        }
    }
}

} // verus!
