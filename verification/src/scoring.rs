//! Scoring engine: a student's correct-answer count and rounded percentage,
//! and the teacher-facing per-student aggregate over an exam's submissions.

use vstd::prelude::*;
use vstd::arithmetic::div_mod::{lemma_fundamental_div_mod, lemma_mod_bound};

use crate::errors::ExamError;
use crate::model::{Exam, Question, StudentAnswer, User};
use crate::store::{exam_index, has_exam, lemma_exam_index, spec_is_student, spec_is_teacher, Store};
use crate::strutil::{seq_contains_str, str_eq, vec_contains_str};
use crate::submission::{question_in_exam, relevant_row};
use crate::validate::{correct_at, exam_valid, single_correct};

verus! {

/// The identity of the unique correct answer of `q`; well-defined whenever
/// exactly one answer is flagged correct.
pub open spec fn spec_correct_answer_id(q: Question) -> Seq<char> {
    q.answers@[choose|i: int| correct_at(q.answers@, i)].id@
}

/// The student answered `q` correctly: the chosen identities include the
/// identity of `q`'s unique correct answer.
pub open spec fn question_answered_correctly(q: Question, chosen: Seq<String>) -> bool {
    seq_contains_str(chosen, spec_correct_answer_id(q))
}

/// How many of the questions `qs` the chosen identities answer correctly.
pub open spec fn spec_correct_count(qs: Seq<Question>, chosen: Seq<String>) -> int
    decreases qs.len(),
{
    if qs.len() == 0 {
        0
    } else {
        spec_correct_count(qs.drop_last(), chosen) + if question_answered_correctly(
            qs.last(),
            chosen,
        ) {
            1int
        } else {
            0int
        }
    }
}

/// The correct count never exceeds the question count.
pub proof fn lemma_correct_count_bounds(qs: Seq<Question>, chosen: Seq<String>)
    ensures
        0 <= spec_correct_count(qs, chosen) <= qs.len(),
    decreases qs.len(),
{
    if qs.len() > 0 {
        lemma_correct_count_bounds(qs.drop_last(), chosen);
    }
}

/// `correct` out of `total` questions, as a percentage rounded to the
/// nearest integer (halves away from zero).
pub open spec fn spec_percentage(correct: int, total: int) -> int
    recommends
        total > 0,
{
    (200 * correct + total) / (2 * total)
}

/// The rounded percentage is the integer within half a point of the exact
/// ratio `100 * correct / total`, and it lies between 0 and 100.
pub proof fn lemma_percentage_rounds(correct: int, total: int)
    requires
        0 <= correct <= total,
        total >= 1,
    ensures
        0 <= spec_percentage(correct, total) <= 100,
        2 * total * spec_percentage(correct, total) - total <= 200 * correct,
        200 * correct < 2 * total * spec_percentage(correct, total) + total,
{
    let a = 200 * correct + total;
    let d = 2 * total;
    let p = a / d;
    lemma_fundamental_div_mod(a, d);
    lemma_mod_bound(a, d);
    assert(d * p <= a < d * p + d);
    assert(p >= 0) by (nonlinear_arith)
        requires
            d >= 2,
            a >= 1,
            a < d * p + d,
    ;
    assert(p <= 100) by (nonlinear_arith)
        requires
            d == 2 * total,
            total >= 1,
            correct <= total,
            d * p <= a,
            a == 200 * correct + total,
    ;
}

/// A student's result on an exam: the correct count, the question count, and
/// the rounded percentage.
#[derive(Clone, Copy, Debug, PartialEq, Eq, Structural)]
pub struct ScoreSummary {
    pub correct_count: i64,
    pub total_questions: i64,
    pub percentage: i64,
}

/// The identity of the first correct answer of `q`; under `single_correct`
/// it is the unique one.
#[verifier::loop_isolation(false)]
pub fn correct_answer_id(q: &Question) -> (r: &String)
    requires
        single_correct(q.answers@),
    ensures
        r@ == spec_correct_answer_id(*q),
{
    let mut k: usize = 0;
    while k < q.answers.len()
        invariant
            0 <= k <= q.answers@.len(),
            forall|l: int| 0 <= l < k ==> !correct_at(q.answers@, l),
        decreases q.answers@.len() - k,
    {
        if q.answers[k].is_correct {
            proof {
                let w = choose|i: int| correct_at(q.answers@, i);
                assert(correct_at(q.answers@, k as int));
                assert(correct_at(q.answers@, w));
                assert(w == k as int);
            }
            return &q.answers[k].id;
        }
        k = k + 1;
    }
    proof {
        let w = choose|i: int| correct_at(q.answers@, i);
        assert(correct_at(q.answers@, w));
        assert(false);
    }
    unreached()
}

/// The identities of the correct answers of `e`, one per question, in
/// question order.
#[verifier::loop_isolation(false)]
pub fn correct_answer_ids(e: &Exam) -> (r: Vec<String>)
    requires
        exam_valid(*e),
    ensures
        r@.len() == e.questions@.len(),
        forall|i: int|
            0 <= i < r@.len() ==> (#[trigger] r@[i])@ == spec_correct_answer_id(e.questions@[i]),
{
    let mut out: Vec<String> = Vec::new();
    let mut i: usize = 0;
    while i < e.questions.len()
        invariant
            0 <= i <= e.questions@.len(),
            out@.len() == i,
            forall|j: int|
                0 <= j < i ==> (#[trigger] out@[j])@ == spec_correct_answer_id(e.questions@[j]),
        decreases e.questions@.len() - i,
    {
        let id = correct_answer_id(&e.questions[i]);
        out.push(id.clone());
        i = i + 1;
    }
    out
}

/// Scores an exam against the student's chosen answer identities: counts the
/// questions whose unique correct answer was chosen and rounds the
/// percentage. The question count is positive for every well-formed exam, so
/// the ratio is always defined.
#[verifier::loop_isolation(false)]
pub fn score(exam: &Exam, chosen: &Vec<String>) -> (r: ScoreSummary)
    requires
        exam_valid(*exam),
        exam.questions@.len() <= 0x7fff_ffff_ffff_ffff,
    ensures
        r.correct_count == spec_correct_count(exam.questions@, chosen@),
        r.total_questions == exam.questions@.len(),
        0 <= r.correct_count <= r.total_questions,
        r.percentage == spec_percentage(r.correct_count as int, r.total_questions as int),
        0 <= r.percentage <= 100,
{
    let n: usize = exam.questions.len();
    let mut c: i64 = 0;
    let mut i: usize = 0;
    while i < n
        invariant
            n == exam.questions@.len(),
            0 <= i <= n,
            0 <= c <= i,
            c == spec_correct_count(exam.questions@.take(i as int), chosen@),
        decreases n - i,
    {
        let q: &Question = &exam.questions[i];
        let cid: &String = correct_answer_id(q);
        proof {
            assert(exam.questions@.take(i + 1).drop_last() =~= exam.questions@.take(i as int));
            assert(exam.questions@.take(i + 1).last() == exam.questions@[i as int]);
        }
        if vec_contains_str(chosen, cid.as_str()) {
            c = c + 1;
        }
        i = i + 1;
    }
    proof {
        assert(exam.questions@.take(n as int) =~= exam.questions@);
        lemma_percentage_rounds(c as int, n as int);
    }
    let t: i64 = n as i64;
    let num: u128 = 200u128 * (c as u128) + (t as u128);
    let den: u128 = 2u128 * (t as u128);
    let p: i64 = (num / den) as i64;
    ScoreSummary { correct_count: c, total_questions: t, percentage: p }
}

/// One line of the teacher's result dashboard: a student with how many
/// questions they answered, when they first and last acted, and how many
/// were correct.
#[derive(Debug)]
pub struct StudentResultContextModel {
    pub name: String,
    pub answers_count: i64,
    pub first_answer_date: Option<i64>,
    pub last_update: Option<i64>,
    pub correct_answers_count: i64,
}

/// The rows of `rows` that are `student`'s answers to questions of `e`, in
/// row order.
pub open spec fn student_rows(rows: Seq<StudentAnswer>, student: Seq<char>, e: Exam) -> Seq<
    StudentAnswer,
>
    decreases rows.len(),
{
    if rows.len() == 0 {
        Seq::empty()
    } else {
        let prefix = student_rows(rows.drop_last(), student, e);
        if relevant_row(rows.last(), student, e) {
            prefix.push(rows.last())
        } else {
            prefix
        }
    }
}

/// One row extends a student's row list exactly when it is relevant.
pub proof fn lemma_student_rows_push(
    rows: Seq<StudentAnswer>,
    row: StudentAnswer,
    student: Seq<char>,
    e: Exam,
)
    ensures
        relevant_row(row, student, e) ==> student_rows(rows.push(row), student, e) == student_rows(
            rows,
            student,
            e,
        ).push(row),
        !relevant_row(row, student, e) ==> student_rows(rows.push(row), student, e) == student_rows(
            rows,
            student,
            e,
        ),
{
    assert(rows.push(row).drop_last() =~= rows);
    assert(rows.push(row).last() == row);
}

/// A student's row list never has more rows than the table.
pub proof fn lemma_student_rows_len(rows: Seq<StudentAnswer>, student: Seq<char>, e: Exam)
    ensures
        student_rows(rows, student, e).len() <= rows.len(),
    decreases rows.len(),
{
    if rows.len() > 0 {
        lemma_student_rows_len(rows.drop_last(), student, e);
    }
}

/// The row's chosen answer is the correct answer of some question of `e`.
pub open spec fn row_correct(row: StudentAnswer, e: Exam) -> bool {
    exists|i: int|
        0 <= i < e.questions@.len() && spec_correct_answer_id(#[trigger] e.questions@[i])
            == row.answer_id@
}

/// How many rows chose a correct answer of `e`.
pub open spec fn count_correct_rows(rows: Seq<StudentAnswer>, e: Exam) -> int
    decreases rows.len(),
{
    if rows.len() == 0 {
        0
    } else {
        count_correct_rows(rows.drop_last(), e) + if row_correct(rows.last(), e) {
            1int
        } else {
            0int
        }
    }
}

/// The earliest `created_at` among the rows, where an unset stamp counts as
/// earliest of all; unset when there is no row.
pub open spec fn opt_min_created(rows: Seq<StudentAnswer>) -> Option<i64>
    decreases rows.len(),
{
    if rows.len() == 0 {
        None
    } else if rows.len() == 1 {
        rows[0].created_at
    } else {
        match (opt_min_created(rows.drop_last()), rows.last().created_at) {
            (None, _) => None,
            (_, None) => None,
            (Some(a), Some(b)) => if a <= b {
                Some(a)
            } else {
                Some(b)
            },
        }
    }
}

/// The latest `updated_at` among the rows, where an unset stamp is earlier
/// than any set one; unset when there is no row.
pub open spec fn opt_max_updated(rows: Seq<StudentAnswer>) -> Option<i64>
    decreases rows.len(),
{
    if rows.len() == 0 {
        None
    } else if rows.len() == 1 {
        rows[0].updated_at
    } else {
        match (opt_max_updated(rows.drop_last()), rows.last().updated_at) {
            (None, x) => x,
            (x, None) => x,
            (Some(a), Some(b)) => if a >= b {
                Some(a)
            } else {
                Some(b)
            },
        }
    }
}

/// The dashboard line for student `u` on exam `e`, over the whole store.
pub open spec fn spec_student_result(s: Store, u: User, e: Exam) -> StudentResultContextModel {
    let rows = student_rows(s.student_answers@, u.id@, e);
    StudentResultContextModel {
        name: u.name,
        answers_count: rows.len() as i64,
        first_answer_date: opt_min_created(rows),
        last_update: opt_max_updated(rows),
        correct_answers_count: count_correct_rows(rows, e) as i64,
    }
}

/// `u` appears on the dashboard for `e`: enrolled in its class and with at
/// least one answer to one of its questions.
pub open spec fn participating(s: Store, u: User, e: Exam) -> bool {
    spec_is_student(s, u.id@, e.class_id@) && student_rows(s.student_answers@, u.id@, e).len() > 0
}

/// The dashboard lines for `e`, one per participating user, in user-table
/// order.
pub open spec fn spec_teacher_results(s: Store, e: Exam, users: Seq<User>) -> Seq<
    StudentResultContextModel,
>
    decreases users.len(),
{
    if users.len() == 0 {
        Seq::empty()
    } else {
        let prefix = spec_teacher_results(s, e, users.drop_last());
        if participating(s, users.last(), e) {
            prefix.push(spec_student_result(s, users.last(), e))
        } else {
            prefix
        }
    }
}

/// The outcome of teacher `teacher` asking for the results of exam
/// `exam_id`: the exam must resolve and the teacher must own its class.
pub open spec fn teacher_results_check(s: Store, exam_id: Seq<char>, teacher: Seq<char>) -> Result<
    (),
    ExamError,
> {
    if !has_exam(s.exams@, exam_id) {
        Err(ExamError::NotFound)
    } else if !spec_is_teacher(s, teacher, s.exams@[exam_index(s.exams@, exam_id)].class_id@) {
        Err(ExamError::Unauthorized)
    } else {
        Ok(())
    }
}

impl Store {
    /// The rows that are `student_id`'s answers to questions of the stored
    /// exam at `idx`, in row order.
    #[verifier::loop_isolation(false)]
    fn collect_student_rows(&self, idx: usize, student_id: &str) -> (r: Vec<StudentAnswer>)
        requires
            idx < self.exams@.len(),
        ensures
            r@ == student_rows(self.student_answers@, student_id@, self.exams@[idx as int]),
    {
        let ghost e = self.exams@[idx as int];
        let rows: &Vec<StudentAnswer> = &self.student_answers;
        let mut out: Vec<StudentAnswer> = Vec::new();
        let mut i: usize = 0;
        while i < rows.len()
            invariant
                0 <= i <= rows@.len(),
                out@ == student_rows(rows@.take(i as int), student_id@, e),
            decreases rows@.len() - i,
        {
            let row_matches: bool = if str_eq(rows[i].student_id.as_str(), student_id) {
                self.find_question(idx, rows[i].question_id.as_str()).is_some()
            } else {
                false
            };
            proof {
                assert(rows@.take(i + 1) =~= rows@.take(i as int).push(rows@[i as int]));
                assert(row_matches == relevant_row(rows@[i as int], student_id@, e));
                lemma_student_rows_push(rows@.take(i as int), rows@[i as int], student_id@, e);
            }
            if row_matches {
                out.push(rows[i].clone());
                proof {
                    assert(out@ =~= student_rows(rows@.take(i + 1), student_id@, e));
                }
            } else {
                proof {
                    assert(out@ =~= student_rows(rows@.take(i + 1), student_id@, e));
                }
            }
            i = i + 1;
        }
        proof {
            assert(rows@.take(rows@.len() as int) =~= rows@);
        }
        out
    }

    /// The teacher's dashboard for one exam: for every enrolled student who
    /// has answered at least one of its questions, the answered count, first
    /// and last activity, and correct count — plus the exam's question
    /// count.
    #[verifier::loop_isolation(false)]
    pub fn get_exam_results_by_teacher(&self, exam_id: &str, teacher_id: &str) -> (r: Result<
        (Vec<StudentResultContextModel>, i64),
        ExamError,
    >)
        requires
            self.wf(),
            self.student_answers@.len() <= 0x7fff_ffff_ffff_ffff,
            forall|i: int|
                0 <= i < self.exams@.len() ==> (#[trigger] self.exams@[i]).questions@.len()
                    <= 0x7fff_ffff_ffff_ffff,
        ensures
            match r {
                Err(err) => teacher_results_check(*self, exam_id@, teacher_id@) == Err::<
                    (),
                    ExamError,
                >(err),
                Ok((lines, total)) => {
                    &&& teacher_results_check(*self, exam_id@, teacher_id@) is Ok
                    &&& total == self.exams@[exam_index(self.exams@, exam_id@)].questions@.len()
                    &&& lines@ == spec_teacher_results(
                        *self,
                        self.exams@[exam_index(self.exams@, exam_id@)],
                        self.users@,
                    )
                },
            },
    {
        let idx: usize = match self.find_exam(exam_id) {
            None => {
                return Err(ExamError::NotFound);
            },
            Some(i) => i,
        };
        proof {
            lemma_exam_index(self.exams@, exam_id@, idx as int);
        }
        let ghost e = self.exams@[idx as int];
        let class_id = self.exams[idx].class_id.clone();
        if !self.is_teacher(teacher_id, class_id.as_str()) {
            return Err(ExamError::Unauthorized);
        }
        let correct_ids = correct_answer_ids(&self.exams[idx]);
        let total: i64 = self.exams[idx].questions.len() as i64;
        let mut out: Vec<StudentResultContextModel> = Vec::new();
        let mut ui: usize = 0;
        while ui < self.users.len()
            invariant
                0 <= ui <= self.users@.len(),
                out@ == spec_teacher_results(*self, e, self.users@.take(ui as int)),
            decreases self.users@.len() - ui,
        {
            proof {
                assert(self.users@.take(ui + 1) =~= self.users@.take(ui as int).push(
                    self.users@[ui as int],
                ));
                assert(self.users@.take(ui + 1).drop_last() =~= self.users@.take(ui as int));
            }
            let enrolled = self.is_student(self.users[ui].id.as_str(), class_id.as_str());
            if enrolled {
                let rows = self.collect_student_rows(idx, self.users[ui].id.as_str());
                proof {
                    lemma_student_rows_len(self.student_answers@, self.users@[ui as int].id@, e);
                }
                if rows.len() > 0 {
                    let line = self.build_result_line(&rows, &correct_ids, ui, idx);
                    out.push(line);
                    proof {
                        assert(participating(*self, self.users@[ui as int], e));
                        assert(out@ =~= spec_teacher_results(*self, e, self.users@.take(ui + 1)));
                    }
                } else {
                    proof {
                        assert(!participating(*self, self.users@[ui as int], e));
                        assert(out@ =~= spec_teacher_results(*self, e, self.users@.take(ui + 1)));
                    }
                }
            } else {
                proof {
                    assert(!participating(*self, self.users@[ui as int], e));
                    assert(out@ =~= spec_teacher_results(*self, e, self.users@.take(ui + 1)));
                }
            }
            ui = ui + 1;
        }
        proof {
            assert(self.users@.take(self.users@.len() as int) =~= self.users@);
        }
        Ok((out, total))
    }

    /// One dashboard line: aggregates `rows`, which must be exactly the
    /// user's relevant rows, against the exam's correct-answer identities.
    #[verifier::loop_isolation(false)]
    fn build_result_line(
        &self,
        rows: &Vec<StudentAnswer>,
        correct_ids: &Vec<String>,
        ui: usize,
        idx: usize,
    ) -> (line: StudentResultContextModel)
        requires
            ui < self.users@.len(),
            idx < self.exams@.len(),
            rows@ == student_rows(
                self.student_answers@,
                self.users@[ui as int].id@,
                self.exams@[idx as int],
            ),
            rows@.len() <= self.student_answers@.len(),
            self.student_answers@.len() <= 0x7fff_ffff_ffff_ffff,
            correct_ids@.len() == self.exams@[idx as int].questions@.len(),
            forall|i: int|
                0 <= i < correct_ids@.len() ==> (#[trigger] correct_ids@[i])@
                    == spec_correct_answer_id(self.exams@[idx as int].questions@[i]),
        ensures
            line == spec_student_result(*self, self.users@[ui as int], self.exams@[idx as int]),
    {
        let ghost e = self.exams@[idx as int];
        let n: usize = rows.len();
        let mut first: Option<i64> = None;
        let mut last: Option<i64> = None;
        let mut correct: i64 = 0;
        let mut k: usize = 0;
        while k < n
            invariant
                n == rows@.len(),
                0 <= k <= n,
                0 <= correct <= k,
                first == opt_min_created(rows@.take(k as int)),
                last == opt_max_updated(rows@.take(k as int)),
                correct == count_correct_rows(rows@.take(k as int), e),
            decreases n - k,
        {
            proof {
                assert(rows@.take(k + 1) =~= rows@.take(k as int).push(rows@[k as int]));
                assert(rows@.take(k + 1).drop_last() =~= rows@.take(k as int));
                assert(rows@.take(k + 1).last() == rows@[k as int]);
            }
            let row = &rows[k];
            if k == 0 {
                first = row.created_at;
                last = row.updated_at;
            } else {
                first = match (first, row.created_at) {
                    (None, _) => None,
                    (_, None) => None,
                    (Some(a), Some(b)) => if a <= b {
                        Some(a)
                    } else {
                        Some(b)
                    },
                };
                last = match (last, row.updated_at) {
                    (None, x) => x,
                    (x, None) => x,
                    (Some(a), Some(b)) => if a >= b {
                        Some(a)
                    } else {
                        Some(b)
                    },
                };
            }
            let hit = vec_contains_str(correct_ids, row.answer_id.as_str());
            proof {
                assert(hit == row_correct(rows@[k as int], e)) by {
                    if hit {
                        let j = choose|j: int|
                            0 <= j < correct_ids@.len() && (#[trigger] correct_ids@[j])@
                                == rows@[k as int].answer_id@;
                        assert(spec_correct_answer_id(e.questions@[j])
                            == rows@[k as int].answer_id@);
                    }
                    if row_correct(rows@[k as int], e) {
                        let j = choose|j: int|
                            0 <= j < e.questions@.len() && spec_correct_answer_id(
                                #[trigger] e.questions@[j],
                            ) == rows@[k as int].answer_id@;
                        assert(correct_ids@[j]@ == rows@[k as int].answer_id@);
                    }
                }
            }
            if hit {
                correct = correct + 1;
            }
            k = k + 1;
        }
        proof {
            assert(rows@.take(n as int) =~= rows@);
        }
        StudentResultContextModel {
            name: self.users[ui].name.clone(),
            answers_count: n as i64,
            first_answer_date: first,
            last_update: last,
            correct_answers_count: correct,
        }
    }
}

} // verus!
