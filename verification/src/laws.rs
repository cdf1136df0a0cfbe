//! The library's laws, stated and proved once over the specification
//! functions that the operations' contracts use.

use vstd::prelude::*;

use crate::errors::ExamError;
use crate::lifecycle::{delete_check, edit_check};
use crate::model::{Exam, Question, StudentAnswer};
use crate::policy::spec_schedule_ok;
use crate::scoring::{
    lemma_correct_count_bounds, lemma_percentage_rounds, spec_correct_count, spec_percentage,
};
use crate::store::{
    exam_index, has_exam, has_row, lemma_row_index, row_index, sa_keys_unique, spec_is_teacher,
    Store,
};
use crate::validate::{first_violation, single_correct};

verus! {

/// Every persisted exam's every question has exactly one answer flagged
/// correct: the store invariant keeps what validation enforced.
pub proof fn lemma_persisted_single_correct(s: Store, i: int, j: int)
    requires
        s.wf(),
        0 <= i < s.exams@.len(),
        0 <= j < s.exams@[i].questions@.len(),
    ensures
        single_correct(s.exams@[i].questions@[j].answers@),
{
}

/// Editing fails with `ExamAlreadyStarted` exactly when the stored start has
/// passed, and succeeds otherwise, given a resolving identity, authorization
/// on the stored class, a well-formed payload and an acceptable schedule.
pub proof fn lemma_edit_gate(s: Store, exam: Exam, teacher: Seq<char>, now: int)
    requires
        s.wf(),
        has_exam(s.exams@, exam.id@),
        spec_is_teacher(s, teacher, s.exams@[exam_index(s.exams@, exam.id@)].class_id@),
        first_violation(exam) is None,
        spec_schedule_ok(now, exam.start_date as int, exam.end_date as int),
    ensures
        edit_check(s, exam, teacher, now) == if s.exams@[exam_index(
            s.exams@,
            exam.id@,
        )].start_date <= now {
            Err::<(), ExamError>(ExamError::ExamAlreadyStarted)
        } else {
            Ok::<(), ExamError>(())
        },
{
}

/// Deletion fails with `ExamAlreadyStarted` exactly when the stored start
/// has passed, and succeeds otherwise, given a resolving identity and
/// authorization on the stored class.
pub proof fn lemma_delete_gate(s: Store, exam_id: Seq<char>, teacher: Seq<char>, now: int)
    requires
        s.wf(),
        has_exam(s.exams@, exam_id),
        spec_is_teacher(s, teacher, s.exams@[exam_index(s.exams@, exam_id)].class_id@),
    ensures
        delete_check(s, exam_id, teacher, now) == if s.exams@[exam_index(
            s.exams@,
            exam_id,
        )].start_date <= now {
            Err::<(), ExamError>(ExamError::ExamAlreadyStarted)
        } else {
            Ok::<(), ExamError>(())
        },
{
}

/// Submission is idempotent under repetition: after two successful
/// submissions of the same (student, question, answer) key — the first at
/// `t1`, the second at `t2` — the table holds exactly one row for the key,
/// the second submission added no row, the row's `created_at` is the first
/// call's (or the pre-existing row's) stamp, and its `updated_at` is the
/// last call's.
pub proof fn lemma_submit_idempotent(
    rows0: Seq<StudentAnswer>,
    rows1: Seq<StudentAnswer>,
    rows2: Seq<StudentAnswer>,
    student: Seq<char>,
    question: Seq<char>,
    answer: Seq<char>,
    t1: i64,
    t2: i64,
)
    requires
        sa_keys_unique(rows0),
        sa_keys_unique(rows1),
        sa_keys_unique(rows2),
        crate::submission::submit_upsert(rows0, rows1, student, question, answer, t1),
        crate::submission::submit_upsert(rows1, rows2, student, question, answer, t2),
    ensures
        rows2.len() == rows1.len(),
        has_row(rows2, student, question),
        rows2[row_index(rows2, student, question)].answer_id@ == answer,
        rows2[row_index(rows2, student, question)].updated_at == Some(t2),
        rows2[row_index(rows2, student, question)].created_at == if has_row(
            rows0,
            student,
            question,
        ) {
            rows0[row_index(rows0, student, question)].created_at
        } else {
            Some(t1)
        },
{
    let j1: int = if has_row(rows0, student, question) {
        row_index(rows0, student, question)
    } else {
        rows0.len() as int
    };
    if has_row(rows0, student, question) {
        lemma_row_index(rows1, student, question, j1);
    } else {
        assert(rows1.last().student_id@ == student && rows1.last().question_id@ == question);
        lemma_row_index(rows1, student, question, rows0.len() as int);
    }
    assert(row_index(rows1, student, question) == j1);
    assert(rows2[j1].student_id@ == student && rows2[j1].question_id@ == question);
    lemma_row_index(rows2, student, question, j1);
}

/// A score is bounded by the question count, and its percentage is the
/// rounded ratio, between 0 and 100.
pub proof fn lemma_score_in_range(qs: Seq<Question>, chosen: Seq<String>)
    requires
        qs.len() >= 1,
    ensures
        0 <= spec_correct_count(qs, chosen) <= qs.len(),
        0 <= spec_percentage(spec_correct_count(qs, chosen), qs.len() as int) <= 100,
        2 * (qs.len() as int) * spec_percentage(spec_correct_count(qs, chosen), qs.len() as int) - (
        qs.len() as int) <= 200 * spec_correct_count(qs, chosen),
        200 * spec_correct_count(qs, chosen) < 2 * (qs.len() as int) * spec_percentage(
            spec_correct_count(qs, chosen),
            qs.len() as int,
        ) + (qs.len() as int),
{
    lemma_correct_count_bounds(qs, chosen);
    lemma_percentage_rounds(spec_correct_count(qs, chosen), qs.len() as int);
}

} // verus!
