//! Aggregate validator: structural well-formedness of an exam with its
//! nested questions and answers, checked before anything is persisted. Pure;
//! it never touches the store.

use vstd::prelude::*;

use crate::errors::ValidationRule;
use crate::model::{Answer, Exam, Question};

verus! {

/// Every answer in `ans` has non-empty text.
pub open spec fn all_answer_texts_ok(ans: Seq<Answer>) -> bool {
    forall|i: int| 0 <= i < ans.len() ==> ans[i].answer@.len() > 0
}

/// The answer at index `i` of `ans` is flagged correct.
pub open spec fn correct_at(ans: Seq<Answer>, i: int) -> bool {
    0 <= i < ans.len() && ans[i].is_correct
}

/// Exactly one answer of `ans` is flagged correct.
pub open spec fn single_correct(ans: Seq<Answer>) -> bool {
    (exists|i: int| correct_at(ans, i)) && (forall|i: int, j: int|
        correct_at(ans, i) && correct_at(ans, j) ==> i == j)
}

/// A question is well-formed: non-empty text, at least one answer, every
/// answer text non-empty, and exactly one answer flagged correct.
pub open spec fn question_ok(q: Question) -> bool {
    &&& q.question@.len() > 0
    &&& q.answers@.len() > 0
    &&& all_answer_texts_ok(q.answers@)
    &&& single_correct(q.answers@)
}

/// An exam aggregate is well-formed: non-empty name, at least one question,
/// every question well-formed.
pub open spec fn exam_valid(e: Exam) -> bool {
    &&& e.name@.len() > 0
    &&& e.questions@.len() > 0
    &&& forall|i: int| 0 <= i < e.questions@.len() ==> question_ok(#[trigger] e.questions@[i])
}

/// The first rule `e` violates, in the validator's fixed order: empty name;
/// no question; empty question text; a question without answers; empty
/// answer text; a question without exactly one correct answer.
pub open spec fn first_violation(e: Exam) -> Option<ValidationRule> {
    let qs = e.questions@;
    if e.name@.len() == 0 {
        Some(ValidationRule::EmptyName)
    } else if qs.len() == 0 {
        Some(ValidationRule::NoQuestions)
    } else if exists|i: int| 0 <= i < qs.len() && (#[trigger] qs[i]).question@.len() == 0 {
        Some(ValidationRule::EmptyQuestionText)
    } else if exists|i: int| 0 <= i < qs.len() && (#[trigger] qs[i]).answers@.len() == 0 {
        Some(ValidationRule::NoAnswers)
    } else if exists|i: int| 0 <= i < qs.len() && !all_answer_texts_ok((#[trigger] qs[i]).answers@) {
        Some(ValidationRule::EmptyAnswerText)
    } else if exists|i: int| 0 <= i < qs.len() && !single_correct((#[trigger] qs[i]).answers@) {
        Some(ValidationRule::NoSingleCorrectAnswer)
    } else {
        None
    }
}

/// The validator accepts exactly the well-formed aggregates.
pub proof fn lemma_validator_characterizes(e: Exam)
    ensures
        first_violation(e) is None <==> exam_valid(e),
{
}

/// Checks `e` against the structural rules, returning the first violated
/// rule in the validator's fixed order, or success when the aggregate is
/// well-formed.
#[verifier::loop_isolation(false)]
pub fn validate_exam(e: &Exam) -> (r: Result<(), ValidationRule>)
    ensures
        r is Ok <==> exam_valid(*e),
        match r {
            Ok(()) => first_violation(*e) is None,
            Err(rule) => first_violation(*e) == Some(rule),
        },
{
    let qs: &Vec<Question> = &e.questions;
    if e.name.as_str().is_empty() {
        return Err(ValidationRule::EmptyName);
    }
    if qs.len() == 0 {
        return Err(ValidationRule::NoQuestions);
    }
    let n: usize = qs.len();

    let mut i: usize = 0;
    while i < n
        invariant
            n == qs@.len(),
            0 <= i <= n,
            forall|j: int| 0 <= j < i ==> (#[trigger] qs@[j]).question@.len() > 0,
        decreases n - i,
    {
        if qs[i].question.as_str().is_empty() {
            return Err(ValidationRule::EmptyQuestionText);
        }
        i = i + 1;
    }

    let mut i: usize = 0;
    while i < n
        invariant
            n == qs@.len(),
            0 <= i <= n,
            forall|j: int| 0 <= j < i ==> (#[trigger] qs@[j]).answers@.len() > 0,
        decreases n - i,
    {
        if qs[i].answers.len() == 0 {
            return Err(ValidationRule::NoAnswers);
        }
        i = i + 1;
    }

    let mut i: usize = 0;
    while i < n
        invariant
            n == qs@.len(),
            0 <= i <= n,
            forall|j: int| 0 <= j < i ==> all_answer_texts_ok((#[trigger] qs@[j]).answers@),
        decreases n - i,
    {
        let ans: &Vec<Answer> = &qs[i].answers;
        let m: usize = ans.len();
        let mut k: usize = 0;
        while k < m
            invariant
                m == ans@.len(),
                0 <= k <= m,
                forall|l: int| 0 <= l < k ==> (#[trigger] ans@[l]).answer@.len() > 0,
            decreases m - k,
        {
            if ans[k].answer.as_str().is_empty() {
                return Err(ValidationRule::EmptyAnswerText);
            }
            k = k + 1;
        }
        i = i + 1;
    }

    let mut i: usize = 0;
    while i < n
        invariant
            n == qs@.len(),
            0 <= i <= n,
            forall|j: int| 0 <= j < i ==> single_correct((#[trigger] qs@[j]).answers@),
            forall|j: int| 0 <= j < n ==> (#[trigger] qs@[j]).question@.len() > 0,
            forall|j: int| 0 <= j < n ==> (#[trigger] qs@[j]).answers@.len() > 0,
            forall|j: int| 0 <= j < n ==> all_answer_texts_ok((#[trigger] qs@[j]).answers@),
        decreases n - i,
    {
        let ans: &Vec<Answer> = &qs[i].answers;
        let m: usize = ans.len();
        let mut found: bool = false;
        let ghost mut fidx: int = 0int;
        let mut k: usize = 0;
        while k < m
            invariant
                m == ans@.len(),
                0 <= k <= m,
                found ==> 0 <= fidx < k && correct_at(ans@, fidx),
                forall|l: int| 0 <= l < k && correct_at(ans@, l) ==> found && l == fidx,
            decreases m - k,
        {
            if ans[k].is_correct {
                if found {
                    proof {
                        assert(correct_at(ans@, fidx));
                        assert(correct_at(ans@, k as int));
                        assert(fidx != k as int);
                    }
                    assert(!single_correct(ans@));
                    return Err(ValidationRule::NoSingleCorrectAnswer);
                }
                found = true;
                proof {
                    fidx = k as int;
                }
            }
            k = k + 1;
        }
        if !found {
            assert(!single_correct(ans@));
            return Err(ValidationRule::NoSingleCorrectAnswer);
        }
        assert(single_correct(ans@));
        i = i + 1;
    }

    Ok(())
}

} // verus!
