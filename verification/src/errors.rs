//! Error taxonomy. Business-rule failures are local and non-retryable; a
//! storage fault is an infrastructure error, kept apart from business errors.

use vstd::prelude::*;

verus! {

/// The structural rule an exam aggregate violates, the first one in the
/// validator's fixed order.
#[derive(Clone, Copy, Debug, PartialEq, Eq, Structural)]
pub enum ValidationRule {
    /// The exam name is empty.
    EmptyName,
    /// The exam has no question.
    NoQuestions,
    /// Some question text is empty.
    EmptyQuestionText,
    /// Some question has no answer.
    NoAnswers,
    /// Some answer text is empty.
    EmptyAnswerText,
    /// Some question does not have exactly one answer flagged correct.
    NoSingleCorrectAnswer,
}

/// Everything an exam operation can signal.
#[derive(Clone, Copy, Debug, PartialEq, Eq, Structural)]
pub enum ExamError {
    /// The aggregate is structurally malformed.
    Validation(ValidationRule),
    /// The start is in the past, or the end precedes the start.
    InvalidSchedule,
    /// The acting principal does not own, or is not enrolled in, the class.
    Unauthorized,
    /// The exam (or the class backing it) does not resolve.
    NotFound,
    /// The question does not belong to the exam.
    QuestionNotFound,
    /// The answer does not belong to the question.
    AnswerNotFound,
    /// The stored start has passed; the exam can no longer be edited or
    /// deleted.
    ExamAlreadyStarted,
    /// The exam is outside the phase the operation needs.
    ExamNotOpen,
    /// A storage-layer fault, such as a duplicate identity on insert.
    PersistenceFailure,
}

/// Everything a class operation can signal.
#[derive(Clone, Copy, Debug, PartialEq, Eq, Structural)]
pub enum ClassError {
    /// The class code is already in use.
    CodeInUse,
    /// The class or the student does not resolve.
    NotFound,
}

} // verus!
