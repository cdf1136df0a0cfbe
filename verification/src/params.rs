//! Inbound request payloads and their field-level validation, ahead of the
//! aggregate validator: empty texts are refused with a fixed message.

use vstd::prelude::*;

verus! {

/// An answer as submitted by a teacher creating or editing an exam.
#[derive(Debug)]
pub struct CreateAnswerControllerParams {
    pub answer: String,
    pub is_correct: bool,
}

/// The answer payload is acceptable: non-empty text.
pub open spec fn answer_params_ok(p: CreateAnswerControllerParams) -> bool {
    p.answer@.len() > 0
}

impl CreateAnswerControllerParams {
    /// Accepts exactly the payloads with non-empty answer text.
    pub fn validate(&self) -> (r: Result<&Self, &'static str>)
        ensures
            r is Ok <==> answer_params_ok(*self),
            r matches Ok(p) ==> p == self,
            r matches Err(m) ==> m@ == "Answer cannot be empty"@,
    {
        if self.answer.as_str().is_empty() {
            return Err("Answer cannot be empty");
        }
        Ok(self)
    }
}

/// A question as submitted by a teacher, with its answers.
#[derive(Debug)]
pub struct CreateQuestionControllerParams {
    pub question: String,
    pub answers: Vec<CreateAnswerControllerParams>,
}

/// The question payload is acceptable: non-empty text and every answer
/// acceptable.
pub open spec fn question_params_ok(p: CreateQuestionControllerParams) -> bool {
    p.question@.len() > 0 && forall|i: int|
        0 <= i < p.answers@.len() ==> answer_params_ok(#[trigger] p.answers@[i])
}

/// The message a question payload is refused with: its own empty text comes
/// before its answers'.
pub open spec fn question_err_msg(p: CreateQuestionControllerParams) -> Seq<char> {
    if p.question@.len() == 0 {
        "Question cannot be empty"@
    } else {
        "Answer cannot be empty"@
    }
}

impl CreateQuestionControllerParams {
    /// Accepts exactly the payloads whose question text and answer texts are
    /// all non-empty; refuses the first violation found, question text
    /// first.
    #[verifier::loop_isolation(false)]
    pub fn validate(&self) -> (r: Result<&Self, &'static str>)
        ensures
            r is Ok <==> question_params_ok(*self),
            r matches Ok(p) ==> p == self,
            r matches Err(m) ==> m@ == question_err_msg(*self),
    {
        if self.question.as_str().is_empty() {
            return Err("Question cannot be empty");
        }
        let mut i: usize = 0;
        while i < self.answers.len()
            invariant
                0 <= i <= self.answers@.len(),
                forall|j: int| 0 <= j < i ==> answer_params_ok(#[trigger] self.answers@[j]),
            decreases self.answers@.len() - i,
        {
            if let Err(m) = self.answers[i].validate() {
                return Err(m);
            }
            i = i + 1;
        }
        Ok(self)
    }
}

/// An exam as submitted by a teacher: name, window, questions.
#[derive(Debug)]
pub struct CreateExamControllerParams {
    pub name: String,
    pub start_date: i64,
    pub end_date: i64,
    pub questions: Vec<CreateQuestionControllerParams>,
}

/// The exam payload is acceptable: non-empty name and every question
/// acceptable.
pub open spec fn exam_params_ok(p: CreateExamControllerParams) -> bool {
    p.name@.len() > 0 && forall|i: int|
        0 <= i < p.questions@.len() ==> question_params_ok(#[trigger] p.questions@[i])
}

/// The message of the first unacceptable question, in payload order.
pub open spec fn first_question_err(qs: Seq<CreateQuestionControllerParams>) -> Option<Seq<char>>
    decreases qs.len(),
{
    if qs.len() == 0 {
        None
    } else if !question_params_ok(qs[0]) {
        Some(question_err_msg(qs[0]))
    } else {
        first_question_err(qs.drop_first())
    }
}

/// Skipping an acceptable prefix does not change the first refusal.
pub proof fn lemma_first_question_err_skip(qs: Seq<CreateQuestionControllerParams>, i: int)
    requires
        0 <= i <= qs.len(),
        forall|j: int| 0 <= j < i ==> question_params_ok(#[trigger] qs[j]),
    ensures
        first_question_err(qs) == first_question_err(qs.skip(i)),
    decreases i,
{
    if i > 0 {
        lemma_first_question_err_skip(qs, i - 1);
        let rest = qs.skip(i - 1);
        assert(rest[0] == qs[i - 1]);
        assert(rest.drop_first() =~= qs.skip(i));
    } else {
        assert(qs.skip(0) =~= qs);
    }
}

impl CreateExamControllerParams {
    /// Accepts exactly the payloads whose name, question texts and answer
    /// texts are all non-empty; refuses the first violation found, the name
    /// first, then the questions in order.
    #[verifier::loop_isolation(false)]
    pub fn validate(&self) -> (r: Result<&Self, &'static str>)
        ensures
            r is Ok <==> exam_params_ok(*self),
            r matches Ok(p) ==> p == self,
            r matches Err(m) ==> if self.name@.len() == 0 {
                m@ == "Exam name cannot be empty"@
            } else {
                Some(m@) == first_question_err(self.questions@)
            },
    {
        if self.name.as_str().is_empty() {
            return Err("Exam name cannot be empty");
        }
        let mut i: usize = 0;
        while i < self.questions.len()
            invariant
                0 <= i <= self.questions@.len(),
                forall|j: int| 0 <= j < i ==> question_params_ok(#[trigger] self.questions@[j]),
            decreases self.questions@.len() - i,
        {
            if let Err(m) = self.questions[i].validate() {
                proof {
                    lemma_first_question_err_skip(self.questions@, i as int);
                    assert(self.questions@.skip(i as int)[0] == self.questions@[i as int]);
                }
                return Err(m);
            }
            i = i + 1;
        }
        Ok(self)
    }
}

/// The payload of a student enrolling in a class.
#[derive(Debug)]
pub struct EnrollClassControllerParams {
    pub class_id: String,
}

impl EnrollClassControllerParams {
    /// Accepts exactly the payloads naming a class.
    pub fn validate(&self) -> (r: Result<&Self, &'static str>)
        ensures
            r is Ok <==> self.class_id@.len() > 0,
            r matches Ok(p) ==> p == self,
            r matches Err(m) ==> m@ == "code is required"@,
    {
        if self.class_id.as_str().is_empty() {
            return Err("code is required");
        }
        Ok(self)
    }
}

/// The payload of a teacher creating a class.
#[derive(Debug)]
pub struct CreateClassControllerParams {
    pub code: String,
    pub name: String,
    pub description: String,
}

impl CreateClassControllerParams {
    /// Accepts exactly the payloads with non-empty code, name and
    /// description, refusing the first empty field in that order.
    pub fn validate(&self) -> (r: Result<&Self, &'static str>)
        ensures
            r is Ok <==> self.code@.len() > 0 && self.name@.len() > 0 && self.description@.len()
                > 0,
            r matches Ok(p) ==> p == self,
            r matches Err(m) ==> if self.code@.len() == 0 {
                m@ == "code is required"@
            } else if self.name@.len() == 0 {
                m@ == "name is required"@
            } else {
                m@ == "description is required"@
            },
    {
        if self.code.as_str().is_empty() {
            return Err("code is required");
        }
        if self.name.as_str().is_empty() {
            return Err("name is required");
        }
        if self.description.as_str().is_empty() {
            return Err("description is required");
        }
        Ok(self)
    }
}

} // verus!
