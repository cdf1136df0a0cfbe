//! Domain entities: an exam owns questions, which own answers; a student
//! answer is one student's current choice for one question. Instants are
//! millisecond epoch integers; identities are opaque strings.

use vstd::prelude::*;

use crate::ids::generate_id;

verus! {

/// A scheduled, gradable set of questions scoped to one class.
#[derive(Debug)]
pub struct Exam {
    pub id: String,
    pub name: String,
    pub start_date: i64,
    pub end_date: i64,
    pub class_id: String,
    pub questions: Vec<Question>,
}

impl Exam {
    /// Builds an exam under a freshly generated identity.
    pub fn new(
        name: &str,
        start_date: &i64,
        end_date: &i64,
        class_id: &str,
        questions: Vec<Question>,
    ) -> (r: Exam)
        ensures
            r.name@ == name@,
            r.start_date == *start_date,
            r.end_date == *end_date,
            r.class_id@ == class_id@,
            r.questions == questions,
    {
        Exam {
            id: generate_id(),
            name: name.to_owned(),
            start_date: *start_date,
            end_date: *end_date,
            class_id: class_id.to_owned(),
            questions,
        }
    }

    /// Builds an exam under a caller-chosen identity.
    pub fn new_with_id(
        id: &str,
        name: &str,
        start_date: &i64,
        end_date: &i64,
        class_id: &str,
        questions: Vec<Question>,
    ) -> (r: Exam)
        ensures
            r.id@ == id@,
            r.name@ == name@,
            r.start_date == *start_date,
            r.end_date == *end_date,
            r.class_id@ == class_id@,
            r.questions == questions,
    {
        Exam {
            id: id.to_owned(),
            name: name.to_owned(),
            start_date: *start_date,
            end_date: *end_date,
            class_id: class_id.to_owned(),
            questions,
        }
    }

    pub fn get_id(&self) -> (r: &String)
        ensures
            r == &self.id,
    {
        &self.id
    }

    pub fn get_name(&self) -> (r: &String)
        ensures
            r == &self.name,
    {
        &self.name
    }

    pub fn get_start_date(&self) -> (r: &i64)
        ensures
            r == &self.start_date,
    {
        &self.start_date
    }

    pub fn get_end_date(&self) -> (r: &i64)
        ensures
            r == &self.end_date,
    {
        &self.end_date
    }

    pub fn get_class_id(&self) -> (r: &String)
        ensures
            r == &self.class_id,
    {
        &self.class_id
    }

    pub fn get_questions(&self) -> (r: &Vec<Question>)
        ensures
            r == &self.questions,
    {
        &self.questions
    }

    pub fn set_questions(&mut self, questions: Vec<Question>)
        ensures
            final(self).id == old(self).id,
            final(self).name == old(self).name,
            final(self).start_date == old(self).start_date,
            final(self).end_date == old(self).end_date,
            final(self).class_id == old(self).class_id,
            final(self).questions == questions,
    {
        self.questions = questions;
    }
}

/// One question of an exam, with its candidate answers.
#[derive(Debug)]
pub struct Question {
    pub id: String,
    pub question: String,
    pub exam_id: String,
    pub answers: Vec<Answer>,
}

impl Question {
    /// Builds a question under a freshly generated identity.
    pub fn new(question: &str, exam_id: &str, answers: Vec<Answer>) -> (r: Question)
        ensures
            r.question@ == question@,
            r.exam_id@ == exam_id@,
            r.answers == answers,
    {
        Question {
            id: generate_id(),
            question: question.to_owned(),
            exam_id: exam_id.to_owned(),
            answers,
        }
    }

    /// Builds a question under a caller-chosen identity.
    pub fn new_with_id(id: &str, question: &str, exam_id: &str, answers: Vec<Answer>) -> (r:
        Question)
        ensures
            r.id@ == id@,
            r.question@ == question@,
            r.exam_id@ == exam_id@,
            r.answers == answers,
    {
        Question {
            id: id.to_owned(),
            question: question.to_owned(),
            exam_id: exam_id.to_owned(),
            answers,
        }
    }

    pub fn get_id(&self) -> (r: &String)
        ensures
            r == &self.id,
    {
        &self.id
    }

    pub fn get_question(&self) -> (r: &String)
        ensures
            r == &self.question,
    {
        &self.question
    }

    pub fn get_exam_id(&self) -> (r: &String)
        ensures
            r == &self.exam_id,
    {
        &self.exam_id
    }

    pub fn get_answers(&self) -> (r: &Vec<Answer>)
        ensures
            r == &self.answers,
    {
        &self.answers
    }

    pub fn set_answers(&mut self, answers: Vec<Answer>)
        ensures
            final(self).id == old(self).id,
            final(self).question == old(self).question,
            final(self).exam_id == old(self).exam_id,
            final(self).answers == answers,
    {
        self.answers = answers;
    }
}

/// One candidate answer of a question, with its correctness flag.
#[derive(Debug)]
pub struct Answer {
    pub id: String,
    pub answer: String,
    pub is_correct: bool,
    pub question_id: String,
}

impl Answer {
    /// Builds an answer under a freshly generated identity.
    pub fn new(answer: &str, is_correct: &bool, question_id: &str) -> (r: Answer)
        ensures
            r.answer@ == answer@,
            r.is_correct == *is_correct,
            r.question_id@ == question_id@,
    {
        Answer {
            id: generate_id(),
            answer: answer.to_owned(),
            is_correct: *is_correct,
            question_id: question_id.to_owned(),
        }
    }

    /// Builds an answer under a caller-chosen identity.
    pub fn new_with_id(id: &str, answer: &str, is_correct: &bool, question_id: &str) -> (r: Answer)
        ensures
            r.id@ == id@,
            r.answer@ == answer@,
            r.is_correct == *is_correct,
            r.question_id@ == question_id@,
    {
        Answer {
            id: id.to_owned(),
            answer: answer.to_owned(),
            is_correct: *is_correct,
            question_id: question_id.to_owned(),
        }
    }

    pub fn get_id(&self) -> (r: &String)
        ensures
            r == &self.id,
    {
        &self.id
    }

    pub fn get_answer(&self) -> (r: &String)
        ensures
            r == &self.answer,
    {
        &self.answer
    }

    pub fn is_correct(&self) -> (r: bool)
        ensures
            r == self.is_correct,
    {
        self.is_correct
    }

    pub fn get_question_id(&self) -> (r: &String)
        ensures
            r == &self.question_id,
    {
        &self.question_id
    }
}

/// A student's current choice for one question, keyed by
/// (student, question); `created_at` is set by the first submission and
/// `updated_at` by the latest one.
#[derive(Debug)]
pub struct StudentAnswer {
    pub student_id: String,
    pub question_id: String,
    pub answer_id: String,
    pub created_at: Option<i64>,
    pub updated_at: Option<i64>,
}

impl StudentAnswer {
    pub fn new(
        student_id: &str,
        question_id: &str,
        answer_id: &str,
        created_at: Option<i64>,
        updated_at: Option<i64>,
    ) -> (r: StudentAnswer)
        ensures
            r.student_id@ == student_id@,
            r.question_id@ == question_id@,
            r.answer_id@ == answer_id@,
            r.created_at == created_at,
            r.updated_at == updated_at,
    {
        StudentAnswer {
            student_id: student_id.to_owned(),
            question_id: question_id.to_owned(),
            answer_id: answer_id.to_owned(),
            created_at,
            updated_at,
        }
    }

    pub fn new_with_id(
        student_id: &str,
        question_id: &str,
        answer_id: &str,
        created_at: Option<i64>,
        updated_at: Option<i64>,
    ) -> (r: StudentAnswer)
        ensures
            r.student_id@ == student_id@,
            r.question_id@ == question_id@,
            r.answer_id@ == answer_id@,
            r.created_at == created_at,
            r.updated_at == updated_at,
    {
        StudentAnswer {
            student_id: student_id.to_owned(),
            question_id: question_id.to_owned(),
            answer_id: answer_id.to_owned(),
            created_at,
            updated_at,
        }
    }

    pub fn get_student_id(&self) -> (r: &String)
        ensures
            r == &self.student_id,
    {
        &self.student_id
    }

    pub fn get_question_id(&self) -> (r: &String)
        ensures
            r == &self.question_id,
    {
        &self.question_id
    }

    pub fn get_answer_id(&self) -> (r: &String)
        ensures
            r == &self.answer_id,
    {
        &self.answer_id
    }

    pub fn get_created_at(&self) -> (r: Option<i64>)
        ensures
            r == self.created_at,
    {
        self.created_at
    }

    pub fn set_created_at(&mut self, created_at: Option<i64>)
        ensures
            final(self).student_id == old(self).student_id,
            final(self).question_id == old(self).question_id,
            final(self).answer_id == old(self).answer_id,
            final(self).created_at == created_at,
            final(self).updated_at == old(self).updated_at,
    {
        self.created_at = created_at;
    }

    pub fn get_updated_at(&self) -> (r: Option<i64>)
        ensures
            r == self.updated_at,
    {
        self.updated_at
    }

    pub fn set_updated_at(&mut self, updated_at: Option<i64>)
        ensures
            final(self).student_id == old(self).student_id,
            final(self).question_id == old(self).question_id,
            final(self).answer_id == old(self).answer_id,
            final(self).created_at == old(self).created_at,
            final(self).updated_at == updated_at,
    {
        self.updated_at = updated_at;
    }
}

/// Two questions hold the same content: equal identity, text, owning exam
/// and answers. (`Vec` values themselves have no extensional spec equality,
/// so cloned questions are compared with this instead of `==`.)
pub open spec fn question_eq(a: Question, b: Question) -> bool {
    &&& a.id == b.id
    &&& a.question == b.question
    &&& a.exam_id == b.exam_id
    &&& a.answers@ == b.answers@
}

/// Two exams hold the same content: equal scalar fields and pointwise equal
/// questions.
pub open spec fn exam_eq(a: Exam, b: Exam) -> bool {
    &&& a.id == b.id
    &&& a.name == b.name
    &&& a.start_date == b.start_date
    &&& a.end_date == b.end_date
    &&& a.class_id == b.class_id
    &&& a.questions@.len() == b.questions@.len()
    &&& forall|i: int|
        0 <= i < a.questions@.len() ==> question_eq(
            #[trigger] a.questions@[i],
            #[trigger] b.questions@[i],
        )
}

impl Clone for Answer {
    /// A cloned answer equals the original.
    fn clone(&self) -> (r: Self)
        ensures
            r == *self,
    {
        Answer {
            id: self.id.clone(),
            answer: self.answer.clone(),
            is_correct: self.is_correct,
            question_id: self.question_id.clone(),
        }
    }
}

impl Clone for Question {
    /// A cloned question holds the same content as the original.
    fn clone(&self) -> (r: Self)
        ensures
            question_eq(r, *self),
    {
        let answers = self.answers.clone();
        proof {
            assert forall|i: int| 0 <= i < self.answers@.len() implies answers@[i]
                == self.answers@[i] by {
                assert(cloned::<Answer>(self.answers@[i], answers@[i]));
            }
            assert(answers@ =~= self.answers@);
        }
        Question {
            id: self.id.clone(),
            question: self.question.clone(),
            exam_id: self.exam_id.clone(),
            answers,
        }
    }
}

impl Clone for Exam {
    /// A cloned exam holds the same content as the original.
    fn clone(&self) -> (r: Self)
        ensures
            exam_eq(r, *self),
    {
        let questions = self.questions.clone();
        proof {
            assert forall|i: int| 0 <= i < self.questions@.len() implies question_eq(
                #[trigger] questions@[i],
                self.questions@[i],
            ) by {
                assert(cloned::<Question>(self.questions@[i], questions@[i]));
            }
        }
        Exam {
            id: self.id.clone(),
            name: self.name.clone(),
            start_date: self.start_date,
            end_date: self.end_date,
            class_id: self.class_id.clone(),
            questions,
        }
    }
}

impl Clone for StudentAnswer {
    /// A cloned row equals the original.
    fn clone(&self) -> (r: Self)
        ensures
            r == *self,
    {
        StudentAnswer {
            student_id: self.student_id.clone(),
            question_id: self.question_id.clone(),
            answer_id: self.answer_id.clone(),
            created_at: self.created_at,
            updated_at: self.updated_at,
        }
    }
}

/// A class: the unit a teacher owns and students enroll in.
#[derive(Debug)]
pub struct Class {
    pub id: String,
    pub code: String,
    pub name: String,
    pub description: String,
    pub user_id: String,
}

impl Class {
    /// Builds a class under a freshly generated identity.
    pub fn new(code: &str, name: &str, description: &str, user_id: &str) -> (r: Class)
        ensures
            r.code@ == code@,
            r.name@ == name@,
            r.description@ == description@,
            r.user_id@ == user_id@,
    {
        Class {
            id: generate_id(),
            code: code.to_owned(),
            name: name.to_owned(),
            description: description.to_owned(),
            user_id: user_id.to_owned(),
        }
    }

    /// Builds a class under a caller-chosen identity.
    pub fn new_with_id(id: &str, code: &str, name: &str, description: &str, user_id: &str) -> (r:
        Class)
        ensures
            r.id@ == id@,
            r.code@ == code@,
            r.name@ == name@,
            r.description@ == description@,
            r.user_id@ == user_id@,
    {
        Class {
            id: id.to_owned(),
            code: code.to_owned(),
            name: name.to_owned(),
            description: description.to_owned(),
            user_id: user_id.to_owned(),
        }
    }

    pub fn get_id(&self) -> (r: &String)
        ensures
            r == &self.id,
    {
        &self.id
    }

    pub fn get_name(&self) -> (r: &String)
        ensures
            r == &self.name,
    {
        &self.name
    }

    pub fn get_description(&self) -> (r: &String)
        ensures
            r == &self.description,
    {
        &self.description
    }

    pub fn get_code(&self) -> (r: &String)
        ensures
            r == &self.code,
    {
        &self.code
    }

    pub fn get_user_id(&self) -> (r: &String)
        ensures
            r == &self.user_id,
    {
        &self.user_id
    }
}

impl Clone for Class {
    /// A cloned class equals the original.
    fn clone(&self) -> (r: Self)
        ensures
            r == *self,
    {
        Class {
            id: self.id.clone(),
            code: self.code.clone(),
            name: self.name.clone(),
            description: self.description.clone(),
            user_id: self.user_id.clone(),
        }
    }
}

/// An authenticated principal; may act as teacher and as student.
#[derive(Debug)]
pub struct User {
    pub id: String,
    pub name: String,
    pub avatar_url: String,
}

impl User {
    pub fn new(id: &str, name: &str, avatar_url: &str) -> (r: User)
        ensures
            r.id@ == id@,
            r.name@ == name@,
            r.avatar_url@ == avatar_url@,
    {
        User {
            id: id.to_owned(),
            name: name.to_owned(),
            avatar_url: avatar_url.to_owned(),
        }
    }

    pub fn new_with_id(id: &str, name: &str, avatar_url: &str) -> (r: User)
        ensures
            r.id@ == id@,
            r.name@ == name@,
            r.avatar_url@ == avatar_url@,
    {
        User {
            id: id.to_owned(),
            name: name.to_owned(),
            avatar_url: avatar_url.to_owned(),
        }
    }

    pub fn get_id(&self) -> (r: &String)
        ensures
            r == &self.id,
    {
        &self.id
    }

    pub fn get_name(&self) -> (r: &String)
        ensures
            r == &self.name,
    {
        &self.name
    }

    pub fn get_avatar_url(&self) -> (r: &String)
        ensures
            r == &self.avatar_url,
    {
        &self.avatar_url
    }
}

impl Clone for User {
    /// A cloned user equals the original.
    fn clone(&self) -> (r: Self)
        ensures
            r == *self,
    {
        User {
            id: self.id.clone(),
            name: self.name.clone(),
            avatar_url: self.avatar_url.clone(),
        }
    }
}

} // verus!
