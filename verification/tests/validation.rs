use examroom::errors::ValidationRule;
use examroom::model::{Answer, Exam, Question};
use examroom::params::{
    CreateAnswerControllerParams, CreateClassControllerParams, CreateExamControllerParams,
    CreateQuestionControllerParams, EnrollClassControllerParams,
};
use examroom::validate::validate_exam;

fn question(qid: &str, text: &str, answers: Vec<Answer>) -> Question {
    Question::new_with_id(qid, text, "e1", answers)
}

fn answer(aid: &str, text: &str, correct: bool) -> Answer {
    Answer::new_with_id(aid, text, &correct, "q1")
}

fn valid_exam() -> Exam {
    let q1 = question("q1", "Two plus two?", vec![
        answer("a1", "four", true),
        answer("a2", "five", false),
    ]);
    let q2 = question("q2", "Capital of France?", vec![
        answer("b1", "Paris", true),
        answer("b2", "Lyon", false),
    ]);
    Exam::new_with_id("e1", "Midterm", &1000, &2000, "c1", vec![q1, q2])
}

#[test]
fn accepts_well_formed_exam() {
    assert!(validate_exam(&valid_exam()).is_ok());
}

#[test]
fn rejects_empty_name() {
    let mut e = valid_exam();
    e.name = String::new();
    assert_eq!(validate_exam(&e), Err(ValidationRule::EmptyName));
}

#[test]
fn rejects_exam_without_questions() {
    let mut e = valid_exam();
    e.set_questions(Vec::new());
    assert_eq!(validate_exam(&e), Err(ValidationRule::NoQuestions));
}

#[test]
fn rejects_empty_question_text() {
    let mut e = valid_exam();
    e.questions[1].question = String::new();
    assert_eq!(validate_exam(&e), Err(ValidationRule::EmptyQuestionText));
}

#[test]
fn rejects_question_without_answers() {
    let mut e = valid_exam();
    e.questions[0].set_answers(Vec::new());
    assert_eq!(validate_exam(&e), Err(ValidationRule::NoAnswers));
}

#[test]
fn rejects_empty_answer_text() {
    let mut e = valid_exam();
    e.questions[0].answers[1].answer = String::new();
    assert_eq!(validate_exam(&e), Err(ValidationRule::EmptyAnswerText));
}

#[test]
fn rejects_question_with_no_correct_answer() {
    let mut e = valid_exam();
    e.questions[0].answers[0].is_correct = false;
    assert_eq!(validate_exam(&e), Err(ValidationRule::NoSingleCorrectAnswer));
}

#[test]
fn rejects_question_with_two_correct_answers() {
    let mut e = valid_exam();
    e.questions[1].answers[1].is_correct = true;
    assert_eq!(validate_exam(&e), Err(ValidationRule::NoSingleCorrectAnswer));
}

#[test]
fn name_violation_comes_first() {
    let mut e = valid_exam();
    e.name = String::new();
    e.questions[0].answers[0].is_correct = false;
    assert_eq!(validate_exam(&e), Err(ValidationRule::EmptyName));
}

#[test]
fn answer_params_require_text() {
    let good = CreateAnswerControllerParams { answer: "four".to_string(), is_correct: true };
    assert!(good.validate().is_ok());
    let bad = CreateAnswerControllerParams { answer: String::new(), is_correct: false };
    assert_eq!(bad.validate().unwrap_err(), "Answer cannot be empty");
}

#[test]
fn question_params_require_text_and_answers() {
    let bad_q = CreateQuestionControllerParams { question: String::new(), answers: Vec::new() };
    assert_eq!(bad_q.validate().unwrap_err(), "Question cannot be empty");
    let bad_a = CreateQuestionControllerParams {
        question: "Two plus two?".to_string(),
        answers: vec![CreateAnswerControllerParams { answer: String::new(), is_correct: true }],
    };
    assert_eq!(bad_a.validate().unwrap_err(), "Answer cannot be empty");
}

#[test]
fn exam_params_report_first_violation() {
    let bad_name = CreateExamControllerParams {
        name: String::new(),
        start_date: 1000,
        end_date: 2000,
        questions: Vec::new(),
    };
    assert_eq!(bad_name.validate().unwrap_err(), "Exam name cannot be empty");
    let bad_question = CreateExamControllerParams {
        name: "Midterm".to_string(),
        start_date: 1000,
        end_date: 2000,
        questions: vec![
            CreateQuestionControllerParams {
                question: "Fine".to_string(),
                answers: vec![CreateAnswerControllerParams {
                    answer: "ok".to_string(),
                    is_correct: true,
                }],
            },
            CreateQuestionControllerParams { question: String::new(), answers: Vec::new() },
        ],
    };
    assert_eq!(bad_question.validate().unwrap_err(), "Question cannot be empty");
    let ok = CreateExamControllerParams {
        name: "Midterm".to_string(),
        start_date: 1000,
        end_date: 2000,
        questions: Vec::new(),
    };
    assert!(ok.validate().is_ok());
}

#[test]
fn enroll_params_require_class() {
    let bad = EnrollClassControllerParams { class_id: String::new() };
    assert_eq!(bad.validate().unwrap_err(), "code is required");
    let good = EnrollClassControllerParams { class_id: "c1".to_string() };
    assert!(good.validate().is_ok());
}

#[test]
fn class_params_report_first_empty_field() {
    let bad_code = CreateClassControllerParams {
        code: String::new(),
        name: "Algebra".to_string(),
        description: "d".to_string(),
    };
    assert_eq!(bad_code.validate().unwrap_err(), "code is required");
    let bad_name = CreateClassControllerParams {
        code: "alg".to_string(),
        name: String::new(),
        description: "d".to_string(),
    };
    assert_eq!(bad_name.validate().unwrap_err(), "name is required");
    let bad_desc = CreateClassControllerParams {
        code: "alg".to_string(),
        name: "Algebra".to_string(),
        description: String::new(),
    };
    assert_eq!(bad_desc.validate().unwrap_err(), "description is required");
}
