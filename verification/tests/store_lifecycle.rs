use examroom::errors::{ExamError, ValidationRule};
use examroom::model::{Answer, Class, Exam, Question};
use examroom::store::Store;

fn one_question(qid: &str, eid: &str, aid_correct: &str, aid_wrong: &str) -> Question {
    let answers = vec![
        Answer::new_with_id(aid_correct, "right", &true, qid),
        Answer::new_with_id(aid_wrong, "wrong", &false, qid),
    ];
    Question::new_with_id(qid, "A question?", eid, answers)
}

fn sample_exam(eid: &str, start: i64, end: i64) -> Exam {
    let questions = vec![
        one_question("q1", eid, "a1", "a2"),
        one_question("q2", eid, "b1", "b2"),
    ];
    Exam::new_with_id(eid, "Midterm", &start, &end, "c1", questions)
}

fn store_with_class() -> Store {
    let mut s = Store::new();
    s.create_class(Class::new_with_id("c1", "alg", "Algebra", "letters", "t1")).unwrap();
    s
}

#[test]
fn create_exam_succeeds_for_owner() {
    let mut s = store_with_class();
    assert_eq!(s.save_exam(sample_exam("e1", 1000, 2000), "t1", 500), Ok(()));
    assert_eq!(s.exams.len(), 1);
    assert_eq!(s.exams[0].id, "e1");
    assert_eq!(s.exams[0].questions.len(), 2);
}

#[test]
fn create_exam_rejects_non_owner() {
    let mut s = store_with_class();
    assert_eq!(s.save_exam(sample_exam("e1", 1000, 2000), "t2", 500), Err(ExamError::Unauthorized));
    assert_eq!(s.exams.len(), 0);
}

#[test]
fn create_exam_rejects_start_in_past() {
    let mut s = store_with_class();
    let now = 5000;
    let e = sample_exam("e1", now - 1000, now + 1000);
    assert_eq!(s.save_exam(e, "t1", now), Err(ExamError::InvalidSchedule));
    assert_eq!(s.exams.len(), 0);
}

#[test]
fn create_exam_rejects_end_before_start() {
    let mut s = store_with_class();
    let e = sample_exam("e1", 6000, 5000);
    assert_eq!(s.save_exam(e, "t1", 1000), Err(ExamError::InvalidSchedule));
    assert_eq!(s.exams.len(), 0);
}

#[test]
fn create_exam_rejects_malformed_aggregate() {
    let mut s = store_with_class();
    let mut e = sample_exam("e1", 1000, 2000);
    e.questions[0].answers[0].is_correct = false;
    assert_eq!(
        s.save_exam(e, "t1", 500),
        Err(ExamError::Validation(ValidationRule::NoSingleCorrectAnswer))
    );
}

#[test]
fn create_exam_rejects_duplicate_identity() {
    let mut s = store_with_class();
    assert_eq!(s.save_exam(sample_exam("e1", 1000, 2000), "t1", 500), Ok(()));
    assert_eq!(
        s.save_exam(sample_exam("e1", 1000, 2000), "t1", 500),
        Err(ExamError::PersistenceFailure)
    );
    assert_eq!(s.exams.len(), 1);
}

#[test]
fn edit_rewrites_nested_entities_and_keeps_identity() {
    let mut s = store_with_class();
    assert_eq!(s.save_exam(sample_exam("e1", 1000, 2000), "t1", 500), Ok(()));
    let mut replacement = sample_exam("e1", 1200, 2200);
    replacement.name = "Midterm, take two".to_string();
    replacement.set_questions(vec![one_question("q9", "e1", "z1", "z2")]);
    assert_eq!(s.edit_exam(replacement, "t1", 800), Ok(()));
    assert_eq!(s.exams.len(), 1);
    assert_eq!(s.exams[0].id, "e1");
    assert_eq!(s.exams[0].name, "Midterm, take two");
    assert_eq!(s.exams[0].class_id, "c1");
    assert_eq!(s.exams[0].start_date, 1200);
    assert_eq!(s.exams[0].questions.len(), 1);
    assert_eq!(s.exams[0].questions[0].id, "q9");
}

#[test]
fn edit_fails_once_stored_start_has_passed() {
    let mut s = store_with_class();
    assert_eq!(s.save_exam(sample_exam("e1", 1000, 2000), "t1", 500), Ok(()));
    let replacement = sample_exam("e1", 5000, 6000);
    assert_eq!(s.edit_exam(replacement, "t1", 1000), Err(ExamError::ExamAlreadyStarted));
    assert_eq!(s.exams[0].start_date, 1000);
}

#[test]
fn edit_gates_on_stored_start_not_incoming() {
    let mut s = store_with_class();
    assert_eq!(s.save_exam(sample_exam("e1", 1000, 2000), "t1", 500), Ok(()));
    // The incoming payload claims a future start; the stored one has passed.
    let replacement = sample_exam("e1", 9000, 9900);
    assert_eq!(s.edit_exam(replacement, "t1", 3000), Err(ExamError::ExamAlreadyStarted));
}

#[test]
fn edit_fails_for_non_owner() {
    let mut s = store_with_class();
    assert_eq!(s.save_exam(sample_exam("e1", 1000, 2000), "t1", 500), Ok(()));
    let replacement = sample_exam("e1", 1200, 2200);
    assert_eq!(s.edit_exam(replacement, "t2", 800), Err(ExamError::Unauthorized));
}

#[test]
fn edit_fails_for_missing_exam() {
    let mut s = store_with_class();
    let replacement = sample_exam("e9", 1200, 2200);
    assert_eq!(s.edit_exam(replacement, "t1", 800), Err(ExamError::NotFound));
}

#[test]
fn delete_removes_exam_before_start() {
    let mut s = store_with_class();
    assert_eq!(s.save_exam(sample_exam("e1", 1000, 2000), "t1", 500), Ok(()));
    assert_eq!(s.delete_exam("e1", "t1", 800), Ok(()));
    assert_eq!(s.exams.len(), 0);
}

#[test]
fn delete_fails_once_started() {
    let mut s = store_with_class();
    assert_eq!(s.save_exam(sample_exam("e1", 1000, 2000), "t1", 500), Ok(()));
    assert_eq!(s.delete_exam("e1", "t1", 1000), Err(ExamError::ExamAlreadyStarted));
    assert_eq!(s.exams.len(), 1);
}

#[test]
fn delete_fails_for_other_teacher() {
    let mut s = store_with_class();
    // A second teacher with a class of their own.
    s.create_class(Class::new_with_id("c2", "geo", "Geometry", "shapes", "t2")).unwrap();
    assert_eq!(s.save_exam(sample_exam("e1", 1000, 2000), "t1", 500), Ok(()));
    assert_eq!(s.delete_exam("e1", "t2", 800), Err(ExamError::Unauthorized));
    assert_eq!(s.exams.len(), 1);
}

#[test]
fn delete_fails_for_missing_exam() {
    let mut s = store_with_class();
    assert_eq!(s.delete_exam("e9", "t1", 800), Err(ExamError::NotFound));
}

#[test]
fn exam_for_edit_is_gated_like_an_edit() {
    let mut s = store_with_class();
    assert_eq!(s.save_exam(sample_exam("e1", 1000, 2000), "t1", 500), Ok(()));
    let e = s.get_exam_for_edit("e1", "t1", 800).unwrap();
    assert_eq!(e.id, "e1");
    assert_eq!(e.questions.len(), 2);
    assert!(matches!(s.get_exam_for_edit("e1", "t2", 800), Err(ExamError::Unauthorized)));
    assert!(matches!(s.get_exam_for_edit("e1", "t1", 1000), Err(ExamError::ExamAlreadyStarted)));
    assert!(matches!(s.get_exam_for_edit("e9", "t1", 800), Err(ExamError::NotFound)));
}

#[test]
fn get_with_relations_returns_stored_tree() {
    let mut s = store_with_class();
    assert_eq!(s.save_exam(sample_exam("e1", 1000, 2000), "t1", 500), Ok(()));
    let e = s.get_with_relations("e1").unwrap();
    assert_eq!(e.id, "e1");
    assert_eq!(e.name, "Midterm");
    assert_eq!(e.questions.len(), 2);
    assert_eq!(e.questions[0].answers.len(), 2);
    assert!(s.get_with_relations("e9").is_none());
}
