use examroom::errors::ExamError;
use examroom::model::{Answer, Class, Exam, Question, User};
use examroom::store::Store;

fn one_question(qid: &str, eid: &str, aid_correct: &str, aid_wrong: &str) -> Question {
    let answers = vec![
        Answer::new_with_id(aid_correct, "right", &true, qid),
        Answer::new_with_id(aid_wrong, "wrong", &false, qid),
    ];
    Question::new_with_id(qid, "A question?", eid, answers)
}

/// A store with class c1 (teacher t1), enrolled student s1, and exam e1
/// open from 1000 through 2000, holding q1 (a1 correct, a2 wrong) and q2
/// (b1 correct, b2 wrong).
fn seeded_store() -> Store {
    let mut s = Store::new();
    s.create_class(Class::new_with_id("c1", "alg", "Algebra", "letters", "t1")).unwrap();
    s.save_user(User::new("s1", "Student One", "http://avatars/s1"));
    s.enroll_student("s1", "c1").unwrap();
    let questions = vec![
        one_question("q1", "e1", "a1", "a2"),
        one_question("q2", "e1", "b1", "b2"),
    ];
    let exam = Exam::new_with_id("e1", "Midterm", &1000, &2000, "c1", questions);
    s.save_exam(exam, "t1", 500).unwrap();
    s
}

#[test]
fn first_submission_inserts_a_stamped_row() {
    let mut s = seeded_store();
    assert_eq!(s.save_answer("e1", "s1", "q1", "a1", 1200), Ok(()));
    assert_eq!(s.student_answers.len(), 1);
    let row = &s.student_answers[0];
    assert_eq!(row.student_id, "s1");
    assert_eq!(row.question_id, "q1");
    assert_eq!(row.answer_id, "a1");
    assert_eq!(row.created_at, Some(1200));
    assert_eq!(row.updated_at, Some(1200));
}

#[test]
fn resubmission_is_idempotent_and_keeps_created_at() {
    let mut s = seeded_store();
    assert_eq!(s.save_answer("e1", "s1", "q1", "a1", 1200), Ok(()));
    assert_eq!(s.save_answer("e1", "s1", "q1", "a1", 1300), Ok(()));
    assert_eq!(s.student_answers.len(), 1);
    let row = &s.student_answers[0];
    assert_eq!(row.answer_id, "a1");
    assert_eq!(row.created_at, Some(1200));
    assert_eq!(row.updated_at, Some(1300));
}

#[test]
fn resubmission_overwrites_chosen_answer() {
    let mut s = seeded_store();
    assert_eq!(s.save_answer("e1", "s1", "q1", "a1", 1200), Ok(()));
    assert_eq!(s.save_answer("e1", "s1", "q1", "a2", 1400), Ok(()));
    assert_eq!(s.student_answers.len(), 1);
    let row = &s.student_answers[0];
    assert_eq!(row.answer_id, "a2");
    assert_eq!(row.created_at, Some(1200));
    assert_eq!(row.updated_at, Some(1400));
}

#[test]
fn submissions_to_two_questions_make_two_rows() {
    let mut s = seeded_store();
    assert_eq!(s.save_answer("e1", "s1", "q1", "a1", 1200), Ok(()));
    assert_eq!(s.save_answer("e1", "s1", "q2", "b2", 1300), Ok(()));
    assert_eq!(s.student_answers.len(), 2);
}

#[test]
fn non_enrolled_student_is_refused_and_nothing_is_written() {
    let mut s = seeded_store();
    s.save_user(User::new("s2", "Student Two", "http://avatars/s2"));
    assert_eq!(s.save_answer("e1", "s2", "q1", "a1", 1200), Err(ExamError::Unauthorized));
    assert_eq!(s.student_answers.len(), 0);
}

#[test]
fn submission_before_start_is_refused() {
    let mut s = seeded_store();
    assert_eq!(s.save_answer("e1", "s1", "q1", "a1", 999), Err(ExamError::ExamNotOpen));
    assert_eq!(s.student_answers.len(), 0);
}

#[test]
fn submission_after_end_is_refused() {
    let mut s = seeded_store();
    assert_eq!(s.save_answer("e1", "s1", "q1", "a1", 2001), Err(ExamError::ExamNotOpen));
    assert_eq!(s.student_answers.len(), 0);
}

#[test]
fn submission_to_missing_exam_is_refused() {
    let mut s = seeded_store();
    assert_eq!(s.save_answer("e9", "s1", "q1", "a1", 1200), Err(ExamError::NotFound));
}

#[test]
fn submission_to_foreign_question_is_refused() {
    let mut s = seeded_store();
    assert_eq!(s.save_answer("e1", "s1", "q9", "a1", 1200), Err(ExamError::QuestionNotFound));
    assert_eq!(s.student_answers.len(), 0);
}

#[test]
fn submission_of_foreign_answer_is_refused() {
    let mut s = seeded_store();
    // b1 is an answer of q2, not of q1.
    assert_eq!(s.save_answer("e1", "s1", "q1", "b1", 1200), Err(ExamError::AnswerNotFound));
    assert_eq!(s.student_answers.len(), 0);
}

#[test]
fn student_view_returns_tree_and_own_choices() {
    let mut s = seeded_store();
    s.save_answer("e1", "s1", "q1", "a1", 1200).unwrap();
    s.save_answer("e1", "s1", "q2", "b2", 1300).unwrap();
    let (exam, chosen) = s.get_student_exam("e1", "s1").unwrap();
    assert_eq!(exam.id, "e1");
    assert_eq!(exam.questions.len(), 2);
    assert_eq!(chosen, vec!["a1".to_string(), "b2".to_string()]);
}

#[test]
fn student_view_requires_enrollment() {
    let mut s = seeded_store();
    s.save_user(User::new("s2", "Student Two", "http://avatars/s2"));
    assert!(matches!(s.get_student_exam("e1", "s2"), Err(ExamError::Unauthorized)));
    assert!(matches!(s.get_student_exam("e9", "s1"), Err(ExamError::NotFound)));
}

#[test]
fn result_is_withheld_until_closed() {
    let mut s = seeded_store();
    s.save_answer("e1", "s1", "q1", "a1", 1200).unwrap();
    assert!(matches!(s.get_exam_result("e1", "s1", 1500), Err(ExamError::ExamNotOpen)));
    assert!(matches!(s.get_exam_result("e1", "s1", 999), Err(ExamError::ExamNotOpen)));
    let (exam, chosen) = s.get_exam_result("e1", "s1", 2001).unwrap();
    assert_eq!(exam.id, "e1");
    assert_eq!(chosen, vec!["a1".to_string()]);
}

#[test]
fn answers_of_other_students_are_not_mixed_in() {
    let mut s = seeded_store();
    s.save_user(User::new("s2", "Student Two", "http://avatars/s2"));
    s.enroll_student("s2", "c1").unwrap();
    s.save_answer("e1", "s1", "q1", "a1", 1200).unwrap();
    s.save_answer("e1", "s2", "q1", "a2", 1250).unwrap();
    let chosen = s.get_student_answers("s1", "e1");
    assert_eq!(chosen, vec!["a1".to_string()]);
}
