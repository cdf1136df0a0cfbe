use examroom::errors::ClassError;
use examroom::model::{Answer, Class, Exam, Question, User};
use examroom::store::Store;

fn seeded_store() -> Store {
    let mut s = Store::new();
    s.create_class(Class::new_with_id("c1", "alg", "Algebra", "letters", "t1")).unwrap();
    s.create_class(Class::new_with_id("c2", "geo", "Geometry", "shapes", "t2")).unwrap();
    s.save_user(User::new("s1", "Student One", "http://avatars/s1"));
    s.enroll_student("s1", "c1").unwrap();
    s
}

fn exam_for(eid: &str, cid: &str) -> Exam {
    let answers = vec![
        Answer::new_with_id("a1", "right", &true, "q1"),
        Answer::new_with_id("a2", "wrong", &false, "q1"),
    ];
    let q = Question::new_with_id("q1", "A question?", eid, answers);
    Exam::new_with_id(eid, "Midterm", &1000, &2000, cid, vec![q])
}

#[test]
fn class_codes_are_unique() {
    let mut s = seeded_store();
    let dup = Class::new_with_id("c3", "alg", "Algebra again", "letters", "t1");
    assert_eq!(s.create_class(dup), Err(ClassError::CodeInUse));
    assert_eq!(s.classes.len(), 2);
}

#[test]
fn enrollment_requires_existing_user_and_class() {
    let mut s = seeded_store();
    assert_eq!(s.enroll_student("ghost", "c1"), Err(ClassError::NotFound));
    assert_eq!(s.enroll_student("s1", "nowhere"), Err(ClassError::NotFound));
}

#[test]
fn teacher_and_student_predicates_are_independent() {
    let s = seeded_store();
    assert!(s.is_teacher("t1", "c1"));
    assert!(!s.is_teacher("t1", "c2"));
    assert!(!s.is_teacher("s1", "c1"));
    assert!(s.is_student("s1", "c1"));
    assert!(!s.is_student("s1", "c2"));
    assert!(!s.is_student("t1", "c1"));
}

#[test]
fn save_user_upserts_by_identity() {
    let mut s = Store::new();
    s.save_user(User::new("u1", "Before", "http://avatars/old"));
    s.save_user(User::new("u1", "After", "http://avatars/new"));
    assert_eq!(s.users.len(), 1);
    assert_eq!(s.users[0].name, "After");
    assert_eq!(s.users[0].avatar_url, "http://avatars/new");
    let got = s.get_user("u1").unwrap();
    assert_eq!(got.name, "After");
    assert!(s.get_user("u9").is_none());
}

#[test]
fn class_point_reads_resolve_by_id_and_code() {
    let s = seeded_store();
    assert_eq!(s.get_class("c1").unwrap().name, "Algebra");
    assert!(s.get_class("c9").is_none());
    assert_eq!(s.get_by_code("geo").unwrap().id, "c2");
    assert!(s.get_by_code("none").is_none());
}

#[test]
fn exams_are_listed_by_class_without_relations() {
    let mut s = seeded_store();
    s.save_exam(exam_for("e1", "c1"), "t1", 500).unwrap();
    s.save_exam(exam_for("e2", "c2"), "t2", 500).unwrap();
    let listed = s.list_exam_by_class_without_relations("c1");
    assert_eq!(listed.len(), 1);
    assert_eq!(listed[0].id, "e1");
    assert_eq!(listed[0].name, "Midterm");
    assert_eq!(listed[0].questions.len(), 0);
}

#[test]
fn teacher_dashboard_counts_enrollments() {
    let mut s = seeded_store();
    s.save_user(User::new("s2", "Student Two", "http://avatars/s2"));
    s.enroll_student("s2", "c1").unwrap();
    let rows = s.get_by_user_id_with_student_count("t1");
    assert_eq!(rows.len(), 1);
    assert_eq!(rows[0].0.id, "c1");
    assert_eq!(rows[0].1, 2);
    let none = s.get_by_user_id_with_student_count("t9");
    assert_eq!(none.len(), 0);
}

#[test]
fn open_classes_exclude_enrolled_ones() {
    let s = seeded_store();
    let rows = s.get_by_user_where_is_not_enrolled_with_student_count("s1");
    assert_eq!(rows.len(), 1);
    assert_eq!(rows[0].0.id, "c2");
    assert_eq!(rows[0].1, 0);
}

#[test]
fn student_home_groups_exams_by_enrolled_class() {
    let mut s = seeded_store();
    s.save_exam(exam_for("e1", "c1"), "t1", 500).unwrap();
    s.save_exam(exam_for("e2", "c2"), "t2", 500).unwrap();
    let groups = s.list_exam_group_by_class_without_relations_by_student("s1");
    assert_eq!(groups.len(), 1);
    assert_eq!(groups[0].0.id, "c1");
    assert_eq!(groups[0].1.len(), 1);
    assert_eq!(groups[0].1[0].id, "e1");
    assert_eq!(groups[0].1[0].questions.len(), 0);
}

#[test]
fn enrollment_count_is_per_class() {
    let mut s = seeded_store();
    s.save_user(User::new("s2", "Student Two", "http://avatars/s2"));
    s.enroll_student("s2", "c1").unwrap();
    s.enroll_student("s2", "c2").unwrap();
    assert_eq!(s.count_enrollments("c1"), 2);
    assert_eq!(s.count_enrollments("c2"), 1);
    assert_eq!(s.count_enrollments("c9"), 0);
}
