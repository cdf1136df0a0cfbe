use examroom::account::{
    access_token_cookie, generate_github_url, AuthState, Env, GithubUserResponse,
};
use examroom::ids::generate_id;
use examroom::model::{Answer, Class, Exam, Question, StudentAnswer, User};

#[test]
fn auth_state_carries_the_principal() {
    let a = AuthState::new("u1");
    assert_eq!(a.get_user_id(), "u1");
    let b = a.clone();
    assert_eq!(b.get_user_id(), "u1");
}

#[test]
fn github_response_maps_to_user() {
    let g = GithubUserResponse {
        id: "42".to_string(),
        name: "Grace".to_string(),
        avatar_url: "http://avatars/42".to_string(),
    };
    assert_eq!(g.get_id(), "42");
    assert_eq!(g.get_name(), "Grace");
    assert_eq!(g.get_avatar_url(), "http://avatars/42");
    let u = g.into_user();
    assert_eq!(u.get_id(), "42");
    assert_eq!(u.get_name(), "Grace");
    assert_eq!(u.get_avatar_url(), "http://avatars/42");
}

#[test]
fn env_holds_configuration_and_fixed_scope() {
    let env = Env::new("cid", "http://localhost/oauth", "SECRET-REDACTED");
    assert_eq!(env.github_client_id(), "cid");
    assert_eq!(env.github_redirect_uri(), "http://localhost/oauth");
    assert_eq!(env.github_client_secret(), "SECRET-REDACTED");
    assert_eq!(env.github_scope(), "user:email");
}

#[test]
fn authorization_url_is_assembled_from_the_env() {
    let env = Env::new("cid", "http://localhost/oauth", "SECRET-REDACTED");
    let url = generate_github_url(&env);
    assert_eq!(
        url,
        "https://github.com/login/oauth/authorize?client_id=cid&redirect_uri=http://localhost/oauth&scope=user:email"
    );
}

#[test]
fn cookie_wraps_the_token() {
    assert_eq!(access_token_cookie("tok"), "access_token=tok; SameSite=Lax");
}

#[test]
fn generated_ids_are_non_empty() {
    assert!(!generate_id().is_empty());
}

#[test]
fn exam_constructors_and_accessors_round_trip() {
    let q = Question::new_with_id("q1", "Two plus two?", "e1", Vec::new());
    let mut e = Exam::new_with_id("e1", "Midterm", &1000, &2000, "c1", vec![q]);
    assert_eq!(e.get_id(), "e1");
    assert_eq!(e.get_name(), "Midterm");
    assert_eq!(*e.get_start_date(), 1000);
    assert_eq!(*e.get_end_date(), 2000);
    assert_eq!(e.get_class_id(), "c1");
    assert_eq!(e.get_questions().len(), 1);
    e.set_questions(Vec::new());
    assert_eq!(e.get_questions().len(), 0);
    let fresh = Exam::new("Final", &3000, &4000, "c1", Vec::new());
    assert_eq!(fresh.get_name(), "Final");
}

#[test]
fn question_constructors_and_accessors_round_trip() {
    let a = Answer::new_with_id("a1", "four", &true, "q1");
    let mut q = Question::new_with_id("q1", "Two plus two?", "e1", vec![a]);
    assert_eq!(q.get_id(), "q1");
    assert_eq!(q.get_question(), "Two plus two?");
    assert_eq!(q.get_exam_id(), "e1");
    assert_eq!(q.get_answers().len(), 1);
    q.set_answers(Vec::new());
    assert_eq!(q.get_answers().len(), 0);
    let fresh = Question::new("Capital of France?", "e1", Vec::new());
    assert_eq!(fresh.get_question(), "Capital of France?");
}

#[test]
fn answer_constructors_and_accessors_round_trip() {
    let a = Answer::new_with_id("a1", "four", &true, "q1");
    assert_eq!(a.get_id(), "a1");
    assert_eq!(a.get_answer(), "four");
    assert!(a.is_correct());
    assert_eq!(a.get_question_id(), "q1");
    let fresh = Answer::new("five", &false, "q1");
    assert!(!fresh.is_correct());
}

#[test]
fn student_answer_accessors_and_stamps() {
    let mut r = StudentAnswer::new("s1", "q1", "a1", Some(10), Some(20));
    assert_eq!(r.get_student_id(), "s1");
    assert_eq!(r.get_question_id(), "q1");
    assert_eq!(r.get_answer_id(), "a1");
    assert_eq!(r.get_created_at(), Some(10));
    assert_eq!(r.get_updated_at(), Some(20));
    r.set_created_at(Some(11));
    r.set_updated_at(Some(21));
    assert_eq!(r.get_created_at(), Some(11));
    assert_eq!(r.get_updated_at(), Some(21));
    let other = StudentAnswer::new_with_id("s1", "q1", "a2", None, None);
    assert_eq!(other.get_answer_id(), "a2");
}

#[test]
fn class_and_user_accessors_round_trip() {
    let c = Class::new_with_id("c1", "alg", "Algebra", "letters", "t1");
    assert_eq!(c.get_id(), "c1");
    assert_eq!(c.get_code(), "alg");
    assert_eq!(c.get_name(), "Algebra");
    assert_eq!(c.get_description(), "letters");
    assert_eq!(c.get_user_id(), "t1");
    let fresh = Class::new("geo", "Geometry", "shapes", "t2");
    assert_eq!(fresh.get_code(), "geo");
    let u = User::new_with_id("u1", "Grace", "http://avatars/u1");
    assert_eq!(u.get_id(), "u1");
    assert_eq!(u.get_name(), "Grace");
    assert_eq!(u.get_avatar_url(), "http://avatars/u1");
}
