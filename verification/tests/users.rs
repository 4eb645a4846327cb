use chat::user::{hash_password, verify_password};
use chat::{CreateUser, ErrorKind, SignInUser, SignupProgress, SignupStep, User, Workspace};

#[test]
fn hash_and_verify_password_should_work() {
    let password = "123456";
    let password_hash = hash_password(password).unwrap();
    assert_eq!(password_hash.len(), 97);
    assert!(password_hash.starts_with("$argon2id$v=19$m=19456,t=2,p=1$"));
    assert!(verify_password(password, &password_hash).unwrap());
}

#[test]
fn wrong_password_is_refused() {
    let h = hash_password("right").unwrap();
    assert!(!verify_password("wrong", &h).unwrap());
}

#[test]
fn unreadable_hash_is_an_error() {
    let e = verify_password("x", "not a hash").unwrap_err();
    assert_eq!(e.kind(), ErrorKind::PasswordHashing);
    assert_eq!(e.status_code(), 422);
}

fn user(hash: Option<String>) -> User {
    User {
        id: 1,
        ws_id: 1,
        fullname: "test".to_string(),
        email: "test@example.com".to_string(),
        password_hash: hash,
        created_at: "2024-01-01T00:00:00Z".to_string(),
    }
}

#[test]
fn sign_in_cases() {
    let h = hash_password("123456").unwrap();
    let input = SignInUser::new("test@example.com", "123456");
    assert!(input.sign_in(None).unwrap().is_none());
    let found = input.sign_in(Some(user(Some(h.clone())))).unwrap().unwrap();
    assert_eq!(found.id, 1);
    assert!(found.password_hash.is_none());
    let wrong = SignInUser::new("test@example.com", "654321");
    assert!(wrong.sign_in(Some(user(Some(h)))).unwrap().is_none());
    let e = input.sign_in(Some(user(None))).unwrap_err();
    assert_eq!(e.kind(), ErrorKind::PasswordHashing);
}

#[test]
fn signup_steps_for_a_new_workspace() {
    let input = CreateUser::new("test", "none", "test@example.com", "123456");
    let mut p = SignupProgress::start();
    assert!(matches!(input.next_step(&p), SignupStep::LookUpEmail));
    p.email_taken = Some(false);
    assert!(matches!(input.next_step(&p), SignupStep::LookUpWorkspace));
    p.workspace_missing = Some(true);
    assert!(matches!(input.next_step(&p), SignupStep::CreateWorkspace));
    p.workspace = Some(Workspace { id: 3, name: "none".to_string(), owner_id: 0, created_at: String::new() });
    let hash = match input.next_step(&p) {
        SignupStep::InsertUser { ws_id, password_hash } => {
            assert_eq!(ws_id, 3);
            password_hash
        }
        other => panic!("unexpected {:?}", other),
    };
    assert!(verify_password("123456", &hash).unwrap());
    p.user = Some(user(None));
    match input.next_step(&p) {
        SignupStep::SetOwner { ws_id, user_id } => {
            assert_eq!(ws_id, 3);
            assert_eq!(user_id, 1);
        }
        other => panic!("unexpected {:?}", other),
    }
    p.owner_set = true;
    assert!(matches!(input.next_step(&p), SignupStep::Done));
}

#[test]
fn signup_with_taken_email_is_refused() {
    let input = CreateUser::new("user1", "Workspace 1", "user1@example.com", "testpassword");
    let mut p = SignupProgress::start();
    p.email_taken = Some(true);
    match input.next_step(&p) {
        SignupStep::Fail(e) => {
            assert_eq!(e.message(), "User already exists: user1@example.com");
            assert_eq!(e.status_code(), 409);
        }
        other => panic!("unexpected {:?}", other),
    }
}

#[test]
fn signup_into_owned_workspace_is_done_after_insert() {
    let input = CreateUser::new("a", "w", "a@b.c", "pw");
    let mut p = SignupProgress::start();
    p.email_taken = Some(false);
    p.workspace = Some(Workspace { id: 1, name: "w".to_string(), owner_id: 5, created_at: String::new() });
    p.user = Some(user(None));
    assert!(matches!(input.next_step(&p), SignupStep::Done));
}
