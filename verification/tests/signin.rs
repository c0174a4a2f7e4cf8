use school_tasks::dto::{LocationData, SingDto};
use school_tasks::errors::SingUpError;
use school_tasks::signin::{check_password, extract_sing_data, is_valid_mark, sign_in_error, user_query};
use school_tasks::slots_component::SlotsComponent;
use school_tasks::tasks_component::TasksComponent;
use school_tasks::user::User;

fn user(password: &str) -> User {
    User::new(
        "ali".to_string(),
        password.to_string(),
        "Ali".to_string(),
        "Karimov".to_string(),
        7,
        12,
        "ali@example.com".to_string(),
        SlotsComponent::new("ali".to_string(), vec![]),
        vec![],
        TasksComponent::new("ali".to_string(), vec![]),
        LocationData { country: "UZ".to_string(), city: "Tashkent".to_string() },
    )
}

#[test]
fn both_headers_give_credentials() {
    let r = extract_sing_data(Some("ali".to_string()), Some("secret".to_string())).unwrap();
    assert_eq!(r.username, "ali");
    assert_eq!(r.password, "secret");
}

#[test]
fn missing_headers_are_named() {
    assert_eq!(extract_sing_data(None, None).err(), Some(SingUpError::NoHeaders));
    assert_eq!(extract_sing_data(None, Some("p".to_string())).err(), Some(SingUpError::NoUsernameHeader));
    assert_eq!(extract_sing_data(Some("u".to_string()), None).err(), Some(SingUpError::NoPasswordHeader));
}

#[test]
fn sign_in_errors() {
    assert_eq!(sign_in_error(true, false), SingUpError::NoUser);
    assert_eq!(sign_in_error(true, true), SingUpError::NoUser);
    assert_eq!(sign_in_error(false, true), SingUpError::UserIsNotActivated);
    assert_eq!(sign_in_error(false, false), SingUpError::WrongPassword);
}

#[test]
fn password_must_match() {
    let creds = SingDto { username: "ali".to_string(), password: "secret".to_string() };
    assert_eq!(check_password(Some(user("secret")), &creds).map(|u| u.username()), Some("ali".to_string()));
    assert!(check_password(Some(user("other")), &creds).is_none());
    assert!(check_password(None, &creds).is_none());
}

#[test]
fn marks_one_to_five() {
    assert!(!is_valid_mark(0));
    assert!(is_valid_mark(1));
    assert!(is_valid_mark(5));
    assert!(!is_valid_mark(6));
    assert!(!is_valid_mark(-1));
}

#[test]
fn user_queries() {
    let base = "select * from users join location_data on owner=username where username = $1 ";
    assert_eq!(user_query(None), format!("{};", base));
    assert_eq!(user_query(Some(true)), format!("{}and is_active=true;", base));
    assert_eq!(user_query(Some(false)), format!("{}and is_active=false;", base));
}
