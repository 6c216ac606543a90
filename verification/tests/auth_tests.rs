use web_chat_app::activate::{check_activation, ActivationError};
use web_chat_app::auth::{
    check_display_name, check_login, check_logout, check_signup, hash_for_storage,
    lookup_key_is_email, AuthError, ChangeDisplayNameForm, CreateUserForm, FindFriendForm,
    LoginForm, LoginOutcome, SignupRejection, User,
};
use web_chat_app::codec::{issue, VerifyError};
use web_chat_app::page::BaseInfo;
use web_chat_app::username::Username;

fn form(username: &str, email: &str, password: &str, confirm: &str) -> CreateUserForm {
    CreateUserForm {
        username: String::from(username),
        email: String::from(email),
        password: String::from(password),
        confirm_password: String::from(confirm),
    }
}

#[test]
fn signup_rejects_in_fixed_order() {
    assert_eq!(
        check_signup(&form("a", "a@example.com", "pw1", "pw2"), true, true).unwrap_err(),
        SignupRejection::PasswordMismatch
    );
    assert_eq!(
        check_signup(&form("a", "not-an-email", "pw", "pw"), true, true).unwrap_err(),
        SignupRejection::InvalidEmail
    );
    assert_eq!(
        check_signup(&form("a", "a@example.com", "pw", "pw"), true, true).unwrap_err(),
        SignupRejection::EmailTaken
    );
    assert_eq!(
        check_signup(&form("a", "a@example.com", "pw", "pw"), false, true).unwrap_err(),
        SignupRejection::UsernameTaken
    );
    assert_eq!(check_signup(&form("a", "a@example.com", "pw", "pw"), false, false), Ok(()));
}

#[test]
fn login_identifier_kind_follows_email_syntax() {
    assert!(lookup_key_is_email(&String::from("alice@example.com")));
    assert!(!lookup_key_is_email(&String::from("alice")));
}

#[test]
fn logout_requires_the_session_cookie() {
    assert_eq!(check_logout(Some(String::from("tok"))), Ok(String::from("tok")));
    assert_eq!(check_logout(None), Err(AuthError::Internal));
}

#[test]
fn form_and_record_types_carry_their_fields() {
    let login = LoginForm { username: String::from("alice"), password: String::from("pw") };
    assert_eq!(login.username, "alice");
    let search = FindFriendForm { search: String::from("bo") };
    assert_eq!(search.search, "bo");
    let user = User {
        id: Some(1),
        username: String::from("alice"),
        display_name: None,
        email: String::from("a@example.com"),
        password_hash: String::from("x"),
        active_tokens: vec![String::from("tok")],
    };
    assert_eq!(user.active_tokens.len(), 1);
}

#[test]
fn login_with_unknown_account_is_wrong_credentials() {
    assert_eq!(
        check_login(None, &String::from("pw")).unwrap(),
        LoginOutcome::WrongCredentials
    );
}

#[test]
fn signup_hash_then_login_succeeds_and_rejects_wrong_password() {
    let hash = hash_for_storage(&String::from("hunter2")).unwrap();
    assert_eq!(
        check_login(Some((5, hash.clone())), &String::from("hunter2")).unwrap(),
        LoginOutcome::Success { user_id: 5 }
    );
    assert_eq!(
        check_login(Some((5, hash)), &String::from("hunter3")).unwrap(),
        LoginOutcome::WrongCredentials
    );
}

#[test]
fn malformed_stored_hash_is_an_internal_error() {
    assert_eq!(
        check_login(Some((5, String::from("not-a-bcrypt-hash"))), &String::from("pw"))
            .unwrap_err(),
        AuthError::Internal
    );
}

#[test]
fn empty_display_name_is_rejected() {
    assert!(!check_display_name(&ChangeDisplayNameForm { display_name: String::new() }));
    assert!(check_display_name(&ChangeDisplayNameForm { display_name: String::from("Alice") }));
}

#[test]
fn username_falls_back_to_handle() {
    let u = Username::new(String::from("alice"), None);
    assert_eq!(u.username(), "alice");
    assert_eq!(u.display_name(), "alice");
    let v = Username::new(String::from("alice"), Some(String::from("Alice A")));
    assert_eq!(v.display_name(), "Alice A");
}

#[test]
fn base_info_falls_back_to_handle() {
    let b = BaseInfo::new(1, String::from("alice"), None);
    assert_eq!(b.display_name, "alice");
    let c = BaseInfo::new(1, String::from("alice"), Some(String::from("Alice A")));
    assert_eq!(c.display_name, "Alice A");
    assert_eq!(c.username, "alice");
    assert_eq!(c.user_id, 1);
}

const NOW: u64 = 1_700_000_000;

fn key() -> Vec<u8> {
    b"test-secret-key-0123456789".to_vec()
}

#[test]
fn activation_link_for_another_user_is_rejected() {
    let token = issue(&String::from("alice"), NOW, 3600, &key()).unwrap();
    assert_eq!(
        check_activation(&String::from("bob"), &String::from("alice"), &token, NOW, &key())
            .unwrap_err(),
        ActivationError::WrongUser
    );
}

#[test]
fn fresh_activation_link_is_accepted() {
    let token = issue(&String::from("alice"), NOW, 3600, &key()).unwrap();
    assert_eq!(
        check_activation(&String::from("alice"), &String::from("alice"), &token, NOW, &key()),
        Ok(())
    );
}

#[test]
fn stale_activation_link_is_rejected_as_expired() {
    let token = issue(&String::from("alice"), NOW, 3600, &key()).unwrap();
    assert_eq!(
        check_activation(
            &String::from("alice"),
            &String::from("alice"),
            &token,
            NOW + 3601,
            &key()
        )
        .unwrap_err(),
        ActivationError::InvalidToken(VerifyError::Expired)
    );
}
