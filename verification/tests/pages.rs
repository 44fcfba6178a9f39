use ifoundthephone::routes::pages::{ContextValue, Page, Redirect, Template};
use ifoundthephone::routes::route_structs::{
    AuthenticatedUser, DeviceFoundRequest, NewUserRequest, ReturningUserRequest,
};
use ifoundthephone::routes::{
    device_found, device_found_page, index, login, login_page, login_page_authenticated, logout,
    profile_page, profile_page_failure, sign_up, sign_up_page, unauthorized, DeviceFoundAction,
    DeviceFoundEvent, DeviceFoundState, LoginAction, LoginEvent, LoginState, LogoutPlan,
    SignUpAction, SignUpEvent, SignUpState,
};

fn text(key: &'static str, value: &str) -> (&'static str, ContextValue) {
    (key, ContextValue::Text(value.to_string()))
}

fn page(template: Template, context: Vec<(&'static str, ContextValue)>) -> Page {
    Page { template, context }
}

fn user() -> AuthenticatedUser {
    AuthenticatedUser {
        user_id: "Ab3dE5g".to_string(),
        session_id: "s-1".to_string(),
        email: "owner@example.com".to_string(),
    }
}

fn new_user(email: &str, password: &str, confirm: &str) -> NewUserRequest {
    NewUserRequest {
        email: email.to_string(),
        password: password.to_string(),
        confirm_password: confirm.to_string(),
    }
}

fn returning(email: &str, password: &str) -> ReturningUserRequest {
    ReturningUserRequest { email: email.to_string(), password: password.to_string() }
}

fn finder(message: &str) -> DeviceFoundRequest {
    DeviceFoundRequest {
        message: message.to_string(),
        email: String::new(),
        phone_number: String::new(),
    }
}

#[test]
fn template_names() {
    assert_eq!(Template::Index.name(), "index");
    assert_eq!(Template::Signup.name(), "signup");
    assert_eq!(Template::Login.name(), "login");
    assert_eq!(Template::DeviceFound.name(), "device_found");
    assert_eq!(Template::Profile.name(), "profile");
}

#[test]
fn static_pages() {
    assert_eq!(index(), page(Template::Index, vec![("isSignedIn", ContextValue::Flag(false))]));
    assert_eq!(sign_up_page(), page(Template::Signup, vec![]));
    assert_eq!(login_page(), page(Template::Login, vec![]));
}

#[test]
fn unauthorized_goes_to_login() {
    assert_eq!(unauthorized(), Redirect::LoginPage);
    assert_eq!(profile_page_failure("x".to_string()), Redirect::LoginPage);
}

#[test]
fn signed_in_login_page_goes_to_profile() {
    assert_eq!(login_page_authenticated(user()), Redirect::ProfilePage("Ab3dE5g".to_string()));
}

#[test]
fn sign_up_requires_email() {
    let r = sign_up(&new_user("", "pw", "pw"), SignUpState::Received, SignUpEvent::Start);
    assert_eq!(
        r,
        (
            SignUpState::Done,
            SignUpAction::Render(page(
                Template::Signup,
                vec![text("emailError", "email is required"), text("password", "pw")],
            )),
        )
    );
}

#[test]
fn sign_up_requires_password() {
    let r = sign_up(&new_user("a@b.c", "", ""), SignUpState::Received, SignUpEvent::Start);
    assert_eq!(
        r.1,
        SignUpAction::Render(page(
            Template::Signup,
            vec![text("email", "a@b.c"), text("passwordError", "password is required")],
        ))
    );
}

#[test]
fn sign_up_requires_confirmed_password() {
    let r = sign_up(&new_user("a@b.c", "pw1", "pw2"), SignUpState::Received, SignUpEvent::Start);
    assert_eq!(
        r.1,
        SignUpAction::Render(page(
            Template::Signup,
            vec![
                text("email", "a@b.c"),
                text("password", "pw1"),
                text("confirmPasswordError", "passwords don't match"),
            ],
        ))
    );
}

#[test]
fn sign_up_creates_account_then_signs_in() {
    let form = new_user("a@b.c", "pw", "pw");
    let r = sign_up(&form, SignUpState::Received, SignUpEvent::Start);
    assert_eq!(r, (SignUpState::CreatingAccount, SignUpAction::CreateAccount));
    let r = sign_up(&form, r.0, SignUpEvent::AccountCreated("Zz9yY8x".to_string()));
    assert_eq!(
        r,
        (
            SignUpState::Done,
            SignUpAction::SignIn {
                user_id: "Zz9yY8x".to_string(),
                redirect: Redirect::ProfilePage("Zz9yY8x".to_string()),
                session_lifetime: 86_400,
            },
        )
    );
    let r = sign_up(&form, r.0, SignUpEvent::Start);
    assert_eq!(r, (SignUpState::Done, SignUpAction::Wait));
}

#[test]
fn login_requires_email_and_password() {
    let r = login(&returning("", "pw"), LoginState::Received, LoginEvent::Start);
    assert_eq!(
        r,
        (
            LoginState::Done,
            LoginAction::Render(page(
                Template::Login,
                vec![text("emailError", "email is required"), text("password", "pw")],
            )),
        )
    );
    let r = login(&returning("a@b.c", ""), LoginState::Received, LoginEvent::Start);
    assert_eq!(
        r.1,
        LoginAction::Render(page(
            Template::Login,
            vec![text("email", "a@b.c"), text("passwordError", "password is required")],
        ))
    );
}

#[test]
fn login_refuses_unknown_credentials() {
    let form = returning("a@b.c", "pw");
    let r = login(&form, LoginState::Received, LoginEvent::Start);
    assert_eq!(r, (LoginState::CheckingCredentials, LoginAction::CheckCredentials));
    let r = login(&form, r.0, LoginEvent::CredentialsChecked(false));
    assert_eq!(
        r,
        (
            LoginState::Done,
            LoginAction::Render(page(
                Template::Login,
                vec![text("email", "a@b.c"), text("passwordError", "email or password is incorrect")],
            )),
        )
    );
}

#[test]
fn login_refuses_when_user_id_is_unreadable() {
    let form = returning("a@b.c", "pw");
    let r = login(&form, LoginState::CheckingCredentials, LoginEvent::CredentialsChecked(true));
    assert_eq!(r, (LoginState::FetchingUserId, LoginAction::FetchUserId));
    let r = login(&form, r.0, LoginEvent::UserIdFetched(None));
    assert_eq!(
        r.1,
        LoginAction::Render(page(
            Template::Login,
            vec![text("email", "a@b.c"), text("passwordError", "email or password is incorrect")],
        ))
    );
}

#[test]
fn login_signs_in_valid_user() {
    let form = returning("a@b.c", "pw");
    let r = login(&form, LoginState::FetchingUserId, LoginEvent::UserIdFetched(Some("u1".to_string())));
    assert_eq!(
        r,
        (
            LoginState::Done,
            LoginAction::SignIn {
                user_id: "u1".to_string(),
                redirect: Redirect::ProfilePage("u1".to_string()),
                session_lifetime: 86_400,
            },
        )
    );
}

#[test]
fn login_ignores_events_out_of_order() {
    let form = returning("a@b.c", "pw");
    let r = login(&form, LoginState::Received, LoginEvent::CredentialsChecked(true));
    assert_eq!(r, (LoginState::Received, LoginAction::Wait));
    let r = login(&form, LoginState::CheckingCredentials, LoginEvent::UserIdFetched(Some("u1".to_string())));
    assert_eq!(r, (LoginState::CheckingCredentials, LoginAction::Wait));
}

#[test]
fn device_found_page_for_known_and_unknown_ids() {
    assert_eq!(
        device_found_page("Ab3dE5g".to_string(), true),
        page(Template::DeviceFound, vec![text("deviceId", "Ab3dE5g")])
    );
    assert_eq!(
        device_found_page("nope".to_string(), false),
        page(Template::Index, vec![text("idError", "id nope does not exist")])
    );
}

#[test]
fn device_found_requires_message() {
    let id = "Ab3dE5g".to_string();
    let r = device_found(&id, &finder(""), DeviceFoundState::Received, DeviceFoundEvent::Start);
    assert_eq!(
        r,
        (
            DeviceFoundState::Done,
            DeviceFoundAction::Render(page(
                Template::DeviceFound,
                vec![text("deviceId", "Ab3dE5g"), text("messageError", "message is required")],
            )),
        )
    );
}

#[test]
fn device_found_without_owner_email_fails() {
    let id = "Ab3dE5g".to_string();
    let info = finder("I have your phone");
    let r = device_found(&id, &info, DeviceFoundState::Received, DeviceFoundEvent::Start);
    assert_eq!(r, (DeviceFoundState::FetchingOwnerEmail, DeviceFoundAction::FetchOwnerEmail));
    let expected = DeviceFoundAction::Render(page(
        Template::DeviceFound,
        vec![text("deviceId", "Ab3dE5g"), text("error", "failed to send email")],
    ));
    let r1 = device_found(&id, &info, r.0, DeviceFoundEvent::OwnerEmailFetched(None));
    assert_eq!(r1, (DeviceFoundState::Done, expected.clone()));
    let r2 = device_found(&id, &info, r.0, DeviceFoundEvent::OwnerEmailFetched(Some(String::new())));
    assert_eq!(r2, (DeviceFoundState::Done, expected));
}

#[test]
fn device_found_notifies_owner() {
    let id = "Ab3dE5g".to_string();
    let info = finder("I have your phone");
    let r = device_found(
        &id,
        &info,
        DeviceFoundState::FetchingOwnerEmail,
        DeviceFoundEvent::OwnerEmailFetched(Some("owner@example.com".to_string())),
    );
    assert_eq!(
        r,
        (
            DeviceFoundState::Done,
            DeviceFoundAction::NotifyOwner {
                owner_email: "owner@example.com".to_string(),
                page: page(Template::Index, vec![]),
            },
        )
    );
}

#[test]
fn profile_only_for_its_owner() {
    assert_eq!(
        profile_page("Ab3dE5g".to_string(), user()),
        Ok(page(
            Template::Profile,
            vec![
                text("email", "owner@example.com"),
                ("isSignedIn", ContextValue::Flag(true)),
                text("userId", "Ab3dE5g"),
            ],
        ))
    );
    assert_eq!(profile_page("other00".to_string(), user()), Err(Redirect::LoginPage));
}

#[test]
fn logout_ends_the_cookie_session() {
    assert_eq!(
        logout(Some("s-1".to_string())),
        LogoutPlan { end_session: Some("s-1".to_string()), redirect: Redirect::Index }
    );
    assert_eq!(logout(None), LogoutPlan { end_session: None, redirect: Redirect::Index });
}

#[test]
fn second_logout_ends_nothing() {
    let first = logout(Some("s-1".to_string()));
    assert_eq!(first.end_session, Some("s-1".to_string()));
    // The first logout removed the cookie, so the second finds none.
    let second = logout(None);
    assert_eq!(second, LogoutPlan { end_session: None, redirect: Redirect::Index });
}
