use vstd::prelude::*;
use vstd::string::StringExecFns;

pub mod auth;
pub mod db;
pub mod email;
pub mod form_structs;
pub mod pages;
pub mod route_structs;

use auth::SESSION_LIFETIME_SECONDS;
use pages::{flag, page_view, text, Page, PageView, Redirect, Template};
use route_structs::{AuthenticatedUser, DeviceFoundRequest, NewUserRequest, ReturningUserRequest};

verus! {

/// The home page, for a visitor who is not signed in.
pub fn index() -> (page: Page)
    ensures
        page@ == page_view(Template::Index, seq![flag("isSignedIn"@, false)]),
{
    Page::new(Template::Index).with_flag("isSignedIn", false)
}

/// Sends a visitor who is not signed in to the login page.
pub fn unauthorized() -> (r: Redirect)
    ensures
        r == Redirect::LoginPage,
{
    Redirect::LoginPage
}

/// The empty sign-up form.
pub fn sign_up_page() -> (page: Page)
    ensures
        page@ == page_view(Template::Signup, seq![]),
{
    Page::new(Template::Signup)
}

/// A signed-in visitor who asks for the login page goes to their profile.
pub fn login_page_authenticated(user: AuthenticatedUser) -> (r: Redirect)
    ensures
        r == Redirect::ProfilePage(user.user_id),
{
    Redirect::ProfilePage(user.user_id)
}

/// The empty login form.
pub fn login_page() -> (page: Page)
    ensures
        page@ == page_view(Template::Login, seq![]),
{
    Page::new(Template::Login)
}

// ---------------------------------------------------------------------------
// Sign-up
// ---------------------------------------------------------------------------

/// How far handling a sign-up form has come.
#[derive(Clone, Copy, Debug, PartialEq, Eq, Structural)]
pub enum SignUpState {
    /// The form has arrived.
    Received,
    /// The form was accepted; waiting for the new account's user id.
    CreatingAccount,
    /// The request has been answered.
    Done,
}

/// What the caller learned.
#[derive(Clone, Debug, PartialEq, Eq)]
pub enum SignUpEvent {
    /// Handling begins.
    Start,
    /// The account was created under this user id.
    AccountCreated(String),
}

/// What the caller is to do next.
#[derive(Clone, Debug, PartialEq, Eq)]
pub enum SignUpAction {
    /// Answer with this page.
    Render(Page),
    /// Create the account: a new user id, the stored password, the welcome e-mail.
    CreateAccount,
    /// Start a session for `user_id` that lasts `session_lifetime` seconds
    /// (cookie and record), and answer with the redirect.
    SignIn { user_id: String, redirect: Redirect, session_lifetime: i64 },
    /// The event does not belong to the state; nothing to do.
    Wait,
}

/// The sign-up form shown again after a refusal.
pub open spec fn sign_up_refusal(new_user: NewUserRequest) -> PageView {
    if new_user.email@.len() == 0 {
        page_view(
            Template::Signup,
            seq![text("emailError"@, "email is required"@), text("password"@, new_user.password@)],
        )
    } else if new_user.password@.len() == 0 {
        page_view(
            Template::Signup,
            seq![text("email"@, new_user.email@), text("passwordError"@, "password is required"@)],
        )
    } else {
        page_view(
            Template::Signup,
            seq![
                text("email"@, new_user.email@),
                text("password"@, new_user.password@),
                text("confirmPasswordError"@, "passwords don't match"@),
            ],
        )
    }
}

/// A sign-up form is accepted when the e-mail and password are filled in and
/// the password is confirmed.
pub open spec fn sign_up_accepted(new_user: NewUserRequest) -> bool {
    &&& new_user.email@.len() != 0
    &&& new_user.password@.len() != 0
    &&& new_user.password@ == new_user.confirm_password@
}

/// The next state of a sign-up, from the state and the event alone.
pub open spec fn sign_up_next_state(new_user: NewUserRequest, state: SignUpState, event: SignUpEvent) -> SignUpState {
    match (state, event) {
        (SignUpState::Received, SignUpEvent::Start) => if sign_up_accepted(new_user) {
            SignUpState::CreatingAccount
        } else {
            SignUpState::Done
        },
        (SignUpState::CreatingAccount, SignUpEvent::AccountCreated(_)) => SignUpState::Done,
        _ => state,
    }
}

/// The state a sign-up reaches from `state` through `events`.
pub open spec fn sign_up_run(new_user: NewUserRequest, state: SignUpState, events: Seq<SignUpEvent>) -> SignUpState
    decreases events.len(),
{
    if events.len() == 0 {
        state
    } else {
        sign_up_run(new_user, sign_up_next_state(new_user, state, events[0]), events.drop_first())
    }
}

proof fn lemma_sign_up_run(new_user: NewUserRequest, state: SignUpState, events: Seq<SignUpEvent>)
    requires
        state != SignUpState::CreatingAccount || sign_up_accepted(new_user),
    ensures
        sign_up_run(new_user, state, events) == SignUpState::CreatingAccount ==> sign_up_accepted(
            new_user,
        ),
    decreases events.len(),
{
    if events.len() > 0 {
        lemma_sign_up_run(new_user, sign_up_next_state(new_user, state, events[0]), events.drop_first());
    }
}

/// An account is created, and its user signed in, only for an accepted form:
/// whatever the events, a sign-up that reaches the account-creating state
/// (the only one from which it signs a user in) had an e-mail and a password
/// filled in and the password confirmed.
pub proof fn law_sign_up_needs_accepted_form(new_user: NewUserRequest, events: Seq<SignUpEvent>)
    requires
        sign_up_run(new_user, SignUpState::Received, events) == SignUpState::CreatingAccount,
    ensures
        new_user.email@.len() != 0,
        new_user.password@.len() != 0,
        new_user.password@ == new_user.confirm_password@,
{
    lemma_sign_up_run(new_user, SignUpState::Received, events);
}

/// Every filled-in, confirmed form is accepted, and only such a form: a
/// sign-up form is accepted exactly when its e-mail and password are not
/// empty and the confirmation equals the password, whatever their length or
/// content; an accepted form goes on to create the account, any other is
/// answered at once.
pub proof fn law_sign_up_accepts_exactly_confirmed_forms(new_user: NewUserRequest)
    ensures
        sign_up_accepted(new_user) <==> (new_user.email@.len() != 0 && new_user.password@.len() != 0
            && new_user.password@ == new_user.confirm_password@),
        (new_user.email@.len() != 0 && new_user.password@.len() != 0 && new_user.password@
            == new_user.confirm_password@) ==> sign_up_next_state(
            new_user,
            SignUpState::Received,
            SignUpEvent::Start,
        ) == SignUpState::CreatingAccount,
        !(new_user.email@.len() != 0 && new_user.password@.len() != 0 && new_user.password@
            == new_user.confirm_password@) ==> sign_up_next_state(
            new_user,
            SignUpState::Received,
            SignUpEvent::Start,
        ) == SignUpState::Done,
{
}

/// One step of handling a sign-up form. An empty e-mail, an empty password or
/// an unconfirmed password shows the form again with the error; otherwise the
/// account is created and its user is signed in and sent to their profile.
pub fn sign_up(new_user: &NewUserRequest, state: SignUpState, event: SignUpEvent) -> (r: (
    SignUpState,
    SignUpAction,
))
    ensures
        r.0 == sign_up_next_state(*new_user, state, event),
        match (state, event) {
            (SignUpState::Received, SignUpEvent::Start) => if sign_up_accepted(*new_user) {
                r == (SignUpState::CreatingAccount, SignUpAction::CreateAccount)
            } else {
                &&& r.0 == SignUpState::Done
                &&& r.1 matches SignUpAction::Render(page) && page@ == sign_up_refusal(*new_user)
            },
            (SignUpState::CreatingAccount, SignUpEvent::AccountCreated(user_id)) => r == (
                SignUpState::Done,
                SignUpAction::SignIn {
                    user_id,
                    redirect: Redirect::ProfilePage(user_id),
                    session_lifetime: SESSION_LIFETIME_SECONDS,
                },
            ),
            _ => r == (state, SignUpAction::Wait),
        },
{
    match (state, event) {
        (SignUpState::Received, SignUpEvent::Start) => {
            if new_user.email.as_str().is_empty() {
                let page = Page::new(Template::Signup).with_text(
                    "emailError",
                    String::from_str("email is required"),
                ).with_text("password", new_user.password.clone());
                assert(page@.context =~= sign_up_refusal(*new_user).context);
                return (SignUpState::Done, SignUpAction::Render(page));
            }
            if new_user.password.as_str().is_empty() {
                let page = Page::new(Template::Signup).with_text(
                    "email",
                    new_user.email.clone(),
                ).with_text("passwordError", String::from_str("password is required"));
                assert(page@.context =~= sign_up_refusal(*new_user).context);
                return (SignUpState::Done, SignUpAction::Render(page));
            }
            if new_user.password == new_user.confirm_password {
                return (SignUpState::CreatingAccount, SignUpAction::CreateAccount);
            }
            let page = Page::new(Template::Signup).with_text(
                "email",
                new_user.email.clone(),
            ).with_text("password", new_user.password.clone()).with_text(
                "confirmPasswordError",
                String::from_str("passwords don't match"),
            );
            assert(page@.context =~= sign_up_refusal(*new_user).context);
            (SignUpState::Done, SignUpAction::Render(page))
        },
        (SignUpState::CreatingAccount, SignUpEvent::AccountCreated(user_id)) => {
            let redirect = Redirect::ProfilePage(user_id.clone());
            (
                SignUpState::Done,
                SignUpAction::SignIn { user_id, redirect, session_lifetime: SESSION_LIFETIME_SECONDS },
            )
        },
        (state, _) => (state, SignUpAction::Wait),
    }
}

// ---------------------------------------------------------------------------
// Login
// ---------------------------------------------------------------------------

/// How far handling a login form has come.
#[derive(Clone, Copy, Debug, PartialEq, Eq, Structural)]
pub enum LoginState {
    /// The form has arrived.
    Received,
    /// The form is filled in; waiting for the verdict on the e-mail and password.
    CheckingCredentials,
    /// The credentials are valid; waiting for the user id stored for the e-mail.
    FetchingUserId,
    /// The request has been answered.
    Done,
}

/// What the caller learned.
#[derive(Clone, Debug, PartialEq, Eq)]
pub enum LoginEvent {
    /// Handling begins.
    Start,
    /// Whether the e-mail and password match a stored user.
    CredentialsChecked(bool),
    /// The user id stored for the e-mail, or `None` when it could not be read.
    UserIdFetched(Option<String>),
}

/// What the caller is to do next.
#[derive(Clone, Debug, PartialEq, Eq)]
pub enum LoginAction {
    /// Answer with this page.
    Render(Page),
    /// Check the e-mail and password against the stored credentials.
    CheckCredentials,
    /// Fetch the user id stored for the e-mail.
    FetchUserId,
    /// Start a session for `user_id` that lasts `session_lifetime` seconds
    /// (cookie and record), and answer with the redirect.
    SignIn { user_id: String, redirect: Redirect, session_lifetime: i64 },
    /// The event does not belong to the state; nothing to do.
    Wait,
}

/// The login form shown again after unknown credentials.
pub open spec fn login_refused(email: Seq<char>) -> PageView {
    page_view(
        Template::Login,
        seq![text("email"@, email), text("passwordError"@, "email or password is incorrect"@)],
    )
}

/// The login form shown again when a field is left empty.
pub open spec fn login_incomplete(user: ReturningUserRequest) -> PageView {
    if user.email@.len() == 0 {
        page_view(
            Template::Login,
            seq![text("emailError"@, "email is required"@), text("password"@, user.password@)],
        )
    } else {
        page_view(
            Template::Login,
            seq![text("email"@, user.email@), text("passwordError"@, "password is required"@)],
        )
    }
}

/// The next state of a login, from the state and the event alone.
pub open spec fn login_next_state(user: ReturningUserRequest, state: LoginState, event: LoginEvent) -> LoginState {
    match (state, event) {
        (LoginState::Received, LoginEvent::Start) => if user.email@.len() == 0
            || user.password@.len() == 0 {
            LoginState::Done
        } else {
            LoginState::CheckingCredentials
        },
        (LoginState::CheckingCredentials, LoginEvent::CredentialsChecked(valid)) => if valid {
            LoginState::FetchingUserId
        } else {
            LoginState::Done
        },
        (LoginState::FetchingUserId, LoginEvent::UserIdFetched(_)) => LoginState::Done,
        _ => state,
    }
}

/// The state a login reaches from `state` through `events`.
pub open spec fn login_run(user: ReturningUserRequest, state: LoginState, events: Seq<LoginEvent>) -> LoginState
    decreases events.len(),
{
    if events.len() == 0 {
        state
    } else {
        login_run(user, login_next_state(user, state, events[0]), events.drop_first())
    }
}

proof fn lemma_login_run(user: ReturningUserRequest, state: LoginState, events: Seq<LoginEvent>)
    ensures
        login_run(user, state, events) == LoginState::FetchingUserId ==> state
            == LoginState::FetchingUserId || events.contains(LoginEvent::CredentialsChecked(true)),
    decreases events.len(),
{
    if events.len() > 0 {
        let rest = events.drop_first();
        lemma_login_run(user, login_next_state(user, state, events[0]), rest);
        assert forall|e: LoginEvent| rest.contains(e) implies events.contains(e) by {
            let i = choose|i: int| 0 <= i < rest.len() && rest[i] == e;
            assert(events[i + 1] == e);
        }
    }
}

/// A user is signed in only after their credentials were found valid:
/// whatever the events, a login that reaches the state in which it fetches the
/// user id (the only one from which it signs a user in) was told that the
/// e-mail and password match.
pub proof fn law_login_needs_valid_credentials(user: ReturningUserRequest, events: Seq<LoginEvent>)
    requires
        login_run(user, LoginState::Received, events) == LoginState::FetchingUserId,
    ensures
        events.contains(LoginEvent::CredentialsChecked(true)),
{
    lemma_login_run(user, LoginState::Received, events);
}

/// Builds the login form shown after unknown credentials.
fn login_refused_page(email: &String) -> (page: Page)
    ensures
        page@ == login_refused(email@),
{
    let page = Page::new(Template::Login).with_text("email", email.clone()).with_text(
        "passwordError",
        String::from_str("email or password is incorrect"),
    );
    assert(page@.context =~= login_refused(email@).context);
    page
}

/// One step of handling a login form. An empty e-mail or password shows the
/// form again with the error; credentials that do not match, or a user id that
/// cannot be read, show it with "email or password is incorrect"; otherwise
/// the user is signed in and sent to their profile.
pub fn login(user: &ReturningUserRequest, state: LoginState, event: LoginEvent) -> (r: (
    LoginState,
    LoginAction,
))
    ensures
        r.0 == login_next_state(*user, state, event),
        match (state, event) {
            (LoginState::Received, LoginEvent::Start) => if user.email@.len() == 0
                || user.password@.len() == 0 {
                r.1 matches LoginAction::Render(page) && page@ == login_incomplete(*user)
            } else {
                r.1 == LoginAction::CheckCredentials
            },
            (LoginState::CheckingCredentials, LoginEvent::CredentialsChecked(valid)) => if valid {
                r.1 == LoginAction::FetchUserId
            } else {
                r.1 matches LoginAction::Render(page) && page@ == login_refused(user.email@)
            },
            (LoginState::FetchingUserId, LoginEvent::UserIdFetched(fetched)) => match fetched {
                Some(user_id) => r.1 == LoginAction::SignIn {
                    user_id,
                    redirect: Redirect::ProfilePage(user_id),
                    session_lifetime: SESSION_LIFETIME_SECONDS,
                },
                None => r.1 matches LoginAction::Render(page) && page@ == login_refused(
                    user.email@,
                ),
            },
            _ => r.1 == LoginAction::Wait,
        },
{
    match (state, event) {
        (LoginState::Received, LoginEvent::Start) => {
            if user.email.as_str().is_empty() {
                let page = Page::new(Template::Login).with_text(
                    "emailError",
                    String::from_str("email is required"),
                ).with_text("password", user.password.clone());
                assert(page@.context =~= login_incomplete(*user).context);
                return (LoginState::Done, LoginAction::Render(page));
            }
            if user.password.as_str().is_empty() {
                let page = Page::new(Template::Login).with_text("email", user.email.clone()).with_text(
                    "passwordError",
                    String::from_str("password is required"),
                );
                assert(page@.context =~= login_incomplete(*user).context);
                return (LoginState::Done, LoginAction::Render(page));
            }
            (LoginState::CheckingCredentials, LoginAction::CheckCredentials)
        },
        (LoginState::CheckingCredentials, LoginEvent::CredentialsChecked(valid)) => {
            if valid {
                (LoginState::FetchingUserId, LoginAction::FetchUserId)
            } else {
                (LoginState::Done, LoginAction::Render(login_refused_page(&user.email)))
            }
        },
        (LoginState::FetchingUserId, LoginEvent::UserIdFetched(fetched)) => {
            match fetched {
                Some(user_id) => {
                    let redirect = Redirect::ProfilePage(user_id.clone());
                    (
                        LoginState::Done,
                        LoginAction::SignIn {
                            user_id,
                            redirect,
                            session_lifetime: SESSION_LIFETIME_SECONDS,
                        },
                    )
                },
                None => (LoginState::Done, LoginAction::Render(login_refused_page(&user.email))),
            }
        },
        (state, _) => (state, LoginAction::Wait),
    }
}

// ---------------------------------------------------------------------------
// Found devices
// ---------------------------------------------------------------------------

/// The text `id <id> does not exist`.
pub open spec fn unknown_id_message(id: Seq<char>) -> Seq<char> {
    "id "@ + id + " does not exist"@
}

/// The page for device `id`: the form to reach its owner when the id belongs
/// to a user, else the home page with an error.
pub fn device_found_page(id: String, id_exists: bool) -> (page: Page)
    ensures
        id_exists ==> page@ == page_view(Template::DeviceFound, seq![text("deviceId"@, id@)]),
        !id_exists ==> page@ == page_view(
            Template::Index,
            seq![text("idError"@, unknown_id_message(id@))],
        ),
{
    if !id_exists {
        let mut message = String::from_str("id ");
        message.append(id.as_str());
        message.append(" does not exist");
        let page = Page::new(Template::Index).with_text("idError", message);
        assert(page@.context =~= seq![text("idError"@, unknown_id_message(id@))]);
        return page;
    }
    let page = Page::new(Template::DeviceFound).with_text("deviceId", id);
    assert(page@.context =~= seq![text("deviceId"@, id@)]);
    page
}

/// How far handling a finder's message has come.
#[derive(Clone, Copy, Debug, PartialEq, Eq, Structural)]
pub enum DeviceFoundState {
    /// The form has arrived.
    Received,
    /// The message is there; waiting for the device owner's e-mail address.
    FetchingOwnerEmail,
    /// The request has been answered.
    Done,
}

/// What the caller learned.
#[derive(Clone, Debug, PartialEq, Eq)]
pub enum DeviceFoundEvent {
    /// Handling begins.
    Start,
    /// The owner's e-mail address, or `None` when it could not be read.
    OwnerEmailFetched(Option<String>),
}

/// What the caller is to do next.
#[derive(Clone, Debug, PartialEq, Eq)]
pub enum DeviceFoundAction {
    /// Answer with this page.
    Render(Page),
    /// Fetch the e-mail address of the user whose id the device carries.
    FetchOwnerEmail,
    /// Send the finder's message to `owner_email`, then answer with `page`.
    NotifyOwner { owner_email: String, page: Page },
    /// The event does not belong to the state; nothing to do.
    Wait,
}

/// The next state of handling a finder's message.
pub open spec fn device_found_next_state(
    email_info: DeviceFoundRequest,
    state: DeviceFoundState,
    event: DeviceFoundEvent,
) -> DeviceFoundState {
    match (state, event) {
        (DeviceFoundState::Received, DeviceFoundEvent::Start) => if email_info.message@.len() == 0 {
            DeviceFoundState::Done
        } else {
            DeviceFoundState::FetchingOwnerEmail
        },
        (DeviceFoundState::FetchingOwnerEmail, DeviceFoundEvent::OwnerEmailFetched(_)) => DeviceFoundState::Done,
        _ => state,
    }
}

/// The state handling a finder's message reaches from `state` through `events`.
pub open spec fn device_found_run(
    email_info: DeviceFoundRequest,
    state: DeviceFoundState,
    events: Seq<DeviceFoundEvent>,
) -> DeviceFoundState
    decreases events.len(),
{
    if events.len() == 0 {
        state
    } else {
        device_found_run(email_info, device_found_next_state(email_info, state, events[0]), events.drop_first())
    }
}

proof fn lemma_device_found_run(email_info: DeviceFoundRequest, state: DeviceFoundState, events: Seq<DeviceFoundEvent>)
    requires
        state == DeviceFoundState::FetchingOwnerEmail ==> email_info.message@.len() != 0,
    ensures
        device_found_run(email_info, state, events) == DeviceFoundState::FetchingOwnerEmail
            ==> email_info.message@.len() != 0,
    decreases events.len(),
{
    if events.len() > 0 {
        lemma_device_found_run(email_info, device_found_next_state(email_info, state, events[0]), events.drop_first());
    }
}

/// An owner is written to only about a message: whatever the events, handling
/// a finder's form reaches the state in which it fetches the owner's address
/// (the only one from which it sends the e-mail) only when the message is not
/// empty.
pub proof fn law_owner_notified_only_with_message(email_info: DeviceFoundRequest, events: Seq<DeviceFoundEvent>)
    requires
        device_found_run(email_info, DeviceFoundState::Received, events) == DeviceFoundState::FetchingOwnerEmail,
    ensures
        email_info.message@.len() != 0,
{
    lemma_device_found_run(email_info, DeviceFoundState::Received, events);
}

/// The device page shown again with an error message under `key`.
pub open spec fn device_error(id: Seq<char>, key: Seq<char>, message: Seq<char>) -> PageView {
    page_view(Template::DeviceFound, seq![text("deviceId"@, id), text(key, message)])
}

fn device_error_page(id: &String, key: &'static str, message: &'static str) -> (page: Page)
    ensures
        page@ == device_error(id@, key@, message@),
{
    let page = Page::new(Template::DeviceFound).with_text("deviceId", id.clone()).with_text(
        key,
        String::from_str(message),
    );
    assert(page@.context =~= device_error(id@, key@, message@).context);
    page
}

/// One step of handling a finder's message for device `id`. An empty message
/// shows the form again with "message is required"; an owner whose e-mail
/// cannot be read, or is empty, shows it with "failed to send email";
/// otherwise the owner is notified and the finder sees the home page.
pub fn device_found(
    id: &String,
    email_info: &DeviceFoundRequest,
    state: DeviceFoundState,
    event: DeviceFoundEvent,
) -> (r: (DeviceFoundState, DeviceFoundAction))
    ensures
        r.0 == device_found_next_state(*email_info, state, event),
        match (state, event) {
            (DeviceFoundState::Received, DeviceFoundEvent::Start) => if email_info.message@.len()
                == 0 {
                &&& r.0 == DeviceFoundState::Done
                &&& r.1 matches DeviceFoundAction::Render(page) && page@ == device_error(
                    id@,
                    "messageError"@,
                    "message is required"@,
                )
            } else {
                r == (DeviceFoundState::FetchingOwnerEmail, DeviceFoundAction::FetchOwnerEmail)
            },
            (
                DeviceFoundState::FetchingOwnerEmail,
                DeviceFoundEvent::OwnerEmailFetched(fetched),
            ) => {
                &&& r.0 == DeviceFoundState::Done
                &&& match fetched {
                    Some(owner_email) if owner_email@.len() != 0 => r.1 matches DeviceFoundAction::NotifyOwner { owner_email: to, page } && to == owner_email
                        && page@ == page_view(Template::Index, seq![]),
                    _ => r.1 matches DeviceFoundAction::Render(page) && page@ == device_error(
                        id@,
                        "error"@,
                        "failed to send email"@,
                    ),
                }
            },
            _ => r == (state, DeviceFoundAction::Wait),
        },
{
    match (state, event) {
        (DeviceFoundState::Received, DeviceFoundEvent::Start) => {
            if email_info.message.as_str().is_empty() {
                let page = device_error_page(id, "messageError", "message is required");
                (DeviceFoundState::Done, DeviceFoundAction::Render(page))
            } else {
                (DeviceFoundState::FetchingOwnerEmail, DeviceFoundAction::FetchOwnerEmail)
            }
        },
        (DeviceFoundState::FetchingOwnerEmail, DeviceFoundEvent::OwnerEmailFetched(fetched)) => {
            let owner_email = match fetched {
                Some(email) => email,
                None => String::new(),
            };
            if owner_email.as_str().is_empty() {
                let page = device_error_page(id, "error", "failed to send email");
                return (DeviceFoundState::Done, DeviceFoundAction::Render(page));
            }
            let page = Page::new(Template::Index);
            (DeviceFoundState::Done, DeviceFoundAction::NotifyOwner { owner_email, page })
        },
        (state, _) => (state, DeviceFoundAction::Wait),
    }
}

// ---------------------------------------------------------------------------
// Profile and logout
// ---------------------------------------------------------------------------

/// The profile page of user `id`, shown only to that user signed in; anyone
/// else is sent to the login page.
pub fn profile_page(id: String, user: AuthenticatedUser) -> (r: Result<Page, Redirect>)
    ensures
        user.user_id@ != id@ ==> r == Err::<Page, Redirect>(Redirect::LoginPage),
        user.user_id@ == id@ ==> (r matches Ok(page) && page@ == page_view(
            Template::Profile,
            seq![text("email"@, user.email@), flag("isSignedIn"@, true), text("userId"@, id@)],
        )),
{
    if user.user_id != id {
        return Err(Redirect::LoginPage);
    }
    let page = Page::new(Template::Profile).with_text("email", user.email).with_flag(
        "isSignedIn",
        true,
    ).with_text("userId", id);
    assert(page@.context =~= seq![
        text("email"@, user.email@),
        flag("isSignedIn"@, true),
        text("userId"@, id@),
    ]);
    Ok(page)
}

/// A profile request from a visitor who is not signed in goes to the login page.
pub fn profile_page_failure(_id: String) -> (r: Redirect)
    ensures
        r == Redirect::LoginPage,
{
    Redirect::LoginPage
}

/// What logging out does: end the session named by the cookie, if any, and
/// go to the home page.
#[derive(Clone, Debug, PartialEq, Eq)]
pub struct LogoutPlan {
    /// The session to end and whose cookie to remove.
    pub end_session: Option<String>,
    pub redirect: Redirect,
}

/// The plan for logging out with the `session_id` cookie `cookie`.
pub open spec fn logout_plan(cookie: Option<String>) -> LogoutPlan {
    LogoutPlan { end_session: cookie, redirect: Redirect::Index }
}

/// The `session_id` cookie left after carrying out the logout plan for
/// `cookie`: a plan that ends a session removes its cookie.
pub open spec fn cookie_after_logout(cookie: Option<String>) -> Option<String> {
    match logout_plan(cookie).end_session {
        Some(_) => None,
        None => cookie,
    }
}

/// Logging out with the value of the `session_id` cookie, if there is one.
pub fn logout(session_id: Option<String>) -> (r: LogoutPlan)
    ensures
        r == logout_plan(session_id),
        r.end_session == session_id,
        r.redirect == Redirect::Index,
{
    LogoutPlan { end_session: session_id, redirect: Redirect::Index }
}

/// A logout without a session cookie ends no session and goes to the home page.
pub proof fn law_logout_without_cookie_ends_nothing()
    ensures
        logout_plan(None) == (LogoutPlan { end_session: None, redirect: Redirect::Index }),
{
}

/// Logging out twice: whatever the cookie was, the logout after a carried-out
/// logout finds no cookie, ends no session and goes to the home page, and
/// leaves the cookie as the first one left it.
pub proof fn law_second_logout_ends_nothing(cookie: Option<String>)
    ensures
        cookie_after_logout(cookie) is None,
        logout_plan(cookie_after_logout(cookie)) == (LogoutPlan {
            end_session: None,
            redirect: Redirect::Index,
        }),
        cookie_after_logout(cookie_after_logout(cookie)) == cookie_after_logout(cookie),
{
}

} // verus!
