use vstd::prelude::*;

verus! {

/// The sign-up form.
#[derive(Clone, Debug)]
pub struct NewUserRequest {
    pub email: String,
    pub password: String,
    /// Submitted under the form field name `confirm-password`.
    pub confirm_password: String,
}

/// The login form.
#[derive(Clone, Debug)]
pub struct ReturningUserRequest {
    pub email: String,
    pub password: String,
}

/// The form a finder fills in to reach a device's owner.
#[derive(Clone, Debug)]
pub struct DeviceFoundRequest {
    pub message: String,
    pub email: String,
    /// Submitted under the form field name `phone-number`.
    pub phone_number: String,
}

/// A visitor whose session cookie names a live session.
#[derive(Clone, Debug, PartialEq, Eq)]
pub struct AuthenticatedUser {
    pub user_id: String,
    pub session_id: String,
    pub email: String,
}

/// Why authenticating a request failed with a server error.
#[derive(Clone, Copy, Debug, PartialEq, Eq, Structural)]
pub enum AuthError {
    DbClientNotFound,
    DbQueryFailure,
}

/// What the session store answered for a session id.
#[derive(Clone, Debug, PartialEq, Eq)]
pub enum SessionLookup {
    /// The session is live and belongs to this user id.
    User(String),
    /// The query failed.
    DbError,
    /// No live session has this id.
    Invalid,
}

/// How far authenticating a request has come.
#[derive(Clone, Debug, PartialEq, Eq)]
pub enum AuthState {
    /// Waiting for the value of the `session_id` cookie.
    Start,
    /// The cookie named a session; waiting to learn whether the database client is managed.
    SessionFound { session_id: String },
    /// Waiting for the session store's answer for the session.
    ClientReady { session_id: String },
    /// The session belongs to `user_id`; waiting for that user's e-mail address.
    UserFound { session_id: String, user_id: String },
}

/// What the caller learned while serving the request's current state.
#[derive(Clone, Debug, PartialEq, Eq)]
pub enum AuthEvent {
    /// The value of the `session_id` cookie, if there is one.
    Cookie(Option<String>),
    /// Whether the database client is managed by the server.
    DbClient(bool),
    /// The session store's answer.
    SessionUser(SessionLookup),
    /// The user's e-mail address, or `None` when the query failed.
    Email(Option<String>),
}

/// The verdict on a request.
#[derive(Clone, Debug, PartialEq, Eq)]
pub enum AuthOutcome {
    Success(AuthenticatedUser),
    /// A server error (status 500).
    Failure(AuthError),
    /// The request is not authenticated; let a lower-ranked route serve it.
    Forward,
}

/// What to do after an event: serve the new state, or answer the request.
#[derive(Clone, Debug, PartialEq, Eq)]
pub enum AuthStep {
    Continue(AuthState),
    Finish(AuthOutcome),
}

/// One step of authenticating a request. An event that does not belong to the
/// state leaves the state as it is.
pub open spec fn auth_transition(state: AuthState, event: AuthEvent) -> AuthStep {
    match (state, event) {
        (AuthState::Start, AuthEvent::Cookie(cookie)) => match cookie {
            None => AuthStep::Finish(AuthOutcome::Forward),
            Some(session_id) => AuthStep::Continue(AuthState::SessionFound { session_id }),
        },
        (AuthState::SessionFound { session_id }, AuthEvent::DbClient(present)) => if present {
            AuthStep::Continue(AuthState::ClientReady { session_id })
        } else {
            AuthStep::Finish(AuthOutcome::Failure(AuthError::DbClientNotFound))
        },
        (AuthState::ClientReady { session_id }, AuthEvent::SessionUser(lookup)) => match lookup {
            SessionLookup::User(user_id) => AuthStep::Continue(
                AuthState::UserFound { session_id, user_id },
            ),
            SessionLookup::DbError => AuthStep::Finish(
                AuthOutcome::Failure(AuthError::DbQueryFailure),
            ),
            SessionLookup::Invalid => AuthStep::Finish(AuthOutcome::Forward),
        },
        (AuthState::UserFound { session_id, user_id }, AuthEvent::Email(found)) => match found {
            Some(email) => AuthStep::Finish(
                AuthOutcome::Success(AuthenticatedUser { user_id, session_id, email }),
            ),
            None => AuthStep::Finish(AuthOutcome::Failure(AuthError::DbQueryFailure)),
        },
        (state, _) => AuthStep::Continue(state),
    }
}

/// The step reached after feeding `events`, in order, to the authentication of
/// a request that is in `state`; events after a verdict are not consulted.
pub open spec fn auth_run(state: AuthState, events: Seq<AuthEvent>) -> AuthStep
    decreases events.len(),
{
    if events.len() == 0 {
        AuthStep::Continue(state)
    } else {
        match auth_transition(state, events[0]) {
            AuthStep::Continue(next) => auth_run(next, events.drop_first()),
            AuthStep::Finish(outcome) => AuthStep::Finish(outcome),
        }
    }
}

/// What the remaining events must have told for `user` to be authenticated
/// from `state`.
pub open spec fn evidence_for(state: AuthState, user: AuthenticatedUser, events: Seq<AuthEvent>) -> bool {
    let email = events.contains(AuthEvent::Email(Some(user.email)));
    let lookup = events.contains(AuthEvent::SessionUser(SessionLookup::User(user.user_id)));
    let client = events.contains(AuthEvent::DbClient(true));
    let cookie = events.contains(AuthEvent::Cookie(Some(user.session_id)));
    match state {
        AuthState::Start => cookie && client && lookup && email,
        AuthState::SessionFound { session_id } => session_id == user.session_id && client && lookup
            && email,
        AuthState::ClientReady { session_id } => session_id == user.session_id && lookup && email,
        AuthState::UserFound { session_id, user_id } => session_id == user.session_id && user_id
            == user.user_id && email,
    }
}

proof fn lemma_success_needs_evidence(state: AuthState, events: Seq<AuthEvent>, user: AuthenticatedUser)
    requires
        auth_run(state, events) == AuthStep::Finish(AuthOutcome::Success(user)),
    ensures
        evidence_for(state, user, events),
    decreases events.len(),
{
    let first = events[0];
    let rest = events.drop_first();
    assert(events.contains(first)) by {
        assert(events[0] == first);
    }
    assert forall|e: AuthEvent| rest.contains(e) implies events.contains(e) by {
        let i = choose|i: int| 0 <= i < rest.len() && rest[i] == e;
        assert(events[i + 1] == e);
    }
    match auth_transition(state, first) {
        AuthStep::Continue(next) => {
            lemma_success_needs_evidence(next, rest, user);
        },
        AuthStep::Finish(outcome) => {},
    }
}

/// A request is authenticated only as the user that its session cookie, the
/// session store and the user table named: whatever the events were, a run
/// from the start that authenticates `user` was told the cookie
/// `user.session_id`, that the database client is there, that the session
/// belongs to `user.user_id`, and that this user's e-mail is `user.email`.
pub proof fn law_authenticated_user_comes_from_session(events: Seq<AuthEvent>, user: AuthenticatedUser)
    requires
        auth_run(AuthState::Start, events) == AuthStep::Finish(AuthOutcome::Success(user)),
    ensures
        events.contains(AuthEvent::Cookie(Some(user.session_id))),
        events.contains(AuthEvent::DbClient(true)),
        events.contains(AuthEvent::SessionUser(SessionLookup::User(user.user_id))),
        events.contains(AuthEvent::Email(Some(user.email))),
{
    lemma_success_needs_evidence(AuthState::Start, events, user);
}

/// A live session authenticates its user: a cookie naming session
/// `session_id`, a managed database client, a session store that maps the
/// session to `user_id` and a user table that gives `email` authenticate
/// exactly that user.
pub proof fn law_live_session_authenticates(session_id: String, user_id: String, email: String)
    ensures
        auth_run(
            AuthState::Start,
            seq![
                AuthEvent::Cookie(Some(session_id)),
                AuthEvent::DbClient(true),
                AuthEvent::SessionUser(SessionLookup::User(user_id)),
                AuthEvent::Email(Some(email)),
            ],
        ) == AuthStep::Finish(AuthOutcome::Success(AuthenticatedUser { user_id, session_id, email })),
{
    let events = seq![
        AuthEvent::Cookie(Some(session_id)),
        AuthEvent::DbClient(true),
        AuthEvent::SessionUser(SessionLookup::User(user_id)),
        AuthEvent::Email(Some(email)),
    ];
    assert(events.drop_first() =~= seq![
        AuthEvent::DbClient(true),
        AuthEvent::SessionUser(SessionLookup::User(user_id)),
        AuthEvent::Email(Some(email)),
    ]);
    assert(events.drop_first().drop_first() =~= seq![
        AuthEvent::SessionUser(SessionLookup::User(user_id)),
        AuthEvent::Email(Some(email)),
    ]);
    assert(events.drop_first().drop_first().drop_first() =~= seq![AuthEvent::Email(Some(email))]);
    reveal_with_fuel(auth_run, 5);
}

/// Without a session cookie a request is never authenticated; it is forwarded.
pub proof fn law_no_cookie_forwards(rest: Seq<AuthEvent>)
    ensures
        auth_run(AuthState::Start, seq![AuthEvent::Cookie(None)] + rest) == AuthStep::Finish(
            AuthOutcome::Forward,
        ),
{
    let events = seq![AuthEvent::Cookie(None)] + rest;
    assert(events[0] == AuthEvent::Cookie(None));
}

/// An expired or unknown session is forwarded, not answered with an error:
/// for every session id, a cookie naming a session that the session store
/// reports as not live leads to `Forward`, whatever came before it.
pub proof fn law_unknown_session_forwards(session_id: String)
    ensures
        auth_transition(
            AuthState::ClientReady { session_id },
            AuthEvent::SessionUser(SessionLookup::Invalid),
        ) == AuthStep::Finish(AuthOutcome::Forward),
        auth_run(
            AuthState::Start,
            seq![
                AuthEvent::Cookie(Some(session_id)),
                AuthEvent::DbClient(true),
                AuthEvent::SessionUser(SessionLookup::Invalid),
            ],
        ) == AuthStep::Finish(AuthOutcome::Forward),
{
    let events = seq![
        AuthEvent::Cookie(Some(session_id)),
        AuthEvent::DbClient(true),
        AuthEvent::SessionUser(SessionLookup::Invalid),
    ];
    assert(events.drop_first() =~= seq![
        AuthEvent::DbClient(true),
        AuthEvent::SessionUser(SessionLookup::Invalid),
    ]);
    assert(events.drop_first().drop_first() =~= seq![AuthEvent::SessionUser(SessionLookup::Invalid)]);
    reveal_with_fuel(auth_run, 4);
}

/// A request is answered with a server error only for a server fault: a
/// missing database client (`DbClientNotFound`), or a failed session or
/// e-mail query (`DbQueryFailure`). No other event, in any state, fails.
pub proof fn law_failure_only_from_server_faults(state: AuthState, event: AuthEvent, error: AuthError)
    requires
        auth_transition(state, event) == AuthStep::Finish(AuthOutcome::Failure(error)),
    ensures
        (event == AuthEvent::DbClient(false) && error == AuthError::DbClientNotFound) || (event
            == AuthEvent::SessionUser(SessionLookup::DbError) && error == AuthError::DbQueryFailure)
            || (event == AuthEvent::Email(None) && error == AuthError::DbQueryFailure),
{
}

/// A request is forwarded only when it names no live session: it has no
/// session cookie, or the store reports its session as not live.
pub proof fn law_forward_only_without_live_session(state: AuthState, event: AuthEvent)
    requires
        auth_transition(state, event) == AuthStep::Finish(AuthOutcome::Forward),
    ensures
        event == AuthEvent::Cookie(None) || event == AuthEvent::SessionUser(SessionLookup::Invalid),
{
}

impl AuthenticatedUser {
    /// Decides the next step of authenticating a request from its session
    /// cookie: no cookie or an unknown session forwards the request, a missing
    /// database client or a failed query is a server error, and a live session
    /// whose user's e-mail is found authenticates that user.
    pub fn from_request(state: AuthState, event: AuthEvent) -> (r: AuthStep)
        ensures
            r == auth_transition(state, event),
    {
        match (state, event) {
            (AuthState::Start, AuthEvent::Cookie(cookie)) => match cookie {
                None => AuthStep::Finish(AuthOutcome::Forward),
                Some(session_id) => AuthStep::Continue(AuthState::SessionFound { session_id }),
            },
            (AuthState::SessionFound { session_id }, AuthEvent::DbClient(present)) => {
                if present {
                    AuthStep::Continue(AuthState::ClientReady { session_id })
                } else {
                    AuthStep::Finish(AuthOutcome::Failure(AuthError::DbClientNotFound))
                }
            },
            (AuthState::ClientReady { session_id }, AuthEvent::SessionUser(lookup)) => {
                match lookup {
                    SessionLookup::User(user_id) => AuthStep::Continue(
                        AuthState::UserFound { session_id, user_id },
                    ),
                    SessionLookup::DbError => AuthStep::Finish(
                        AuthOutcome::Failure(AuthError::DbQueryFailure),
                    ),
                    SessionLookup::Invalid => AuthStep::Finish(AuthOutcome::Forward),
                }
            },
            (AuthState::UserFound { session_id, user_id }, AuthEvent::Email(found)) => {
                match found {
                    Some(email) => AuthStep::Finish(
                        AuthOutcome::Success(AuthenticatedUser { user_id, session_id, email }),
                    ),
                    None => AuthStep::Finish(AuthOutcome::Failure(AuthError::DbQueryFailure)),
                }
            },
            (state, _) => AuthStep::Continue(state),
        }
    }
}

} // verus!
