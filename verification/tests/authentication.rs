use ifoundthephone::routes::route_structs::{
    AuthError, AuthEvent, AuthOutcome, AuthState, AuthStep, AuthenticatedUser, SessionLookup,
};

fn step(state: AuthState, event: AuthEvent) -> AuthStep {
    AuthenticatedUser::from_request(state, event)
}

fn run(events: Vec<AuthEvent>) -> AuthStep {
    let mut state = AuthState::Start;
    for event in events {
        match step(state, event) {
            AuthStep::Continue(next) => state = next,
            done => return done,
        }
    }
    AuthStep::Continue(state)
}

#[test]
fn live_session_authenticates_its_user() {
    let r = run(vec![
        AuthEvent::Cookie(Some("s-1".to_string())),
        AuthEvent::DbClient(true),
        AuthEvent::SessionUser(SessionLookup::User("Ab3dE5g".to_string())),
        AuthEvent::Email(Some("owner@example.com".to_string())),
    ]);
    assert_eq!(
        r,
        AuthStep::Finish(AuthOutcome::Success(AuthenticatedUser {
            user_id: "Ab3dE5g".to_string(),
            session_id: "s-1".to_string(),
            email: "owner@example.com".to_string(),
        }))
    );
}

#[test]
fn no_cookie_forwards() {
    assert_eq!(step(AuthState::Start, AuthEvent::Cookie(None)), AuthStep::Finish(AuthOutcome::Forward));
}

#[test]
fn missing_db_client_is_a_server_error() {
    let r = run(vec![AuthEvent::Cookie(Some("s".to_string())), AuthEvent::DbClient(false)]);
    assert_eq!(r, AuthStep::Finish(AuthOutcome::Failure(AuthError::DbClientNotFound)));
}

#[test]
fn session_lookup_failures() {
    let start = vec![AuthEvent::Cookie(Some("s".to_string())), AuthEvent::DbClient(true)];
    let mut db_error = start.clone();
    db_error.push(AuthEvent::SessionUser(SessionLookup::DbError));
    assert_eq!(run(db_error), AuthStep::Finish(AuthOutcome::Failure(AuthError::DbQueryFailure)));
    let mut invalid = start.clone();
    invalid.push(AuthEvent::SessionUser(SessionLookup::Invalid));
    assert_eq!(run(invalid), AuthStep::Finish(AuthOutcome::Forward));
}

#[test]
fn unreadable_email_is_a_server_error() {
    let r = run(vec![
        AuthEvent::Cookie(Some("s".to_string())),
        AuthEvent::DbClient(true),
        AuthEvent::SessionUser(SessionLookup::User("u".to_string())),
        AuthEvent::Email(None),
    ]);
    assert_eq!(r, AuthStep::Finish(AuthOutcome::Failure(AuthError::DbQueryFailure)));
}

#[test]
fn out_of_order_event_keeps_state() {
    let state = AuthState::SessionFound { session_id: "s".to_string() };
    assert_eq!(step(state.clone(), AuthEvent::Email(Some("e".to_string()))), AuthStep::Continue(state));
}
