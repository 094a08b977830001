use voucher_backend::models::{ApiError, TransportCause};
use voucher_backend::session::{classify_status, Action, Exchange, RequestRun, Session, Stage};

#[test]
fn second_unauthorized_surfaces_auth_error() {
    let mut session = Session::new();
    session.record_login(100);
    let mut run = RequestRun::new();
    let mut logins = 0;
    let mut exchanges = 0;
    let mut action = run.begin(&session, 200);
    let result = loop {
        match action {
            Action::Login => {
                logins += 1;
                action = run.on_login(&mut session, true, 300);
            }
            Action::Exchange => {
                exchanges += 1;
                assert!(exchanges <= 2);
                action = run.on_exchange(&mut session, Exchange::Unauthorized);
            }
            Action::Finish(r) => break r,
        }
    };
    assert_eq!(result, Err(ApiError::Auth));
    assert_eq!(logins, 1);
    assert_eq!(exchanges, 2);
    assert_eq!(run.stage, Stage::Done);
}

#[test]
fn retry_after_unauthorized_succeeds() {
    let mut session = Session::new();
    session.record_login(0);
    let mut run = RequestRun::new();
    assert!(matches!(run.begin(&session, 10), Action::Exchange));
    assert!(matches!(run.on_exchange(&mut session, Exchange::Unauthorized), Action::Login));
    assert_eq!(session.expiry, None);
    assert!(matches!(run.on_login(&mut session, true, 20), Action::Exchange));
    assert_eq!(session.expiry, Some(1820));
    assert!(matches!(run.on_exchange(&mut session, Exchange::Success), Action::Finish(Ok(()))));
}

#[test]
fn expired_session_logs_in_first() {
    let mut session = Session::new();
    assert!(session.needs_login(0));
    session.record_login(1000);
    assert!(!session.needs_login(2799));
    assert!(session.needs_login(2800));
    let mut run = RequestRun::new();
    assert!(matches!(run.begin(&session, 5000), Action::Login));
    assert!(matches!(run.on_login(&mut session, false, 5000), Action::Finish(Err(ApiError::Auth))));
}

#[test]
fn other_outcomes_are_not_retried() {
    for (outcome, expected) in [
        (Exchange::Rejected(500), ApiError::Request { status: 500 }),
        (
            Exchange::Transport(TransportCause::Timeout),
            ApiError::Transport { cause: TransportCause::Timeout },
        ),
        (Exchange::Malformed, ApiError::Protocol),
    ] {
        let mut session = Session::new();
        session.record_login(0);
        let mut run = RequestRun::new();
        assert!(matches!(run.begin(&session, 1), Action::Exchange));
        match run.on_exchange(&mut session, outcome) {
            Action::Finish(Err(e)) => assert_eq!(e, expected),
            other => panic!("unexpected {other:?}"),
        }
        assert_eq!(run.exchanges, 1);
    }
}

#[test]
fn statuses_are_classified() {
    assert_eq!(classify_status(200), Exchange::Success);
    assert_eq!(classify_status(204), Exchange::Success);
    assert_eq!(classify_status(401), Exchange::Unauthorized);
    assert_eq!(classify_status(404), Exchange::Rejected(404));
    assert_eq!(classify_status(302), Exchange::Rejected(302));
}

#[test]
fn login_expiry_saturates() {
    let mut session = Session::new();
    session.record_login(u64::MAX - 5);
    assert_eq!(session.expiry, Some(u64::MAX));
}

#[test]
fn errors_map_to_statuses() {
    assert_eq!(ApiError::Auth.status_code(), 401);
    assert_eq!(ApiError::NotFound.status_code(), 404);
    assert_eq!(ApiError::PolicyViolation.status_code(), 403);
    assert_eq!(ApiError::Request { status: 418 }.status_code(), 418);
    assert_eq!(ApiError::Protocol.status_code(), 500);
    assert_eq!(ApiError::Transport { cause: TransportCause::Connect }.status_code(), 502);
}
