//! The controller session and the request executor. Every operation logs in
//! when the session is absent or expired, performs its exchange, and on a
//! first 401 clears the session, logs in again and retries exactly once.
//!
//! The executor is a state machine: the caller performs each action it asks
//! for (a login or an exchange) and hands back the outcome.

use crate::models::{ApiError, TransportCause};
use vstd::prelude::*;

verus! {

/// How long a login keeps the session valid, in seconds.
pub const SESSION_TTL_SECONDS: u64 = 1800;

/// The tracked session: the instant (seconds of a monotonic clock) at which
/// it stops being valid, if logged in.
#[derive(Debug, Clone, Copy, PartialEq, Eq, Structural)]
pub struct Session {
    pub expiry: Option<u64>,
}

pub open spec fn login_expiry(now: u64) -> u64 {
    if now as int + SESSION_TTL_SECONDS as int > u64::MAX as int {
        u64::MAX
    } else {
        (now + SESSION_TTL_SECONDS) as u64
    }
}

pub open spec fn session_needs_login(s: Session, now: u64) -> bool {
    match s.expiry {
        None => true,
        Some(e) => now >= e,
    }
}

impl Session {
    pub fn new() -> (r: Session)
        ensures
            r.expiry is None,
    {
        Session { expiry: None }
    }

    /// Whether a login must come before the next exchange at time `now`.
    pub fn needs_login(&self, now: u64) -> (r: bool)
        ensures
            r == session_needs_login(*self, now),
    {
        match self.expiry {
            None => true,
            Some(e) => now >= e,
        }
    }

    /// Records a successful login at time `now`.
    pub fn record_login(&mut self, now: u64)
        ensures
            final(self).expiry == Some(login_expiry(now)),
    {
        self.expiry = Some(now.saturating_add(SESSION_TTL_SECONDS));
    }

    /// Forgets the session, so that the next exchange logs in first.
    pub fn invalidate(&mut self)
        ensures
            final(self).expiry is None,
    {
        self.expiry = None;
    }
}

/// The outcome of one HTTP exchange with the controller.
#[derive(Debug, Clone, Copy, PartialEq, Eq, Structural)]
pub enum Exchange {
    /// A 2xx answer whose body decoded into the expected shape.
    Success,
    /// A 401 answer.
    Unauthorized,
    /// Any other non-2xx answer, with its status.
    Rejected(u16),
    /// The exchange did not complete, for this cause.
    Transport(TransportCause),
    /// A 2xx answer whose body did not decode.
    Malformed,
}

pub open spec fn status_outcome(status: u16) -> Exchange {
    if 200 <= status <= 299 {
        Exchange::Success
    } else if status == 401 {
        Exchange::Unauthorized
    } else {
        Exchange::Rejected(status)
    }
}

/// The outcome that an answer with HTTP status `status` stands for, before
/// its body is decoded.
pub fn classify_status(status: u16) -> (r: Exchange)
    ensures
        r == status_outcome(status),
{
    if 200 <= status && status <= 299 {
        Exchange::Success
    } else if status == 401 {
        Exchange::Unauthorized
    } else {
        Exchange::Rejected(status)
    }
}

/// The error that ends a run on a final outcome other than success.
pub open spec fn outcome_result(o: Exchange) -> Result<(), ApiError> {
    match o {
        Exchange::Success => Ok(()),
        Exchange::Unauthorized => Err(ApiError::Auth),
        Exchange::Rejected(s) => Err(ApiError::Request { status: s }),
        Exchange::Transport(cause) => Err(ApiError::Transport { cause }),
        Exchange::Malformed => Err(ApiError::Protocol),
    }
}

#[derive(Debug, Clone, Copy, PartialEq, Eq, Structural)]
pub enum Stage {
    Start,
    LoggingIn,
    Exchanging,
    Done,
}

/// What the caller is to do next.
#[derive(Debug, Clone, Copy)]
pub enum Action {
    Login,
    Exchange,
    /// The run is over: `Ok` means that the last exchange's body is the answer.
    Finish(Result<(), ApiError>),
}

/// One request in progress: its stage and how many exchanges it has made.
#[derive(Debug, Clone, Copy)]
pub struct RequestRun {
    pub stage: Stage,
    pub exchanges: u8,
}

/// A run never asks for a third exchange.
pub open spec fn run_ok(r: RequestRun) -> bool {
    &&& r.exchanges <= 2
    &&& (r.stage == Stage::Start ==> r.exchanges == 0)
    &&& (r.stage == Stage::LoggingIn || r.stage == Stage::Exchanging ==> r.exchanges < 2)
}

/// The effect of a run's step: the run after it, the session after it, and
/// the action asked for.
pub struct Transition {
    pub run: RequestRun,
    pub session: Session,
    pub action: Action,
}

pub open spec fn begin_step(r: RequestRun, s: Session, now: u64) -> Transition {
    if session_needs_login(s, now) {
        Transition { run: RequestRun { stage: Stage::LoggingIn, ..r }, session: s, action: Action::Login }
    } else {
        Transition { run: RequestRun { stage: Stage::Exchanging, ..r }, session: s, action: Action::Exchange }
    }
}

pub open spec fn login_step(r: RequestRun, s: Session, ok: bool, now: u64) -> Transition {
    if ok {
        Transition {
            run: RequestRun { stage: Stage::Exchanging, ..r },
            session: Session { expiry: Some(login_expiry(now)) },
            action: Action::Exchange,
        }
    } else {
        Transition {
            run: RequestRun { stage: Stage::Done, ..r },
            session: s,
            action: Action::Finish(Err(ApiError::Auth)),
        }
    }
}

pub open spec fn exchange_step(r: RequestRun, s: Session, o: Exchange) -> Transition {
    let n = (r.exchanges + 1) as u8;
    if o == Exchange::Unauthorized && r.exchanges == 0 {
        Transition {
            run: RequestRun { stage: Stage::LoggingIn, exchanges: n },
            session: Session { expiry: None },
            action: Action::Login,
        }
    } else {
        Transition {
            run: RequestRun { stage: Stage::Done, exchanges: n },
            session: s,
            action: Action::Finish(outcome_result(o)),
        }
    }
}

impl RequestRun {
    pub fn new() -> (r: RequestRun)
        ensures
            r.stage == Stage::Start,
            r.exchanges == 0,
    {
        RequestRun { stage: Stage::Start, exchanges: 0 }
    }

    /// Starts the run: log in first where the session is absent or expired.
    pub fn begin(&mut self, session: &Session, now: u64) -> (a: Action)
        requires
            old(self).stage == Stage::Start,
        ensures
            *final(self) == begin_step(*old(self), *session, now).run,
            a == begin_step(*old(self), *session, now).action,
    {
        if session.needs_login(now) {
            self.stage = Stage::LoggingIn;
            Action::Login
        } else {
            self.stage = Stage::Exchanging;
            Action::Exchange
        }
    }

    /// Takes the result of the login that was asked for.
    pub fn on_login(&mut self, session: &mut Session, ok: bool, now: u64) -> (a: Action)
        requires
            old(self).stage == Stage::LoggingIn,
        ensures
            *final(self) == login_step(*old(self), *old(session), ok, now).run,
            *final(session) == login_step(*old(self), *old(session), ok, now).session,
            a == login_step(*old(self), *old(session), ok, now).action,
    {
        if ok {
            session.record_login(now);
            self.stage = Stage::Exchanging;
            Action::Exchange
        } else {
            self.stage = Stage::Done;
            Action::Finish(Err(ApiError::Auth))
        }
    }

    /// Takes the outcome of the exchange that was asked for. A first 401
    /// clears the session and asks for a login and one more exchange; any
    /// other outcome, and a second 401, ends the run.
    pub fn on_exchange(&mut self, session: &mut Session, outcome: Exchange) -> (a: Action)
        requires
            old(self).stage == Stage::Exchanging,
            run_ok(*old(self)),
        ensures
            *final(self) == exchange_step(*old(self), *old(session), outcome).run,
            *final(session) == exchange_step(*old(self), *old(session), outcome).session,
            a == exchange_step(*old(self), *old(session), outcome).action,
    {
        let first = self.exchanges == 0;
        self.exchanges = self.exchanges + 1;
        match outcome {
            Exchange::Unauthorized => {
                if first {
                    session.invalidate();
                    self.stage = Stage::LoggingIn;
                    Action::Login
                } else {
                    self.stage = Stage::Done;
                    Action::Finish(Err(ApiError::Auth))
                }
            },
            Exchange::Success => {
                self.stage = Stage::Done;
                Action::Finish(Ok(()))
            },
            Exchange::Rejected(s) => {
                self.stage = Stage::Done;
                Action::Finish(Err(ApiError::Request { status: s }))
            },
            Exchange::Transport(cause) => {
                self.stage = Stage::Done;
                Action::Finish(Err(ApiError::Transport { cause }))
            },
            Exchange::Malformed => {
                self.stage = Stage::Done;
                Action::Finish(Err(ApiError::Protocol))
            },
        }
    }
}

/// Every step keeps a run within two exchanges, and a run asks for an
/// exchange only while it has made fewer than two.
pub proof fn runs_stay_within_two_exchanges(r: RequestRun, s: Session, now: u64, ok: bool, o: Exchange)
    requires
        run_ok(r),
    ensures
        r.stage == Stage::Start ==> run_ok(begin_step(r, s, now).run),
        r.stage == Stage::LoggingIn ==> run_ok(login_step(r, s, ok, now).run),
        r.stage == Stage::Exchanging ==> run_ok(exchange_step(r, s, o).run),
        r.stage == Stage::Exchanging ==> r.exchanges < 2,
{
}

/// A 401 on the first exchange clears the session and asks for exactly one
/// login and one more exchange; a 401 on that retry ends the run with
/// `Auth` after two exchanges, asking for nothing more.
pub proof fn second_unauthorized_fails(r: RequestRun, s: Session, now: u64)
    requires
        r.stage == Stage::Exchanging,
        r.exchanges == 0,
    ensures
        ({
            let t1 = exchange_step(r, s, Exchange::Unauthorized);
            let t2 = login_step(t1.run, t1.session, true, now);
            let t3 = exchange_step(t2.run, t2.session, Exchange::Unauthorized);
            &&& t1.session.expiry is None
            &&& t1.action == Action::Login
            &&& t2.action == Action::Exchange
            &&& t3.action == Action::Finish(Err(ApiError::Auth))
            &&& t3.run.exchanges == 2
            &&& t3.run.stage == Stage::Done
        }),
{
}

} // verus!
