use vstd::pervasive::unreached;
use vstd::prelude::*;
use crate::toshiba_api::login::{LoginMessage, LoginSuccessResponse};

verus! {

/// A login that got no answer from the service: the connection failed, or what came
/// back could not be read.
#[derive(Debug, Clone, PartialEq, Eq)]
pub struct TransportError {
    pub detail: String,
}

/// Why no session could be handed out.
#[derive(Debug, Clone, PartialEq, Eq)]
pub enum SessionError {
    /// The login got no answer. The caller may try again.
    Transport(TransportError),
    /// The service refused the credentials. Trying again with the same credentials
    /// is of no use: this is fatal to whoever needs the session.
    InvalidCredentials { message: String },
}

/// What a login attempt ended in.
pub type LoginOutcome = Result<LoginMessage, TransportError>;

/// What one caller is told: the session, or why there is none.
pub type Answer = Result<LoginSuccessResponse, SessionError>;

/// The slot after the outcome of a login has arrived. Only an empty slot takes a
/// session in, and only from a successful login; a populated one is never written
/// again.
pub open spec fn after_login(
    slot: Option<LoginSuccessResponse>,
    outcome: LoginOutcome,
) -> Option<LoginSuccessResponse> {
    match slot {
        Some(session) => Some(session),
        None => match outcome {
            Ok(LoginMessage::Success { res_obj, .. }) => Some(res_obj),
            _ => None,
        },
    }
}

/// What the caller who made a login is told when its outcome arrives.
pub open spec fn verdict(outcome: LoginOutcome) -> Answer {
    match outcome {
        Ok(LoginMessage::Success { res_obj, .. }) => Ok(res_obj),
        Ok(LoginMessage::InvalidUserNameOrPassword { message, .. }) => Err(
            SessionError::InvalidCredentials { message },
        ),
        Err(error) => Err(SessionError::Transport(error)),
    }
}

/// What a caller is told by a slot. A populated slot answers with its session; for
/// an empty one the answer is that of the login whose outcome is `outcome`.
pub open spec fn answer(slot: Option<LoginSuccessResponse>, outcome: LoginOutcome) -> Answer {
    match slot {
        Some(session) => Ok(session),
        None => verdict(outcome),
    }
}

/// An answer that lends the session, as the answer that holds it.
pub open spec fn owned(lent: Result<&LoginSuccessResponse, SessionError>) -> Answer {
    match lent {
        Ok(session) => Ok(*session),
        Err(error) => Err(error),
    }
}

/// One call served: the slot it leaves, the logins it made, what it told its caller.
pub struct Served {
    pub slot: Option<LoginSuccessResponse>,
    pub logins: nat,
    pub answer: Answer,
}

/// One call of get-or-acquire on `slot`. It logs in only where the slot is empty,
/// and `outcome` is what that login ends in.
pub open spec fn serve(slot: Option<LoginSuccessResponse>, outcome: LoginOutcome) -> Served {
    Served {
        slot: after_login(slot, outcome),
        logins: if slot is None {
            1
        } else {
            0
        },
        answer: answer(slot, outcome),
    }
}

/// Calls served one after the other: the slot they leave, the logins they made in
/// all, and what each caller was told.
pub struct Tally {
    pub slot: Option<LoginSuccessResponse>,
    pub logins: nat,
    pub answers: Seq<Answer>,
}

/// The calls of get-or-acquire on `slot`, one for each element of `outcomes` and in
/// that order, each one finished before the next begins. The i-th outcome is what
/// the login of the i-th call ends in, if that call logs in.
pub open spec fn serve_all(slot: Option<LoginSuccessResponse>, outcomes: Seq<LoginOutcome>) -> Tally
    decreases outcomes.len(),
{
    if outcomes.len() == 0 {
        Tally { slot: slot, logins: 0, answers: Seq::empty() }
    } else {
        let first = serve(slot, outcomes[0]);
        let rest = serve_all(first.slot, outcomes.drop_first());
        Tally {
            slot: rest.slot,
            logins: first.logins + rest.logins,
            answers: seq![first.answer] + rest.answers,
        }
    }
}

/// The place of the one session that all requests share: empty until a login
/// succeeds, populated from then on.
pub struct SessionStore {
    slot: Option<LoginSuccessResponse>,
}

impl View for SessionStore {
    type V = Option<LoginSuccessResponse>;

    closed spec fn view(&self) -> Option<LoginSuccessResponse> {
        self.slot
    }
}

impl SessionStore {
    /// A store that holds nothing yet.
    pub fn new() -> (r: SessionStore)
        ensures
            r@ is None,
    {
        SessionStore { slot: None }
    }

    /// Whether a caller has to log in before the store can answer.
    pub fn needs_login(&self) -> (r: bool)
        ensures
            r == (self@ is None),
    {
        self.slot.is_none()
    }

    /// The session, once a login has succeeded.
    pub fn session(&self) -> (r: Option<&LoginSuccessResponse>)
        ensures
            r == match self@ {
                Some(session) => Some(&session),
                None => None,
            },
    {
        self.slot.as_ref()
    }

    /// Takes in the outcome of a login and says how the caller stands. An empty
    /// store keeps the session of a successful login; after a refused or unanswered
    /// one it stays empty and the caller is told why. A populated store is left as
    /// it is, whatever the outcome.
    pub fn record_login(&mut self, outcome: LoginOutcome) -> (r: Result<(), SessionError>)
        ensures
            final(self)@ == after_login(old(self)@, outcome),
            r == match answer(old(self)@, outcome) {
                Ok(_) => Ok::<(), SessionError>(()),
                Err(error) => Err::<(), SessionError>(error),
            },
            r is Ok <==> final(self)@ is Some,
    {
        if self.slot.is_some() {
            return Ok(());
        }
        match outcome {
            Err(error) => Err(SessionError::Transport(error)),
            Ok(LoginMessage::InvalidUserNameOrPassword { message, .. }) => Err(
                SessionError::InvalidCredentials { message },
            ),
            Ok(LoginMessage::Success { res_obj, .. }) => {
                self.slot = Some(res_obj);
                Ok(())
            },
        }
    }

    /// Hands out the session, and logs in first where the store is empty: `login` is
    /// called then, once, and its outcome is taken in. A populated store answers
    /// with its session and `login` is not called.
    pub fn get_session<F: FnOnce() -> LoginOutcome>(&mut self, login: F) -> (r: Result<
        &LoginSuccessResponse,
        SessionError,
    >)
        requires
            call_requires(login, ()),
        ensures
            match old(self)@ {
                Some(session) => final(self)@ == old(self)@ && r == Ok::<
                    &LoginSuccessResponse,
                    SessionError,
                >(&session),
                None => exists|outcome: LoginOutcome|
                    {
                        &&& call_ensures(login, (), outcome)
                        &&& final(self)@ == #[trigger] after_login(None, outcome)
                        &&& owned(r) == verdict(outcome)
                    },
            },
    {
        if self.needs_login() {
            let outcome = login();
            match self.record_login(outcome) {
                Err(error) => {
                    return Err(error);
                },
                Ok(()) => {},
            }
        }
        match &self.slot {
            Some(session) => Ok(session),
            None => unreached(),
        }
    }
}

/// Once a store is populated, no call logs in again, the session stays in its place,
/// and every caller is handed that session, whatever a login would have ended in.
pub proof fn lemma_populated_store_never_logs_in(
    session: LoginSuccessResponse,
    outcomes: Seq<LoginOutcome>,
)
    ensures
        serve_all(Some(session), outcomes).logins == 0,
        serve_all(Some(session), outcomes).slot == Some(session),
        serve_all(Some(session), outcomes).answers.len() == outcomes.len(),
        forall|i: int|
            0 <= i < outcomes.len() ==> (#[trigger] serve_all(Some(session), outcomes).answers[i])
                == Ok::<LoginSuccessResponse, SessionError>(session),
    decreases outcomes.len(),
{
    if outcomes.len() > 0 {
        let rest = outcomes.drop_first();
        lemma_populated_store_never_logs_in(session, rest);
        let tally = serve_all(Some(session), outcomes);
        assert forall|i: int| 0 <= i < outcomes.len() implies (#[trigger] tally.answers[i]) == Ok::<
            LoginSuccessResponse,
            SessionError,
        >(session) by {
            if i > 0 {
                assert(tally.answers[i] == serve_all(Some(session), rest).answers[i - 1]);
            }
        }
    }
}

/// Calls that meet an empty store one after the other make one login between them,
/// provided that login succeeds: the first call logs in, the others find the store
/// populated, and all are handed the session that the login opened.
pub proof fn lemma_single_login_serves_all(outcomes: Seq<LoginOutcome>)
    requires
        outcomes.len() >= 1,
        outcomes[0] matches Ok(LoginMessage::Success { .. }),
    ensures
        serve_all(None, outcomes).logins == 1,
        serve_all(None, outcomes).answers.len() == outcomes.len(),
        forall|i: int|
            0 <= i < outcomes.len() ==> (#[trigger] serve_all(None, outcomes).answers[i])
                == verdict(outcomes[0]),
        verdict(outcomes[0]) is Ok,
        serve_all(None, outcomes).slot == after_login(None, outcomes[0]),
        serve_all(None, outcomes).slot is Some,
{
    let first = serve(None, outcomes[0]);
    let rest = outcomes.drop_first();
    let session = first.slot->0;
    lemma_populated_store_never_logs_in(session, rest);
    let tally = serve_all(None, outcomes);
    assert forall|i: int| 0 <= i < outcomes.len() implies (#[trigger] tally.answers[i]) == verdict(
        outcomes[0],
    ) by {
        if i > 0 {
            assert(tally.answers[i] == serve_all(first.slot, rest).answers[i - 1]);
        }
    }
}

/// A login that did not succeed changes nothing: the store stays empty, the caller
/// is told why, and the calls that follow start from an empty store again.
pub proof fn lemma_failed_login_leaves_store_empty(outcome: LoginOutcome, later: Seq<LoginOutcome>)
    requires
        !(outcome matches Ok(LoginMessage::Success { .. })),
    ensures
        serve(None, outcome).slot is None,
        serve(None, outcome).answer is Err,
        serve(None, outcome).answer == verdict(outcome),
        serve_all(None, seq![outcome] + later).logins == 1 + serve_all(None, later).logins,
        serve_all(None, seq![outcome] + later).slot == serve_all(None, later).slot,
{
    let all = seq![outcome] + later;
    assert(all[0] == outcome);
    assert(all.drop_first() =~= later);
}

/// No run of calls makes more logins than it has calls.
pub proof fn lemma_logins_bounded(slot: Option<LoginSuccessResponse>, outcomes: Seq<LoginOutcome>)
    ensures
        serve_all(slot, outcomes).logins <= outcomes.len(),
        serve_all(slot, outcomes).answers.len() == outcomes.len(),
    decreases outcomes.len(),
{
    if outcomes.len() > 0 {
        lemma_logins_bounded(serve(slot, outcomes[0]).slot, outcomes.drop_first());
    }
}

} // verus!
