//! The decisions of a login/register on a connection: replay for a
//! connection that already holds a session, otherwise a cluster-wide
//! `Register`, and only after it commits the local login and bind and one
//! reply. The caller performs each action and reports what came of it.

use vstd::prelude::*;

use crate::credentials::LoginRegisterError;
use crate::http_error::IggyError;

verus! {

/// Where a login/register stands.
#[derive(Debug, Clone, Copy, PartialEq, Eq)]
pub enum LoginRegisterState {
    /// Credentials verified; nothing done yet.
    Start,
    /// `Register` submitted; its commit is awaited. The session table is
    /// untouched until it commits.
    AwaitingRegister,
    /// `Register` committed; the local login and bind are under way.
    Binding,
    /// Finished: replied or failed.
    Done,
}

/// What the caller reports.
#[derive(Debug, PartialEq, Eq)]
pub enum LoginRegisterEvent {
    /// The step begins; whether the connection already holds a bound
    /// session.
    Begin { existing_session: bool },
    /// `Register` could not commit right now; the error it failed with.
    RegisterFailed(IggyError),
    /// `Register` committed cluster-wide.
    RegisterCommitted,
    /// The session table refused the login.
    LoginRefused,
    /// The session table refused the bind.
    BindRefused,
    /// Logged in, SDK information recorded and the session bound.
    Bound,
}

/// What the caller does next.
#[derive(Debug, PartialEq, Eq)]
pub enum LoginRegisterAction {
    /// Record the client's SDK information on the existing session and send
    /// the login reply for it; no `Register`. The login succeeds.
    ReplayExisting,
    /// Submit `Register` for the connection and await its commit.
    SubmitRegister,
    /// In one borrow of the session table with no await: log the connection
    /// in, record its SDK information and bind the committed session.
    LoginAndBind,
    /// Send the login reply for the bound session. The login succeeds.
    SendReply,
    /// The login fails with this error; nothing is sent here.
    Fail(LoginRegisterError),
    /// Nothing: the event does not apply in this state.
    Ignore,
}

pub open spec fn spec_login_register_step(
    state: LoginRegisterState,
    event: LoginRegisterEvent,
) -> (LoginRegisterState, LoginRegisterAction) {
    match (state, event) {
        (LoginRegisterState::Start, LoginRegisterEvent::Begin { existing_session }) => if existing_session {
            (LoginRegisterState::Done, LoginRegisterAction::ReplayExisting)
        } else {
            (LoginRegisterState::AwaitingRegister, LoginRegisterAction::SubmitRegister)
        },
        (LoginRegisterState::AwaitingRegister, LoginRegisterEvent::RegisterFailed(error)) => (
            LoginRegisterState::Done,
            LoginRegisterAction::Fail(LoginRegisterError::Transient(error)),
        ),
        (LoginRegisterState::AwaitingRegister, LoginRegisterEvent::RegisterCommitted) => (
            LoginRegisterState::Binding,
            LoginRegisterAction::LoginAndBind,
        ),
        (LoginRegisterState::Binding, LoginRegisterEvent::LoginRefused) => (
            LoginRegisterState::Done,
            LoginRegisterAction::Fail(LoginRegisterError::Session),
        ),
        (LoginRegisterState::Binding, LoginRegisterEvent::BindRefused) => (
            LoginRegisterState::Done,
            LoginRegisterAction::Fail(LoginRegisterError::Session),
        ),
        (LoginRegisterState::Binding, LoginRegisterEvent::Bound) => (
            LoginRegisterState::Done,
            LoginRegisterAction::SendReply,
        ),
        _ => (state, LoginRegisterAction::Ignore),
    }
}

/// One step of a login/register: a connection that already holds a session
/// gets its SDK information refreshed and one reply, with no `Register`;
/// otherwise `Register` is submitted, and a failed submit is `Transient`,
/// carrying the submit's own error, with the session table untouched and
/// nothing sent; a commit is followed by the local login and bind, either
/// refusal being `Session`, and then one reply. An event that does not apply
/// leaves the state as it is and asks nothing.
pub fn login_register_step(state: LoginRegisterState, event: LoginRegisterEvent) -> (s: (
    LoginRegisterState,
    LoginRegisterAction,
))
    ensures
        s == spec_login_register_step(state, event),
{
    match (state, event) {
        (LoginRegisterState::Start, LoginRegisterEvent::Begin { existing_session }) => if existing_session {
            (LoginRegisterState::Done, LoginRegisterAction::ReplayExisting)
        } else {
            (LoginRegisterState::AwaitingRegister, LoginRegisterAction::SubmitRegister)
        },
        (LoginRegisterState::AwaitingRegister, LoginRegisterEvent::RegisterFailed(error)) => (
            LoginRegisterState::Done,
            LoginRegisterAction::Fail(LoginRegisterError::Transient(error)),
        ),
        (LoginRegisterState::AwaitingRegister, LoginRegisterEvent::RegisterCommitted) => (
            LoginRegisterState::Binding,
            LoginRegisterAction::LoginAndBind,
        ),
        (LoginRegisterState::Binding, LoginRegisterEvent::LoginRefused) => (
            LoginRegisterState::Done,
            LoginRegisterAction::Fail(LoginRegisterError::Session),
        ),
        (LoginRegisterState::Binding, LoginRegisterEvent::BindRefused) => (
            LoginRegisterState::Done,
            LoginRegisterAction::Fail(LoginRegisterError::Session),
        ),
        (LoginRegisterState::Binding, LoginRegisterEvent::Bound) => (
            LoginRegisterState::Done,
            LoginRegisterAction::SendReply,
        ),
        _ => (state, LoginRegisterAction::Ignore),
    }
}

// ---------------------------------------------------------------------------
// Laws
// ---------------------------------------------------------------------------

/// The actions a run of `events` asks for, starting in `state`.
pub open spec fn run_actions(state: LoginRegisterState, events: Seq<LoginRegisterEvent>) -> Seq<
    LoginRegisterAction,
>
    decreases events.len(),
{
    if events.len() == 0 {
        seq![]
    } else {
        let (next, action) = spec_login_register_step(state, events[0]);
        seq![action] + run_actions(next, events.drop_first())
    }
}

pub open spec fn is_reply(a: LoginRegisterAction) -> bool {
    a is ReplayExisting || a is SendReply
}

pub open spec fn is_outcome(a: LoginRegisterAction) -> bool {
    is_reply(a) || a is Fail
}

/// The number of actions in `actions` that `p` holds of.
pub open spec fn count_where(actions: Seq<LoginRegisterAction>, p: spec_fn(LoginRegisterAction) -> bool) -> nat
    decreases actions.len(),
{
    if actions.len() == 0 {
        0
    } else {
        (if p(actions[0]) {
            1nat
        } else {
            0nat
        }) + count_where(actions.drop_first(), p)
    }
}

proof fn lemma_done_asks_nothing(events: Seq<LoginRegisterEvent>, p: spec_fn(LoginRegisterAction) -> bool)
    requires
        !p(LoginRegisterAction::Ignore),
    ensures
        count_where(run_actions(LoginRegisterState::Done, events), p) == 0,
    decreases events.len(),
{
    if events.len() > 0 {
        lemma_done_asks_nothing(events.drop_first(), p);
        let acts = run_actions(LoginRegisterState::Done, events);
        assert(acts.drop_first() =~= run_actions(LoginRegisterState::Done, events.drop_first()));
    }
}

proof fn lemma_at_most_one_outcome(state: LoginRegisterState, events: Seq<LoginRegisterEvent>)
    ensures
        count_where(run_actions(state, events), |a: LoginRegisterAction| is_outcome(a)) <= 1,
        state is Done ==> count_where(run_actions(state, events), |a: LoginRegisterAction| is_outcome(a))
            == 0,
    decreases events.len(),
{
    let p = |a: LoginRegisterAction| is_outcome(a);
    if events.len() > 0 {
        let (next, action) = spec_login_register_step(state, events[0]);
        lemma_at_most_one_outcome(next, events.drop_first());
        let acts = run_actions(state, events);
        assert(acts.drop_first() =~= run_actions(next, events.drop_first()));
        if is_outcome(action) {
            lemma_done_asks_nothing(events.drop_first(), p);
        }
    }
}

proof fn lemma_register_only_without_session(state: LoginRegisterState, events: Seq<LoginRegisterEvent>)
    requires
        state is Start,
        forall|i: int|
            0 <= i < events.len() ==> (#[trigger] events[i] matches LoginRegisterEvent::Begin {
                existing_session,
            } ==> existing_session),
    ensures
        count_where(run_actions(state, events), |a: LoginRegisterAction| a is SubmitRegister) == 0,
    decreases events.len(),
{
    let p = |a: LoginRegisterAction| a is SubmitRegister;
    if events.len() > 0 {
        let (next, action) = spec_login_register_step(state, events[0]);
        let acts = run_actions(state, events);
        assert(acts.drop_first() =~= run_actions(next, events.drop_first()));
        if next is Done {
            lemma_done_asks_nothing(events.drop_first(), p);
        } else {
            assert forall|i: int|
                0 <= i < events.drop_first().len() implies (#[trigger] events.drop_first()[i] matches LoginRegisterEvent::Begin {
                existing_session,
            } ==> existing_session) by {
                assert(events.drop_first()[i] == events[i + 1]);
            }
            lemma_register_only_without_session(next, events.drop_first());
        }
    }
}

/// Whatever the caller reports, a login/register ends at most once: it
/// sends at most one reply or fails at most once, never both, and a
/// connection that already holds a session never submits a `Register`.
pub proof fn law_one_outcome_per_login(events: Seq<LoginRegisterEvent>)
    ensures
        count_where(
            run_actions(LoginRegisterState::Start, events),
            |a: LoginRegisterAction| is_outcome(a),
        ) <= 1,
        (forall|i: int|
            0 <= i < events.len() ==> (#[trigger] events[i] matches LoginRegisterEvent::Begin {
                existing_session,
            } ==> existing_session)) ==> count_where(
            run_actions(LoginRegisterState::Start, events),
            |a: LoginRegisterAction| a is SubmitRegister,
        ) == 0,
{
    lemma_at_most_one_outcome(LoginRegisterState::Start, events);
    if forall|i: int|
        0 <= i < events.len() ==> (#[trigger] events[i] matches LoginRegisterEvent::Begin {
            existing_session,
        } ==> existing_session) {
        lemma_register_only_without_session(LoginRegisterState::Start, events);
    }
}

} // verus!
