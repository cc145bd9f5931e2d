use iggy_core::credentials::LoginRegisterError;
use iggy_core::http_error::{IggyError, IggyErrorKind};
use iggy_core::login::{
    login_register_step, LoginRegisterAction as Action, LoginRegisterEvent as Event,
    LoginRegisterState as State,
};

#[test]
fn existing_session_replays_without_register() {
    assert_eq!(
        login_register_step(State::Start, Event::Begin { existing_session: true }),
        (State::Done, Action::ReplayExisting)
    );
}

#[test]
fn fresh_login_registers_then_binds_then_replies() {
    let (s, a) = login_register_step(State::Start, Event::Begin { existing_session: false });
    assert_eq!((s, a), (State::AwaitingRegister, Action::SubmitRegister));
    let (s, a) = login_register_step(s, Event::RegisterCommitted);
    assert_eq!((s, a), (State::Binding, Action::LoginAndBind));
    assert_eq!(login_register_step(s, Event::Bound), (State::Done, Action::SendReply));
    assert_eq!(
        login_register_step(s, Event::LoginRefused),
        (State::Done, Action::Fail(LoginRegisterError::Session))
    );
    assert_eq!(
        login_register_step(s, Event::BindRefused),
        (State::Done, Action::Fail(LoginRegisterError::Session))
    );
}

#[test]
fn failed_register_is_transient_and_late_events_are_ignored() {
    assert_eq!(
        login_register_step(State::AwaitingRegister, Event::RegisterFailed(pipeline_full())),
        (State::Done, Action::Fail(LoginRegisterError::Transient(pipeline_full())))
    );
    assert_eq!(login_register_step(State::Done, Event::Bound), (State::Done, Action::Ignore));
    assert_eq!(login_register_step(State::Start, Event::RegisterCommitted), (State::Start, Action::Ignore));
}

fn pipeline_full() -> IggyError {
    IggyError {
        kind: IggyErrorKind::TransientNotCommitted,
        code: 12,
        name: "transient_not_committed".to_owned(),
        message: "pipeline full".to_owned(),
    }
}
