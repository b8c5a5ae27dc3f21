use spotify_bridge::startup::{run_startup, InitError, Receipt, Stage, Startup};

#[test]
fn both_handoffs_delivered() {
    let mut s = Startup::new();
    assert_eq!(s.stage(), Stage::AwaitingHandle);
    assert_eq!(s.outcome(), None);
    s.on_handle(Receipt::Delivered);
    assert_eq!(s.stage(), Stage::AwaitingSession);
    assert_eq!(s.outcome(), None);
    s.on_session(Receipt::Delivered);
    assert_eq!(s.stage(), Stage::Ready);
    assert_eq!(s.outcome(), Some(Ok(())));
}

#[test]
fn broken_handle_handoff_fails() {
    let mut s = Startup::new();
    s.on_handle(Receipt::Broken);
    assert_eq!(s.outcome(), Some(Err(InitError::ChannelBroken)));
}

#[test]
fn connect_failure_is_init_error() {
    let mut s = Startup::new();
    s.on_handle(Receipt::Delivered);
    s.on_session(Receipt::ConnectFailed);
    assert_eq!(s.stage(), Stage::Failed(InitError::ConnectFailed));
    assert_eq!(s.outcome(), Some(Err(InitError::ConnectFailed)));
}

#[test]
fn run_startup_outcomes() {
    assert_eq!(run_startup(Receipt::Delivered, Receipt::Delivered), Ok(()));
    assert_eq!(run_startup(Receipt::Delivered, Receipt::Broken), Err(InitError::ChannelBroken));
    assert_eq!(run_startup(Receipt::Delivered, Receipt::ConnectFailed), Err(InitError::ConnectFailed));
    assert_eq!(run_startup(Receipt::Broken, Receipt::Delivered), Err(InitError::ChannelBroken));
    assert_eq!(run_startup(Receipt::ConnectFailed, Receipt::Delivered), Err(InitError::ConnectFailed));
}
