use easy_http_mock::config::EasyHttpMockConfig;
use easy_http_mock::errors::EasyHttpMockError;
use easy_http_mock::lifecycle::ServerState;
use easy_http_mock::server::adapters::{LoopbackAdapter, LoopbackConfig};
use easy_http_mock::EasyHttpMock;

fn mock() -> EasyHttpMock<LoopbackAdapter> {
    EasyHttpMock::new(EasyHttpMockConfig::<LoopbackAdapter>::new(LoopbackConfig::new(9001), None))
}

#[test]
fn start_then_stop_succeeds() {
    let mut m = mock();
    assert_eq!(m.check_start(), Ok(()));
    assert_eq!(m.finish_start(Ok(())), Ok(()));
    assert_eq!(m.check_stop(), Ok(()));
    assert_eq!(m.finish_stop(Ok(())), Ok(()));
}

#[test]
fn stop_before_start_is_refused() {
    let m = mock();
    assert_eq!(m.check_stop(), Err(EasyHttpMockError::NotRunning));
}

#[test]
fn second_start_is_refused() {
    let mut m = mock();
    assert_eq!(m.finish_start(Ok(())), Ok(()));
    assert_eq!(m.check_start(), Err(EasyHttpMockError::AlreadyStarted));
}

#[test]
fn stopped_mock_cannot_restart_or_stop_again() {
    let mut m = mock();
    m.finish_start(Ok(())).unwrap();
    m.finish_stop(Ok(())).unwrap();
    assert_eq!(m.check_start(), Err(EasyHttpMockError::AlreadyStarted));
    assert_eq!(m.check_stop(), Err(EasyHttpMockError::NotRunning));
}

#[test]
fn failed_start_leaves_mock_startable() {
    let mut m = mock();
    let failure = Err(EasyHttpMockError::StartFailed("address in use".to_string()));
    assert_eq!(m.finish_start(failure.clone()), failure);
    assert_eq!(m.check_start(), Ok(()));
    assert_eq!(m.check_stop(), Err(EasyHttpMockError::NotRunning));
}

#[test]
fn failed_stop_leaves_mock_running() {
    let mut m = mock();
    m.finish_start(Ok(())).unwrap();
    let failure = Err(EasyHttpMockError::StopFailed("shutdown".to_string()));
    assert_eq!(m.finish_stop(failure.clone()), failure);
    assert_eq!(m.check_stop(), Ok(()));
}

#[test]
fn state_checks_follow_the_state() {
    assert_eq!(ServerState::Idle.check_start(), Ok(()));
    assert_eq!(ServerState::Running.check_start(), Err(EasyHttpMockError::AlreadyStarted));
    assert_eq!(ServerState::Stopped.check_start(), Err(EasyHttpMockError::AlreadyStarted));
    assert_eq!(ServerState::Idle.check_stop(), Err(EasyHttpMockError::NotRunning));
    assert_eq!(ServerState::Running.check_stop(), Ok(()));
    assert_eq!(ServerState::Stopped.check_stop(), Err(EasyHttpMockError::NotRunning));
}
