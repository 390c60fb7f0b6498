use vlc_static::error::InitError;
use vlc_static::guard::{InitAction, InitEvent, InitState};
use vlc_static::guard::InitEvent::{BuildFailed, Built, Request};

fn drive(events: &[InitEvent]) -> (InitState, Vec<InitAction>) {
    let mut s = InitState::new();
    let actions = events.iter().map(|e| s.step(*e)).collect();
    (s, actions)
}

#[test]
fn first_request_initializes() {
    let mut s = InitState::new();
    assert_eq!(s, InitState::Uninitialized);
    assert_eq!(s.step(InitEvent::Request), InitAction::Initialize);
    assert_eq!(s, InitState::Initializing);
    assert!(!s.is_ready());
}

#[test]
fn concurrent_requests_initialize_once() {
    let (s, actions) = drive(&[Request, Request, Request, Built, Request, Request]);
    assert_eq!(s, InitState::Ready);
    assert!(s.is_ready());
    assert_eq!(
        actions,
        vec![
            InitAction::Initialize,
            InitAction::Wait,
            InitAction::Wait,
            InitAction::Publish,
            InitAction::UseTable,
            InitAction::UseTable,
        ]
    );
    assert_eq!(actions.iter().filter(|a| **a == InitAction::Initialize).count(), 1);
}

#[test]
fn failed_build_is_terminal() {
    let (s, actions) = drive(&[Request, Request, BuildFailed, Request, Built]);
    assert_eq!(s, InitState::Failed);
    assert_eq!(
        actions,
        vec![
            InitAction::Initialize,
            InitAction::Wait,
            InitAction::Terminate,
            InitAction::Terminate,
            InitAction::Terminate,
        ]
    );
}

#[test]
fn stray_reports_are_ignored() {
    let (s, actions) = drive(&[Built, BuildFailed, Request, Built, Built, BuildFailed]);
    assert_eq!(s, InitState::Ready);
    assert_eq!(
        actions,
        vec![
            InitAction::Ignore,
            InitAction::Ignore,
            InitAction::Initialize,
            InitAction::Publish,
            InitAction::Ignore,
            InitAction::Ignore,
        ]
    );
}

#[test]
fn error_messages() {
    assert_eq!(InitError::ExecutableUnknown.message(), "current exe has no current dir (?!)");
    assert_eq!(InitError::NoParentDirectory.message(), "current exe has no parent (?!)");
    assert_eq!(InitError::UnpackFailed { index: 2 }.message(), "could not unpack DLL");
    assert_eq!(InitError::LoadFailed.message(), "could not initialize library");
    assert_eq!(InitError::MissingSymbol { index: 4 }.message(), "missing function");
}
