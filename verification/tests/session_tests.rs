use dispatch_bridge::session::{
    CompileOutcome, EntryOutcome, Phase, Session, SessionError,
};

#[test]
fn missing_artifact_fails_before_loop() {
    let mut s = Session::new();
    s.note_compile(CompileOutcome::PathMissing);
    assert_eq!(s.phase, Phase::Failed);
    assert_eq!(s.error, Some(SessionError::ArtifactNotFound));
    // The event loop is never entered from a failed startup.
    assert!(!s.may_enter_loop());
}

#[test]
fn invalid_artifact_fails_before_loop() {
    let mut s = Session::new();
    s.note_compile(CompileOutcome::NotAComponent);
    assert_eq!(s.phase, Phase::Failed);
    assert_eq!(s.error, Some(SessionError::ArtifactInvalid));
    assert!(!s.may_enter_loop());
}

#[test]
fn linkage_failure_precedes_instantiation() {
    let mut s = Session::new();
    s.note_compile(CompileOutcome::Success);
    assert_eq!(s.phase, Phase::Compiled);
    s.note_link(false);
    assert_eq!(s.phase, Phase::Failed);
    assert_eq!(s.error, Some(SessionError::LinkageError));
    // The session never reached the phase from which instantiation
    // proceeds, and the loop is never entered.
    assert!(s.phase != Phase::Linked);
    assert!(s.phase != Phase::Instantiated);
    assert!(!s.may_enter_loop());
}

#[test]
fn instantiation_failure_reported() {
    let mut s = Session::new();
    s.note_compile(CompileOutcome::Success);
    s.note_link(true);
    assert_eq!(s.phase, Phase::Linked);
    s.note_instantiate(false);
    assert_eq!(s.phase, Phase::Failed);
    assert_eq!(s.error, Some(SessionError::InstantiationError));
    assert!(!s.may_enter_loop());
}

#[test]
fn successful_startup_enters_loop() {
    let mut s = Session::new();
    assert!(!s.may_enter_loop());
    s.note_compile(CompileOutcome::Success);
    assert!(!s.may_enter_loop());
    s.note_link(true);
    assert!(!s.may_enter_loop());
    s.note_instantiate(true);
    assert_eq!(s.phase, Phase::Instantiated);
    assert_eq!(s.error, None);
    assert!(s.may_enter_loop());
}

#[test]
fn entry_point_trap_reported() {
    let mut s = Session::new();
    s.note_compile(CompileOutcome::Success);
    s.note_link(true);
    s.note_instantiate(true);
    s.begin_run();
    assert_eq!(s.phase, Phase::Running);
    s.note_entry_result(EntryOutcome::Trap);
    assert_eq!(s.phase, Phase::Failed);
    assert_eq!(s.error, Some(SessionError::EntryPointTrap));
}

#[test]
fn entry_point_component_error_reported() {
    let mut s = Session::new();
    s.note_compile(CompileOutcome::Success);
    s.note_link(true);
    s.note_instantiate(true);
    s.begin_run();
    s.note_entry_result(EntryOutcome::ComponentError);
    assert_eq!(s.phase, Phase::Failed);
    assert_eq!(s.error, Some(SessionError::EntryPointError));
}

#[test]
fn entry_point_success_completes() {
    let mut s = Session::new();
    s.note_compile(CompileOutcome::Success);
    s.note_link(true);
    s.note_instantiate(true);
    s.begin_run();
    s.note_entry_result(EntryOutcome::Success);
    assert_eq!(s.phase, Phase::Completed);
    assert_eq!(s.error, None);
}
