use pdf_thumb::{LoadAction, LoadEvent, LoadFlow, LoadPhase, LoadSource, PdfThumbError};

#[test]
fn memory_route_fills_detaches_then_loads() {
    let mut f = LoadFlow::new(LoadSource::Memory);
    assert_eq!(f.next_action(), LoadAction::CreateStream);
    f = f.step(LoadEvent::StepOk);
    assert_eq!(f.phase, LoadPhase::StreamReady);
    assert_eq!(f.next_action(), LoadAction::WriteAll);
    f = f.step(LoadEvent::StepOk);
    assert_eq!(f.next_action(), LoadAction::Store);
    f = f.step(LoadEvent::StepOk);
    assert_eq!(f.next_action(), LoadAction::Flush);
    f = f.step(LoadEvent::StepOk);
    assert_eq!(f.next_action(), LoadAction::Detach);
    f = f.step(LoadEvent::StepOk);
    assert_eq!(f.phase, LoadPhase::Detached);
    assert_eq!(f.next_action(), LoadAction::LoadFromStream);
    f = f.step(LoadEvent::DocumentLoaded);
    assert_eq!(f.phase, LoadPhase::Loaded);
    assert!(f.is_terminal());
    assert_eq!(f.next_action(), LoadAction::Finish);
    assert_eq!(f.into_result(), Ok(()));
}

#[test]
fn path_route_resolves_file_then_loads() {
    let mut f = LoadFlow::new(LoadSource::Path);
    assert_eq!(f.next_action(), LoadAction::ResolveFile);
    f = f.step(LoadEvent::StepOk);
    assert_eq!(f.phase, LoadPhase::FileResolved);
    assert_eq!(f.next_action(), LoadAction::LoadFromFile);
    f = f.step(LoadEvent::DocumentLoaded);
    assert_eq!(f.phase, LoadPhase::Loaded);
    assert_eq!(f.into_result(), Ok(()));
}

#[test]
fn invalid_document_fails_with_platform_error() {
    let mut f = LoadFlow::new(LoadSource::Memory);
    for _ in 0..5 {
        f = f.step(LoadEvent::StepOk);
    }
    assert_eq!(f.next_action(), LoadAction::LoadFromStream);
    f = f.step(LoadEvent::PlatformError(-2147219196));
    assert_eq!(f.phase, LoadPhase::Failed);
    assert_eq!(f.into_result(), Err(PdfThumbError::Windows(-2147219196)));
}

#[test]
fn failure_is_immediate_and_final() {
    let f = LoadFlow::new(LoadSource::Memory).step(LoadEvent::PlatformError(-7));
    assert_eq!(f.phase, LoadPhase::Failed);
    let g = f.step(LoadEvent::DocumentLoaded);
    assert_eq!(g.phase, LoadPhase::Failed);
    assert_eq!(g.error, Some(PdfThumbError::Windows(-7)));
}

#[test]
fn missing_file_fails_with_io_error() {
    // the resolve-file step fails: a file-system failure, the I/O kind
    let f = LoadFlow::new(LoadSource::Path).step(LoadEvent::PlatformError(-2147024894));
    assert_eq!(f.phase, LoadPhase::Failed);
    assert_eq!(f.error, Some(PdfThumbError::Io));
    assert_eq!(f.into_result(), Err(PdfThumbError::Io));
}

#[test]
fn load_from_file_failure_is_platform_kind() {
    // the file was resolved; a failure loading the document from it
    // comes from the document subsystem
    let mut f = LoadFlow::new(LoadSource::Path);
    f = f.step(LoadEvent::StepOk);
    f = f.step(LoadEvent::PlatformError(-9));
    assert_eq!(f.phase, LoadPhase::Failed);
    assert_eq!(f.error, Some(PdfThumbError::Windows(-9)));
}

#[test]
fn memory_route_failures_are_platform_kind() {
    let f = LoadFlow::new(LoadSource::Memory).step(LoadEvent::PlatformError(-2));
    assert_eq!(f.error, Some(PdfThumbError::Windows(-2)));
}

#[test]
fn unexpected_event_leaves_the_load_unchanged() {
    let f = LoadFlow::new(LoadSource::Memory);
    let g = f.step(LoadEvent::DocumentLoaded);
    assert_eq!(g, f);
}

#[test]
fn error_helpers_tell_the_kinds_apart() {
    let w = PdfThumbError::Windows(3);
    assert!(w.is_platform());
    assert_eq!(w.code(), Some(3));
    let io = PdfThumbError::Io;
    assert!(!io.is_platform());
    assert_eq!(io.code(), None);
}
