use pdf_thumb::{
    ImageFormat, Options, PdfThumbError, Rect, RenderAction, RenderEvent, RenderFlow, RenderPhase,
};

fn happy_events(bytes: Vec<u8>) -> Vec<RenderEvent> {
    vec![
        RenderEvent::PageReady,
        RenderEvent::Translated,
        RenderEvent::Issued,
        RenderEvent::Completed,
        RenderEvent::BytesRead(bytes),
        RenderEvent::PageClosed,
    ]
}

#[test]
fn happy_path_walks_the_documented_phases() {
    let o = Options { width: 320, format: ImageFormat::Jpeg, page: 1, ..Options::default() };
    let mut f = RenderFlow::new(o);
    assert_eq!(f.phase, RenderPhase::Created);
    assert_eq!(f.next_action(), RenderAction::GetPage(1));

    f = f.step(RenderEvent::PageReady);
    assert_eq!(f.phase, RenderPhase::PageObtained);
    assert!(f.page_open);
    assert_eq!(f.next_action(), RenderAction::Translate(o.render_plan()));

    f = f.step(RenderEvent::Translated);
    assert_eq!(f.phase, RenderPhase::OptionsTranslated);
    assert_eq!(f.next_action(), RenderAction::IssueRender);

    f = f.step(RenderEvent::Issued);
    assert_eq!(f.phase, RenderPhase::RenderIssued);
    assert_eq!(f.next_action(), RenderAction::AwaitRender);

    f = f.step(RenderEvent::Completed);
    assert_eq!(f.phase, RenderPhase::RenderComplete);
    assert_eq!(f.next_action(), RenderAction::ReadStream);

    f = f.step(RenderEvent::BytesRead(vec![0xff, 0xd8, 1, 2]));
    assert_eq!(f.phase, RenderPhase::BufferExtracted);
    assert_eq!(f.next_action(), RenderAction::ClosePage);
    assert!(f.page_open);

    f = f.step(RenderEvent::PageClosed);
    assert_eq!(f.phase, RenderPhase::Done);
    assert!(!f.page_open);
    assert_eq!(f.closes, 1);
    assert!(f.is_terminal());
    assert_eq!(f.next_action(), RenderAction::Finish);
    assert_eq!(f.into_result(), Ok(vec![0xff, 0xd8, 1, 2]));
}

#[test]
fn thumb_flow_equals_default_options_flow() {
    let bytes = vec![0x89, 0x50, 0x4e, 0x47];
    let mut thumb = RenderFlow::new_default();
    let mut with_default = RenderFlow::new(Options::default());
    assert_eq!(thumb, with_default);
    for ev in happy_events(bytes.clone()) {
        thumb = thumb.step(ev.clone());
        with_default = with_default.step(ev);
        assert_eq!(thumb, with_default);
    }
    assert_eq!(thumb.clone().into_result(), with_default.clone().into_result());
    assert_eq!(thumb.into_result(), Ok(bytes));
}

#[test]
fn failed_page_lookup_returns_platform_error_and_no_page() {
    let f = RenderFlow::new(Options { page: 99, ..Options::default() });
    let g = f.step(RenderEvent::PlatformError(-2147024809));
    assert_eq!(g.phase, RenderPhase::Failed);
    assert!(!g.page_obtained);
    assert_eq!(g.closes, 0);
    assert_eq!(g.result, None);
    assert_eq!(g.into_result(), Err(PdfThumbError::Windows(-2147024809)));
}

#[test]
fn midflight_failure_still_releases_the_page() {
    let mut f = RenderFlow::new(Options::default());
    f = f.step(RenderEvent::PageReady);
    f = f.step(RenderEvent::Translated);
    f = f.step(RenderEvent::PlatformError(-1));
    assert_eq!(f.phase, RenderPhase::FailedClosing);
    assert_eq!(f.next_action(), RenderAction::ClosePage);
    f = f.step(RenderEvent::PageClosed);
    assert_eq!(f.phase, RenderPhase::Failed);
    assert_eq!(f.closes, 1);
    assert!(!f.page_open);
    assert_eq!(f.into_result(), Err(PdfThumbError::Windows(-1)));
}

#[test]
fn close_failure_is_swallowed_on_success() {
    let mut f = RenderFlow::new(Options::default());
    for ev in [
        RenderEvent::PageReady,
        RenderEvent::Translated,
        RenderEvent::Issued,
        RenderEvent::Completed,
        RenderEvent::BytesRead(vec![7, 8, 9]),
    ] {
        f = f.step(ev);
    }
    // the release itself fails; the buffer is still returned
    f = f.step(RenderEvent::PlatformError(-5));
    assert_eq!(f.phase, RenderPhase::Done);
    assert_eq!(f.closes, 1);
    assert_eq!(f.into_result(), Ok(vec![7, 8, 9]));
}

#[test]
fn close_failure_keeps_the_first_error() {
    let mut f = RenderFlow::new(Options::default());
    f = f.step(RenderEvent::PageReady);
    f = f.step(RenderEvent::PlatformError(-10));
    assert_eq!(f.phase, RenderPhase::FailedClosing);
    f = f.step(RenderEvent::PlatformError(-20));
    assert_eq!(f.phase, RenderPhase::Failed);
    assert_eq!(f.into_result(), Err(PdfThumbError::Windows(-10)));
}

#[test]
fn terminal_flow_never_moves_again() {
    let f = RenderFlow::new(Options::default()).step(RenderEvent::PlatformError(-3));
    assert_eq!(f.phase, RenderPhase::Failed);
    let g = f.clone().step(RenderEvent::PageReady);
    assert_eq!(g, f);
    let h = g.step(RenderEvent::PlatformError(-4));
    assert_eq!(h.error, Some(PdfThumbError::Windows(-3)));
}

#[test]
fn unexpected_event_leaves_the_flow_unchanged() {
    let f = RenderFlow::new(Options::default());
    let g = f.clone().step(RenderEvent::Completed);
    assert_eq!(g, f);
}

#[test]
fn independent_flows_do_not_interfere() {
    let mut a = RenderFlow::new(Options { page: 0, ..Options::default() });
    let mut b = RenderFlow::new(Options { page: 1, ..Options::default() });
    a = a.step(RenderEvent::PageReady);
    b = b.step(RenderEvent::PageReady);
    // interleave the two calls; each keeps its own page and buffer
    a = a.step(RenderEvent::Translated).step(RenderEvent::Issued);
    b = b.step(RenderEvent::Translated);
    a = a.step(RenderEvent::Completed).step(RenderEvent::BytesRead(vec![0]));
    b = b.step(RenderEvent::Issued).step(RenderEvent::Completed);
    b = b.step(RenderEvent::BytesRead(vec![1]));
    a = a.step(RenderEvent::PageClosed);
    assert_eq!(a.phase, RenderPhase::Done);
    assert_eq!(b.phase, RenderPhase::BufferExtracted);
    assert!(b.page_open);
    b = b.step(RenderEvent::PageClosed);
    assert_eq!(a.into_result(), Ok(vec![0]));
    assert_eq!(b.into_result(), Ok(vec![1]));
}

#[test]
fn read_plan_reads_whole_stream_from_start() {
    let p = pdf_thumb::read_plan(1234).unwrap();
    assert_eq!(p.offset, 0);
    assert_eq!(p.load_count, 1234);
}

#[test]
fn read_plan_accepts_the_largest_expressible_size() {
    let p = pdf_thumb::read_plan(u32::MAX as u64).unwrap();
    assert_eq!(p.offset, 0);
    assert_eq!(p.load_count, u32::MAX);
}

#[test]
fn read_plan_refuses_a_stream_too_large_to_read_whole() {
    assert_eq!(pdf_thumb::read_plan(u32::MAX as u64 + 1), None);
    assert_eq!(pdf_thumb::read_plan(0x1_0000_0005), None);
}
