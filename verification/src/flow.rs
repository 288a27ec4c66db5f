use vstd::prelude::*;

use crate::error::PdfThumbError;
use crate::options::{plan_spec, Options, RenderPlan};

verus! {

/// Where a single render call stands. Steps are strictly sequential;
/// any step can move straight to `FailedClosing` (the page handle is
/// still owed a release) or `Failed` (it is not), and `Done` and
/// `Failed` are terminal.
#[derive(Debug, Clone, Copy, PartialEq, Eq, Structural)]
pub enum RenderPhase {
    /// Nothing has happened yet; the options are held.
    Created,
    /// The platform returned the page handle; the handle is now owed a
    /// release.
    PageObtained,
    /// The platform render-configuration object was written from the
    /// plan.
    OptionsTranslated,
    /// The render into the in-memory output stream was started.
    RenderIssued,
    /// The platform signalled completion of the render.
    RenderComplete,
    /// The stream's bytes were copied into a fresh buffer.
    BufferExtracted,
    /// The page handle was released and the buffer is ready.
    Done,
    /// A step failed while the page handle was open; its release is
    /// still owed before the flow may end.
    FailedClosing,
    /// The flow ended in failure; no buffer is returned.
    Failed,
}

/// What the surrounding shell is asked to do next against the
/// platform. Each action is one platform interaction; its outcome comes
/// back as a `RenderEvent`.
#[derive(Debug, Clone, Copy, PartialEq, Eq)]
pub enum RenderAction {
    /// Look the page up by this zero-based index and allocate the
    /// in-memory output stream.
    GetPage(u32),
    /// Write a platform render-configuration object as the plan says.
    Translate(RenderPlan),
    /// Start the render of the page into the output stream.
    IssueRender,
    /// Drive the running render to completion, either blocking the
    /// calling thread or suspending the calling task.
    AwaitRender,
    /// Seek the output stream to its start and read its full contents
    /// into a fresh buffer.
    ReadStream,
    /// Release the page handle.
    ClosePage,
    /// Nothing is left to do.
    Finish,
}

/// The outcome of one platform interaction, reported back to the flow.
#[derive(Debug, Clone, PartialEq, Eq)]
pub enum RenderEvent {
    /// The page handle and the output stream are ready.
    PageReady,
    /// The render-configuration object was accepted.
    Translated,
    /// The render was started.
    Issued,
    /// The platform signalled completion of the render.
    Completed,
    /// The stream's contents, copied into an owned buffer.
    BytesRead(Vec<u8>),
    /// The page handle was released.
    PageClosed,
    /// The platform refused the step, with its status code.
    PlatformError(i32),
}

/// One render call, driven step by step. The flow holds every decision
/// of the call — which page, which plan, what to do next, when the
/// page handle is owed a release — while the surrounding shell only
/// performs the commanded platform interaction and reports its
/// outcome. Each call is a fresh, independent flow; nothing is shared
/// between two flows, and a finished flow never retries.
#[derive(Debug, Clone, PartialEq, Eq)]
pub struct RenderFlow {
    /// The configuration of this call, never changed after creation.
    pub options: Options,
    /// Where the call stands.
    pub phase: RenderPhase,
    /// Whether a page handle was ever obtained.
    pub page_obtained: bool,
    /// Whether the page handle is currently open (owed a release).
    pub page_open: bool,
    /// How many times the release of the page handle was carried out.
    pub closes: u32,
    /// The extracted buffer, once it exists.
    pub result: Option<Vec<u8>>,
    /// The error the flow failed with, once it failed.
    pub error: Option<PdfThumbError>,
}

impl RenderFlow {
    /// A fresh flow for one render call with the given options.
    pub open spec fn init_spec(options: Options) -> RenderFlow {
        RenderFlow {
            options,
            phase: RenderPhase::Created,
            page_obtained: false,
            page_open: false,
            closes: 0,
            result: None,
            error: None,
        }
    }

    /// The flow a render with no options given starts from: exactly the
    /// flow for the default options.
    pub open spec fn thumb_init_spec() -> RenderFlow {
        RenderFlow::init_spec(Options::default_spec())
    }

    /// A flow is terminal exactly in `Done` and `Failed`.
    pub open spec fn is_terminal_spec(self) -> bool {
        self.phase is Done || self.phase is Failed
    }

    /// The next platform interaction each phase asks for.
    pub open spec fn action_spec(self) -> RenderAction {
        match self.phase {
            RenderPhase::Created => RenderAction::GetPage(self.options.page),
            RenderPhase::PageObtained => RenderAction::Translate(plan_spec(self.options)),
            RenderPhase::OptionsTranslated => RenderAction::IssueRender,
            RenderPhase::RenderIssued => RenderAction::AwaitRender,
            RenderPhase::RenderComplete => RenderAction::ReadStream,
            RenderPhase::BufferExtracted => RenderAction::ClosePage,
            RenderPhase::FailedClosing => RenderAction::ClosePage,
            RenderPhase::Done => RenderAction::Finish,
            RenderPhase::Failed => RenderAction::Finish,
        }
    }

    /// How a platform failure is taken: the error is recorded, and the
    /// flow ends at once unless the page handle is still owed a
    /// release, in which case that release is commanded first.
    pub open spec fn fail_spec(self, code: i32) -> RenderFlow {
        if self.page_open {
            RenderFlow {
                phase: RenderPhase::FailedClosing,
                error: Some(PdfThumbError::Windows(code)),
                ..self
            }
        } else {
            RenderFlow {
                phase: RenderPhase::Failed,
                error: Some(PdfThumbError::Windows(code)),
                ..self
            }
        }
    }

    /// The transition relation of one render call. A terminal flow
    /// never moves again. In the two closing phases the outcome of the
    /// release is swallowed: a failure there still counts as the one
    /// release carried out, and in `BufferExtracted` it does not cost
    /// the already-extracted buffer. Everywhere else a platform error
    /// routes through `fail_spec`, and an event that is not the one the
    /// commanded action can produce leaves the flow unchanged.
    pub open spec fn step_spec(self, event: RenderEvent) -> RenderFlow {
        if self.is_terminal_spec() {
            self
        } else {
            match self.phase {
                RenderPhase::Created => match event {
                    RenderEvent::PageReady => RenderFlow {
                        phase: RenderPhase::PageObtained,
                        page_obtained: true,
                        page_open: true,
                        ..self
                    },
                    RenderEvent::PlatformError(code) => self.fail_spec(code),
                    _ => self,
                },
                RenderPhase::PageObtained => match event {
                    RenderEvent::Translated => RenderFlow {
                        phase: RenderPhase::OptionsTranslated,
                        ..self
                    },
                    RenderEvent::PlatformError(code) => self.fail_spec(code),
                    _ => self,
                },
                RenderPhase::OptionsTranslated => match event {
                    RenderEvent::Issued => RenderFlow { phase: RenderPhase::RenderIssued, ..self },
                    RenderEvent::PlatformError(code) => self.fail_spec(code),
                    _ => self,
                },
                RenderPhase::RenderIssued => match event {
                    RenderEvent::Completed => RenderFlow {
                        phase: RenderPhase::RenderComplete,
                        ..self
                    },
                    RenderEvent::PlatformError(code) => self.fail_spec(code),
                    _ => self,
                },
                RenderPhase::RenderComplete => match event {
                    RenderEvent::BytesRead(buf) => RenderFlow {
                        phase: RenderPhase::BufferExtracted,
                        result: Some(buf),
                        ..self
                    },
                    RenderEvent::PlatformError(code) => self.fail_spec(code),
                    _ => self,
                },
                RenderPhase::BufferExtracted => match event {
                    RenderEvent::PageClosed => RenderFlow {
                        phase: RenderPhase::Done,
                        page_open: false,
                        closes: (self.closes + 1) as u32,
                        ..self
                    },
                    RenderEvent::PlatformError(_) => RenderFlow {
                        phase: RenderPhase::Done,
                        page_open: false,
                        closes: (self.closes + 1) as u32,
                        ..self
                    },
                    _ => self,
                },
                RenderPhase::FailedClosing => match event {
                    RenderEvent::PageClosed => RenderFlow {
                        phase: RenderPhase::Failed,
                        page_open: false,
                        closes: (self.closes + 1) as u32,
                        ..self
                    },
                    RenderEvent::PlatformError(_) => RenderFlow {
                        phase: RenderPhase::Failed,
                        page_open: false,
                        closes: (self.closes + 1) as u32,
                        ..self
                    },
                    _ => self,
                },
                RenderPhase::Done => self,
                RenderPhase::Failed => self,
            }
        }
    }

    /// Everything that holds of a flow at every step.
    ///
    /// - The page handle is open exactly in the phases between its
    ///   acquisition and its release, and only ever after it was
    ///   obtained.
    /// - The release is carried out exactly once on every path on
    ///   which a page was obtained, and never before the handle stops
    ///   being open.
    /// - A buffer exists exactly from its extraction on, success ends
    ///   with a buffer and no error, and failure ends with an error
    ///   and no buffer: no partial buffer is ever returned.
    pub open spec fn wf(self) -> bool {
        &&& (self.page_open <==> (self.phase is PageObtained || self.phase is OptionsTranslated
            || self.phase is RenderIssued || self.phase is RenderComplete
            || self.phase is BufferExtracted || self.phase is FailedClosing))
        &&& self.page_open ==> self.page_obtained
        &&& self.phase is Created ==> !self.page_obtained
        &&& self.phase is Done ==> self.page_obtained
        &&& self.closes == (if self.page_obtained && !self.page_open {
            1u32
        } else {
            0u32
        })
        &&& (self.result is Some <==> (self.phase is BufferExtracted || self.phase is Done))
        &&& (self.error is Some <==> (self.phase is FailedClosing || self.phase is Failed))
    }

    /// A flow driven through a whole sequence of platform events, in
    /// order.
    pub open spec fn run_spec(self, events: Seq<RenderEvent>) -> RenderFlow
        decreases events.len(),
    {
        if events.len() == 0 {
            self
        } else {
            self.step_spec(events[0]).run_spec(events.subrange(1, events.len() as int))
        }
    }

    /// A fresh flow for one render call with the given options.
    pub fn new(options: Options) -> (r: RenderFlow)
        ensures
            r == RenderFlow::init_spec(options),
            r.wf(),
    {
        RenderFlow {
            options,
            phase: RenderPhase::Created,
            page_obtained: false,
            page_open: false,
            closes: 0,
            result: None,
            error: None,
        }
    }

    /// A fresh flow for a render with no options given: the default
    /// options, that is the first page, native size, whole page, PNG.
    pub fn new_default() -> (r: RenderFlow)
        ensures
            r == RenderFlow::thumb_init_spec(),
            r.wf(),
    {
        RenderFlow::new(Options::default())
    }

    /// True exactly when nothing is left to do.
    pub fn is_terminal(&self) -> (r: bool)
        ensures
            r == self.is_terminal_spec(),
    {
        match self.phase {
            RenderPhase::Done => true,
            RenderPhase::Failed => true,
            _ => false,
        }
    }

    /// The next platform interaction to carry out.
    pub fn next_action(&self) -> (a: RenderAction)
        ensures
            a == self.action_spec(),
    {
        match self.phase {
            RenderPhase::Created => RenderAction::GetPage(self.options.page),
            RenderPhase::PageObtained => RenderAction::Translate(self.options.render_plan()),
            RenderPhase::OptionsTranslated => RenderAction::IssueRender,
            RenderPhase::RenderIssued => RenderAction::AwaitRender,
            RenderPhase::RenderComplete => RenderAction::ReadStream,
            RenderPhase::BufferExtracted => RenderAction::ClosePage,
            RenderPhase::FailedClosing => RenderAction::ClosePage,
            RenderPhase::Done => RenderAction::Finish,
            RenderPhase::Failed => RenderAction::Finish,
        }
    }

    /// Take one step on the reported outcome of the last interaction.
    pub fn step(self, event: RenderEvent) -> (r: RenderFlow)
        requires
            self.wf(),
        ensures
            r == self.step_spec(event),
            r.wf(),
    {
        proof {
            lemma_step_preserves_wf(self, event);
        }
        if self.is_terminal() {
            self
        } else {
            match self.phase {
                RenderPhase::Created => match event {
                    RenderEvent::PageReady => RenderFlow {
                        phase: RenderPhase::PageObtained,
                        page_obtained: true,
                        page_open: true,
                        ..self
                    },
                    RenderEvent::PlatformError(code) => self.fail(code),
                    _ => self,
                },
                RenderPhase::PageObtained => match event {
                    RenderEvent::Translated => RenderFlow {
                        phase: RenderPhase::OptionsTranslated,
                        ..self
                    },
                    RenderEvent::PlatformError(code) => self.fail(code),
                    _ => self,
                },
                RenderPhase::OptionsTranslated => match event {
                    RenderEvent::Issued => RenderFlow { phase: RenderPhase::RenderIssued, ..self },
                    RenderEvent::PlatformError(code) => self.fail(code),
                    _ => self,
                },
                RenderPhase::RenderIssued => match event {
                    RenderEvent::Completed => RenderFlow {
                        phase: RenderPhase::RenderComplete,
                        ..self
                    },
                    RenderEvent::PlatformError(code) => self.fail(code),
                    _ => self,
                },
                RenderPhase::RenderComplete => match event {
                    RenderEvent::BytesRead(buf) => RenderFlow {
                        phase: RenderPhase::BufferExtracted,
                        result: Some(buf),
                        ..self
                    },
                    RenderEvent::PlatformError(code) => self.fail(code),
                    _ => self,
                },
                RenderPhase::BufferExtracted => match event {
                    RenderEvent::PageClosed => self.close_step(RenderPhase::Done),
                    RenderEvent::PlatformError(_) => self.close_step(RenderPhase::Done),
                    _ => self,
                },
                RenderPhase::FailedClosing => match event {
                    RenderEvent::PageClosed => self.close_step(RenderPhase::Failed),
                    RenderEvent::PlatformError(_) => self.close_step(RenderPhase::Failed),
                    _ => self,
                },
                RenderPhase::Done => self,
                RenderPhase::Failed => self,
            }
        }
    }

    /// Record a platform failure, keeping the release of an open page
    /// handle pending.
    fn fail(self, code: i32) -> (r: RenderFlow)
        ensures
            r == self.fail_spec(code),
    {
        if self.page_open {
            RenderFlow {
                phase: RenderPhase::FailedClosing,
                error: Some(PdfThumbError::Windows(code)),
                ..self
            }
        } else {
            RenderFlow {
                phase: RenderPhase::Failed,
                error: Some(PdfThumbError::Windows(code)),
                ..self
            }
        }
    }

    /// Count the one release of the page handle and move to the given
    /// terminal phase.
    fn close_step(self, terminal: RenderPhase) -> (r: RenderFlow)
        requires
            self.closes == 0,
        ensures
            r == (RenderFlow { phase: terminal, page_open: false, closes: 1u32, ..self }),
    {
        RenderFlow { phase: terminal, page_open: false, closes: self.closes + 1, ..self }
    }

    /// The outcome of a finished flow: the extracted buffer on success,
    /// the recorded error on failure.
    pub fn into_result(self) -> (r: Result<Vec<u8>, PdfThumbError>)
        requires
            self.wf(),
            self.is_terminal_spec(),
        ensures
            self.phase is Done ==> (self.result matches Some(buf) && r == Ok::<
                Vec<u8>,
                PdfThumbError,
            >(buf)),
            self.phase is Failed ==> (self.error matches Some(e) && r == Err::<
                Vec<u8>,
                PdfThumbError,
            >(e)),
    {
        match self.phase {
            RenderPhase::Done => match self.result {
                Some(buf) => Ok(buf),
                None => vstd::pervasive::unreached(),
            },
            _ => match self.error {
                Some(e) => Err(e),
                None => vstd::pervasive::unreached(),
            },
        }
    }
}

/// A fresh flow satisfies the flow invariant.
pub proof fn lemma_init_wf(options: Options)
    ensures
        RenderFlow::init_spec(options).wf(),
{
}

/// One step preserves the flow invariant, whatever the platform
/// reports: the page handle stays owed exactly one release until it
/// gets it, and success and failure keep excluding each other.
pub proof fn lemma_step_preserves_wf(f: RenderFlow, event: RenderEvent)
    requires
        f.wf(),
    ensures
        f.step_spec(event).wf(),
{
}

/// A whole run preserves the flow invariant.
pub proof fn lemma_run_preserves_wf(f: RenderFlow, events: Seq<RenderEvent>)
    requires
        f.wf(),
    ensures
        f.run_spec(events).wf(),
    decreases events.len(),
{
    if events.len() > 0 {
        lemma_step_preserves_wf(f, events[0]);
        lemma_run_preserves_wf(f.step_spec(events[0]), events.subrange(1, events.len() as int));
    }
}

/// Once a flow has ended, the page handle is no longer open, and it
/// was released exactly once on every path on which it was obtained —
/// success, failure after acquisition, even a failing release. A flow
/// that ended in failure carries an error and no buffer; one that
/// ended in success carries a buffer and no error.
pub proof fn lemma_terminal_releases_page(f: RenderFlow)
    requires
        f.wf(),
        f.is_terminal_spec(),
    ensures
        !f.page_open,
        f.page_obtained ==> f.closes == 1,
        !f.page_obtained ==> f.closes == 0,
        f.phase is Failed ==> f.result is None && f.error is Some,
        f.phase is Done ==> f.result is Some && f.error is None,
{
}

/// A failed page lookup yields a platform error and no page: a flow
/// that fails before a page handle was handed out ends `Failed` at
/// once, with the platform's code, owing no release and holding no
/// buffer.
pub proof fn lemma_failed_lookup_yields_no_page(f: RenderFlow, code: i32)
    requires
        f.wf(),
        f.phase is Created,
    ensures
        ({
            let g = f.step_spec(RenderEvent::PlatformError(code));
            &&& g.phase is Failed
            &&& g.error == Some(PdfThumbError::Windows(code))
            &&& !g.page_obtained
            &&& g.closes == 0
            &&& g.result is None
        }),
{
}

/// A render begun with no options given is the same flow as one begun
/// with the default options written out, so the same platform events
/// take both through the same phases to the same buffer.
pub proof fn lemma_thumb_matches_default_options(events: Seq<RenderEvent>)
    ensures
        RenderFlow::thumb_init_spec().run_spec(events) == RenderFlow::init_spec(
            Options::default_spec(),
        ).run_spec(events),
        RenderFlow::thumb_init_spec().run_spec(events).result == RenderFlow::init_spec(
            Options::default_spec(),
        ).run_spec(events).result,
{
}

/// The one straight path through a render: on the six outcomes of the
/// six commanded interactions, a fresh flow walks the documented
/// phases in order and ends `Done`, holding exactly the bytes the
/// stream gave and having released the page once.
pub proof fn lemma_full_run_returns_buffer(options: Options, buf: Vec<u8>)
    ensures
        ({
            let g = RenderFlow::init_spec(options).step_spec(RenderEvent::PageReady).step_spec(
                RenderEvent::Translated,
            ).step_spec(RenderEvent::Issued).step_spec(RenderEvent::Completed).step_spec(
                RenderEvent::BytesRead(buf),
            ).step_spec(RenderEvent::PageClosed);
            &&& g.phase is Done
            &&& g.result == Some(buf)
            &&& g.error is None
            &&& g.closes == 1
            &&& !g.page_open
        }),
{
}

/// The position of each phase along a render call. Every live phase
/// ranks below every phase that can follow it.
pub open spec fn render_phase_rank(p: RenderPhase) -> int {
    match p {
        RenderPhase::Created => 0,
        RenderPhase::PageObtained => 1,
        RenderPhase::OptionsTranslated => 2,
        RenderPhase::RenderIssued => 3,
        RenderPhase::RenderComplete => 4,
        RenderPhase::BufferExtracted => 5,
        RenderPhase::Done => 6,
        RenderPhase::FailedClosing => 7,
        RenderPhase::Failed => 8,
    }
}

/// Within one render call the steps are strictly sequential: an event
/// either leaves the flow exactly where it was or moves it strictly
/// forward, so no phase is ever revisited and a finished call is never
/// retried.
pub proof fn lemma_steps_never_go_back(f: RenderFlow, event: RenderEvent)
    ensures
        f.step_spec(event) == f || render_phase_rank(f.step_spec(event).phase) > render_phase_rank(
            f.phase,
        ),
{
}

/// How the rendered bytes come back out of the in-memory output
/// stream, identically in both calling modes: seek the stream to its
/// start, then load and read exactly its size in bytes into a fresh
/// buffer — the whole content or nothing.
#[derive(Debug, Clone, Copy, PartialEq, Eq, Structural)]
pub struct ReadPlan {
    /// The position the stream is read from: always its start.
    pub offset: u64,
    /// The byte count handed to the platform load call.
    pub load_count: u32,
}

/// The read plan for an output stream of the given size: its whole
/// content, read from the start. The platform load call takes its
/// count as a 32-bit value, so a stream whose size does not fit one
/// cannot be read whole; such a size is refused rather than read in
/// part, and the shell surfaces the refusal as the read's failure.
pub fn read_plan(size: u64) -> (r: Option<ReadPlan>)
    ensures
        r is Some <==> size <= u32::MAX,
        r matches Some(p) ==> p.offset == 0 && p.load_count == size,
{
    if size <= u32::MAX as u64 {
        Some(ReadPlan { offset: 0, load_count: size as u32 })
    } else {
        None
    }
}

} // verus!
