use vstd::prelude::*;

use crate::error::PdfThumbError;

verus! {

/// Where the bytes of a document come from.
#[derive(Debug, Clone, Copy, PartialEq, Eq, Structural)]
pub enum LoadSource {
    /// An in-memory byte buffer, pushed into a fresh in-memory stream.
    Memory,
    /// A file path, resolved to a platform file handle.
    Path,
}

/// Where a single document-load call stands. Both routes end in the
/// same `Loaded` phase; any step can move straight to `Failed`, and
/// `Loaded` and `Failed` are terminal.
#[derive(Debug, Clone, Copy, PartialEq, Eq, Structural)]
pub enum LoadPhase {
    /// Nothing has happened yet.
    Created,
    /// Memory route: the in-memory stream exists and a writer is
    /// attached to it.
    StreamReady,
    /// Memory route: every byte of the buffer was written.
    BytesWritten,
    /// Memory route: the store of the written bytes completed.
    Stored,
    /// Memory route: the flush completed.
    Flushed,
    /// Memory route: the writer was detached, leaving the stream ready
    /// to be read by the document loader.
    Detached,
    /// Path route: the platform file handle was resolved from the
    /// path.
    FileResolved,
    /// The document is loaded; the load succeeded.
    Loaded,
    /// The load ended in failure; no document is returned.
    Failed,
}

/// What the surrounding shell is asked to do next for a document load.
#[derive(Debug, Clone, Copy, PartialEq, Eq, Structural)]
pub enum LoadAction {
    /// Allocate an in-memory stream and attach a writer.
    CreateStream,
    /// Write the whole byte buffer into the writer.
    WriteAll,
    /// Drive the store of the written bytes to completion.
    Store,
    /// Drive the flush to completion.
    Flush,
    /// Detach the writer from the stream.
    Detach,
    /// Load the document from the in-memory stream.
    LoadFromStream,
    /// Resolve the platform file handle from the path.
    ResolveFile,
    /// Load the document from the resolved file handle.
    LoadFromFile,
    /// Nothing is left to do.
    Finish,
}

/// The outcome of one platform interaction during a document load.
#[derive(Debug, Clone, Copy, PartialEq, Eq, Structural)]
pub enum LoadEvent {
    /// The commanded intermediate step succeeded.
    StepOk,
    /// The final load step succeeded; the shell now holds the
    /// document handle.
    DocumentLoaded,
    /// The platform refused the step, with its status code.
    PlatformError(i32),
}

/// One document-load call, driven step by step. The flow fixes the
/// order of the platform steps — the three-part in-memory sequence
/// (fill a stream, detach it, load from it) or the two-part path
/// sequence (resolve a file handle, load from it) — while the shell
/// performs each commanded step and reports its outcome. A failure at
/// any step ends the flow at once: no partial document is ever
/// returned.
#[derive(Debug, Clone, Copy, PartialEq, Eq, Structural)]
pub struct LoadFlow {
    /// Which route this load takes, fixed at creation.
    pub source: LoadSource,
    /// Where the load stands.
    pub phase: LoadPhase,
    /// The error the load failed with, once it failed.
    pub error: Option<PdfThumbError>,
}

impl LoadFlow {
    /// A fresh load flow for the given source.
    pub open spec fn init_spec(source: LoadSource) -> LoadFlow {
        LoadFlow { source, phase: LoadPhase::Created, error: None }
    }

    /// A flow is terminal exactly in `Loaded` and `Failed`.
    pub open spec fn is_terminal_spec(self) -> bool {
        self.phase is Loaded || self.phase is Failed
    }

    /// The phases only the memory route passes through.
    pub open spec fn is_memory_phase(self) -> bool {
        self.phase is StreamReady || self.phase is BytesWritten || self.phase is Stored
            || self.phase is Flushed || self.phase is Detached
    }

    /// Everything that holds of a load flow at every step: each route
    /// keeps to its own phases, and an error is recorded exactly when
    /// the flow failed.
    pub open spec fn wf(self) -> bool {
        &&& self.source is Path ==> !self.is_memory_phase()
        &&& self.source is Memory ==> !(self.phase is FileResolved)
        &&& (self.error is Some <==> self.phase is Failed)
    }

    /// The next platform interaction each phase asks for.
    pub open spec fn action_spec(self) -> LoadAction {
        match self.phase {
            LoadPhase::Created => if self.source is Memory {
                LoadAction::CreateStream
            } else {
                LoadAction::ResolveFile
            },
            LoadPhase::StreamReady => LoadAction::WriteAll,
            LoadPhase::BytesWritten => LoadAction::Store,
            LoadPhase::Stored => LoadAction::Flush,
            LoadPhase::Flushed => LoadAction::Detach,
            LoadPhase::Detached => LoadAction::LoadFromStream,
            LoadPhase::FileResolved => LoadAction::LoadFromFile,
            LoadPhase::Loaded => LoadAction::Finish,
            LoadPhase::Failed => LoadAction::Finish,
        }
    }

    /// The error kind a failure in the current phase is recorded
    /// under. A failure while the file handle is resolved from the
    /// path is a file-system failure and so the I/O kind; a failure at
    /// any other step comes from the document / stream subsystem and
    /// is the platform kind, carrying the status code.
    pub open spec fn failure_kind_spec(self, code: i32) -> PdfThumbError {
        if self.phase is Created && self.source is Path {
            PdfThumbError::Io
        } else {
            PdfThumbError::Windows(code)
        }
    }

    /// The transition relation of one document load. A terminal flow
    /// never moves again; a failure reported in any live phase records
    /// its kind (see `failure_kind_spec`) and fails the flow; an event
    /// that is not the one the commanded action can produce leaves the
    /// flow unchanged.
    pub open spec fn step_spec(self, event: LoadEvent) -> LoadFlow {
        if self.is_terminal_spec() {
            self
        } else if event is PlatformError {
            LoadFlow {
                phase: LoadPhase::Failed,
                error: Some(self.failure_kind_spec(event->PlatformError_0)),
                ..self
            }
        } else {
            match self.phase {
                LoadPhase::Created => if self.source is Memory && event is StepOk {
                    LoadFlow { phase: LoadPhase::StreamReady, ..self }
                } else if self.source is Path && event is StepOk {
                    LoadFlow { phase: LoadPhase::FileResolved, ..self }
                } else {
                    self
                },
                LoadPhase::StreamReady => if event is StepOk {
                    LoadFlow { phase: LoadPhase::BytesWritten, ..self }
                } else {
                    self
                },
                LoadPhase::BytesWritten => if event is StepOk {
                    LoadFlow { phase: LoadPhase::Stored, ..self }
                } else {
                    self
                },
                LoadPhase::Stored => if event is StepOk {
                    LoadFlow { phase: LoadPhase::Flushed, ..self }
                } else {
                    self
                },
                LoadPhase::Flushed => if event is StepOk {
                    LoadFlow { phase: LoadPhase::Detached, ..self }
                } else {
                    self
                },
                LoadPhase::Detached => if event is DocumentLoaded {
                    LoadFlow { phase: LoadPhase::Loaded, ..self }
                } else {
                    self
                },
                LoadPhase::FileResolved => if event is DocumentLoaded {
                    LoadFlow { phase: LoadPhase::Loaded, ..self }
                } else {
                    self
                },
                LoadPhase::Loaded => self,
                LoadPhase::Failed => self,
            }
        }
    }

    /// A fresh load flow for the given source.
    pub fn new(source: LoadSource) -> (r: LoadFlow)
        ensures
            r == LoadFlow::init_spec(source),
            r.wf(),
    {
        LoadFlow { source, phase: LoadPhase::Created, error: None }
    }

    /// True exactly when nothing is left to do.
    pub fn is_terminal(&self) -> (r: bool)
        ensures
            r == self.is_terminal_spec(),
    {
        match self.phase {
            LoadPhase::Loaded => true,
            LoadPhase::Failed => true,
            _ => false,
        }
    }

    /// The next platform interaction to carry out.
    pub fn next_action(&self) -> (a: LoadAction)
        ensures
            a == self.action_spec(),
    {
        match self.phase {
            LoadPhase::Created => match self.source {
                LoadSource::Memory => LoadAction::CreateStream,
                LoadSource::Path => LoadAction::ResolveFile,
            },
            LoadPhase::StreamReady => LoadAction::WriteAll,
            LoadPhase::BytesWritten => LoadAction::Store,
            LoadPhase::Stored => LoadAction::Flush,
            LoadPhase::Flushed => LoadAction::Detach,
            LoadPhase::Detached => LoadAction::LoadFromStream,
            LoadPhase::FileResolved => LoadAction::LoadFromFile,
            LoadPhase::Loaded => LoadAction::Finish,
            LoadPhase::Failed => LoadAction::Finish,
        }
    }

    /// Take one step on the reported outcome of the last interaction.
    pub fn step(self, event: LoadEvent) -> (r: LoadFlow)
        ensures
            r == self.step_spec(event),
            self.wf() ==> r.wf(),
    {
        if self.is_terminal() {
            self
        } else if let LoadEvent::PlatformError(code) = event {
            let kind = match (self.phase, self.source) {
                (LoadPhase::Created, LoadSource::Path) => PdfThumbError::Io,
                _ => PdfThumbError::Windows(code),
            };
            LoadFlow { phase: LoadPhase::Failed, error: Some(kind), ..self }
        } else {
            match self.phase {
                LoadPhase::Created => match (self.source, event) {
                    (LoadSource::Memory, LoadEvent::StepOk) => LoadFlow {
                        phase: LoadPhase::StreamReady,
                        ..self
                    },
                    (LoadSource::Path, LoadEvent::StepOk) => LoadFlow {
                        phase: LoadPhase::FileResolved,
                        ..self
                    },
                    _ => self,
                },
                LoadPhase::StreamReady => if let LoadEvent::StepOk = event {
                    LoadFlow { phase: LoadPhase::BytesWritten, ..self }
                } else {
                    self
                },
                LoadPhase::BytesWritten => if let LoadEvent::StepOk = event {
                    LoadFlow { phase: LoadPhase::Stored, ..self }
                } else {
                    self
                },
                LoadPhase::Stored => if let LoadEvent::StepOk = event {
                    LoadFlow { phase: LoadPhase::Flushed, ..self }
                } else {
                    self
                },
                LoadPhase::Flushed => if let LoadEvent::StepOk = event {
                    LoadFlow { phase: LoadPhase::Detached, ..self }
                } else {
                    self
                },
                LoadPhase::Detached => if let LoadEvent::DocumentLoaded = event {
                    LoadFlow { phase: LoadPhase::Loaded, ..self }
                } else {
                    self
                },
                LoadPhase::FileResolved => if let LoadEvent::DocumentLoaded = event {
                    LoadFlow { phase: LoadPhase::Loaded, ..self }
                } else {
                    self
                },
                LoadPhase::Loaded => self,
                LoadPhase::Failed => self,
            }
        }
    }

    /// The outcome of a finished load: `Ok` exactly when the document
    /// was loaded, else the recorded error.
    pub fn into_result(self) -> (r: Result<(), PdfThumbError>)
        requires
            self.wf(),
            self.is_terminal_spec(),
        ensures
            self.phase is Loaded ==> r == Ok::<(), PdfThumbError>(()),
            self.phase is Failed ==> (self.error matches Some(e) && r == Err::<(), PdfThumbError>(
                e,
            )),
    {
        match self.phase {
            LoadPhase::Loaded => Ok(()),
            _ => match self.error {
                Some(e) => Err(e),
                None => vstd::pervasive::unreached(),
            },
        }
    }
}

/// The straight path of a load from an in-memory buffer: fill the
/// stream, detach it, load from it, in exactly that order, ending
/// `Loaded` with no error.
pub proof fn lemma_memory_load_path()
    ensures
        ({
            let g = LoadFlow::init_spec(LoadSource::Memory).step_spec(LoadEvent::StepOk).step_spec(
                LoadEvent::StepOk,
            ).step_spec(LoadEvent::StepOk).step_spec(LoadEvent::StepOk).step_spec(
                LoadEvent::StepOk,
            ).step_spec(LoadEvent::DocumentLoaded);
            g.phase is Loaded && g.error is None
        }),
{
}

/// The straight path of a load from a path: resolve the file handle,
/// then load from it, ending `Loaded` with no error.
pub proof fn lemma_path_load_path()
    ensures
        ({
            let g = LoadFlow::init_spec(LoadSource::Path).step_spec(LoadEvent::StepOk).step_spec(
                LoadEvent::DocumentLoaded,
            );
            g.phase is Loaded && g.error is None
        }),
{
}

/// The position of each phase along a document load. Every live phase
/// ranks below every phase that can follow it on its route.
pub open spec fn load_phase_rank(p: LoadPhase) -> int {
    match p {
        LoadPhase::Created => 0,
        LoadPhase::StreamReady => 1,
        LoadPhase::BytesWritten => 2,
        LoadPhase::Stored => 3,
        LoadPhase::Flushed => 4,
        LoadPhase::Detached => 5,
        LoadPhase::FileResolved => 6,
        LoadPhase::Loaded => 7,
        LoadPhase::Failed => 8,
    }
}

/// Within one document load the steps are strictly sequential: an
/// event either leaves the flow exactly where it was or moves it
/// strictly forward, so no phase is ever revisited and a finished load
/// is never retried.
pub proof fn lemma_load_steps_never_go_back(f: LoadFlow, event: LoadEvent)
    ensures
        f.step_spec(event) == f || load_phase_rank(f.step_spec(event).phase) > load_phase_rank(
            f.phase,
        ),
{
}

/// A failure at any live step fails the load at once, under the kind
/// the failing step belongs to: nothing partial is kept, and the flow
/// never moves again.
pub proof fn lemma_load_failure_is_immediate_and_final(f: LoadFlow, code: i32, later: LoadEvent)
    requires
        f.wf(),
        !f.is_terminal_spec(),
    ensures
        ({
            let g = f.step_spec(LoadEvent::PlatformError(code));
            &&& g.phase is Failed
            &&& g.error == Some(f.failure_kind_spec(code))
            &&& g.step_spec(later) == g
        }),
{
}

/// A failure while resolving the file from its path is the I/O kind —
/// it wraps a file-system failure — while a failure at any later step
/// of the path route, or at any step of the memory route, is the
/// platform kind with its status code.
pub proof fn lemma_file_resolution_failure_is_io(code: i32)
    ensures
        ({
            let g = LoadFlow::init_spec(LoadSource::Path).step_spec(LoadEvent::PlatformError(code));
            g.phase is Failed && g.error == Some(PdfThumbError::Io)
        }),
        ({
            let g = LoadFlow::init_spec(LoadSource::Path).step_spec(LoadEvent::StepOk).step_spec(
                LoadEvent::PlatformError(code),
            );
            g.phase is Failed && g.error == Some(PdfThumbError::Windows(code))
        }),
        forall|f: LoadFlow|
            f.source is Memory && !f.is_terminal_spec() ==> #[trigger] f.step_spec(
                LoadEvent::PlatformError(code),
            ).error == Some(PdfThumbError::Windows(code)),
{
}

} // verus!
