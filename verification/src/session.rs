//! The component runtime session state machine.
//!
//! A session takes a component artifact through compile, link and
//! instantiate, then runs its entry point on a worker thread.  The engine
//! work itself (reading and compiling the artifact, linking the host
//! capability sets, instantiating, invoking the entry point) is done by the
//! embedding program; it reports each outcome here, and the session decides
//! the next phase.  A startup failure is fatal and the event loop is never
//! entered; an entry-point failure is recorded against the session without
//! touching the executor.

use vstd::prelude::*;

verus! {

/// The startup and runtime failures a session can report.
#[derive(Clone, Copy, PartialEq, Eq, Structural, Debug)]
pub enum SessionError {
    /// The artifact path does not exist.
    ArtifactNotFound,
    /// The file exists but is not a valid compiled component.
    ArtifactInvalid,
    /// A capability the component imports is absent from the host offering.
    LinkageError,
    /// Instantiation against the capability surface failed.
    InstantiationError,
    /// The entry point trapped (a host-level fault).
    EntryPointTrap,
    /// The entry point ran but returned the component's own error.
    EntryPointError,
}

/// Where a session stands in its lifecycle.
#[derive(Clone, Copy, PartialEq, Eq, Structural, Debug)]
pub enum Phase {
    /// Freshly created; nothing attempted yet.
    Created,
    /// The artifact compiled successfully.
    Compiled,
    /// Every required host capability set linked successfully.
    Linked,
    /// An instance exists against a fresh capability surface.
    Instantiated,
    /// The entry point is running on its worker thread.
    Running,
    /// The entry point returned success.
    Completed,
    /// Some step failed; the error says which.
    Failed,
}

/// What compiling the artifact reported.
#[derive(Clone, Copy, PartialEq, Eq, Structural, Debug)]
pub enum CompileOutcome {
    Success,
    /// No file at the given path.
    PathMissing,
    /// The file is not a valid compiled component.
    NotAComponent,
}

/// What the entry point's single invocation reported.
#[derive(Clone, Copy, PartialEq, Eq, Structural, Debug)]
pub enum EntryOutcome {
    Success,
    /// A host-level or trap error from the call itself.
    Trap,
    /// The component ran and reported its own failure.
    ComponentError,
}

/// One component runtime session: its phase and, once failed, its error.
#[derive(Clone, Copy, PartialEq, Eq, Debug)]
pub struct Session {
    pub phase: Phase,
    pub error: Option<SessionError>,
}

impl Session {
    /// A session records an error exactly when it has failed.
    pub open spec fn wf(self) -> bool {
        (self.phase == Phase::Failed) <==> (self.error is Some)
    }

    /// Startup has fully succeeded and the event loop may be entered.
    pub open spec fn spec_may_enter_loop(self) -> bool {
        self.phase == Phase::Instantiated || self.phase == Phase::Running
    }

    /// A fresh session, before any startup step.
    pub fn new() -> (s: Session)
        ensures
            s.wf(),
            s.phase == Phase::Created,
            s.error is None,
    {
        Session { phase: Phase::Created, error: None }
    }

    /// Record what compiling the artifact reported.
    pub fn note_compile(&mut self, outcome: CompileOutcome)
        requires
            old(self).wf(),
            old(self).phase == Phase::Created,
        ensures
            final(self).wf(),
            *final(self) == compile_step(*old(self), outcome),
            outcome == CompileOutcome::Success ==> final(self).phase == Phase::Compiled,
            outcome == CompileOutcome::PathMissing ==> final(self).phase == Phase::Failed
                && final(self).error == Some(SessionError::ArtifactNotFound),
            outcome == CompileOutcome::NotAComponent ==> final(self).phase == Phase::Failed
                && final(self).error == Some(SessionError::ArtifactInvalid),
    {
        match outcome {
            CompileOutcome::Success => {
                self.phase = Phase::Compiled;
            },
            CompileOutcome::PathMissing => {
                self.phase = Phase::Failed;
                self.error = Some(SessionError::ArtifactNotFound);
            },
            CompileOutcome::NotAComponent => {
                self.phase = Phase::Failed;
                self.error = Some(SessionError::ArtifactInvalid);
            },
        }
    }

    /// Record whether every required host capability set linked.
    pub fn note_link(&mut self, ok: bool)
        requires
            old(self).wf(),
            old(self).phase == Phase::Compiled,
        ensures
            final(self).wf(),
            *final(self) == link_step(*old(self), ok),
            ok ==> final(self).phase == Phase::Linked && final(self).error is None,
            !ok ==> final(self).phase == Phase::Failed && final(self).error == Some(
                SessionError::LinkageError,
            ),
    {
        if ok {
            self.phase = Phase::Linked;
        } else {
            self.phase = Phase::Failed;
            self.error = Some(SessionError::LinkageError);
        }
    }

    /// Record whether instantiation against the capability surface succeeded.
    pub fn note_instantiate(&mut self, ok: bool)
        requires
            old(self).wf(),
            old(self).phase == Phase::Linked,
        ensures
            final(self).wf(),
            *final(self) == instantiate_step(*old(self), ok),
            ok ==> final(self).phase == Phase::Instantiated && final(self).error is None,
            !ok ==> final(self).phase == Phase::Failed && final(self).error == Some(
                SessionError::InstantiationError,
            ),
    {
        if ok {
            self.phase = Phase::Instantiated;
        } else {
            self.phase = Phase::Failed;
            self.error = Some(SessionError::InstantiationError);
        }
    }

    /// The entry point is now being invoked on its worker thread.
    pub fn begin_run(&mut self)
        requires
            old(self).wf(),
            old(self).phase == Phase::Instantiated,
        ensures
            final(self).wf(),
            final(self).phase == Phase::Running,
            final(self).error is None,
    {
        self.phase = Phase::Running;
    }

    /// Record what the entry point's invocation reported.
    pub fn note_entry_result(&mut self, outcome: EntryOutcome)
        requires
            old(self).wf(),
            old(self).phase == Phase::Running,
        ensures
            final(self).wf(),
            outcome == EntryOutcome::Success ==> final(self).phase == Phase::Completed
                && final(self).error is None,
            outcome == EntryOutcome::Trap ==> final(self).phase == Phase::Failed
                && final(self).error == Some(SessionError::EntryPointTrap),
            outcome == EntryOutcome::ComponentError ==> final(self).phase == Phase::Failed
                && final(self).error == Some(SessionError::EntryPointError),
    {
        match outcome {
            EntryOutcome::Success => {
                self.phase = Phase::Completed;
            },
            EntryOutcome::Trap => {
                self.phase = Phase::Failed;
                self.error = Some(SessionError::EntryPointTrap);
            },
            EntryOutcome::ComponentError => {
                self.phase = Phase::Failed;
                self.error = Some(SessionError::EntryPointError);
            },
        }
    }

    /// The event loop is entered only when startup has fully succeeded.
    pub fn may_enter_loop(&self) -> (r: bool)
        ensures
            r == self.spec_may_enter_loop(),
    {
        match self.phase {
            Phase::Instantiated => true,
            Phase::Running => true,
            _ => false,
        }
    }
}

/// What `note_compile` does to a freshly created session.
pub open spec fn compile_step(s: Session, outcome: CompileOutcome) -> Session {
    match outcome {
        CompileOutcome::Success => Session { phase: Phase::Compiled, ..s },
        CompileOutcome::PathMissing => Session {
            phase: Phase::Failed,
            error: Some(SessionError::ArtifactNotFound),
        },
        CompileOutcome::NotAComponent => Session {
            phase: Phase::Failed,
            error: Some(SessionError::ArtifactInvalid),
        },
    }
}

/// What `note_link` does to a compiled session.
pub open spec fn link_step(s: Session, ok: bool) -> Session {
    if ok {
        Session { phase: Phase::Linked, ..s }
    } else {
        Session { phase: Phase::Failed, error: Some(SessionError::LinkageError) }
    }
}

/// What `note_instantiate` does to a linked session.
pub open spec fn instantiate_step(s: Session, ok: bool) -> Session {
    if ok {
        Session { phase: Phase::Instantiated, ..s }
    } else {
        Session { phase: Phase::Failed, error: Some(SessionError::InstantiationError) }
    }
}

/// A nonexistent artifact path fails the session with `ArtifactNotFound`,
/// and the event loop is never entered from that session.
pub proof fn lemma_missing_artifact_keeps_loop_out(s: Session)
    requires
        s.wf(),
        s.phase == Phase::Created,
    ensures
        compile_step(s, CompileOutcome::PathMissing).error == Some(SessionError::ArtifactNotFound),
        !compile_step(s, CompileOutcome::PathMissing).spec_may_enter_loop(),
{
}

/// A linkage failure fails the session with `LinkageError` before
/// instantiation: the failed session is never in `Linked`, the only phase
/// from which `note_instantiate` proceeds, so no instantiation outcome can
/// reach it, and the event loop is never entered from it.
pub proof fn lemma_linkage_failure_precedes_instantiation(s: Session)
    requires
        s.wf(),
        s.phase == Phase::Compiled,
    ensures
        link_step(s, false).error == Some(SessionError::LinkageError),
        link_step(s, false).phase != Phase::Linked,
        !link_step(s, false).spec_may_enter_loop(),
{
}

} // verus!
