//! Lifecycle of the grab session: at most one is installed, installation is
//! all-or-nothing, and stopping acts on the run loop captured at start.
use vstd::prelude::*;
use crate::event::{GrabError, ListenError};
use crate::native::{listen_event_mask, listen_event_mask_spec};

verus! {

/// Where the grab session stands.
#[derive(Clone, Copy, Debug, PartialEq, Eq, Structural)]
pub enum SessionState {
    /// Nothing is installed.
    Absent,
    /// A `grab` call is creating the tap and its run-loop source.
    Installing,
    /// The tap is attached to `run_loop` (an opaque handle), which is running.
    Active { run_loop: usize },
}

/// The process-wide grab session record.
#[derive(Debug)]
pub struct GrabSession {
    pub state: SessionState,
}

/// What the caller of `grab` must do next.
#[derive(Clone, Copy, Debug, PartialEq, Eq, Structural)]
pub enum GrabStart {
    /// A session is already installed or being installed: report success at once.
    AlreadyActive,
    /// The caller now owns the installation and must create the tap.
    Install,
}

/// The state and answer that a `begin` call gives from state `s`.
pub open spec fn after_begin(s: SessionState) -> (SessionState, GrabStart) {
    match s {
        SessionState::Absent => (SessionState::Installing, GrabStart::Install),
        _ => (s, GrabStart::AlreadyActive),
    }
}

/// The state and the run loop to stop that an `exit_grab` call gives from
/// state `s`.
pub open spec fn after_exit(s: SessionState) -> (SessionState, Option<usize>) {
    match s {
        SessionState::Active { run_loop } => (SessionState::Absent, Some(run_loop)),
        _ => (s, None),
    }
}

/// The state after `n` further `begin` calls from state `s`.
pub open spec fn after_begins(s: SessionState, n: nat) -> SessionState
    decreases n,
{
    if n == 0 {
        s
    } else {
        after_begins(after_begin(s).0, (n - 1) as nat)
    }
}

impl GrabSession {
    /// A record with no session.
    pub fn new() -> (r: GrabSession)
        ensures
            r.state == SessionState::Absent,
    {
        GrabSession { state: SessionState::Absent }
    }

    /// Whether a session is fully installed.
    pub fn is_grabbed(&self) -> (r: bool)
        ensures
            r == self.state is Active,
    {
        match self.state {
            SessionState::Active { .. } => true,
            _ => false,
        }
    }

    /// Claims the installation for one `grab` call. Only the first of several
    /// callers gets `Install`; the others are told a session already exists.
    pub fn begin(&mut self) -> (r: GrabStart)
        ensures
            (final(self).state, r) == after_begin(old(self).state),
    {
        match self.state {
            SessionState::Absent => {
                self.state = SessionState::Installing;
                GrabStart::Install
            },
            _ => GrabStart::AlreadyActive,
        }
    }

    /// Records whether the event tap was created. A failure abandons the
    /// installation, leaving no session.
    pub fn tap_created(&mut self, created: bool) -> (r: Result<(), GrabError>)
        requires
            old(self).state == SessionState::Installing,
        ensures
            created ==> r is Ok && final(self).state == SessionState::Installing,
            !created ==> r == Err::<(), GrabError>(GrabError::EventTapError)
                && final(self).state == SessionState::Absent,
    {
        if created {
            Ok(())
        } else {
            self.state = SessionState::Absent;
            Err(GrabError::EventTapError)
        }
    }

    /// Records whether the run-loop source was created. A failure abandons
    /// the installation, leaving no session.
    pub fn source_created(&mut self, created: bool) -> (r: Result<(), GrabError>)
        requires
            old(self).state == SessionState::Installing,
        ensures
            created ==> r is Ok && final(self).state == SessionState::Installing,
            !created ==> r == Err::<(), GrabError>(GrabError::LoopSourceError)
                && final(self).state == SessionState::Absent,
    {
        if created {
            Ok(())
        } else {
            self.state = SessionState::Absent;
            Err(GrabError::LoopSourceError)
        }
    }

    /// Records the run loop that the tap was attached to; the session is
    /// then installed.
    pub fn attached(&mut self, run_loop: usize)
        requires
            old(self).state == SessionState::Installing,
        ensures
            final(self).state == (SessionState::Active { run_loop }),
    {
        self.state = SessionState::Active { run_loop };
    }

    /// Ends the installed session, returning the run loop that must be
    /// stopped. With no installed session nothing changes.
    pub fn exit_grab(&mut self) -> (r: Option<usize>)
        ensures
            (final(self).state, r) == after_exit(old(self).state),
    {
        match self.state {
            SessionState::Active { run_loop } => {
                self.state = SessionState::Absent;
                Some(run_loop)
            },
            _ => None,
        }
    }
}

/// However many `grab` calls race for the session, at most one of them is
/// told to install: once one call has claimed it, every later call is told a
/// session already exists and leaves the state as it found it.
pub proof fn lemma_single_installer(s: SessionState)
    ensures
        after_begin(s).1 == GrabStart::Install ==> after_begin(after_begin(s).0).1
            == GrabStart::AlreadyActive,
        after_begin(after_begin(s).0).0 == after_begin(s).0,
        after_begin(s).1 == GrabStart::Install <==> s == SessionState::Absent,
{
}

/// `exit_grab` with no installed session stops nothing and changes nothing.
pub proof fn lemma_exit_without_session(s: SessionState)
    requires
        !(s is Active),
    ensures
        after_exit(s) == (s, Option::<usize>::None),
{
}

/// Once a session is installed on a run loop, further `grab` calls leave it
/// in place, and `exit_grab` then stops exactly that run loop and leaves no
/// session, after which a second `exit_grab` has no effect.
pub proof fn lemma_exit_stops_captured_loop(run_loop: usize, n: nat)
    ensures
        after_begins(SessionState::Active { run_loop }, n) == (SessionState::Active { run_loop }),
        after_exit(after_begins(SessionState::Active { run_loop }, n)) == (
        SessionState::Absent, Some(run_loop)),
        after_exit(SessionState::Absent) == (SessionState::Absent, Option::<usize>::None),
    decreases n,
{
    if n > 0 {
        lemma_exit_stops_captured_loop(run_loop, (n - 1) as nat);
    }
}

/// One call on the grab session record, as a caller makes it.
#[derive(Clone, Copy, Debug, PartialEq, Eq, Structural)]
pub enum SessionOp {
    Begin,
    TapCreated(bool),
    SourceCreated(bool),
    Attached(usize),
    Exit,
}

/// The state after `op` from `s`, and whether `op` told its caller to
/// install. A call whose precondition does not hold leaves the state as it is.
pub open spec fn apply_op(s: SessionState, op: SessionOp) -> (SessionState, bool) {
    match op {
        SessionOp::Begin => (after_begin(s).0, after_begin(s).1 == GrabStart::Install),
        SessionOp::TapCreated(ok) | SessionOp::SourceCreated(ok) => if s
            == SessionState::Installing && !ok {
            (SessionState::Absent, false)
        } else {
            (s, false)
        },
        SessionOp::Attached(run_loop) => if s == SessionState::Installing {
            (SessionState::Active { run_loop }, false)
        } else {
            (s, false)
        },
        SessionOp::Exit => (after_exit(s).0, false),
    }
}

/// Whether `op` can end a session or an installation.
pub open spec fn ends_session(op: SessionOp) -> bool {
    op is Exit || op == SessionOp::TapCreated(false) || op == SessionOp::SourceCreated(false)
}

/// How many calls of `ops`, run in order from `s`, are told to install.
pub open spec fn installs(s: SessionState, ops: Seq<SessionOp>) -> nat
    decreases ops.len(),
{
    if ops.len() == 0 {
        0
    } else {
        let (s2, told) = apply_op(s, ops[0]);
        (if told {
            1nat
        } else {
            0nat
        }) + installs(s2, ops.subrange(1, ops.len() as int))
    }
}

/// Under any interleaving of calls on the session record in which no
/// installation fails and no session is ended, at most one caller is told to
/// install, and none at all once a session exists or is being installed.
pub proof fn lemma_one_installer_per_session(s: SessionState, ops: Seq<SessionOp>)
    requires
        forall|i: int| 0 <= i < ops.len() ==> !ends_session(#[trigger] ops[i]),
    ensures
        installs(s, ops) <= 1,
        s != SessionState::Absent ==> installs(s, ops) == 0,
    decreases ops.len(),
{
    if ops.len() > 0 {
        let rest = ops.subrange(1, ops.len() as int);
        assert forall|i: int| 0 <= i < rest.len() implies !ends_session(#[trigger] rest[i]) by {
            assert(rest[i] == ops[i + 1]);
        }
        assert(!ends_session(ops[0]));
        lemma_one_installer_per_session(apply_op(s, ops[0]).0, rest);
    }
}

/// The next step of a listen installation on the event-tap platform.
#[derive(Clone, Copy, Debug, PartialEq, Eq, Structural)]
pub enum TapAction {
    /// Create the listen-only tap.
    CreateTap,
    /// Wrap the tap as a run-loop source.
    CreateSource,
    /// Attach the source to the main run loop, enable the tap and run.
    AttachAndRun,
    /// The installation failed; nothing was attached.
    Failed(ListenError),
}

/// A listen installation on the event-tap platform.
#[derive(Clone, Copy, Debug, PartialEq, Eq, Structural)]
pub struct TapListenInstall {
    /// The event mask the tap is created with.
    pub mask: u64,
    /// What the installation must do next.
    pub next: TapAction,
}

/// The step after `step` succeeded (`ok`) or failed.
pub open spec fn tap_step_after(step: TapAction, ok: bool) -> TapAction {
    match step {
        TapAction::CreateTap => if ok {
            TapAction::CreateSource
        } else {
            TapAction::Failed(ListenError::EventTapError)
        },
        _ => if ok {
            TapAction::AttachAndRun
        } else {
            TapAction::Failed(ListenError::LoopSourceError)
        },
    }
}

impl TapListenInstall {
    /// Starts an installation: the tap comes first, with the keyboard mask
    /// when capture is restricted to the keyboard and the full mask otherwise.
    pub fn new(keyboard_only: bool) -> (r: TapListenInstall)
        ensures
            r.next == TapAction::CreateTap,
            r.mask == listen_event_mask_spec(keyboard_only),
    {
        TapListenInstall { mask: listen_event_mask(keyboard_only), next: TapAction::CreateTap }
    }

    /// Records whether the pending step succeeded. Each failure has its own
    /// error and stops the installation before anything is attached.
    pub fn step_done(&mut self, ok: bool)
        requires
            old(self).next == TapAction::CreateTap || old(self).next == TapAction::CreateSource,
        ensures
            final(self).mask == old(self).mask,
            final(self).next == tap_step_after(old(self).next, ok),
    {
        self.next = match self.next {
            TapAction::CreateTap => if ok {
                TapAction::CreateSource
            } else {
                TapAction::Failed(ListenError::EventTapError)
            },
            _ => if ok {
                TapAction::AttachAndRun
            } else {
                TapAction::Failed(ListenError::LoopSourceError)
            },
        };
    }
}

} // verus!
