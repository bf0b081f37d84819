//! The three-phase transfer protocol, as a linear state machine.
//!
//! The transfer relocates a mounted subtree from the mount namespace of one
//! process into the mount namespace of another: resolve both namespace
//! handles, join the source namespace, clone a detached handle to the
//! subtree there, join the destination namespace, and attach the handle at
//! the destination path. The defining invariant is sequencing: the clone
//! must run while the *source* namespace is the calling thread's ambient
//! namespace, and the attach while the *destination* namespace is — in any
//! other order, paths resolve against the wrong namespace.
//!
//! The machine separates decisions from kernel work. [`next_action`] says
//! what the embedding program must do in each state; the program performs
//! the kernel call and reports its outcome as a [`TransferEvent`], which
//! [`apply_event`] folds into the next state. Transitions are strictly
//! linear: any failure moves directly to [`TransferState::Aborted`], which
//! is terminal — no phase recovers, and nothing undoes an
//! already-performed namespace switch.

use vstd::prelude::*;
use crate::anchor::AnchorReference;
use crate::error::NsError;
use crate::error::TransferPhase;
use crate::error::spec_classify_errno;
use crate::error::classify_errno;
use crate::flags::MoveMountFlags;
use crate::flags::OpenTreeFlags;
use crate::flags::spec_attach_flags;
use crate::flags::spec_clone_flags;
use crate::flags::attach_flags;
use crate::flags::clone_flags;

verus! {

/// What the caller asks for: the two processes and the two paths.
pub struct TransferRequest {
    /// The process whose mount namespace holds the subtree.
    pub from_pid: u32,
    /// The subtree's path, resolved in the source namespace.
    pub from_path: String,
    /// The process whose mount namespace receives the subtree.
    pub to_pid: u32,
    /// The attach path, resolved in the destination namespace.
    pub to_path: String,
}

impl TransferRequest {
    /// A well-formed request: positive process identifiers, non-empty
    /// paths.
    pub open spec fn wf(self) -> bool {
        &&& self.from_pid > 0
        &&& self.to_pid > 0
        &&& self.from_path@.len() > 0
        &&& self.to_path@.len() > 0
    }
}

/// Which end of the transfer a resolution step concerned.
#[derive(Clone, Copy, PartialEq, Eq, Structural, Debug)]
pub enum Endpoint {
    /// The process the subtree comes from.
    Source,
    /// The process the subtree goes to.
    Dest,
}

/// The protocol's state. Namespace and subtree handles are carried as raw
/// descriptor numbers; the embedding program owns the descriptors
/// themselves.
#[derive(Clone, Copy, PartialEq, Eq, Structural, Debug)]
pub enum TransferState {
    /// Nothing has happened yet.
    Start,
    /// Both namespace handles are resolved; no namespace switch has
    /// occurred.
    SourceNsResolved { from_ns: i32, to_ns: i32 },
    /// The calling thread now resolves paths in the source namespace.
    SourceNsActive { to_ns: i32 },
    /// A detached handle to the subtree is held; the source namespace is
    /// still active.
    Cloned { to_ns: i32, tree: i32 },
    /// The calling thread now resolves paths in the destination
    /// namespace; the detached handle is still held.
    DestNsActive { tree: i32 },
    /// The subtree is attached at the destination path; the transfer
    /// succeeded.
    Attached,
    /// The transfer failed in `phase` with `error`; terminal, nothing is
    /// undone.
    Aborted { phase: TransferPhase, error: NsError },
}

/// The mount namespace the calling thread is ambiently in, relative to the
/// transfer: the one it started in, the source's, or the destination's.
#[derive(Clone, Copy, PartialEq, Eq, Structural, Debug)]
pub enum AmbientNs {
    /// The namespace the thread started in.
    Original,
    /// The source process's mount namespace.
    Source,
    /// The destination process's mount namespace.
    Dest,
}

/// The ambient namespace while the given phase runs: switches happen only
/// at the two joins.
pub open spec fn spec_context_of_phase(phase: TransferPhase) -> AmbientNs {
    match phase {
        TransferPhase::SourceResolve => AmbientNs::Original,
        TransferPhase::DestResolve => AmbientNs::Original,
        TransferPhase::SourceJoin => AmbientNs::Original,
        TransferPhase::TreeClone => AmbientNs::Source,
        TransferPhase::DestJoin => AmbientNs::Source,
        TransferPhase::TreeAttach => AmbientNs::Dest,
    }
}

/// The calling thread's ambient mount namespace in each state. An aborted
/// transfer keeps whatever namespace was active when its phase failed:
/// nothing is switched back.
pub open spec fn spec_context(s: TransferState) -> AmbientNs {
    match s {
        TransferState::Start => AmbientNs::Original,
        TransferState::SourceNsResolved { .. } => AmbientNs::Original,
        TransferState::SourceNsActive { .. } => AmbientNs::Source,
        TransferState::Cloned { .. } => AmbientNs::Source,
        TransferState::DestNsActive { .. } => AmbientNs::Dest,
        TransferState::Attached => AmbientNs::Dest,
        TransferState::Aborted { phase, .. } => spec_context_of_phase(phase),
    }
}

/// What the embedding program is asked to do next.
pub enum TransferAction {
    /// Open the mount-namespace handles of both processes, source first.
    ResolveNamespaces { from_pid: u32, to_pid: u32 },
    /// Make `ns_fd`'s namespace the calling thread's mount namespace.
    JoinNamespace { ns_fd: i32 },
    /// Clone a detached handle to the subtree at `source`, resolved in the
    /// ambient namespace, with behavior `flags`.
    CloneTree { source: AnchorReference, flags: OpenTreeFlags },
    /// Attach the subtree `source` denotes at `target`, resolved in the
    /// ambient namespace, with behavior `flags`.
    AttachTree { source: AnchorReference, target: AnchorReference, flags: MoveMountFlags },
    /// The transfer succeeded; there is nothing left to do.
    Done,
    /// The transfer failed in `phase` with `error`; report and stop.
    Fail { phase: TransferPhase, error: NsError },
}

/// The outcome the embedding program reports after performing an action.
#[derive(Clone, Copy, PartialEq, Eq, Structural, Debug)]
pub enum TransferEvent {
    /// Both namespace handles were opened.
    Resolved { from_ns: i32, to_ns: i32 },
    /// Opening one process's namespace handle failed with `errno`.
    ResolveFailed { endpoint: Endpoint, errno: i32 },
    /// The namespace join succeeded.
    Joined,
    /// The namespace join failed with `errno`.
    JoinFailed { errno: i32 },
    /// The clone succeeded, yielding the detached handle `tree`.
    TreeCloned { tree: i32 },
    /// The clone failed with `errno`.
    TreeCloneFailed { errno: i32 },
    /// The attach succeeded.
    AttachSucceeded,
    /// The attach failed with `errno`.
    AttachFailed { errno: i32 },
}

/// The phase a state is waiting on; terminal states keep the phase that
/// ended them (for `Attached`, the attach — the last phase to run).
pub open spec fn spec_pending_phase(s: TransferState) -> TransferPhase {
    match s {
        TransferState::Start => TransferPhase::SourceResolve,
        TransferState::SourceNsResolved { .. } => TransferPhase::SourceJoin,
        TransferState::SourceNsActive { .. } => TransferPhase::TreeClone,
        TransferState::Cloned { .. } => TransferPhase::DestJoin,
        TransferState::DestNsActive { .. } => TransferPhase::TreeAttach,
        TransferState::Attached => TransferPhase::TreeAttach,
        TransferState::Aborted { phase, .. } => phase,
    }
}

/// Whether `e` is an outcome the pending action of `s` can report. The
/// terminal states have no pending action and accept no event.
pub open spec fn spec_event_answers(s: TransferState, e: TransferEvent) -> bool {
    match s {
        TransferState::Start => e matches TransferEvent::Resolved { .. } || e
            matches TransferEvent::ResolveFailed { .. },
        TransferState::SourceNsResolved { .. } => e matches TransferEvent::Joined || e
            matches TransferEvent::JoinFailed { .. },
        TransferState::SourceNsActive { .. } => e matches TransferEvent::TreeCloned { .. } || e
            matches TransferEvent::TreeCloneFailed { .. },
        TransferState::Cloned { .. } => e matches TransferEvent::Joined || e
            matches TransferEvent::JoinFailed { .. },
        TransferState::DestNsActive { .. } => e matches TransferEvent::AttachSucceeded || e
            matches TransferEvent::AttachFailed { .. },
        TransferState::Attached => false,
        TransferState::Aborted { .. } => false,
    }
}

/// The phase in which a failure event is charged. A failed resolution is
/// charged to the endpoint it named; every other failure is charged to the
/// phase the state was waiting on.
pub open spec fn spec_failure_phase(s: TransferState, e: TransferEvent) -> TransferPhase {
    if e matches TransferEvent::ResolveFailed { endpoint: Endpoint::Dest, .. } {
        TransferPhase::DestResolve
    } else {
        spec_pending_phase(s)
    }
}

/// The next state after outcome `e` in state `s`: the linear success
/// chain, or a single step to `Aborted` on any failure. An event that no
/// pending action of `s` can report leaves the state unchanged; in
/// particular the two terminal states absorb every event.
pub open spec fn spec_apply_event(s: TransferState, e: TransferEvent) -> TransferState {
    if !spec_event_answers(s, e) {
        s
    } else {
        spec_apply_event_fitting(s, e)
    }
}

/// The transition table for an event the pending action of `s` can
/// report.
pub open spec fn spec_apply_event_fitting(s: TransferState, e: TransferEvent) -> TransferState {
    match e {
        TransferEvent::Resolved { from_ns, to_ns } => TransferState::SourceNsResolved {
            from_ns,
            to_ns,
        },
        TransferEvent::Joined => match s {
            TransferState::SourceNsResolved { to_ns, .. } => TransferState::SourceNsActive {
                to_ns,
            },
            TransferState::Cloned { tree, .. } => TransferState::DestNsActive { tree },
            _ => s,
        },
        TransferEvent::TreeCloned { tree } => match s {
            TransferState::SourceNsActive { to_ns } => TransferState::Cloned { to_ns, tree },
            _ => s,
        },
        TransferEvent::AttachSucceeded => TransferState::Attached,
        TransferEvent::ResolveFailed { endpoint, errno } => TransferState::Aborted {
            phase: spec_failure_phase(s, e),
            error: spec_classify_errno(spec_failure_phase(s, e), errno),
        },
        TransferEvent::JoinFailed { errno } => TransferState::Aborted {
            phase: spec_failure_phase(s, e),
            error: spec_classify_errno(spec_failure_phase(s, e), errno),
        },
        TransferEvent::TreeCloneFailed { errno } => TransferState::Aborted {
            phase: spec_failure_phase(s, e),
            error: spec_classify_errno(spec_failure_phase(s, e), errno),
        },
        TransferEvent::AttachFailed { errno } => TransferState::Aborted {
            phase: spec_failure_phase(s, e),
            error: spec_classify_errno(spec_failure_phase(s, e), errno),
        },
    }
}

/// The action the embedding program must perform in state `s` for request
/// `req`.
pub open spec fn spec_next_action(s: TransferState, req: TransferRequest) -> TransferAction {
    match s {
        TransferState::Start => TransferAction::ResolveNamespaces {
            from_pid: req.from_pid,
            to_pid: req.to_pid,
        },
        TransferState::SourceNsResolved { from_ns, .. } => TransferAction::JoinNamespace {
            ns_fd: from_ns,
        },
        TransferState::SourceNsActive { .. } => TransferAction::CloneTree {
            source: AnchorReference::Location { dirfd: None, path: req.from_path },
            flags: spec_clone_flags(),
        },
        TransferState::Cloned { to_ns, .. } => TransferAction::JoinNamespace { ns_fd: to_ns },
        TransferState::DestNsActive { tree } => TransferAction::AttachTree {
            source: AnchorReference::Descriptor { fd: tree },
            target: AnchorReference::Location { dirfd: None, path: req.to_path },
            flags: spec_attach_flags(),
        },
        TransferState::Attached => TransferAction::Done,
        TransferState::Aborted { phase, error } => TransferAction::Fail { phase, error },
    }
}

/// Computes the action for state `s`: exactly the one
/// [`spec_next_action`] prescribes.
pub fn next_action(s: &TransferState, req: &TransferRequest) -> (a: TransferAction)
    ensures
        a == spec_next_action(*s, *req),
{
    match s {
        TransferState::Start => TransferAction::ResolveNamespaces {
            from_pid: req.from_pid,
            to_pid: req.to_pid,
        },
        TransferState::SourceNsResolved { from_ns, .. } => TransferAction::JoinNamespace {
            ns_fd: *from_ns,
        },
        TransferState::SourceNsActive { .. } => TransferAction::CloneTree {
            source: AnchorReference::Location { dirfd: None, path: req.from_path.clone() },
            flags: clone_flags(),
        },
        TransferState::Cloned { to_ns, .. } => TransferAction::JoinNamespace { ns_fd: *to_ns },
        TransferState::DestNsActive { tree } => TransferAction::AttachTree {
            source: AnchorReference::Descriptor { fd: *tree },
            target: AnchorReference::Location { dirfd: None, path: req.to_path.clone() },
            flags: attach_flags(),
        },
        TransferState::Attached => TransferAction::Done,
        TransferState::Aborted { phase, error } => TransferAction::Fail {
            phase: *phase,
            error: *error,
        },
    }
}

/// Folds a reported outcome into the state: exactly the transition
/// [`spec_apply_event`] prescribes.
pub fn apply_event(s: &TransferState, e: &TransferEvent) -> (s2: TransferState)
    requires
        spec_event_answers(*s, *e),
    ensures
        s2 == spec_apply_event(*s, *e),
{
    match e {
        TransferEvent::Resolved { from_ns, to_ns } => TransferState::SourceNsResolved {
            from_ns: *from_ns,
            to_ns: *to_ns,
        },
        TransferEvent::Joined => match s {
            TransferState::SourceNsResolved { to_ns, .. } => TransferState::SourceNsActive {
                to_ns: *to_ns,
            },
            TransferState::Cloned { tree, .. } => TransferState::DestNsActive { tree: *tree },
            _ => *s,
        },
        TransferEvent::TreeCloned { tree } => match s {
            TransferState::SourceNsActive { to_ns } => TransferState::Cloned {
                to_ns: *to_ns,
                tree: *tree,
            },
            _ => *s,
        },
        TransferEvent::AttachSucceeded => TransferState::Attached,
        TransferEvent::ResolveFailed { endpoint: _, errno } => {
            let phase = failure_phase(s, e);
            TransferState::Aborted { phase, error: classify_errno(phase, *errno) }
        },
        TransferEvent::JoinFailed { errno } => {
            let phase = failure_phase(s, e);
            TransferState::Aborted { phase, error: classify_errno(phase, *errno) }
        },
        TransferEvent::TreeCloneFailed { errno } => {
            let phase = failure_phase(s, e);
            TransferState::Aborted { phase, error: classify_errno(phase, *errno) }
        },
        TransferEvent::AttachFailed { errno } => {
            let phase = failure_phase(s, e);
            TransferState::Aborted { phase, error: classify_errno(phase, *errno) }
        },
    }
}

/// Whether `e` is an outcome the pending action of `s` can report:
/// exactly [`spec_event_answers`]. A driver checks this before handing an
/// outcome to [`apply_event`].
pub fn event_answers(s: &TransferState, e: &TransferEvent) -> (r: bool)
    ensures
        r == spec_event_answers(*s, *e),
{
    match s {
        TransferState::Start => matches!(e, TransferEvent::Resolved { .. }) || matches!(
            e,
            TransferEvent::ResolveFailed { .. },
        ),
        TransferState::SourceNsResolved { .. } => matches!(e, TransferEvent::Joined) || matches!(
            e,
            TransferEvent::JoinFailed { .. },
        ),
        TransferState::SourceNsActive { .. } => matches!(e, TransferEvent::TreeCloned { .. })
            || matches!(e, TransferEvent::TreeCloneFailed { .. }),
        TransferState::Cloned { .. } => matches!(e, TransferEvent::Joined) || matches!(
            e,
            TransferEvent::JoinFailed { .. },
        ),
        TransferState::DestNsActive { .. } => matches!(e, TransferEvent::AttachSucceeded)
            || matches!(e, TransferEvent::AttachFailed { .. }),
        TransferState::Attached => false,
        TransferState::Aborted { .. } => false,
    }
}

/// The phase a failure event is charged to: exactly
/// [`spec_failure_phase`].
pub fn failure_phase(s: &TransferState, e: &TransferEvent) -> (p: TransferPhase)
    ensures
        p == spec_failure_phase(*s, *e),
{
    if matches!(e, TransferEvent::ResolveFailed { endpoint: Endpoint::Dest, .. }) {
        TransferPhase::DestResolve
    } else {
        pending_phase(s)
    }
}

/// The phase a state is waiting on: exactly [`spec_pending_phase`].
pub fn pending_phase(s: &TransferState) -> (p: TransferPhase)
    ensures
        p == spec_pending_phase(*s),
{
    match s {
        TransferState::Start => TransferPhase::SourceResolve,
        TransferState::SourceNsResolved { .. } => TransferPhase::SourceJoin,
        TransferState::SourceNsActive { .. } => TransferPhase::TreeClone,
        TransferState::Cloned { .. } => TransferPhase::DestJoin,
        TransferState::DestNsActive { .. } => TransferPhase::TreeAttach,
        TransferState::Attached => TransferPhase::TreeAttach,
        TransferState::Aborted { phase, .. } => *phase,
    }
}

/// Whether a state is terminal: the transfer has succeeded or aborted,
/// and no further action will be asked for.
pub open spec fn spec_is_terminal(s: TransferState) -> bool {
    s == TransferState::Attached || s matches TransferState::Aborted { .. }
}

/// Whether a state is terminal: exactly [`spec_is_terminal`].
pub fn is_terminal(s: &TransferState) -> (r: bool)
    ensures
        r == spec_is_terminal(*s),
{
    matches!(s, TransferState::Attached) || matches!(s, TransferState::Aborted { .. })
}

/// Whether an event reports a failure.
pub open spec fn spec_is_failure_event(e: TransferEvent) -> bool {
    ||| e matches TransferEvent::ResolveFailed { .. }
    ||| e matches TransferEvent::JoinFailed { .. }
    ||| e matches TransferEvent::TreeCloneFailed { .. }
    ||| e matches TransferEvent::AttachFailed { .. }
}

/// A well-formed state: every descriptor it carries is valid
/// (non-negative).
pub open spec fn spec_state_wf(s: TransferState) -> bool {
    match s {
        TransferState::Start => true,
        TransferState::SourceNsResolved { from_ns, to_ns } => from_ns >= 0 && to_ns >= 0,
        TransferState::SourceNsActive { to_ns } => to_ns >= 0,
        TransferState::Cloned { to_ns, tree } => to_ns >= 0 && tree >= 0,
        TransferState::DestNsActive { tree } => tree >= 0,
        TransferState::Attached => true,
        TransferState::Aborted { .. } => true,
    }
}

/// A well-formed event: every descriptor a success outcome hands over is
/// valid (non-negative), as a descriptor returned by a successful kernel
/// call always is.
pub open spec fn spec_event_wf(e: TransferEvent) -> bool {
    match e {
        TransferEvent::Resolved { from_ns, to_ns } => from_ns >= 0 && to_ns >= 0,
        TransferEvent::TreeCloned { tree } => tree >= 0,
        _ => true,
    }
}

/// The final state after folding a whole sequence of reported outcomes,
/// first to last, into `s`.
pub open spec fn spec_run(s: TransferState, events: Seq<TransferEvent>) -> TransferState
    decreases events.len(),
{
    if events.len() == 0 {
        s
    } else {
        spec_run(spec_apply_event(s, events[0]), events.drop_first())
    }
}

/// The states visited while folding `events` into `s`: `s` first, the
/// final state last — `events.len() + 1` states in all.
pub open spec fn spec_states(s: TransferState, events: Seq<TransferEvent>) -> Seq<TransferState>
    decreases events.len(),
{
    if events.len() == 0 {
        seq![s]
    } else {
        seq![s] + spec_states(spec_apply_event(s, events[0]), events.drop_first())
    }
}

/// The visited states are one more than the events, they begin at the
/// start state, and they end at the run's final state.
pub proof fn lemma_states_shape(s: TransferState, events: Seq<TransferEvent>)
    ensures
        spec_states(s, events).len() == events.len() + 1,
        spec_states(s, events)[0] == s,
        spec_states(s, events).last() == spec_run(s, events),
    decreases events.len(),
{
    if events.len() > 0 {
        lemma_states_shape(spec_apply_event(s, events[0]), events.drop_first());
    }
}

/// A terminal state absorbs every further event: the run stays where it
/// is, and every visited state is the terminal state itself.
pub proof fn lemma_terminal_absorbs(s: TransferState, events: Seq<TransferEvent>)
    requires
        spec_is_terminal(s),
    ensures
        spec_run(s, events) == s,
        forall|i: int| 0 <= i < spec_states(s, events).len() ==> spec_states(s, events)[i] == s,
    decreases events.len(),
{
    if events.len() > 0 {
        assert(spec_apply_event(s, events[0]) == s);
        lemma_terminal_absorbs(s, events.drop_first());
        assert forall|i: int| 0 <= i < spec_states(s, events).len() implies spec_states(
            s,
            events,
        )[i] == s by {
            if i > 0 {
                assert(spec_states(s, events)[i] == spec_states(s, events.drop_first())[i - 1]);
            }
        }
    }
}

/// One step preserves state well-formedness, provided the event is one
/// its pending action can report and carries valid descriptors.
pub proof fn lemma_step_preserves_wf(s: TransferState, e: TransferEvent)
    requires
        spec_state_wf(s),
        spec_event_wf(e),
    ensures
        spec_state_wf(spec_apply_event(s, e)),
{
}

/// A whole run preserves state well-formedness.
pub proof fn lemma_run_preserves_wf(s: TransferState, events: Seq<TransferEvent>)
    requires
        spec_state_wf(s),
        forall|i: int| 0 <= i < events.len() ==> spec_event_wf(#[trigger] events[i]),
    ensures
        spec_state_wf(spec_run(s, events)),
        forall|i: int|
            0 <= i < spec_states(s, events).len() ==> spec_state_wf(
                #[trigger] spec_states(s, events)[i],
            ),
    decreases events.len(),
{
    if events.len() > 0 {
        let s1 = spec_apply_event(s, events[0]);
        lemma_step_preserves_wf(s, events[0]);
        assert(forall|i: int|
            0 <= i < events.drop_first().len() ==> spec_event_wf(
                #[trigger] events.drop_first()[i],
            ));
        lemma_run_preserves_wf(s1, events.drop_first());
        assert forall|i: int| 0 <= i < spec_states(s, events).len() implies spec_state_wf(
            #[trigger] spec_states(s, events)[i],
        ) by {
            if i > 0 {
                assert(spec_states(s, events)[i] == spec_states(s1, events.drop_first())[i - 1]);
            }
        }
    }
}

/// Fail-fast: a failure outcome, reported from the state whose pending
/// action it answers, moves the machine directly to `Aborted` — charged
/// to the failing phase, with the phase-classified error — and that state
/// is terminal.
pub proof fn lemma_fail_fast(s: TransferState, e: TransferEvent)
    requires
        spec_event_answers(s, e),
        spec_is_failure_event(e),
    ensures
        spec_apply_event(s, e) matches TransferState::Aborted { phase, error } && phase
            == spec_failure_phase(s, e) && error == spec_classify_errno(
            spec_failure_phase(s, e),
            spec_event_errno(e),
        ),
        spec_is_terminal(spec_apply_event(s, e)),
{
}

/// How far along the linear chain a state stands; both terminal states
/// stand at the end.
pub open spec fn spec_rank(s: TransferState) -> nat {
    match s {
        TransferState::Start => 0,
        TransferState::SourceNsResolved { .. } => 1,
        TransferState::SourceNsActive { .. } => 2,
        TransferState::Cloned { .. } => 3,
        TransferState::DestNsActive { .. } => 4,
        TransferState::Attached => 5,
        TransferState::Aborted { .. } => 5,
    }
}

/// Transitions are strictly linear: every outcome the pending action can
/// report moves the machine strictly forward — one link down the success
/// chain, or directly to `Aborted`. There is no loop and no retry, so a
/// driven transfer ends after at most five reported outcomes.
pub proof fn lemma_linear_progress(s: TransferState, e: TransferEvent)
    requires
        spec_event_answers(s, e),
    ensures
        spec_rank(spec_apply_event(s, e)) > spec_rank(s),
        spec_is_failure_event(e) ==> spec_is_terminal(spec_apply_event(s, e)),
{
}

/// The raw error code a failure event carries.
pub open spec fn spec_event_errno(e: TransferEvent) -> i32 {
    match e {
        TransferEvent::ResolveFailed { errno, .. } => errno,
        TransferEvent::JoinFailed { errno } => errno,
        TransferEvent::TreeCloneFailed { errno } => errno,
        TransferEvent::AttachFailed { errno } => errno,
        _ => 0,
    }
}

} // verus!
