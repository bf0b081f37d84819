//! The protocol's governing laws, proved against the state machine.
//!
//! Each law quantifies over all requests, handles and error codes that its
//! premises allow; what the kernel itself guarantees (that a detached clone
//! survives its source namespace, that an attach makes the subtree visible)
//! is outside the model, so each law states the protocol's share: which
//! actions are issued, in which ambient namespace, with which flags, and
//! where the machine ends up.

use vstd::prelude::*;
use crate::anchor::AnchorReference;
use crate::error::NsError;
use crate::error::TransferPhase;
use crate::error::spec_classify_errno;
use crate::flags::OPEN_TREE_CLOEXEC;
use crate::flags::OPEN_TREE_CLONE;
use crate::flags::MOVE_MOUNT_F_EMPTY_PATH;
use crate::flags::spec_attach_flags;
use crate::flags::spec_clone_flags;
use crate::protocol::AmbientNs;
use crate::protocol::Endpoint;
use crate::protocol::TransferAction;
use crate::protocol::TransferEvent;
use crate::protocol::TransferRequest;
use crate::protocol::TransferState;
use crate::protocol::lemma_states_shape;
use crate::protocol::lemma_terminal_absorbs;
use crate::protocol::spec_apply_event;
use crate::protocol::spec_context;
use crate::protocol::spec_next_action;
use crate::protocol::spec_run;
use crate::protocol::spec_states;

verus! {

/// The outcomes of a transfer in which every kernel call succeeds:
/// resolution yields the two namespace handles, both joins succeed, the
/// clone yields the detached subtree handle, and the attach succeeds.
pub open spec fn success_events(from_ns: i32, to_ns: i32, tree: i32) -> Seq<TransferEvent> {
    seq![
        TransferEvent::Resolved { from_ns, to_ns },
        TransferEvent::Joined,
        TransferEvent::TreeCloned { tree },
        TransferEvent::Joined,
        TransferEvent::AttachSucceeded,
    ]
}

/// When every kernel call succeeds, the transfer succeeds, and it issues
/// exactly the five actions of the protocol, in order: resolve both
/// namespaces, join the source, clone the source path (in the source
/// namespace), join the destination, and attach the cloned subtree at the
/// destination path (in the destination namespace). The clone runs while
/// the source namespace is ambient and the attach while the destination
/// namespace is ambient — the sequencing the whole design exists for.
pub proof fn lemma_transfer_succeeds(
    req: TransferRequest,
    from_ns: i32,
    to_ns: i32,
    tree: i32,
)
    requires
        req.wf(),
    ensures
        ({
            let s0 = TransferState::Start;
            let s1 = spec_apply_event(s0, TransferEvent::Resolved { from_ns, to_ns });
            let s2 = spec_apply_event(s1, TransferEvent::Joined);
            let s3 = spec_apply_event(s2, TransferEvent::TreeCloned { tree });
            let s4 = spec_apply_event(s3, TransferEvent::Joined);
            let s5 = spec_apply_event(s4, TransferEvent::AttachSucceeded);
            &&& spec_run(s0, success_events(from_ns, to_ns, tree)) == s5
            &&& s5 == TransferState::Attached
            &&& spec_next_action(s0, req) == (TransferAction::ResolveNamespaces {
                from_pid: req.from_pid,
                to_pid: req.to_pid,
            })
            &&& spec_next_action(s1, req) == (TransferAction::JoinNamespace { ns_fd: from_ns })
            &&& spec_next_action(s2, req) == (TransferAction::CloneTree {
                source: AnchorReference::Location { dirfd: None, path: req.from_path },
                flags: spec_clone_flags(),
            })
            &&& spec_next_action(s3, req) == (TransferAction::JoinNamespace { ns_fd: to_ns })
            &&& spec_next_action(s4, req) == (TransferAction::AttachTree {
                source: AnchorReference::Descriptor { fd: tree },
                target: AnchorReference::Location { dirfd: None, path: req.to_path },
                flags: spec_attach_flags(),
            })
            &&& spec_context(s2) == AmbientNs::Source
            &&& spec_context(s4) == AmbientNs::Dest
        }),
{
    reveal_with_fuel(spec_run, 6);
    let evs = success_events(from_ns, to_ns, tree);
    let s0 = TransferState::Start;
    let s1 = spec_apply_event(s0, TransferEvent::Resolved { from_ns, to_ns });
    let s2 = spec_apply_event(s1, TransferEvent::Joined);
    let s3 = spec_apply_event(s2, TransferEvent::TreeCloned { tree });
    let s4 = spec_apply_event(s3, TransferEvent::Joined);
    assert(evs.drop_first() =~= seq![
        TransferEvent::Joined,
        TransferEvent::TreeCloned { tree },
        TransferEvent::Joined,
        TransferEvent::AttachSucceeded,
    ]);
    assert(evs.drop_first().drop_first() =~= seq![
        TransferEvent::TreeCloned { tree },
        TransferEvent::Joined,
        TransferEvent::AttachSucceeded,
    ]);
    assert(evs.drop_first().drop_first().drop_first() =~= seq![
        TransferEvent::Joined,
        TransferEvent::AttachSucceeded,
    ]);
    assert(evs.drop_first().drop_first().drop_first().drop_first() =~= seq![
        TransferEvent::AttachSucceeded,
    ]);
    assert(evs.drop_first().drop_first().drop_first().drop_first().drop_first()
        =~= Seq::<TransferEvent>::empty());
    assert(s1 == (TransferState::SourceNsResolved { from_ns, to_ns }));
    assert(s2 == (TransferState::SourceNsActive { to_ns }));
    assert(s3 == (TransferState::Cloned { to_ns, tree }));
    assert(s4 == (TransferState::DestNsActive { tree }));
}

/// Every clone the protocol can ever issue requests a detached clone and
/// close-on-exec, and addresses its source by path, not by descriptor;
/// detachment is what makes the resulting handle independent of the
/// source namespace's survival.
pub proof fn lemma_clone_requests_detachment(s: TransferState, req: TransferRequest)
    ensures
        spec_next_action(s, req) matches TransferAction::CloneTree { source, flags } ==> ({
            &&& flags.spec_has(OPEN_TREE_CLONE)
            &&& flags.spec_has(OPEN_TREE_CLOEXEC)
            &&& !source.spec_addresses_by_descriptor()
            &&& spec_context(s) == AmbientNs::Source
        }),
{
    let b: u32 = OPEN_TREE_CLONE | OPEN_TREE_CLOEXEC;
    assert(b & OPEN_TREE_CLONE == OPEN_TREE_CLONE && b & OPEN_TREE_CLOEXEC == OPEN_TREE_CLOEXEC)
        by (bit_vector)
        requires
            b == OPEN_TREE_CLONE | OPEN_TREE_CLOEXEC,
    ;
}

/// Every attach the protocol can ever issue addresses its source side by
/// the detached handle alone — with the empty-path flag set so the
/// nominal path string is not interpreted — and its target side by path;
/// and it is only ever issued while the destination namespace is ambient.
pub proof fn lemma_attach_addressing(s: TransferState, req: TransferRequest)
    ensures
        spec_next_action(s, req) matches TransferAction::AttachTree {
            source,
            target,
            flags,
        } ==> ({
            &&& source.spec_addresses_by_descriptor()
            &&& !target.spec_addresses_by_descriptor()
            &&& flags.spec_has(MOVE_MOUNT_F_EMPTY_PATH)
            &&& source.spec_nominal_path() == Seq::<char>::empty()
            &&& spec_context(s) == AmbientNs::Dest
        }),
{
    let b: u32 = MOVE_MOUNT_F_EMPTY_PATH;
    assert(b & MOVE_MOUNT_F_EMPTY_PATH == MOVE_MOUNT_F_EMPTY_PATH) by (bit_vector)
        requires
            b == MOVE_MOUNT_F_EMPTY_PATH,
    ;
}

/// If resolving the source process fails because the process does not
/// exist, the transfer aborts at once with `NotFound`, whatever outcomes
/// might follow; the calling thread is still in its original namespace —
/// no namespace switch has occurred — and at no visited state does the
/// protocol ask for a namespace join.
pub proof fn lemma_missing_source_aborts_unswitched(
    req: TransferRequest,
    errno: i32,
    rest: Seq<TransferEvent>,
)
    requires
        spec_classify_errno(TransferPhase::SourceResolve, errno) == NsError::NotFound,
    ensures
        ({
            let evs = seq![
                TransferEvent::ResolveFailed { endpoint: Endpoint::Source, errno },
            ] + rest;
            let visited = spec_states(TransferState::Start, evs);
            &&& visited.len() == evs.len() + 1
            &&& spec_run(TransferState::Start, evs) == (TransferState::Aborted {
                phase: TransferPhase::SourceResolve,
                error: NsError::NotFound,
            })
            &&& spec_context(spec_run(TransferState::Start, evs)) == AmbientNs::Original
            &&& forall|i: int|
                0 <= i < visited.len() ==> !(spec_next_action(#[trigger] visited[i], req)
                    matches TransferAction::JoinNamespace { .. })
        }),
{
    reveal_with_fuel(spec_run, 2);
    reveal_with_fuel(spec_states, 2);
    let e0 = TransferEvent::ResolveFailed { endpoint: Endpoint::Source, errno };
    let evs = seq![e0] + rest;
    let aborted = TransferState::Aborted {
        phase: TransferPhase::SourceResolve,
        error: NsError::NotFound,
    };
    assert(evs[0] == e0);
    assert(evs.drop_first() =~= rest);
    assert(spec_apply_event(TransferState::Start, e0) == aborted);
    lemma_states_shape(TransferState::Start, evs);
    lemma_terminal_absorbs(aborted, rest);
    let visited = spec_states(TransferState::Start, evs);
    assert forall|i: int| 0 <= i < visited.len() implies !(spec_next_action(
        #[trigger] visited[i],
        req,
    ) matches TransferAction::JoinNamespace { .. }) by {
        if i == 0 {
            assert(visited[i] == TransferState::Start);
        } else {
            assert(visited[i] == spec_states(aborted, rest)[i - 1]);
            assert(visited[i] == aborted);
        }
    }
}

/// If the first namespace join is denied for lack of privilege, the
/// transfer aborts at once with `PermissionDenied`, charged to the source
/// join, whatever outcomes might follow — and at no visited state does
/// the protocol ask for a mount-tree clone: no detached handle is ever
/// produced.
pub proof fn lemma_join_denied_no_clone(
    req: TransferRequest,
    from_ns: i32,
    to_ns: i32,
    errno: i32,
    rest: Seq<TransferEvent>,
)
    requires
        spec_classify_errno(TransferPhase::SourceJoin, errno) == NsError::PermissionDenied,
    ensures
        ({
            let evs = seq![
                TransferEvent::Resolved { from_ns, to_ns },
                TransferEvent::JoinFailed { errno },
            ] + rest;
            let visited = spec_states(TransferState::Start, evs);
            &&& visited.len() == evs.len() + 1
            &&& spec_run(TransferState::Start, evs) == (TransferState::Aborted {
                phase: TransferPhase::SourceJoin,
                error: NsError::PermissionDenied,
            })
            &&& forall|i: int|
                0 <= i < visited.len() ==> !(spec_next_action(#[trigger] visited[i], req)
                    matches TransferAction::CloneTree { .. })
        }),
{
    reveal_with_fuel(spec_run, 3);
    reveal_with_fuel(spec_states, 3);
    let e0 = TransferEvent::Resolved { from_ns, to_ns };
    let e1 = TransferEvent::JoinFailed { errno };
    let evs = seq![e0, e1] + rest;
    let s1 = TransferState::SourceNsResolved { from_ns, to_ns };
    let aborted = TransferState::Aborted {
        phase: TransferPhase::SourceJoin,
        error: NsError::PermissionDenied,
    };
    assert(evs[0] == e0);
    assert(evs.drop_first() =~= seq![e1] + rest);
    assert(evs.drop_first()[0] == e1);
    assert(evs.drop_first().drop_first() =~= rest);
    assert(spec_apply_event(TransferState::Start, e0) == s1);
    assert(spec_apply_event(s1, e1) == aborted);
    lemma_states_shape(TransferState::Start, evs);
    lemma_terminal_absorbs(aborted, rest);
    let visited = spec_states(TransferState::Start, evs);
    assert forall|i: int| 0 <= i < visited.len() implies !(spec_next_action(
        #[trigger] visited[i],
        req,
    ) matches TransferAction::CloneTree { .. }) by {
        if i == 0 {
            assert(visited[i] == TransferState::Start);
        } else {
            assert(visited[i] == spec_states(s1, evs.drop_first())[i - 1]);
            if i == 1 {
                assert(visited[i] == s1);
            } else {
                assert(visited[i] == spec_states(aborted, rest)[i - 2]);
                assert(visited[i] == aborted);
            }
        }
    }
}

/// If everything up to the attach succeeds but the destination is already
/// occupied and replacement is not requested, the transfer aborts with
/// `Busy`, charged to the attach phase; the machine is terminal there —
/// no further action follows, and the already-produced detached handle is
/// simply never attached.
pub proof fn lemma_occupied_destination_aborts(
    req: TransferRequest,
    from_ns: i32,
    to_ns: i32,
    tree: i32,
    errno: i32,
    rest: Seq<TransferEvent>,
)
    requires
        spec_classify_errno(TransferPhase::TreeAttach, errno) == NsError::Busy,
    ensures
        ({
            let evs = seq![
                TransferEvent::Resolved { from_ns, to_ns },
                TransferEvent::Joined,
                TransferEvent::TreeCloned { tree },
                TransferEvent::Joined,
                TransferEvent::AttachFailed { errno },
            ] + rest;
            spec_run(TransferState::Start, evs) == (TransferState::Aborted {
                phase: TransferPhase::TreeAttach,
                error: NsError::Busy,
            })
        }),
{
    reveal_with_fuel(spec_run, 6);
    let e0 = TransferEvent::Resolved { from_ns, to_ns };
    let e1 = TransferEvent::Joined;
    let e2 = TransferEvent::TreeCloned { tree };
    let e3 = TransferEvent::Joined;
    let e4 = TransferEvent::AttachFailed { errno };
    let evs = seq![e0, e1, e2, e3, e4] + rest;
    let s1 = TransferState::SourceNsResolved { from_ns, to_ns };
    let s2 = TransferState::SourceNsActive { to_ns };
    let s3 = TransferState::Cloned { to_ns, tree };
    let s4 = TransferState::DestNsActive { tree };
    let aborted = TransferState::Aborted {
        phase: TransferPhase::TreeAttach,
        error: NsError::Busy,
    };
    assert(evs[0] == e0);
    assert(evs.drop_first() =~= seq![e1, e2, e3, e4] + rest);
    assert(evs.drop_first()[0] == e1);
    assert(evs.drop_first().drop_first() =~= seq![e2, e3, e4] + rest);
    assert(evs.drop_first().drop_first()[0] == e2);
    assert(evs.drop_first().drop_first().drop_first() =~= seq![e3, e4] + rest);
    assert(evs.drop_first().drop_first().drop_first()[0] == e3);
    assert(evs.drop_first().drop_first().drop_first().drop_first() =~= seq![e4] + rest);
    assert(evs.drop_first().drop_first().drop_first().drop_first()[0] == e4);
    assert(evs.drop_first().drop_first().drop_first().drop_first().drop_first() =~= rest);
    assert(spec_apply_event(TransferState::Start, e0) == s1);
    assert(spec_apply_event(s1, e1) == s2);
    assert(spec_apply_event(s2, e2) == s3);
    assert(spec_apply_event(s3, e3) == s4);
    assert(spec_apply_event(s4, e4) == aborted);
    lemma_terminal_absorbs(aborted, rest);
}

} // verus!
