use nsmount::anchor::at_fd;
use nsmount::anchor::AnchorReference;
use nsmount::anchor::ANCHOR_NO_FD;
use nsmount::error::classify_errno;
use nsmount::error::NsError;
use nsmount::error::TransferPhase;
use nsmount::error::EACCES;
use nsmount::error::EBADF;
use nsmount::error::EBUSY;
use nsmount::error::EINVAL;
use nsmount::error::ENOENT;
use nsmount::error::EPERM;
use nsmount::error::ESRCH;
use nsmount::flags::attach_flags;
use nsmount::flags::clone_flags;
use nsmount::flags::MoveMountFlags;
use nsmount::flags::OpenTreeFlags;
use nsmount::flags::MOVE_MOUNT_F_EMPTY_PATH;
use nsmount::flags::MOVE_MOUNT_T_EMPTY_PATH;
use nsmount::flags::OPEN_TREE_CLOEXEC;
use nsmount::flags::OPEN_TREE_CLONE;
use nsmount::protocol::apply_event;
use nsmount::protocol::event_answers;
use nsmount::protocol::is_terminal;
use nsmount::protocol::next_action;
use nsmount::protocol::Endpoint;
use nsmount::protocol::TransferAction;
use nsmount::protocol::TransferEvent;
use nsmount::protocol::TransferRequest;
use nsmount::protocol::TransferState;

fn request() -> TransferRequest {
    TransferRequest {
        from_pid: 1200,
        from_path: String::from("/mnt/data"),
        to_pid: 3400,
        to_path: String::from("/srv/incoming"),
    }
}

#[test]
fn success_run_issues_the_five_actions_in_order() {
    let req = request();
    let mut state = TransferState::Start;

    match next_action(&state, &req) {
        TransferAction::ResolveNamespaces { from_pid, to_pid } => {
            assert_eq!(from_pid, 1200);
            assert_eq!(to_pid, 3400);
        }
        _ => panic!("expected a resolve action first"),
    }
    state = apply_event(&state, &TransferEvent::Resolved { from_ns: 5, to_ns: 6 });

    match next_action(&state, &req) {
        TransferAction::JoinNamespace { ns_fd } => assert_eq!(ns_fd, 5),
        _ => panic!("expected the source namespace join"),
    }
    state = apply_event(&state, &TransferEvent::Joined);

    match next_action(&state, &req) {
        TransferAction::CloneTree { source, flags } => {
            match source {
                AnchorReference::Location { dirfd, path } => {
                    assert_eq!(dirfd, None);
                    assert_eq!(path, "/mnt/data");
                }
                _ => panic!("the clone source is addressed by path"),
            }
            assert_eq!(flags.bits, OPEN_TREE_CLONE | OPEN_TREE_CLOEXEC);
        }
        _ => panic!("expected the clone while the source namespace is active"),
    }
    state = apply_event(&state, &TransferEvent::TreeCloned { tree: 7 });

    match next_action(&state, &req) {
        TransferAction::JoinNamespace { ns_fd } => assert_eq!(ns_fd, 6),
        _ => panic!("expected the destination namespace join"),
    }
    state = apply_event(&state, &TransferEvent::Joined);

    match next_action(&state, &req) {
        TransferAction::AttachTree { source, target, flags } => {
            match source {
                AnchorReference::Descriptor { fd } => assert_eq!(fd, 7),
                _ => panic!("the attach source is the detached handle itself"),
            }
            match target {
                AnchorReference::Location { dirfd, path } => {
                    assert_eq!(dirfd, None);
                    assert_eq!(path, "/srv/incoming");
                }
                _ => panic!("the attach target is addressed by path"),
            }
            assert_eq!(flags.bits, MOVE_MOUNT_F_EMPTY_PATH);
        }
        _ => panic!("expected the attach while the destination namespace is active"),
    }
    state = apply_event(&state, &TransferEvent::AttachSucceeded);

    assert_eq!(state, TransferState::Attached);
    assert!(is_terminal(&state));
    assert!(matches!(next_action(&state, &req), TransferAction::Done));
}

#[test]
fn missing_source_process_aborts_before_any_switch() {
    let req = request();
    let state = TransferState::Start;
    let state = apply_event(
        &state,
        &TransferEvent::ResolveFailed { endpoint: Endpoint::Source, errno: ESRCH },
    );
    assert_eq!(
        state,
        TransferState::Aborted {
            phase: TransferPhase::SourceResolve,
            error: NsError::NotFound,
        }
    );
    assert!(is_terminal(&state));
    match next_action(&state, &req) {
        TransferAction::Fail { phase, error } => {
            assert_eq!(phase, TransferPhase::SourceResolve);
            assert_eq!(error, NsError::NotFound);
        }
        _ => panic!("an aborted transfer only reports its failure"),
    }
}

#[test]
fn missing_dest_process_is_charged_to_dest_resolution() {
    let state = TransferState::Start;
    let state = apply_event(
        &state,
        &TransferEvent::ResolveFailed { endpoint: Endpoint::Dest, errno: ENOENT },
    );
    assert_eq!(
        state,
        TransferState::Aborted {
            phase: TransferPhase::DestResolve,
            error: NsError::NotFound,
        }
    );
}

#[test]
fn denied_source_join_aborts_without_a_clone() {
    let state = TransferState::Start;
    let state = apply_event(&state, &TransferEvent::Resolved { from_ns: 5, to_ns: 6 });
    let state = apply_event(&state, &TransferEvent::JoinFailed { errno: EPERM });
    assert_eq!(
        state,
        TransferState::Aborted {
            phase: TransferPhase::SourceJoin,
            error: NsError::PermissionDenied,
        }
    );
    assert!(is_terminal(&state));
}

#[test]
fn occupied_destination_aborts_with_busy() {
    let state = TransferState::Start;
    let state = apply_event(&state, &TransferEvent::Resolved { from_ns: 5, to_ns: 6 });
    let state = apply_event(&state, &TransferEvent::Joined);
    let state = apply_event(&state, &TransferEvent::TreeCloned { tree: 7 });
    let state = apply_event(&state, &TransferEvent::Joined);
    let state = apply_event(&state, &TransferEvent::AttachFailed { errno: EBUSY });
    assert_eq!(
        state,
        TransferState::Aborted {
            phase: TransferPhase::TreeAttach,
            error: NsError::Busy,
        }
    );
}

#[test]
fn rerun_after_success_fails_rather_than_repeats() {
    // A second run of the same command after a first success is expected to
    // fail, not succeed again: the source mount may no longer resolve in the
    // same form, or the destination is now occupied. Both second-run
    // outcomes abort.
    let state = TransferState::Start;
    let state = apply_event(&state, &TransferEvent::Resolved { from_ns: 5, to_ns: 6 });
    let state = apply_event(&state, &TransferEvent::Joined);
    let state = apply_event(&state, &TransferEvent::TreeCloneFailed { errno: ENOENT });
    assert_eq!(
        state,
        TransferState::Aborted {
            phase: TransferPhase::TreeClone,
            error: NsError::NotFound,
        }
    );

    let state = TransferState::Start;
    let state = apply_event(&state, &TransferEvent::Resolved { from_ns: 5, to_ns: 6 });
    let state = apply_event(&state, &TransferEvent::Joined);
    let state = apply_event(&state, &TransferEvent::TreeCloned { tree: 7 });
    let state = apply_event(&state, &TransferEvent::Joined);
    let state = apply_event(&state, &TransferEvent::AttachFailed { errno: EBUSY });
    assert_eq!(
        state,
        TransferState::Aborted {
            phase: TransferPhase::TreeAttach,
            error: NsError::Busy,
        }
    );
}

#[test]
fn only_the_pending_action_outcomes_are_accepted() {
    let start = TransferState::Start;
    assert!(event_answers(&start, &TransferEvent::Resolved { from_ns: 5, to_ns: 6 }));
    assert!(event_answers(
        &start,
        &TransferEvent::ResolveFailed { endpoint: Endpoint::Source, errno: ESRCH },
    ));
    assert!(!event_answers(&start, &TransferEvent::Joined));
    assert!(!event_answers(&start, &TransferEvent::AttachSucceeded));

    let cloned = TransferState::Cloned { to_ns: 6, tree: 7 };
    assert!(event_answers(&cloned, &TransferEvent::Joined));
    assert!(!event_answers(&cloned, &TransferEvent::TreeCloned { tree: 7 }));

    // Terminal states have no pending action and accept nothing.
    assert!(!event_answers(&TransferState::Attached, &TransferEvent::Joined));
    let aborted = TransferState::Aborted {
        phase: TransferPhase::TreeAttach,
        error: NsError::Busy,
    };
    assert!(!event_answers(&aborted, &TransferEvent::AttachSucceeded));
}

#[test]
fn classification_covers_the_taxonomy() {
    assert_eq!(classify_errno(TransferPhase::SourceResolve, ENOENT), NsError::NotFound);
    assert_eq!(classify_errno(TransferPhase::SourceResolve, ESRCH), NsError::NotFound);
    assert_eq!(classify_errno(TransferPhase::TreeClone, EPERM), NsError::PermissionDenied);
    assert_eq!(classify_errno(TransferPhase::TreeClone, EACCES), NsError::PermissionDenied);
    assert_eq!(classify_errno(TransferPhase::TreeClone, EINVAL), NsError::InvalidArgument);
    assert_eq!(classify_errno(TransferPhase::TreeAttach, EBUSY), NsError::Busy);
    assert_eq!(classify_errno(TransferPhase::TreeAttach, EBADF), NsError::InvalidHandle);
    // At a namespace join, an invalid-argument code means the handle was
    // not a mount-namespace handle: a handle error, not an argument error.
    assert_eq!(classify_errno(TransferPhase::SourceJoin, EINVAL), NsError::InvalidHandle);
    assert_eq!(classify_errno(TransferPhase::DestJoin, EINVAL), NsError::InvalidHandle);
    assert_eq!(classify_errno(TransferPhase::TreeAttach, 12), NsError::Other(12));
}

#[test]
fn flag_words_match_the_kernel_interface() {
    assert_eq!(OPEN_TREE_CLONE, 0x1);
    assert_eq!(OPEN_TREE_CLOEXEC, libc::O_CLOEXEC as u32);
    assert_eq!(MOVE_MOUNT_F_EMPTY_PATH, 0x4);
    assert_eq!(MOVE_MOUNT_T_EMPTY_PATH, 0x40);

    let c = clone_flags();
    assert_eq!(c.bits, 0x80001);
    assert!(c.has(OPEN_TREE_CLONE));
    assert!(c.has(OPEN_TREE_CLOEXEC));

    let a = attach_flags();
    assert_eq!(a.bits, 0x4);
    assert!(a.has(MOVE_MOUNT_F_EMPTY_PATH));
    assert!(!a.has(MOVE_MOUNT_T_EMPTY_PATH));

    let u = OpenTreeFlags::empty().union(OpenTreeFlags::from_bits(OPEN_TREE_CLONE));
    assert_eq!(u.bits, OPEN_TREE_CLONE);
    let m = MoveMountFlags::from_bits(0x1).union(MoveMountFlags::from_bits(0x40));
    assert_eq!(m.bits, 0x41);
    assert!(!MoveMountFlags::empty().has(MOVE_MOUNT_F_EMPTY_PATH));
}

#[test]
fn anchors_fill_the_uniform_call_slots() {
    assert_eq!(at_fd(None), ANCHOR_NO_FD);
    assert_eq!(at_fd(None), -libc::EBADF);
    assert_eq!(at_fd(Some(5)), 5);

    let by_handle = AnchorReference::Descriptor { fd: 7 };
    assert_eq!(by_handle.raw_dirfd(), 7);
    assert_eq!(by_handle.nominal_path(), "");
    assert!(by_handle.addresses_by_descriptor());

    let by_path = AnchorReference::Location {
        dirfd: None,
        path: String::from("/mnt/data"),
    };
    assert_eq!(by_path.raw_dirfd(), ANCHOR_NO_FD);
    assert_eq!(by_path.nominal_path(), "/mnt/data");
    assert!(!by_path.addresses_by_descriptor());

    let relative = AnchorReference::Location {
        dirfd: Some(3),
        path: String::from("data"),
    };
    assert_eq!(relative.raw_dirfd(), 3);
    assert_eq!(relative.nominal_path(), "data");
}

#[test]
fn namespace_handle_paths() {
    assert_eq!(nsmount::paths::proc_mnt_ns_path(1), "/proc/1/ns/mnt");
    assert_eq!(nsmount::paths::proc_mnt_ns_path(1200), "/proc/1200/ns/mnt");
    assert_eq!(nsmount::paths::proc_mnt_ns_path(u32::MAX), "/proc/4294967295/ns/mnt");
}

#[test]
fn decimal_rendering() {
    assert_eq!(nsmount::paths::u32_decimal(0), "0");
    assert_eq!(nsmount::paths::u32_decimal(7), "7");
    assert_eq!(nsmount::paths::u32_decimal(10), "10");
    assert_eq!(nsmount::paths::u32_decimal(305441), "305441");
    assert_eq!(nsmount::paths::u32_decimal(u32::MAX), "4294967295");
}
