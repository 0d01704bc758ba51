use acme_redirect::args::DaemonArgs;
use acme_redirect::sandbox::{chroot_check, plan, DirMeta, PrivOp, SandboxError, UserIds};

fn daemon_args(user: Option<&str>, chroot: bool) -> DaemonArgs {
    DaemonArgs {
        bind_addr: "[::]:80".to_string(),
        user: user.map(|u| u.to_string()),
        chroot,
    }
}

const SAFE: DirMeta = DirMeta { is_dir: true, uid: 0, mode: 0o40755 };

#[test]
fn unsafe_chroot_target_drops_nothing() {
    let ids = Some(UserIds { uid: 65534, gid: 65534 });
    let not_root = DirMeta { is_dir: true, uid: 1000, mode: 0o40755 };
    let r = plan(&daemon_args(Some("nobody"), true), ids, Some(not_root));
    assert_eq!(r, Err(SandboxError::ChrootTargetNotOwnedByRoot));
}

#[test]
fn chroot_target_checks() {
    assert_eq!(chroot_check(&SAFE), Ok(()));
    let file = DirMeta { is_dir: false, uid: 0, mode: 0o100644 };
    assert_eq!(chroot_check(&file), Err(SandboxError::ChrootTargetNotDirectory));
    let group_w = DirMeta { is_dir: true, uid: 0, mode: 0o40775 };
    assert_eq!(chroot_check(&group_w), Err(SandboxError::ChrootTargetWritable));
    let world_w = DirMeta { is_dir: true, uid: 0, mode: 0o40757 };
    assert_eq!(chroot_check(&world_w), Err(SandboxError::ChrootTargetWritable));
}

#[test]
fn full_drop_sequence() {
    let ids = Some(UserIds { uid: 33, gid: 44 });
    let ops = plan(&daemon_args(Some("www"), true), ids, Some(SAFE)).unwrap();
    assert_eq!(
        ops,
        vec![
            PrivOp::Chroot,
            PrivOp::ChdirRoot,
            PrivOp::ClearGroups,
            PrivOp::SetGid(44),
            PrivOp::SetUid(33),
            PrivOp::ClearEffectiveCaps,
            PrivOp::ClearPermittedCaps,
        ]
    );
}

#[test]
fn minimal_drop_sequence_and_unknown_user() {
    let ops = plan(&daemon_args(None, false), None, None).unwrap();
    assert_eq!(ops, vec![PrivOp::ClearEffectiveCaps, PrivOp::ClearPermittedCaps]);
    assert_eq!(
        plan(&daemon_args(Some("ghost"), true), None, Some(SAFE)),
        Err(SandboxError::UnknownUser)
    );
    assert_eq!(
        plan(&daemon_args(None, true), None, None),
        Err(SandboxError::UnreadableChrootTarget)
    );
}
