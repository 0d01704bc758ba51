use crate::args::DaemonArgs;
use vstd::prelude::*;

verus! {

/// The numeric identity of the account the daemon drops to.
#[derive(Clone, Copy, Debug, PartialEq, Eq, Structural)]
pub struct UserIds {
    pub uid: u32,
    pub gid: u32,
}

/// What the chroot checks read of the target directory.
#[derive(Clone, Copy, Debug, PartialEq, Eq, Structural)]
pub struct DirMeta {
    pub is_dir: bool,
    /// The owner's user id.
    pub uid: u32,
    /// The permission bits.
    pub mode: u32,
}

/// Why privileges could not be dropped. Each is fatal.
#[derive(Clone, Copy, Debug, PartialEq, Eq, Structural)]
pub enum SandboxError {
    /// The configured user does not exist.
    UnknownUser,
    /// The chroot target could not be examined.
    UnreadableChrootTarget,
    /// The chroot target is no directory.
    ChrootTargetNotDirectory,
    /// The chroot target is not owned by root.
    ChrootTargetNotOwnedByRoot,
    /// The chroot target is writable by its group or by everybody.
    ChrootTargetWritable,
}

/// One privileged operation of the drop sequence.
#[derive(Clone, Copy, Debug, PartialEq, Eq, Structural)]
pub enum PrivOp {
    /// Make the current directory the filesystem root.
    Chroot,
    /// Change into the new root.
    ChdirRoot,
    /// Clear the supplementary groups.
    ClearGroups,
    /// Set the group id.
    SetGid(u32),
    /// Set the user id.
    SetUid(u32),
    /// Clear the effective capability set.
    ClearEffectiveCaps,
    /// Clear the permitted capability set.
    ClearPermittedCaps,
}

/// The checks on a chroot target: a directory owned by root and not writable
/// by group or world.
pub open spec fn chroot_check_spec(meta: DirMeta) -> Result<(), SandboxError> {
    if !meta.is_dir {
        Err(SandboxError::ChrootTargetNotDirectory)
    } else if meta.uid != 0 {
        Err(SandboxError::ChrootTargetNotOwnedByRoot)
    } else if meta.mode & 0o22u32 != 0 {
        Err(SandboxError::ChrootTargetWritable)
    } else {
        Ok(())
    }
}

/// Checks that a directory is safe to chroot into.
pub fn chroot_check(meta: &DirMeta) -> (r: Result<(), SandboxError>)
    ensures
        r == chroot_check_spec(*meta),
{
    if !meta.is_dir {
        Err(SandboxError::ChrootTargetNotDirectory)
    } else if meta.uid != 0 {
        Err(SandboxError::ChrootTargetNotOwnedByRoot)
    } else if meta.mode & 0o22u32 != 0 {
        Err(SandboxError::ChrootTargetWritable)
    } else {
        Ok(())
    }
}

/// The operations that drop to `user`.
pub open spec fn user_ops(user: Option<UserIds>) -> Seq<PrivOp> {
    match user {
        None => seq![],
        Some(u) => seq![PrivOp::ClearGroups, PrivOp::SetGid(u.gid), PrivOp::SetUid(u.uid)],
    }
}

/// The drop sequence: resolve the user, check and enter the chroot target,
/// drop groups, then the group id, then the user id, and clear the capability
/// sets last. `user` is what resolving the configured user gave, `cwd` what
/// examining the current directory gave.
pub open spec fn plan_spec(
    wants_user: bool,
    chroot: bool,
    user: Option<UserIds>,
    cwd: Option<DirMeta>,
) -> Result<Seq<PrivOp>, SandboxError> {
    let caps = seq![PrivOp::ClearEffectiveCaps, PrivOp::ClearPermittedCaps];
    let drop = if wants_user {
        user_ops(user)
    } else {
        seq![]
    };
    if wants_user && user is None {
        Err(SandboxError::UnknownUser)
    } else if chroot {
        match cwd {
            None => Err(SandboxError::UnreadableChrootTarget),
            Some(meta) => match chroot_check_spec(meta) {
                Err(e) => Err(e),
                Ok(_) => Ok(seq![PrivOp::Chroot, PrivOp::ChdirRoot] + drop + caps),
            },
        }
    } else {
        Ok(drop + caps)
    }
}

/// Computes the privilege-drop sequence of the daemon. `user` is what
/// resolving `args.user` gave (none when it is unknown or not configured);
/// `cwd` is what examining the current directory gave when `args.chroot` asks
/// for a chroot. On an error nothing may be executed.
pub fn plan(args: &DaemonArgs, user: Option<UserIds>, cwd: Option<DirMeta>) -> (r: Result<
    Vec<PrivOp>,
    SandboxError,
>)
    ensures
        match plan_spec(args.user is Some, args.chroot, user, cwd) {
            Ok(ops) => r matches Ok(v) && v@ == ops,
            Err(e) => r == Err::<Vec<PrivOp>, SandboxError>(e),
        },
{
    let wants_user = args.user.is_some();
    if wants_user && user.is_none() {
        return Err(SandboxError::UnknownUser);
    }
    let mut ops: Vec<PrivOp> = Vec::new();
    if args.chroot {
        match cwd {
            None => return Err(SandboxError::UnreadableChrootTarget),
            Some(meta) => match chroot_check(&meta) {
                Err(e) => return Err(e),
                Ok(_) => {
                    ops.push(PrivOp::Chroot);
                    ops.push(PrivOp::ChdirRoot);
                },
            },
        }
    }
    let ghost before_drop = ops@;
    if wants_user {
        match user {
            Some(u) => {
                ops.push(PrivOp::ClearGroups);
                ops.push(PrivOp::SetGid(u.gid));
                ops.push(PrivOp::SetUid(u.uid));
            },
            None => {},
        }
    }
    let ghost before_caps = ops@;
    ops.push(PrivOp::ClearEffectiveCaps);
    ops.push(PrivOp::ClearPermittedCaps);
    proof {
        let drop = if wants_user {
            user_ops(user)
        } else {
            seq![]
        };
        assert(before_caps =~= before_drop + drop);
        if args.chroot {
            assert(ops@ =~= seq![PrivOp::Chroot, PrivOp::ChdirRoot] + drop + seq![
                PrivOp::ClearEffectiveCaps,
                PrivOp::ClearPermittedCaps,
            ]);
        } else {
            assert(ops@ =~= drop + seq![PrivOp::ClearEffectiveCaps, PrivOp::ClearPermittedCaps]);
        }
    }
    Ok(ops)
}

/// Whether an operation changes the user or group identity.
pub open spec fn changes_identity(op: PrivOp) -> bool {
    op is ClearGroups || op is SetGid || op is SetUid
}

/// A chroot target that root does not own stops the sequence before any
/// identity change: the plan fails and holds no operation to execute.
pub proof fn lemma_unsafe_chroot_target(
    wants_user: bool,
    user: Option<UserIds>,
    meta: DirMeta,
)
    requires
        meta.uid != 0,
    ensures
        plan_spec(wants_user, true, user, Some(meta)) is Err,
{
}

/// In every plan the group id is set before the user id, the chroot comes
/// before both, and the capability sets are cleared last.
pub proof fn lemma_plan_order(
    wants_user: bool,
    chroot: bool,
    user: Option<UserIds>,
    cwd: Option<DirMeta>,
)
    requires
        plan_spec(wants_user, chroot, user, cwd) is Ok,
    ensures
        ({
            let ops = plan_spec(wants_user, chroot, user, cwd)->Ok_0;
            &&& ops.len() >= 2
            &&& ops[ops.len() - 2] == PrivOp::ClearEffectiveCaps
            &&& ops[ops.len() - 1] == PrivOp::ClearPermittedCaps
            &&& forall|i: int, j: int|
                0 <= i < ops.len() && 0 <= j < ops.len() && ops[i] is SetGid && ops[j] is SetUid
                    ==> i < j
            &&& forall|i: int, j: int|
                0 <= i < ops.len() && 0 <= j < ops.len() && ops[i] is Chroot && changes_identity(
                    ops[j],
                ) ==> i < j
        }),
{
    let ops = plan_spec(wants_user, chroot, user, cwd)->Ok_0;
    let drop = if wants_user {
        user_ops(user)
    } else {
        seq![]
    };
    let caps = seq![PrivOp::ClearEffectiveCaps, PrivOp::ClearPermittedCaps];
    if chroot {
        assert(ops == seq![PrivOp::Chroot, PrivOp::ChdirRoot] + drop + caps);
    } else {
        assert(ops == drop + caps);
    }
}

} // verus!
