use vstd::prelude::*;

verus! {

/// Options of the challenge daemon.
pub struct DaemonArgs {
    /// The address to listen on.
    pub bind_addr: String,
    /// Drop from root to this user.
    pub user: Option<String>,
    /// Enter the challenge directory as the new filesystem root.
    pub chroot: bool,
}

/// Options of a renewal run.
pub struct RenewArgs {
    /// Do not request or delete anything, only report what would happen.
    pub dry_run: bool,
    /// Renew certificates even if they are not about to expire.
    pub force_renew: bool,
    /// Do not execute the configured hooks.
    pub skip_restarts: bool,
    /// Do not clean up expired certificates that are not live.
    pub skip_cleanup: bool,
    /// Execute hooks even in a dry run.
    pub hooks_only: bool,
    /// Only renew these certificates; all of them when empty.
    pub certs: Vec<String>,
}

/// Options of a reachability check of the challenge path.
pub struct CheckArgs {
    /// Only check these certificates; all of them when empty.
    pub certs: Vec<String>,
}

/// The subcommands of the program.
pub enum Cmd {
    /// Run the redirect daemon.
    Daemon(DaemonArgs),
    /// Show the status of the certificates.
    Status,
    /// Request new certificates if needed.
    Renew(RenewArgs),
    /// Check whether the challenges could be completed.
    Check(CheckArgs),
    /// Print the configuration.
    DumpConfig,
}

} // verus!
