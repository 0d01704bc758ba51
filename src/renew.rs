use crate::args::RenewArgs;
use crate::config::{str_eq, Config};
use vstd::prelude::*;

verus! {

/// Renewal is due when forced, when no live certificate exists, or when the
/// live one has at most `threshold` whole days left.
pub open spec fn renewal_due(force_renew: bool, days_left: Option<i64>, threshold: i64) -> bool {
    force_renew || match days_left {
        None => true,
        Some(d) => d <= threshold,
    }
}

/// Decides whether a certificate must be requested, given the days left of its
/// live certificate (none when it has none).
pub fn should_request_cert(args: &RenewArgs, config: &Config, days_left: Option<i64>) -> (r: bool)
    ensures
        r == renewal_due(args.force_renew, days_left, config.acme.renew_if_days_left),
{
    if args.force_renew {
        true
    } else {
        match days_left {
            Some(d) => d <= config.acme.renew_if_days_left,
            None => true,
        }
    }
}

/// What a renewal run does with one certificate.
#[derive(Debug, PartialEq, Eq, Structural)]
pub enum RenewAction {
    /// The certificate is still valid long enough.
    Skip,
    /// Renewal is due, but this is a dry run: no request and no write.
    DryRun,
    /// Request a new certificate, store it, then run the hooks.
    Request,
}

/// The action for one certificate.
pub open spec fn renew_action_spec(args: RenewArgs, due: bool) -> RenewAction {
    if !due {
        RenewAction::Skip
    } else if args.dry_run {
        RenewAction::DryRun
    } else {
        RenewAction::Request
    }
}

/// Decides what to do with one certificate, given the days left of its live
/// certificate (none when it has none).
pub fn renew_action(args: &RenewArgs, config: &Config, days_left: Option<i64>) -> (r: RenewAction)
    ensures
        r == renew_action_spec(
            *args,
            renewal_due(args.force_renew, days_left, config.acme.renew_if_days_left),
        ),
{
    if !should_request_cert(args, config, days_left) {
        RenewAction::Skip
    } else if args.dry_run {
        RenewAction::DryRun
    } else {
        RenewAction::Request
    }
}

/// Hooks are executed unless restarts are skipped; in a dry run only when
/// asked for with `hooks_only`. Otherwise they are only reported.
pub open spec fn hooks_execute_spec(args: RenewArgs) -> bool {
    !args.skip_restarts && (!args.dry_run || args.hooks_only)
}

/// Whether the hooks of a renewed certificate are executed or only reported.
pub fn hooks_execute(args: &RenewArgs) -> (r: bool)
    ensures
        r == hooks_execute_spec(*args),
{
    !args.skip_restarts && (!args.dry_run || args.hooks_only)
}

/// Whether a live mapping references the version directory `version`.
/// A mapping is a pair of the version directory and the certificate name.
pub open spec fn referenced(live: Seq<(Seq<char>, Seq<char>)>, version: Seq<char>) -> bool {
    exists|i: int| 0 <= i < live.len() && (#[trigger] live[i]).0 == version
}

/// A version is deleted when its certificate expired and no live mapping
/// references it.
pub open spec fn deletable(
    live: Seq<(Seq<char>, Seq<char>)>,
    version: Seq<char>,
    days_left: int,
) -> bool {
    days_left < 0 && !referenced(live, version)
}

/// The version directories that cleanup deletes, in the order listed.
pub open spec fn cleanup_selection(
    versions: Seq<(Seq<char>, i64)>,
    live: Seq<(Seq<char>, Seq<char>)>,
) -> Seq<Seq<char>>
    decreases versions.len(),
{
    if versions.len() == 0 {
        seq![]
    } else {
        let rest = cleanup_selection(versions.drop_last(), live);
        let v = versions.last();
        if deletable(live, v.0, v.1 as int) {
            rest.push(v.0)
        } else {
            rest
        }
    }
}

/// The view of a list of version directories with their days left.
pub open spec fn versions_view(v: Seq<(String, i64)>) -> Seq<(Seq<char>, i64)> {
    v.map_values(|e: (String, i64)| (e.0@, e.1))
}

/// The view of a list of live mappings.
pub open spec fn live_view(v: Seq<(String, String)>) -> Seq<(Seq<char>, Seq<char>)> {
    v.map_values(|e: (String, String)| (e.0@, e.1@))
}

/// Whether a live mapping references `version`.
pub fn is_live(live: &Vec<(String, String)>, version: &str) -> (r: bool)
    ensures
        r == referenced(live_view(live@), version@),
{
    let mut i: usize = 0;
    while i < live.len()
        invariant
            i <= live.len(),
            forall|j: int| 0 <= j < i ==> live@[j].0@ != version@,
        decreases live.len() - i,
    {
        if str_eq(live[i].0.as_str(), version) {
            assert(live_view(live@)[i as int].0 == version@);
            return true;
        }
        i += 1;
    }
    assert(!referenced(live_view(live@), version@)) by {
        if referenced(live_view(live@), version@) {
            let k = choose|k: int|
                0 <= k < live_view(live@).len() && (#[trigger] live_view(live@)[k]).0 == version@;
            assert(live@[k].0@ == version@);
        }
    }
    false
}

/// Picks the version directories to delete after a renewal run: those whose
/// certificate expired and that no live mapping references. `versions` pairs
/// each version directory with the days its certificate has left.
pub fn select_for_cleanup(versions: &Vec<(String, i64)>, live: &Vec<(String, String)>) -> (r: Vec<
    String,
>)
    ensures
        r@.map_values(|s: String| s@) == cleanup_selection(versions_view(versions@), live_view(live@)),
{
    let mut r: Vec<String> = Vec::new();
    let mut i: usize = 0;
    while i < versions.len()
        invariant
            i <= versions.len(),
            r@.map_values(|s: String| s@) == cleanup_selection(
                versions_view(versions@).subrange(0, i as int),
                live_view(live@),
            ),
        decreases versions.len() - i,
    {
        let (name, days) = (&versions[i].0, versions[i].1);
        proof {
            assert(versions_view(versions@).subrange(0, i + 1).drop_last() =~= versions_view(
                versions@,
            ).subrange(0, i as int));
        }
        if days < 0 && !is_live(live, name.as_str()) {
            let ghost before = r@;
            r.push(name.clone());
            assert(r@.map_values(|s: String| s@) =~= before.map_values(|s: String| s@).push(name@));
        }
        i += 1;
    }
    assert(versions_view(versions@).subrange(0, versions@.len() as int) =~= versions_view(versions@));
    r
}

/// The renewal decision is a function of its inputs alone: a forced renewal
/// always renews, a missing live certificate is renewed, one with exactly
/// `threshold` days left is renewed, and one with a day more is kept.
pub proof fn lemma_renewal_decision(days_left: Option<i64>, threshold: i64)
    ensures
        renewal_due(true, days_left, threshold),
        renewal_due(false, None, threshold),
        renewal_due(false, Some(threshold), threshold),
        threshold < i64::MAX ==> !renewal_due(false, Some((threshold + 1) as i64), threshold),
{
}

/// A name is in the cleanup selection exactly when some listed version of
/// that name is deletable.
proof fn lemma_selection_members(
    versions: Seq<(Seq<char>, i64)>,
    live: Seq<(Seq<char>, Seq<char>)>,
    name: Seq<char>,
)
    ensures
        cleanup_selection(versions, live).contains(name) <==> exists|j: int|
            0 <= j < versions.len() && (#[trigger] versions[j]).0 == name && deletable(
                live,
                name,
                versions[j].1 as int,
            ),
    decreases versions.len(),
{
    if versions.len() > 0 {
        let rest = versions.drop_last();
        lemma_selection_members(rest, live, name);
        let sel = cleanup_selection(versions, live);
        let rsel = cleanup_selection(rest, live);
        if exists|j: int|
            0 <= j < versions.len() && (#[trigger] versions[j]).0 == name && deletable(
                live,
                name,
                versions[j].1 as int,
            ) {
            let j = choose|j: int|
                0 <= j < versions.len() && (#[trigger] versions[j]).0 == name && deletable(
                    live,
                    name,
                    versions[j].1 as int,
                );
            if j < rest.len() {
                assert(rest[j] == versions[j]);
                assert(rsel.contains(name));
                let k = choose|k: int| 0 <= k < rsel.len() && rsel[k] == name;
                assert(sel[k] == name);
            } else {
                assert(sel[sel.len() - 1] == name);
            }
        }
        if sel.contains(name) {
            let k = choose|k: int| 0 <= k < sel.len() && sel[k] == name;
            if k < rsel.len() {
                assert(rsel[k] == name);
                let j = choose|j: int|
                    0 <= j < rest.len() && (#[trigger] rest[j]).0 == name && deletable(
                        live,
                        name,
                        rest[j].1 as int,
                    );
                assert(versions[j] == rest[j]);
            } else {
                assert(versions[versions.len() - 1].0 == name);
            }
        }
    }
}

/// Cleanup deletes a version that expired and that no live mapping
/// references; it keeps an expired version that a live mapping references,
/// and every version with zero or more days left. Version directory names
/// are unique.
pub proof fn lemma_cleanup_rule(
    versions: Seq<(Seq<char>, i64)>,
    live: Seq<(Seq<char>, Seq<char>)>,
    i: int,
)
    requires
        0 <= i < versions.len(),
        forall|a: int, b: int|
            0 <= a < versions.len() && 0 <= b < versions.len() && a != b ==> (#[trigger] versions[a]).0
                != (#[trigger] versions[b]).0,
    ensures
        versions[i].1 < 0 && !referenced(live, versions[i].0) ==> cleanup_selection(
            versions,
            live,
        ).contains(versions[i].0),
        versions[i].1 < 0 && referenced(live, versions[i].0) ==> !cleanup_selection(
            versions,
            live,
        ).contains(versions[i].0),
        versions[i].1 >= 0 ==> !cleanup_selection(versions, live).contains(versions[i].0),
{
    lemma_selection_members(versions, live, versions[i].0);
}

} // verus!
