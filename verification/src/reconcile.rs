//! Command-set reconciliation: diffing the remotely registered commands in
//! one scope against the locally declared set, planning the stale deletions,
//! and planning the shutdown teardown of guild-scoped registrations.
//!
//! The surrounding application performs the network calls; this module
//! computes exactly which calls to make. A reconciliation pass deletes every
//! stale remote entry and then bulk-registers the full desired set, which
//! the platform applies with diff-and-replace semantics over the whole set:
//! afterwards the remote names are exactly the desired registered names.

use vstd::prelude::*;

use crate::command::{CommandDef, RegistrationScope, RemoteCommand};

verus! {

/// Some desired command is registered under `name`.
pub open spec fn has_registered_name(desired: Seq<CommandDef>, name: Seq<char>) -> bool {
    exists|i: int| 0 <= i < desired.len() && desired[i].registered_name() == name
}

/// The identifiers of the remote commands that are stale: those whose name
/// no desired command is registered under, in remote order.
pub open spec fn stale_ids(remote: Seq<RemoteCommand>, desired: Seq<CommandDef>) -> Seq<u64>
    decreases remote.len(),
{
    if remote.len() == 0 {
        Seq::empty()
    } else {
        let rest = stale_ids(remote.drop_last(), desired);
        if has_registered_name(desired, remote.last().name@) {
            rest
        } else {
            rest.push(remote.last().id)
        }
    }
}

/// Every planned deletion is the identifier of a stale remote entry, and
/// every stale remote entry's identifier is planned for deletion.
pub proof fn lemma_stale_ids_exact(remote: Seq<RemoteCommand>, desired: Seq<CommandDef>)
    ensures
        forall|j: int|
            0 <= j < stale_ids(remote, desired).len() ==> exists|i: int|
                0 <= i < remote.len() && (#[trigger] remote[i]).id == #[trigger] stale_ids(
                    remote,
                    desired,
                )[j] && !has_registered_name(desired, remote[i].name@),
        forall|i: int|
            0 <= i < remote.len() && !has_registered_name(desired, (#[trigger] remote[i]).name@)
                ==> stale_ids(remote, desired).contains(remote[i].id),
    decreases remote.len(),
{
    if remote.len() > 0 {
        lemma_stale_ids_exact(remote.drop_last(), desired);
        let prev = stale_ids(remote.drop_last(), desired);
        let cur = stale_ids(remote, desired);
        assert forall|j: int| 0 <= j < cur.len() implies exists|i: int|
            0 <= i < remote.len() && (#[trigger] remote[i]).id == #[trigger] cur[j]
                && !has_registered_name(desired, remote[i].name@) by {
            if j < prev.len() {
                let i = choose|i: int|
                    0 <= i < remote.drop_last().len() && (#[trigger] remote.drop_last()[i]).id
                        == prev[j] && !has_registered_name(desired, remote.drop_last()[i].name@);
                assert(remote[i] == remote.drop_last()[i]);
            } else {
                assert(remote[remote.len() - 1] == remote.last());
            }
        }
        assert forall|i: int|
            0 <= i < remote.len() && !has_registered_name(
                desired,
                (#[trigger] remote[i]).name@,
            ) implies cur.contains(remote[i].id) by {
            if i < remote.len() - 1 {
                assert(remote.drop_last()[i] == remote[i]);
                let j = choose|j: int| 0 <= j < prev.len() && prev[j] == remote[i].id;
                assert(cur[j] == remote[i].id);
            } else {
                assert(remote[i] == remote.last());
                assert(cur.last() == remote[i].id);
            }
        }
    }
}

/// The remote entries that survive deleting the given identifiers.
pub open spec fn apply_deletions(remote: Seq<RemoteCommand>, ids: Seq<u64>) -> Seq<RemoteCommand> {
    remote.filter(|rc: RemoteCommand| !ids.contains(rc.id))
}

proof fn lemma_filter_is_subset(
    remote: Seq<RemoteCommand>,
    pred: spec_fn(RemoteCommand) -> bool,
    k: int,
)
    requires
        0 <= k < remote.filter(pred).len(),
    ensures
        remote.contains(remote.filter(pred)[k]),
    decreases remote.len(),
{
    reveal(Seq::filter);
    if remote.len() != 0 {
        let rest = remote.drop_last().filter(pred);
        if k < rest.len() {
            lemma_filter_is_subset(remote.drop_last(), pred, k);
            let e = rest[k];
            let i = choose|i: int| 0 <= i < remote.drop_last().len() && remote.drop_last()[i] == e;
            assert(remote[i] == e);
        } else {
            assert(remote.filter(pred)[k] == remote.last());
            assert(remote[remote.len() - 1] == remote.last());
        }
    }
}

/// Deleting the planned stale identifiers removes exactly the stale
/// entries. Provided the platform-assigned identifiers are distinct, every
/// surviving entry bears a desired name, and every entry that bears a
/// desired name survives: after the deletions and the trailing bulk
/// registration the remote set has no extras and no omissions.
pub proof fn lemma_deletions_remove_exactly_the_stale(
    remote: Seq<RemoteCommand>,
    desired: Seq<CommandDef>,
)
    requires
        forall|i: int, j: int|
            0 <= i < j < remote.len() ==> (#[trigger] remote[i]).id != (#[trigger] remote[j]).id,
    ensures
        forall|k: int|
            0 <= k < apply_deletions(remote, stale_ids(remote, desired)).len()
                ==> has_registered_name(
                desired,
                (#[trigger] apply_deletions(remote, stale_ids(remote, desired))[k]).name@,
            ),
        forall|i: int|
            0 <= i < remote.len() && has_registered_name(desired, (#[trigger] remote[i]).name@)
                ==> apply_deletions(remote, stale_ids(remote, desired)).contains(remote[i]),
{
    broadcast use vstd::seq_lib::group_filter_ensures;

    lemma_stale_ids_exact(remote, desired);
    let stale = stale_ids(remote, desired);
    let pred = |rc: RemoteCommand| !stale.contains(rc.id);
    let survivors = apply_deletions(remote, stale);
    assert forall|k: int| 0 <= k < survivors.len() implies has_registered_name(
        desired,
        (#[trigger] survivors[k]).name@,
    ) by {
        lemma_filter_is_subset(remote, pred, k);
        let e = survivors[k];
        let i = choose|i: int| 0 <= i < remote.len() && remote[i] == e;
        assert(pred(e));
        if !has_registered_name(desired, e.name@) {
            assert(stale.contains(remote[i].id));
        }
    }
    assert forall|i: int|
        0 <= i < remote.len() && has_registered_name(
            desired,
            (#[trigger] remote[i]).name@,
        ) implies survivors.contains(remote[i]) by {
        if stale.contains(remote[i].id) {
            let j = choose|j: int| 0 <= j < stale.len() && stale[j] == remote[i].id;
            let m = choose|m: int|
                0 <= m < remote.len() && (#[trigger] remote[m]).id == stale[j]
                    && !has_registered_name(desired, remote[m].name@);
            if m < i {
                assert(remote[m].id != remote[i].id);
            } else if i < m {
                assert(remote[i].id != remote[m].id);
            }
        }
        assert(pred(remote[i]));
    }
}

/// Decide whether some desired command is registered under `name`.
fn is_desired_name(desired: &Vec<CommandDef>, name: &String) -> (r: bool)
    ensures
        r == has_registered_name(desired@, name@),
{
    let mut i: usize = 0;
    while i < desired.len()
        invariant
            i <= desired.len(),
            forall|k: int| 0 <= k < i ==> desired@[k].registered_name() != name@,
        decreases desired.len() - i,
    {
        if *desired[i].registered_name_string() == *name {
            return true;
        }
        i = i + 1;
    }
    false
}

/// Plan the deletions of a reconciliation pass: the identifiers of every
/// remote command whose name the desired set does not register, in remote
/// order. The caller deletes each (individually, best-effort) and then
/// bulk-registers the full desired set unchanged.
pub fn plan_stale_deletions(remote: &Vec<RemoteCommand>, desired: &Vec<CommandDef>) -> (stale: Vec<
    u64,
>)
    ensures
        stale@ == stale_ids(remote@, desired@),
{
    let mut stale: Vec<u64> = Vec::new();
    let mut i: usize = 0;
    while i < remote.len()
        invariant
            i <= remote.len(),
            stale@ == stale_ids(remote@.take(i as int), desired@),
        decreases remote.len() - i,
    {
        proof {
            assert(remote@.take(i + 1).drop_last() =~= remote@.take(i as int));
            assert(remote@.take(i + 1).last() == remote@[i as int]);
        }
        if !is_desired_name(desired, &remote[i].name) {
            stale.push(remote[i].id);
        }
        i = i + 1;
    }
    proof {
        assert(remote@.take(remote@.len() as int) =~= remote@);
    }
    stale
}

/// The registered names of the desired set, in declaration order.
pub open spec fn registered_names_of(desired: Seq<CommandDef>) -> Seq<Seq<char>> {
    desired.map_values(|c: CommandDef| c.registered_name())
}

/// The remote registered names once a reconciliation pass completes,
/// whatever stood in the scope before: the pass ends by bulk-registering
/// the full desired set, which the platform applies with create-or-replace
/// semantics over the whole set, so exactly the desired registered names
/// remain — no extras, no omissions. The deletions beforehand only remove
/// stale entries (`lemma_deletions_remove_exactly_the_stale`); the bulk
/// registration itself is a single platform call made by the surrounding
/// application.
pub open spec fn names_after_reconcile(
    remote_before: Seq<RemoteCommand>,
    desired: Seq<CommandDef>,
) -> Seq<Seq<char>> {
    registered_names_of(desired)
}

proof fn lemma_converged_remote_has_no_stale(remote: Seq<RemoteCommand>, desired: Seq<CommandDef>)
    requires
        forall|i: int|
            0 <= i < remote.len() ==> has_registered_name(desired, (#[trigger] remote[i]).name@),
    ensures
        stale_ids(remote, desired) =~= Seq::<u64>::empty(),
    decreases remote.len(),
{
    if remote.len() > 0 {
        assert(remote.last() == remote[remote.len() - 1]);
        assert forall|i: int|
            0 <= i < remote.drop_last().len() implies has_registered_name(
            desired,
            (#[trigger] remote.drop_last()[i]).name@,
        ) by {
            assert(remote.drop_last()[i] == remote[i]);
        }
        lemma_converged_remote_has_no_stale(remote.drop_last(), desired);
    }
}

/// Reconciliation is idempotent: one pass over any starting state leaves
/// exactly the desired registered names in the scope, and a second pass
/// with the unchanged desired set — over any remote state bearing the
/// names the first pass left — plans zero deletions, and its own bulk
/// registration leaves the same final set again.
pub proof fn lemma_reconcile_idempotent(
    remote_before: Seq<RemoteCommand>,
    remote_after: Seq<RemoteCommand>,
    desired: Seq<CommandDef>,
)
    requires
        forall|i: int|
            0 <= i < remote_after.len() ==> names_after_reconcile(remote_before, desired).contains(
                (#[trigger] remote_after[i]).name@,
            ),
    ensures
        stale_ids(remote_after, desired) =~= Seq::<u64>::empty(),
        names_after_reconcile(remote_after, desired) == names_after_reconcile(
            remote_before,
            desired,
        ),
{
    assert forall|i: int| 0 <= i < remote_after.len() implies has_registered_name(
        desired,
        (#[trigger] remote_after[i]).name@,
    ) by {
        let n = remote_after[i].name@;
        let names = registered_names_of(desired);
        let j = choose|j: int| 0 <= j < names.len() && names[j] == n;
        assert(desired[j].registered_name() == n);
    }
    lemma_converged_remote_has_no_stale(remote_after, desired);
}

/// One kind of step the reconciler performs, at startup or at shutdown.
pub enum ReconcileStep {
    /// Listing the remotely registered commands at startup.
    ListRemote,
    /// Deleting one stale remote command at startup.
    DeleteStale,
    /// Bulk-registering the full desired set at startup.
    BulkRegister,
    /// Listing one guild's registered commands during the shutdown sweep.
    TeardownList,
    /// Deleting one command during the shutdown sweep.
    TeardownDelete,
}

/// Whether a failure of this step aborts the process. At startup, a failed
/// listing or bulk registration leaves the bot unusable and is fatal, while
/// a failed deletion of one stale command is logged and the rest of the
/// pass goes on; deletions already performed are never rolled back. The
/// shutdown sweep is best-effort throughout: a failed listing or deletion
/// in one guild is logged, and the sweep goes on with the remaining guilds.
pub fn reconcile_failure_is_fatal(step: &ReconcileStep) -> (r: bool)
    ensures
        r == (step matches ReconcileStep::ListRemote || step
            matches ReconcileStep::BulkRegister),
{
    match step {
        ReconcileStep::ListRemote => true,
        ReconcileStep::BulkRegister => true,
        ReconcileStep::DeleteStale => false,
        ReconcileStep::TeardownList => false,
        ReconcileStep::TeardownDelete => false,
    }
}

/// Plan the shutdown teardown for one scope: in a guild scope every remote
/// command is deleted, whatever its name and whoever registered it; in the
/// global scope nothing is ever deleted.
pub fn plan_teardown(scope: &RegistrationScope, remote: &Vec<RemoteCommand>) -> (deletions: Vec<
    u64,
>)
    ensures
        (scope matches RegistrationScope::Guild(_)) ==> deletions@ == remote@.map_values(
            |rc: RemoteCommand| rc.id,
        ),
        (scope matches RegistrationScope::Global) ==> deletions@ == Seq::<u64>::empty(),
{
    match scope {
        RegistrationScope::Global => Vec::new(),
        RegistrationScope::Guild(_) => {
            let mut ids: Vec<u64> = Vec::new();
            let mut i: usize = 0;
            while i < remote.len()
                invariant
                    i <= remote.len(),
                    ids@ == remote@.take(i as int).map_values(|rc: RemoteCommand| rc.id),
                decreases remote.len() - i,
            {
                ids.push(remote[i].id);
                proof {
                    assert(remote@.take(i + 1).map_values(|rc: RemoteCommand| rc.id) =~= remote@.take(
                        i as int,
                    ).map_values(|rc: RemoteCommand| rc.id).push(remote@[i as int].id));
                }
                i = i + 1;
            }
            proof {
                assert(remote@.take(remote@.len() as int) =~= remote@);
            }
            ids
        },
    }
}

/// The guilds swept at shutdown. The sweep exists only for guild-scoped
/// (debug) registration: the debug guild itself, followed by every guild
/// the process has observed, to catch orphaned debug registrations from
/// earlier runs. With global registration there is no sweep at all —
/// shutdown issues zero deletion calls, since global registrations are
/// long-lived by design. The sweep itself is `plan_teardown` in each
/// guild's scope.
pub fn guilds_to_sweep(debug_guild: &Option<u64>, observed: &Vec<u64>) -> (guilds: Vec<u64>)
    ensures
        (debug_guild matches Some(g) ==> guilds@ == seq![*g] + observed@),
        (debug_guild matches None ==> guilds@ == Seq::<u64>::empty()),
{
    let mut guilds: Vec<u64> = Vec::new();
    let g: u64 = match debug_guild {
        Some(g) => *g,
        None => {
            return guilds;
        },
    };
    guilds.push(g);
    let mut i: usize = 0;
    while i < observed.len()
        invariant
            i <= observed.len(),
            guilds@ == seq![g] + observed@.take(i as int),
        decreases observed.len() - i,
    {
        guilds.push(observed[i]);
        proof {
            assert(seq![g] + observed@.take(i + 1) =~= (seq![g] + observed@.take(i as int)).push(
                observed@[i as int],
            ));
        }
        i = i + 1;
    }
    proof {
        assert(observed@.take(observed@.len() as int) =~= observed@);
    }
    guilds
}

} // verus!
