use low_noise_bot::command::{CommandDef, RegistrationScope, RemoteCommand};
use low_noise_bot::reconcile::{
    guilds_to_sweep, plan_stale_deletions, plan_teardown, reconcile_failure_is_fatal,
    ReconcileStep,
};

fn def(name: &str) -> CommandDef {
    CommandDef {
        name: String::from(name),
        context_menu_name: None,
        guild_only: true,
        required_bot_permissions: 0,
        default_member_permissions: 0,
    }
}

fn remote(id: u64, name: &str) -> RemoteCommand {
    RemoteCommand {
        id,
        name: String::from(name),
    }
}

#[test]
fn stale_entries_are_exactly_those_not_desired() {
    // remote {A, B, C} against desired {B, C, D}: only A is deleted, and the
    // trailing bulk registration leaves exactly {B, C, D} registered.
    let remote_before = vec![remote(1, "A"), remote(2, "B"), remote(3, "C")];
    let desired = vec![def("B"), def("C"), def("D")];
    let deletions = plan_stale_deletions(&remote_before, &desired);
    assert_eq!(deletions, vec![1]);
}

#[test]
fn reconciliation_is_idempotent() {
    let desired = vec![def("B"), def("C"), def("D")];
    // Any starting remote state: the first pass deletes the stale entries
    // and bulk-registers desired, after which the remote names are exactly
    // the desired names (with platform-assigned identifiers).
    let remote_before = vec![remote(1, "A"), remote(2, "B")];
    let first = plan_stale_deletions(&remote_before, &desired);
    assert_eq!(first, vec![1]);
    let remote_after = vec![remote(10, "B"), remote(11, "C"), remote(12, "D")];
    // The second pass with the unchanged desired set plans zero deletions.
    let second = plan_stale_deletions(&remote_after, &desired);
    assert!(second.is_empty());
}

#[test]
fn empty_sets_are_handled() {
    // With nothing declared, everything remote is stale.
    let remote_before = vec![remote(1, "A"), remote(2, "B")];
    let deletions = plan_stale_deletions(&remote_before, &vec![]);
    assert_eq!(deletions, vec![1, 2]);
    // With nothing remote, there is nothing to delete.
    let deletions = plan_stale_deletions(&vec![], &vec![def("A")]);
    assert!(deletions.is_empty());
}

#[test]
fn matching_uses_the_context_menu_name() {
    let mut named = def("pin_message");
    named.context_menu_name = Some(String::from("Pin Message"));
    let remote_cmds = vec![remote(5, "Pin Message"), remote(6, "pin_message")];
    let deletions = plan_stale_deletions(&remote_cmds, &vec![named]);
    // The canonical name is not registered when a context-menu name exists.
    assert_eq!(deletions, vec![6]);
}

#[test]
fn guild_teardown_deletes_every_remote_command() {
    // Even commands this process never registered are swept.
    let remote_cmds = vec![remote(21, "X"), remote(22, "Y")];
    let deletions = plan_teardown(&RegistrationScope::Guild(900), &remote_cmds);
    assert_eq!(deletions, vec![21, 22]);
}

#[test]
fn global_teardown_deletes_nothing() {
    let remote_cmds = vec![remote(21, "X"), remote(22, "Y")];
    let deletions = plan_teardown(&RegistrationScope::Global, &remote_cmds);
    assert!(deletions.is_empty());
}

#[test]
fn only_startup_listing_and_registration_failures_are_fatal() {
    assert!(reconcile_failure_is_fatal(&ReconcileStep::ListRemote));
    assert!(reconcile_failure_is_fatal(&ReconcileStep::BulkRegister));
    assert!(!reconcile_failure_is_fatal(&ReconcileStep::DeleteStale));
    // The shutdown sweep is best-effort throughout.
    assert!(!reconcile_failure_is_fatal(&ReconcileStep::TeardownList));
    assert!(!reconcile_failure_is_fatal(&ReconcileStep::TeardownDelete));
}

#[test]
fn shutdown_sweeps_debug_guild_then_observed_guilds() {
    let guilds = guilds_to_sweep(&Some(900), &vec![31, 32]);
    assert_eq!(guilds, vec![900, 31, 32]);
}

#[test]
fn global_shutdown_sweeps_no_guild_at_all() {
    // Without a debug guild the process registered globally: shutdown
    // issues zero deletion calls, however many guilds were observed.
    let guilds = guilds_to_sweep(&None, &vec![31, 32]);
    assert!(guilds.is_empty());
    let guilds = guilds_to_sweep(&None, &vec![]);
    assert!(guilds.is_empty());
}
