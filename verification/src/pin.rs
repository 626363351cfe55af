//! The pin/unpin action state machine. Each invocation re-reads the
//! authoritative remote state (the message's pinned flag and, for a pin,
//! the channel's pinned-message count) and then decides: skip with an
//! informational outcome, or issue exactly one mutating call carrying an
//! audit reason that names the requesting member. The surrounding
//! application performs the call and maps its result back through
//! `outcome_of_mutation`; nothing is ever retried.

use vstd::prelude::*;

use crate::command::CommandDef;
use crate::registry::{Module, NON_PRIVILEGED_INTENTS};
use crate::text::{contains_seq, decimal_of, lemma_concat_contains_middle, lemma_decimal_of_nonempty, u64_to_decimal};

verus! {

/// The platform's fixed upper bound on pinned messages per channel.
pub const PIN_CAPACITY: usize = 50;

/// The permission bit allowing a member to manage (and so pin) messages.
pub const PERMISSION_MANAGE_MESSAGES: u64 = 1u64 << 13;

/// The permission bit of administrator-equivalent members.
pub const PERMISSION_ADMINISTRATOR: u64 = 1u64 << 3;

/// Which of the two symmetric operations an invocation performs.
pub enum PinAction {
    Pin,
    Unpin,
}

/// How one invocation ended.
pub enum Outcome {
    /// The message already was in the requested state; nothing was done.
    AlreadyInDesiredState,
    /// The channel is at the pinned-message capacity; nothing was done.
    CapacityExceeded,
    /// The single mutating call succeeded.
    Success,
    /// The single mutating call failed; carries the underlying error text.
    Failure(String),
}

/// What an invocation does after reading the remote state: skip with a
/// final outcome, or issue one mutating call with the given audit reason.
pub enum PinStep {
    Skip(Outcome),
    Mutate(String),
}

/// The audit reason attached to a mutating call: it names this bot and the
/// decimal identifier of the requesting member.
pub open spec fn audit_reason_spec(action: PinAction, invoker: u64) -> Seq<char> {
    match action {
        PinAction::Pin => "Pinned by low-noise-bot at the request of user "@ + decimal_of(
            invoker as nat,
        ),
        PinAction::Unpin => "Unpinned by low-noise-bot at the request of user "@ + decimal_of(
            invoker as nat,
        ),
    }
}

/// Build the audit reason for one mutating call.
pub fn audit_reason(action: &PinAction, invoker: u64) -> (s: String)
    ensures
        s@ == audit_reason_spec(*action, invoker),
{
    let digits = u64_to_decimal(invoker);
    let mut s = match action {
        PinAction::Pin => String::from_str("Pinned by low-noise-bot at the request of user "),
        PinAction::Unpin => String::from_str("Unpinned by low-noise-bot at the request of user "),
    };
    s.append(digits.as_str());
    s
}

/// Every audit reason is non-empty and contains the requesting member's
/// decimal identifier.
pub proof fn lemma_audit_reason_names_member(action: PinAction, invoker: u64)
    ensures
        audit_reason_spec(action, invoker).len() > 0,
        contains_seq(audit_reason_spec(action, invoker), decimal_of(invoker as nat)),
{
    lemma_decimal_of_nonempty(invoker as nat);
    let digits = decimal_of(invoker as nat);
    match action {
        PinAction::Pin => {
            let prefix = "Pinned by low-noise-bot at the request of user "@;
            lemma_concat_contains_middle(prefix, digits, Seq::empty());
            assert(prefix + digits + Seq::<char>::empty() =~= prefix + digits);
        },
        PinAction::Unpin => {
            let prefix = "Unpinned by low-noise-bot at the request of user "@;
            lemma_concat_contains_middle(prefix, digits, Seq::empty());
            assert(prefix + digits + Seq::<char>::empty() =~= prefix + digits);
        },
    }
}

/// Decide a pin invocation from the freshly read remote state: an already
/// pinned message is left alone, a channel at capacity is refused before
/// any call is made, and otherwise exactly one mutating pin call is issued
/// with an audit reason naming the requesting member.
pub fn plan_pin(pinned: bool, pinned_count: usize, invoker: u64) -> (step: PinStep)
    ensures
        pinned ==> step == PinStep::Skip(Outcome::AlreadyInDesiredState),
        !pinned && pinned_count >= PIN_CAPACITY ==> step == PinStep::Skip(
            Outcome::CapacityExceeded,
        ),
        !pinned && pinned_count < PIN_CAPACITY ==> (step matches PinStep::Mutate(reason)
            && reason@ == audit_reason_spec(PinAction::Pin, invoker)),
{
    if pinned {
        PinStep::Skip(Outcome::AlreadyInDesiredState)
    } else if pinned_count >= PIN_CAPACITY {
        PinStep::Skip(Outcome::CapacityExceeded)
    } else {
        PinStep::Mutate(audit_reason(&PinAction::Pin, invoker))
    }
}

/// Decide a pin invocation when the pinned-count read itself may have
/// failed. An already pinned message never needs the count and is left
/// alone; otherwise a failed read is a transport failure, reported as the
/// failure outcome without any mutating call, never retried; a successful
/// read decides as `plan_pin` does.
pub fn plan_pin_after_count(pinned: bool, pinned_count: Result<usize, String>, invoker: u64) -> (step:
    PinStep)
    ensures
        pinned ==> step == PinStep::Skip(Outcome::AlreadyInDesiredState),
        !pinned ==> (pinned_count matches Ok(c) && c >= PIN_CAPACITY ==> step == PinStep::Skip(
            Outcome::CapacityExceeded,
        )),
        !pinned ==> (pinned_count matches Ok(c) && c < PIN_CAPACITY ==> (step
            matches PinStep::Mutate(reason) && reason@ == audit_reason_spec(
            PinAction::Pin,
            invoker,
        ))),
        !pinned ==> (pinned_count matches Err(e) ==> step == PinStep::Skip(Outcome::Failure(e))),
{
    if pinned {
        PinStep::Skip(Outcome::AlreadyInDesiredState)
    } else {
        match pinned_count {
            Ok(c) => plan_pin(false, c, invoker),
            Err(e) => PinStep::Skip(Outcome::Failure(e)),
        }
    }
}

/// Decide an unpin invocation: the exact mirror of `plan_pin`, with no
/// capacity check — an unpinned message is left alone, and otherwise
/// exactly one mutating unpin call is issued with the audit reason.
pub fn plan_unpin(pinned: bool, invoker: u64) -> (step: PinStep)
    ensures
        !pinned ==> step == PinStep::Skip(Outcome::AlreadyInDesiredState),
        pinned ==> (step matches PinStep::Mutate(reason) && reason@ == audit_reason_spec(
            PinAction::Unpin,
            invoker,
        )),
{
    if pinned {
        PinStep::Mutate(audit_reason(&PinAction::Unpin, invoker))
    } else {
        PinStep::Skip(Outcome::AlreadyInDesiredState)
    }
}

/// The module contributing the two context-menu pin actions. Both are
/// guild-only, require the bot to manage messages, and default to
/// administrator-equivalent invokers; the module needs no capabilities
/// beyond the non-privileged baseline.
pub struct PinMessageModule;

impl PinMessageModule {
    /// The commands this module contributes, in display order.
    pub fn commands(&self) -> (v: Vec<CommandDef>)
        ensures
            v@.len() == 2,
            v@[0].name@ == "pin_message"@,
            (v@[0].context_menu_name matches Some(n) && n@ == "Pin Message"@),
            v@[0].guild_only,
            v@[0].required_bot_permissions == PERMISSION_MANAGE_MESSAGES,
            v@[0].default_member_permissions == PERMISSION_ADMINISTRATOR,
            v@[1].name@ == "unpin_message"@,
            (v@[1].context_menu_name matches Some(n) && n@ == "Unpin Message"@),
            v@[1].guild_only,
            v@[1].required_bot_permissions == PERMISSION_MANAGE_MESSAGES,
            v@[1].default_member_permissions == PERMISSION_ADMINISTRATOR,
    {
        let pin_def = CommandDef {
            name: String::from_str("pin_message"),
            context_menu_name: Some(String::from_str("Pin Message")),
            guild_only: true,
            required_bot_permissions: PERMISSION_MANAGE_MESSAGES,
            default_member_permissions: PERMISSION_ADMINISTRATOR,
        };
        let unpin_def = CommandDef {
            name: String::from_str("unpin_message"),
            context_menu_name: Some(String::from_str("Unpin Message")),
            guild_only: true,
            required_bot_permissions: PERMISSION_MANAGE_MESSAGES,
            default_member_permissions: PERMISSION_ADMINISTRATOR,
        };
        let mut v: Vec<CommandDef> = Vec::new();
        v.push(pin_def);
        v.push(unpin_def);
        v
    }

    /// The gateway capabilities this module requires: only the baseline.
    pub fn gateway_intents(&self) -> (i: u64)
        ensures
            i == NON_PRIVILEGED_INTENTS,
    {
        NON_PRIVILEGED_INTENTS
    }

    /// This module as a registry entry.
    pub fn module(&self) -> (m: Module)
        ensures
            m.intents == NON_PRIVILEGED_INTENTS,
            m.commands@.len() == 2,
            m.commands@[0].name@ == "pin_message"@,
            (m.commands@[0].context_menu_name matches Some(n) && n@ == "Pin Message"@),
            m.commands@[0].guild_only,
            m.commands@[0].required_bot_permissions == PERMISSION_MANAGE_MESSAGES,
            m.commands@[0].default_member_permissions == PERMISSION_ADMINISTRATOR,
            m.commands@[1].name@ == "unpin_message"@,
            (m.commands@[1].context_menu_name matches Some(n) && n@ == "Unpin Message"@),
            m.commands@[1].guild_only,
            m.commands@[1].required_bot_permissions == PERMISSION_MANAGE_MESSAGES,
            m.commands@[1].default_member_permissions == PERMISSION_ADMINISTRATOR,
    {
        Module { commands: self.commands(), intents: self.gateway_intents() }
    }
}

/// Map the result of the single mutating call to the invocation's outcome:
/// success on success, and a failure carrying the underlying error text
/// otherwise. The call is never retried, so a transport failure yields
/// exactly this failure outcome.
pub fn outcome_of_mutation(result: Result<(), String>) -> (o: Outcome)
    ensures
        result matches Ok(_) ==> o == Outcome::Success,
        (result matches Err(e) ==> o == Outcome::Failure(e)),
{
    match result {
        Ok(()) => Outcome::Success,
        Err(e) => Outcome::Failure(e),
    }
}

} // verus!
