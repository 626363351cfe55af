//! The command data model: locally declared command definitions, commands as
//! reported by the remote platform, and the registration scope.

use vstd::prelude::*;

verus! {

/// A command as this process declares it. Rebuilt fresh on every start from
/// the module registry and never mutated afterwards. The platform registers
/// it under `registered_name()`: the context-menu display name when one is
/// present, otherwise the canonical name.
pub struct CommandDef {
    pub name: String,
    pub context_menu_name: Option<String>,
    pub guild_only: bool,
    pub required_bot_permissions: u64,
    pub default_member_permissions: u64,
}

impl CommandDef {
    /// The name under which the platform registers this command; remote
    /// entries are matched against it during reconciliation.
    pub open spec fn registered_name(&self) -> Seq<char> {
        match self.context_menu_name {
            Some(n) => n@,
            None => self.name@,
        }
    }

    /// The registered name as an executable value.
    pub fn registered_name_string(&self) -> (r: &String)
        ensures
            r@ == self.registered_name(),
    {
        match &self.context_menu_name {
            Some(n) => n,
            None => &self.name,
        }
    }
}

impl Clone for CommandDef {
    fn clone(&self) -> (r: Self)
        ensures
            r == *self,
    {
        CommandDef {
            name: self.name.clone(),
            context_menu_name: match &self.context_menu_name {
                Some(n) => Some(n.clone()),
                None => None,
            },
            guild_only: self.guild_only,
            required_bot_permissions: self.required_bot_permissions,
            default_member_permissions: self.default_member_permissions,
        }
    }
}

/// A command as the remote platform reports it in one scope. Ephemeral:
/// fetched fresh on each reconciliation pass and matched by name only.
pub struct RemoteCommand {
    pub id: u64,
    pub name: String,
}

/// Where commands are registered: globally, or in a single guild selected
/// at startup for a debug session.
pub enum RegistrationScope {
    Global,
    Guild(u64),
}

} // verus!
