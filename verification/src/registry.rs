//! The module registry: each module contributes an ordered list of command
//! definitions and the gateway capability flags it requires. Aggregation
//! concatenates the commands in module order, unions the capability flags
//! on top of the fixed non-privileged baseline, and rejects configurations
//! in which two modules register the same command name.

use vstd::prelude::*;

use crate::command::CommandDef;

verus! {

/// The platform's non-privileged gateway capability flags: every defined
/// capability bit except the privileged member, presence and message-content
/// subscriptions. A gateway session is always opened with at least these.
pub const NON_PRIVILEGED_INTENTS: u64 = (1u64 << 0) | (1u64 << 2) | (1u64 << 3) | (1u64 << 4) | (
    1u64 << 5) | (1u64 << 6) | (1u64 << 7) | (1u64 << 9) | (1u64 << 10) | (1u64 << 11) | (1u64
    << 12) | (1u64 << 13) | (1u64 << 14) | (1u64 << 16) | (1u64 << 20) | (1u64 << 21) | (1u64 << 24)
    | (1u64 << 25);

/// One self-describing module: the commands it contributes, in order, and
/// the gateway capability flags it requires.
pub struct Module {
    pub commands: Vec<CommandDef>,
    pub intents: u64,
}

/// The commands of all modules, concatenated in module order.
pub open spec fn all_commands(modules: Seq<Module>) -> Seq<CommandDef>
    decreases modules.len(),
{
    if modules.len() == 0 {
        Seq::empty()
    } else {
        all_commands(modules.drop_last()) + modules.last().commands@
    }
}

/// The union of the modules' capability flags on top of `base`.
pub open spec fn combined_intents(modules: Seq<Module>, base: u64) -> u64
    decreases modules.len(),
{
    if modules.len() == 0 {
        base
    } else {
        combined_intents(modules.drop_last(), base) | modules.last().intents
    }
}

/// No two commands are registered under the same name.
pub open spec fn distinct_registered_names(cmds: Seq<CommandDef>) -> bool {
    forall|i: int, j: int|
        0 <= i < j < cmds.len() ==> (#[trigger] cmds[i]).registered_name() != (
        #[trigger] cmds[j]).registered_name()
}

/// A configuration the registry refuses at startup.
#[derive(Debug)]
pub enum ConfigError {
    /// Two modules declare a command registered under the same name.
    DuplicateCommandName(String),
}

proof fn lemma_mask_self(b: u64)
    ensures
        b & b == b,
{
    assert(b & b == b) by (bit_vector);
}

proof fn lemma_or_keeps_mask(x: u64, y: u64, b: u64)
    requires
        x & b == b,
    ensures
        (x | y) & b == b,
{
    assert((x & b == b) ==> ((x | y) & b == b)) by (bit_vector);
}

/// Modules can only add capabilities: whatever they request, the combined
/// flags still include the whole non-privileged baseline.
pub proof fn lemma_baseline_intents_preserved(modules: Seq<Module>)
    ensures
        combined_intents(modules, NON_PRIVILEGED_INTENTS) & NON_PRIVILEGED_INTENTS
            == NON_PRIVILEGED_INTENTS,
    decreases modules.len(),
{
    if modules.len() == 0 {
        lemma_mask_self(NON_PRIVILEGED_INTENTS);
    } else {
        lemma_baseline_intents_preserved(modules.drop_last());
        lemma_or_keeps_mask(
            combined_intents(modules.drop_last(), NON_PRIVILEGED_INTENTS),
            modules.last().intents,
            NON_PRIVILEGED_INTENTS,
        );
    }
}

/// Concatenate the commands of all modules, in module order.
fn flatten_commands(modules: &Vec<Module>) -> (cmds: Vec<CommandDef>)
    ensures
        cmds@ == all_commands(modules@),
{
    let mut cmds: Vec<CommandDef> = Vec::new();
    let mut i: usize = 0;
    while i < modules.len()
        invariant
            i <= modules.len(),
            cmds@ == all_commands(modules@.take(i as int)),
        decreases modules.len() - i,
    {
        let mcmds = &modules[i].commands;
        let mut k: usize = 0;
        while k < mcmds.len()
            invariant
                k <= mcmds.len(),
                mcmds == &modules@[i as int].commands,
                i < modules.len(),
                cmds@ == all_commands(modules@.take(i as int)) + mcmds@.take(k as int),
            decreases mcmds.len() - k,
        {
            cmds.push(mcmds[k].clone());
            proof {
                assert(mcmds@.take(k + 1) =~= mcmds@.take(k as int).push(mcmds@[k as int]));
                assert(all_commands(modules@.take(i as int)) + mcmds@.take(k as int).push(
                    mcmds@[k as int],
                ) =~= (all_commands(modules@.take(i as int)) + mcmds@.take(k as int)).push(
                    mcmds@[k as int],
                ));
            }
            k = k + 1;
        }
        proof {
            assert(modules@.take(i + 1).drop_last() =~= modules@.take(i as int));
            assert(modules@.take(i + 1).last() == modules@[i as int]);
            assert(mcmds@.take(mcmds@.len() as int) =~= mcmds@);
        }
        i = i + 1;
    }
    proof {
        assert(modules@.take(modules@.len() as int) =~= modules@);
    }
    cmds
}

/// Find a registered name that occurs twice, if any.
fn find_duplicate_name(cmds: &Vec<CommandDef>) -> (r: Option<&String>)
    ensures
        (r matches Some(n) ==> exists|i: int, j: int|
            0 <= i < j < cmds@.len() && (#[trigger] cmds@[i]).registered_name() == (
            #[trigger] cmds@[j]).registered_name() && cmds@[j].registered_name() == n@),
        (r matches None ==> distinct_registered_names(cmds@)),
{
    let mut j: usize = 1;
    while j < cmds.len()
        invariant
            cmds.len() > 0 ==> 1 <= j,
            forall|a: int, b: int|
                0 <= a < b < j && b < cmds@.len() ==> (#[trigger] cmds@[a]).registered_name() != (
                #[trigger] cmds@[b]).registered_name(),
        decreases cmds.len() - j,
    {
        let mut i: usize = 0;
        while i < j
            invariant
                i <= j < cmds.len(),
                forall|a: int|
                    0 <= a < i ==> (#[trigger] cmds@[a]).registered_name()
                        != cmds@[j as int].registered_name(),
            decreases j - i,
        {
            if *cmds[i].registered_name_string() == *cmds[j].registered_name_string() {
                return Some(cmds[j].registered_name_string());
            }
            i = i + 1;
        }
        j = j + 1;
    }
    None
}

/// Aggregate the modules: the concatenated command list and the unioned
/// capability flags, or a configuration error when two modules register a
/// command under the same name.
pub fn aggregate(modules: &Vec<Module>) -> (r: Result<(Vec<CommandDef>, u64), ConfigError>)
    ensures
        (r matches Ok(out) ==> out.0@ == all_commands(modules@) && out.1 == combined_intents(
            modules@,
            NON_PRIVILEGED_INTENTS,
        ) && distinct_registered_names(all_commands(modules@))),
        (r matches Err(e) ==> !distinct_registered_names(all_commands(modules@)) && (e
            matches ConfigError::DuplicateCommandName(n) && exists|i: int, j: int|
            0 <= i < j < all_commands(modules@).len() && (#[trigger] all_commands(
                modules@,
            )[i]).registered_name() == (#[trigger] all_commands(modules@)[j]).registered_name()
                && all_commands(modules@)[j].registered_name() == n@)),
{
    let cmds = flatten_commands(modules);
    match find_duplicate_name(&cmds) {
        Some(name) => Err(ConfigError::DuplicateCommandName(name.clone())),
        None => {
            let mut intents: u64 = NON_PRIVILEGED_INTENTS;
            let mut i: usize = 0;
            while i < modules.len()
                invariant
                    i <= modules.len(),
                    intents == combined_intents(modules@.take(i as int), NON_PRIVILEGED_INTENTS),
                decreases modules.len() - i,
            {
                intents = intents | modules[i].intents;
                proof {
                    assert(modules@.take(i + 1).drop_last() =~= modules@.take(i as int));
                    assert(modules@.take(i + 1).last() == modules@[i as int]);
                }
                i = i + 1;
            }
            proof {
                assert(modules@.take(modules@.len() as int) =~= modules@);
            }
            Ok((cmds, intents))
        },
    }
}

} // verus!
