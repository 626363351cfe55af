use low_noise_bot::command::CommandDef;
use low_noise_bot::pin::PinMessageModule;
use low_noise_bot::registry::{aggregate, ConfigError, Module, NON_PRIVILEGED_INTENTS};

fn def(name: &str) -> CommandDef {
    CommandDef {
        name: String::from(name),
        context_menu_name: None,
        guild_only: false,
        required_bot_permissions: 0,
        default_member_permissions: 0,
    }
}

#[test]
fn aggregating_the_pin_module_yields_its_commands_and_the_baseline() {
    let modules = vec![PinMessageModule.module()];
    let (commands, intents) = aggregate(&modules).expect("one module never collides");
    assert_eq!(commands.len(), 2);
    assert_eq!(commands[0].context_menu_name.as_deref(), Some("Pin Message"));
    assert_eq!(commands[1].context_menu_name.as_deref(), Some("Unpin Message"));
    assert_eq!(intents, NON_PRIVILEGED_INTENTS);
}

#[test]
fn commands_concatenate_in_module_order() {
    let first = Module {
        commands: vec![def("alpha"), def("beta")],
        intents: 0,
    };
    let second = Module {
        commands: vec![def("gamma")],
        intents: 0,
    };
    let (commands, _) = aggregate(&vec![first, second]).expect("names are distinct");
    let names: Vec<&str> = commands.iter().map(|c| c.name.as_str()).collect();
    assert_eq!(names, vec!["alpha", "beta", "gamma"]);
}

#[test]
fn modules_only_add_to_the_baseline_intents() {
    let wants_more = Module {
        commands: vec![def("alpha")],
        intents: 1 << 1,
    };
    let (_, intents) = aggregate(&vec![wants_more]).expect("names are distinct");
    assert_eq!(intents, NON_PRIVILEGED_INTENTS | (1 << 1));
    assert_eq!(intents & NON_PRIVILEGED_INTENTS, NON_PRIVILEGED_INTENTS);
}

#[test]
fn duplicate_registered_names_are_a_configuration_error() {
    let first = Module {
        commands: vec![def("alpha")],
        intents: 0,
    };
    let mut renamed = def("other");
    renamed.context_menu_name = Some(String::from("alpha"));
    let second = Module {
        commands: vec![renamed],
        intents: 0,
    };
    match aggregate(&vec![first, second]) {
        Err(ConfigError::DuplicateCommandName(name)) => assert_eq!(name, "alpha"),
        Ok(_) => panic!("a duplicated registered name must be refused"),
    }
}
