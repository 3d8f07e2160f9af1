use gratitude::commands::{
    has_name, id_of, sync_plan, ApplicationCommand, CommandName, CommandRegister,
};

fn named(name: CommandName) -> ApplicationCommand {
    ApplicationCommand::by_name(name)
}

fn registered_with_id(name: CommandName, id: &str) -> ApplicationCommand {
    let mut c = ApplicationCommand::by_name(name);
    c.id = Some(id.to_string());
    c
}

#[test]
fn the_catalogue_declares_the_four_commands() {
    let cat = ApplicationCommand::globals("app-1");
    let names: Vec<CommandName> = cat.iter().map(|c| c.name).collect();
    assert_eq!(
        names,
        vec![CommandName::Help, CommandName::Start, CommandName::Stop, CommandName::Entry]
    );
    for c in &cat {
        assert_eq!(c.application_id, "app-1");
        assert_eq!(c.dm_permission, Some(true));
    }
    let entry = &cat[3];
    let opts = entry.options.as_ref().expect("the entry command takes an argument");
    assert_eq!(opts.len(), 1);
    assert_eq!(opts[0].name, "entry");
    assert_eq!(opts[0].required, Some(true));
    assert_eq!(opts[0].min_length, Some(5));
    assert_eq!(opts[0].max_length, Some(1000));
}

#[test]
fn the_plan_deletes_undeclared_and_registers_missing() {
    let registered = vec![named(CommandName::Help), named(CommandName::Entry)];
    let declared = vec![named(CommandName::Help), named(CommandName::Start)];
    let (to_delete, to_register) = sync_plan(registered, declared);
    let del: Vec<CommandName> = to_delete.iter().map(|c| c.name).collect();
    let reg: Vec<CommandName> = to_register.iter().map(|c| c.name).collect();
    assert_eq!(del, vec![CommandName::Entry]);
    assert_eq!(reg, vec![CommandName::Start]);
}

#[test]
fn a_second_sync_plans_nothing() {
    let declared = || vec![named(CommandName::Help), named(CommandName::Start)];
    let registered = vec![named(CommandName::Entry)];

    // First run: plan against what is registered, then apply it remotely.
    let (to_delete, to_register) = sync_plan(clone_names(&registered), declared());
    let mut remote: Vec<ApplicationCommand> = registered
        .into_iter()
        .filter(|c| !to_delete.iter().any(|d| d.name == c.name))
        .collect();
    remote.extend(to_register);

    // Second run with the unchanged catalogue: nothing to do.
    let (d2, r2) = sync_plan(remote, declared());
    assert!(d2.is_empty());
    assert!(r2.is_empty());
}

fn clone_names(commands: &[ApplicationCommand]) -> Vec<ApplicationCommand> {
    commands.iter().map(|c| ApplicationCommand::by_name(c.name)).collect()
}

#[test]
fn has_name_finds_only_present_names() {
    let cmds = vec![named(CommandName::Help), named(CommandName::Stop)];
    assert!(has_name(&cmds, CommandName::Help));
    assert!(has_name(&cmds, CommandName::Stop));
    assert!(!has_name(&cmds, CommandName::Entry));
}

#[test]
fn id_of_returns_the_first_matching_id() {
    let cmds = vec![
        registered_with_id(CommandName::Help, "h-1"),
        registered_with_id(CommandName::Stop, "s-1"),
        registered_with_id(CommandName::Stop, "s-2"),
    ];
    assert_eq!(id_of(&cmds, CommandName::Stop), Some("s-1".to_string()));
    assert_eq!(id_of(&cmds, CommandName::Entry), None);
}

#[test]
fn a_registration_payload_keeps_the_declared_fields() {
    let cat = ApplicationCommand::globals("app-1");
    let entry = &cat[3];
    let name = entry.name;
    let description = entry.description.clone();
    let reg = CommandRegister::of_command(ApplicationCommand {
        id: entry.id.clone(),
        kind: entry.kind,
        application_id: entry.application_id.clone(),
        guild_id: entry.guild_id.clone(),
        name,
        description: description.clone(),
        options: None,
        default_member_permissions: None,
        dm_permission: entry.dm_permission,
        version: None,
    });
    assert_eq!(reg.name, name);
    assert_eq!(reg.description, description);
    assert_eq!(reg.dm_permission, Some(true));
}
