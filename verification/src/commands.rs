//! The command catalogue and the syncer that keeps the remotely registered
//! set equal to it.
//!
//! The declared catalogue is fixed; the syncer diffs it against whatever is
//! registered remotely, by command name alone, and plans the deletions and
//! registrations that close the gap. Applying the plan and fetching the
//! remote set are the surrounding client's work; the diff is decided here.

use vstd::prelude::*;

verus! {

/// The name of an invokable command.
#[derive(Debug, PartialEq, Eq, Structural, Clone, Copy)]
pub enum CommandName {
    /// Show what the service does and how to use it.
    Help,
    /// Enroll for reminders.
    Start,
    /// Unenroll from reminders.
    Stop,
    /// Add a journal entry.
    Entry,
}

/// How a command is invoked.
#[derive(Debug, PartialEq, Eq, Structural, Clone, Copy)]
pub enum CommandType {
    /// Typed as a chat command.
    ChatInput,
    /// Invoked on a user.
    User,
    /// Invoked on a message.
    Message,
}

/// The type of one declared command argument.
#[derive(Debug, PartialEq, Eq, Structural, Clone, Copy)]
pub enum OptionType {
    SubCommand,
    SubCommandGroup,
    Text,
    Integer,
    Boolean,
    User,
    Channel,
    Role,
    Mentionable,
    Number,
    Attachment,
}

/// One declared argument of a command.
#[derive(Debug)]
pub struct ApplicationCommandOption {
    pub kind: OptionType,
    pub name: String,
    pub description: String,
    pub required: Option<bool>,
    pub min_length: Option<u32>,
    pub max_length: Option<u32>,
}

/// One command of the catalogue, declared or as registered remotely.
#[derive(Debug)]
pub struct ApplicationCommand {
    pub id: Option<String>,
    pub kind: Option<CommandType>,
    pub application_id: String,
    pub guild_id: Option<String>,
    pub name: CommandName,
    pub description: String,
    pub options: Option<Vec<ApplicationCommandOption>>,
    pub default_member_permissions: Option<String>,
    pub dm_permission: Option<bool>,
    pub version: Option<String>,
}

impl Default for ApplicationCommand {
    /// A blank command: no ids, the `Start` name, direct messages allowed.
    fn default() -> (r: Self)
        ensures
            r.id is None,
            r.kind is None,
            r.application_id@.len() == 0,
            r.guild_id is None,
            r.name == CommandName::Start,
            r.description@.len() == 0,
            r.options is None,
            r.default_member_permissions is None,
            r.dm_permission == Some(true),
            r.version is None,
    {
        ApplicationCommand {
            id: None,
            kind: None,
            application_id: String::new(),
            guild_id: None,
            name: CommandName::Start,
            description: String::new(),
            options: None,
            default_member_permissions: None,
            dm_permission: Some(true),
            version: None,
        }
    }
}

impl ApplicationCommand {
    /// A blank command carrying only a name.
    pub fn by_name(name: CommandName) -> (r: Self)
        ensures
            r.name == name,
            r.id is None,
            r.application_id@.len() == 0,
    {
        ApplicationCommand { name, ..Default::default() }
    }
}

/// The fields of a command that a registration call carries.
#[derive(Debug)]
pub struct CommandRegister {
    pub name: CommandName,
    pub description: String,
    pub options: Option<Vec<ApplicationCommandOption>>,
    pub default_member_permissions: Option<String>,
    pub dm_permission: Option<bool>,
    pub kind: Option<CommandType>,
}

impl CommandRegister {
    /// The registration payload of a command: the same fields, the
    /// server-assigned ones left behind.
    pub fn of_command(command: ApplicationCommand) -> (r: Self)
        ensures
            r.name == command.name,
            r.description == command.description,
            r.options == command.options,
            r.default_member_permissions == command.default_member_permissions,
            r.dm_permission == command.dm_permission,
            r.kind == command.kind,
    {
        CommandRegister {
            name: command.name,
            description: command.description,
            options: command.options,
            default_member_permissions: command.default_member_permissions,
            dm_permission: command.dm_permission,
            kind: command.kind,
        }
    }
}

/// Whether some command in `cmds` carries the name `n`.
pub open spec fn spec_has_name(cmds: Seq<ApplicationCommand>, n: CommandName) -> bool {
    exists|i: int| 0 <= i < cmds.len() && cmds[i].name == n
}

/// The names of a run of commands, in order.
pub open spec fn spec_names(cmds: Seq<ApplicationCommand>) -> Seq<CommandName> {
    cmds.map_values(|c: ApplicationCommand| c.name)
}

/// Whether the registered set carries a command of this name.
pub fn has_name(cmds: &Vec<ApplicationCommand>, name: CommandName) -> (r: bool)
    ensures
        r == spec_has_name(cmds@, name),
{
    let mut i: usize = 0;
    while i < cmds.len()
        invariant
            i <= cmds.len(),
            forall|j: int| 0 <= j < i ==> cmds@[j].name != name,
        decreases cmds.len() - i,
    {
        if cmds[i].name == name {
            return true;
        }
        i += 1;
    }
    false
}

/// The index of the first command named `n`, or a negative value if none is.
pub open spec fn spec_first_named(cmds: Seq<ApplicationCommand>, n: CommandName) -> int
    decreases cmds.len(),
{
    if cmds.len() == 0 {
        -1
    } else if cmds.first().name == n {
        0
    } else {
        let t = spec_first_named(cmds.drop_first(), n);
        if t < 0 {
            -1
        } else {
            t + 1
        }
    }
}

/// The remotely assigned id of the first registered command named `name`,
/// if one is registered and carries an id.
pub fn id_of(cmds: &Vec<ApplicationCommand>, name: CommandName) -> (r: Option<String>)
    ensures
        ({
            let i = spec_first_named(cmds@, name);
            if i < 0 {
                r is None
            } else {
                match (r, cmds@[i].id) {
                    (Some(a), Some(b)) => a@ == b@,
                    (None, None) => true,
                    _ => false,
                }
            }
        }),
{
    let ghost all = cmds@;
    proof {
        assert(all.skip(0) =~= all);
    }
    let mut i: usize = 0;
    while i < cmds.len()
        invariant
            i <= cmds.len(),
            all == cmds@,
            spec_first_named(all, name) == if spec_first_named(all.skip(i as int), name) < 0 {
                -1int
            } else {
                i + spec_first_named(all.skip(i as int), name)
            },
        decreases cmds.len() - i,
    {
        proof {
            assert(all.skip(i as int).first() == all[i as int]);
            assert(all.skip(i as int).drop_first() =~= all.skip(i + 1int));
        }
        if cmds[i].name == name {
            assert(spec_first_named(all, name) == i);
            match &cmds[i].id {
                Some(id) => {
                    let idc = id.clone();
                    return Some(idc);
                },
                None => {
                    return None;
                },
            }
        }
        i += 1;
    }
    proof {
        assert(all.skip(cmds.len() as int).len() == 0);
    }
    None
}

/// Plan one catalogue sync: from the remotely registered set and the
/// declared catalogue, the commands to delete remotely (registered but not
/// declared) and the commands to register (declared but not registered),
/// both compared by name alone and kept in their listing order.
pub fn sync_plan(registered: Vec<ApplicationCommand>, declared: Vec<ApplicationCommand>) -> (r: (
    Vec<ApplicationCommand>,
    Vec<ApplicationCommand>,
))
    ensures
        r.0@ == registered@.filter(
            |c: ApplicationCommand| !spec_has_name(declared@, c.name),
        ),
        r.1@ == declared@.filter(
            |c: ApplicationCommand| !spec_has_name(registered@, c.name),
        ),
{
    let ghost reg0 = registered@;
    let ghost dec0 = declared@;
    let ghost del_pred = |c: ApplicationCommand| !spec_has_name(dec0, c.name);
    let ghost add_pred = |c: ApplicationCommand| !spec_has_name(reg0, c.name);

    // The registered names, remembered before the commands are moved out.
    let mut reg_names: Vec<CommandName> = Vec::new();
    let mut i: usize = 0;
    while i < registered.len()
        invariant
            i <= registered.len(),
            registered@ == reg0,
            reg_names@ =~= spec_names(reg0.take(i as int)),
        decreases registered.len() - i,
    {
        reg_names.push(registered[i].name);
        proof {
            assert(spec_names(reg0.take(i + 1int)) =~= spec_names(reg0.take(i as int)).push(
                reg0[i as int].name,
            ));
        }
        i += 1;
    }
    proof {
        assert(reg0.take(registered.len() as int) =~= reg0);
    }

    let mut to_delete: Vec<ApplicationCommand> = Vec::new();
    let mut registered = registered;
    let ghost mut k: int = 0;
    proof {
        reveal(Seq::filter);
        assert(reg0.take(0).filter(del_pred) =~= Seq::<ApplicationCommand>::empty());
    }
    while registered.len() > 0
        invariant
            0 <= k <= reg0.len(),
            registered@ =~= reg0.skip(k),
            declared@ == dec0,
            del_pred == (|c: ApplicationCommand| !spec_has_name(dec0, c.name)),
            to_delete@ == reg0.take(k).filter(del_pred),
        decreases registered.len(),
    {
        let c = registered.remove(0);
        proof {
            assert(c == reg0[k]);
            assert(registered@ =~= reg0.skip(k + 1));
            reveal(Seq::filter);
            assert(reg0.take(k + 1).drop_last() =~= reg0.take(k));
            assert(reg0.take(k + 1).last() == reg0[k]);
        }
        if !has_name(&declared, c.name) {
            to_delete.push(c);
        }
        proof {
            k = k + 1;
        }
    }
    proof {
        assert(reg0.take(reg0.len() as int) =~= reg0);
        assert(to_delete@ == reg0.filter(del_pred));
    }

    let mut to_register: Vec<ApplicationCommand> = Vec::new();
    let mut declared = declared;
    let ghost mut m: int = 0;
    proof {
        reveal(Seq::filter);
        assert(dec0.take(0).filter(add_pred) =~= Seq::<ApplicationCommand>::empty());
    }
    while declared.len() > 0
        invariant
            0 <= m <= dec0.len(),
            declared@ =~= dec0.skip(m),
            reg_names@ == spec_names(reg0),
            add_pred == (|c: ApplicationCommand| !spec_has_name(reg0, c.name)),
            to_register@ == dec0.take(m).filter(add_pred),
        decreases declared.len(),
    {
        let c = declared.remove(0);
        proof {
            assert(c == dec0[m]);
            assert(declared@ =~= dec0.skip(m + 1));
            reveal(Seq::filter);
            assert(dec0.take(m + 1).drop_last() =~= dec0.take(m));
            assert(dec0.take(m + 1).last() == dec0[m]);
        }
        let mut found = false;
        let mut j: usize = 0;
        while j < reg_names.len()
            invariant
                j <= reg_names.len(),
                reg_names@ == spec_names(reg0),
                found == exists|t: int| 0 <= t < j && reg_names@[t] == c.name,
            decreases reg_names.len() - j,
        {
            if reg_names[j] == c.name {
                found = true;
            }
            j += 1;
        }
        proof {
            assert(found == spec_has_name(reg0, c.name)) by {
                if found {
                    let t = choose|t: int| 0 <= t < reg_names@.len() && reg_names@[t] == c.name;
                    assert(reg0[t].name == c.name);
                }
                if spec_has_name(reg0, c.name) {
                    let t = choose|t: int| 0 <= t < reg0.len() && reg0[t].name == c.name;
                    assert(reg_names@[t] == c.name);
                }
            }
        }
        if !found {
            to_register.push(c);
        }
        proof {
            m = m + 1;
        }
    }
    proof {
        assert(dec0.take(dec0.len() as int) =~= dec0);
        assert(to_register@ == dec0.filter(add_pred));
    }

    (to_delete, to_register)
}

/// The registered set after one sync is applied: what was kept, having a
/// declared name, followed by what was newly registered.
pub open spec fn spec_after_sync(
    registered: Seq<ApplicationCommand>,
    declared: Seq<ApplicationCommand>,
) -> Seq<ApplicationCommand> {
    registered.filter(|c: ApplicationCommand| spec_has_name(declared, c.name)) + declared.filter(
        |c: ApplicationCommand| !spec_has_name(registered, c.name),
    )
}

/// Filtering keeps exactly the matching commands' names reachable.
proof fn lemma_filter_has_name(
    cmds: Seq<ApplicationCommand>,
    pred: spec_fn(ApplicationCommand) -> bool,
    n: CommandName,
)
    ensures
        spec_has_name(cmds.filter(pred), n) == (exists|i: int|
            0 <= i < cmds.len() && cmds[i].name == n && pred(cmds[i])),
    decreases cmds.len(),
{
    reveal(Seq::filter);
    if cmds.len() == 0 {
    } else {
        let prefix = cmds.drop_last();
        let last = cmds.last();
        lemma_filter_has_name(prefix, pred, n);
        let sub = prefix.filter(pred);
        if pred(last) {
            assert(cmds.filter(pred) == sub.push(last));
            assert forall|i: int| 0 <= i < sub.len() implies sub.push(last)[i] == sub[i] by {}
            if spec_has_name(cmds.filter(pred), n) {
                let i = choose|i: int|
                    0 <= i < cmds.filter(pred).len() && cmds.filter(pred)[i].name == n;
                if i < sub.len() {
                    let t = choose|t: int|
                        0 <= t < prefix.len() && prefix[t].name == n && pred(prefix[t]);
                    assert(cmds[t].name == n && pred(cmds[t]));
                } else {
                    assert(cmds[cmds.len() - 1].name == n);
                }
            }
            if exists|i: int| 0 <= i < cmds.len() && cmds[i].name == n && pred(cmds[i]) {
                let i = choose|i: int| 0 <= i < cmds.len() && cmds[i].name == n && pred(cmds[i]);
                if i < cmds.len() - 1 {
                    assert(prefix[i].name == n && pred(prefix[i]));
                    let t = choose|t: int| 0 <= t < sub.len() && sub[t].name == n;
                    assert(cmds.filter(pred)[t].name == n);
                } else {
                    assert(cmds.filter(pred)[sub.len() as int].name == n);
                }
            }
        } else {
            assert(cmds.filter(pred) == sub);
            if spec_has_name(sub, n) {
                let t = choose|t: int|
                    0 <= t < prefix.len() && prefix[t].name == n && pred(prefix[t]);
                assert(cmds[t].name == n && pred(cmds[t]));
            }
            if exists|i: int| 0 <= i < cmds.len() && cmds[i].name == n && pred(cmds[i]) {
                let i = choose|i: int| 0 <= i < cmds.len() && cmds[i].name == n && pred(cmds[i]);
                assert(i < cmds.len() - 1);
                assert(prefix[i].name == n && pred(prefix[i]));
            }
        }
    }
}

/// After one sync the registered names are exactly the declared names: what
/// was undeclared is gone, what was missing is there.
pub proof fn lemma_sync_converges(
    registered: Seq<ApplicationCommand>,
    declared: Seq<ApplicationCommand>,
)
    ensures
        forall|n: CommandName|
            spec_has_name(#[trigger] spec_after_sync(registered, declared), n) == spec_has_name(
                declared,
                n,
            ),
{
    let kept = registered.filter(|c: ApplicationCommand| spec_has_name(declared, c.name));
    let fresh = declared.filter(|c: ApplicationCommand| !spec_has_name(registered, c.name));
    assert forall|n: CommandName|
        spec_has_name(#[trigger] spec_after_sync(registered, declared), n) == spec_has_name(
            declared,
            n,
        ) by {
        lemma_filter_has_name(
            registered,
            |c: ApplicationCommand| spec_has_name(declared, c.name),
            n,
        );
        lemma_filter_has_name(
            declared,
            |c: ApplicationCommand| !spec_has_name(registered, c.name),
            n,
        );
        let joined = spec_after_sync(registered, declared);
        if spec_has_name(joined, n) {
            let i = choose|i: int| 0 <= i < joined.len() && joined[i].name == n;
            if i < kept.len() {
                assert(kept[i] == joined[i]);
                assert(spec_has_name(kept, n));
            } else {
                assert(fresh[i - kept.len()] == joined[i]);
                assert(spec_has_name(fresh, n));
            }
        }
        if spec_has_name(declared, n) {
            if spec_has_name(registered, n) {
                let i = choose|i: int| 0 <= i < registered.len() && registered[i].name == n;
                assert(spec_has_name(kept, n));
                let t = choose|t: int| 0 <= t < kept.len() && kept[t].name == n;
                assert(joined[t].name == n);
            } else {
                let i = choose|i: int| 0 <= i < declared.len() && declared[i].name == n;
                assert(spec_has_name(fresh, n));
                let t = choose|t: int| 0 <= t < fresh.len() && fresh[t].name == n;
                assert(joined[kept.len() + t].name == n);
            }
        }
    }
}

/// A second sync against an unchanged catalogue plans nothing: when the
/// registered names already equal the declared names, both halves of the
/// plan are empty.
pub proof fn lemma_sync_idle(
    registered: Seq<ApplicationCommand>,
    declared: Seq<ApplicationCommand>,
)
    requires
        forall|n: CommandName| spec_has_name(registered, n) == spec_has_name(declared, n),
    ensures
        registered.filter(|c: ApplicationCommand| !spec_has_name(declared, c.name)).len() == 0,
        declared.filter(|c: ApplicationCommand| !spec_has_name(registered, c.name)).len() == 0,
{
    let del = registered.filter(|c: ApplicationCommand| !spec_has_name(declared, c.name));
    let add = declared.filter(|c: ApplicationCommand| !spec_has_name(registered, c.name));
    lemma_filter_has_name(
        registered,
        |c: ApplicationCommand| !spec_has_name(declared, c.name),
        CommandName::Help,
    );
    if del.len() > 0 {
        let c = del[0];
        lemma_filter_has_name(
            registered,
            |c: ApplicationCommand| !spec_has_name(declared, c.name),
            c.name,
        );
        assert(spec_has_name(del, c.name));
        assert(exists|i: int|
            0 <= i < registered.len() && registered[i].name == c.name && !spec_has_name(
                declared,
                registered[i].name,
            ));
        assert(spec_has_name(registered, c.name));
        assert(false);
    }
    if add.len() > 0 {
        let c = add[0];
        lemma_filter_has_name(
            declared,
            |c: ApplicationCommand| !spec_has_name(registered, c.name),
            c.name,
        );
        assert(spec_has_name(add, c.name));
        assert(spec_has_name(declared, c.name));
        assert(false);
    }
}

impl ApplicationCommand {
    /// The declared catalogue: the four commands this service wants
    /// registered, each name once, all invokable in direct messages, the
    /// entry command taking one required text argument of 5 to 1000
    /// characters.
    pub fn globals(application_id: &str) -> (r: Vec<Self>)
        ensures
            r@.len() == 4,
            r@[0].name == CommandName::Help,
            r@[1].name == CommandName::Start,
            r@[2].name == CommandName::Stop,
            r@[3].name == CommandName::Entry,
            forall|i: int|
                0 <= i < 4 ==> (#[trigger] r@[i]).application_id@ == application_id@,
            forall|i: int| 0 <= i < 4 ==> (#[trigger] r@[i]).dm_permission == Some(true),
            forall|i: int| 0 <= i < 3 ==> (#[trigger] r@[i]).options is None,
            r@[0].description@ == "Get some information about the bot!"@,
            r@[1].description@ == "Start receiving reminders from the bot!"@,
            r@[2].description@ == "Stop receiving reminders from the bot!"@,
            r@[3].description@ == "Add an entry to your gratitude journal!"@,
            r@[3].options matches Some(opts) && opts@.len() == 1 && opts@[0].kind
                == OptionType::Text && opts@[0].name@ == "entry"@ && opts@[0].required
                == Some(true) && opts@[0].min_length == Some(5u32) && opts@[0].max_length
                == Some(1000u32),
            forall|n: CommandName| spec_has_name(r@, n),
    {
        let mut r: Vec<Self> = Vec::new();
        r.push(
            ApplicationCommand {
                name: CommandName::Help,
                application_id: String::from_str(application_id),
                description: String::from_str("Get some information about the bot!"),
                ..Default::default()
            },
        );
        r.push(
            ApplicationCommand {
                name: CommandName::Start,
                application_id: String::from_str(application_id),
                description: String::from_str("Start receiving reminders from the bot!"),
                dm_permission: Some(true),
                ..Default::default()
            },
        );
        r.push(
            ApplicationCommand {
                name: CommandName::Stop,
                application_id: String::from_str(application_id),
                description: String::from_str("Stop receiving reminders from the bot!"),
                dm_permission: Some(true),
                ..Default::default()
            },
        );
        let mut options: Vec<ApplicationCommandOption> = Vec::new();
        options.push(
            ApplicationCommandOption {
                kind: OptionType::Text,
                name: String::from_str("entry"),
                description: String::from_str("Something, anything, you are feeling grateful for!"),
                required: Some(true),
                min_length: Some(5),
                max_length: Some(1000),
            },
        );
        r.push(
            ApplicationCommand {
                name: CommandName::Entry,
                description: String::from_str("Add an entry to your gratitude journal!"),
                options: Some(options),
                application_id: String::from_str(application_id),
                dm_permission: Some(true),
                ..Default::default()
            },
        );
        proof {
            assert(r@[0].name == CommandName::Help);
            assert forall|n: CommandName| spec_has_name(r@, n) by {
                match n {
                    CommandName::Help => assert(r@[0].name == n),
                    CommandName::Start => assert(r@[1].name == n),
                    CommandName::Stop => assert(r@[2].name == n),
                    CommandName::Entry => assert(r@[3].name == n),
                }
            }
        }
        r
    }
}

} // verus!
