use gratitude::error::{General, Http, Status};
use gratitude::interaction::command_handler::{
    already_active, entry_verdict, not_active, respond, start_action, start_verdict, stop_action,
    stop_verdict, StartAction, StopAction, Verdict,
};
use gratitude::interaction::{
    classify_kind, ActionRowType, ApplicationCommandData, ButtonInteraction, ComponentIdData,
    CustomId, Interaction, InteractionResponseType, InteractionType, Invoker, Member, Message,
    ModalId, ModalSubmitData, NoComponentMessage, OptionData, OptionValue, PingData,
    PingInteraction, SingleButtonActionRow, SingleButtonMessage,
    SingleTextModalButtonInteraction, TextInputId, TextInputSubmit, User,
};
use gratitude::users::BotUser;

fn a_user(id: &str, username: &str) -> User {
    User { id: id.to_string(), username: username.to_string(), discriminator: "0".to_string() }
}

fn a_member() -> Member {
    Member {
        nick: None,
        avatar: None,
        roles: Vec::new(),
        joined_at: "2023-01-01".to_string(),
        premium: None,
        deaf: false,
        mute: false,
        flags: 0,
        pending: None,
        permissions: None,
        communication_disabled_until: None,
    }
}

#[test]
fn liveness_checks_are_acknowledged() {
    let ping: PingInteraction = Interaction {
        kind: InteractionType::Ping,
        data: PingData,
        token: "t".to_string(),
        guild_id: None,
        channel_id: None,
        message: None,
        invoker: Invoker::Direct { user: a_user("1", "u"), dm_channel_id: "c".to_string() },
    };
    let response = ping.handle();
    assert_eq!(response.kind, InteractionResponseType::Pong);
    assert!(response.data.is_none());
}

#[test]
fn each_kind_code_classifies_and_unknown_codes_fail() {
    assert_eq!(classify_kind(1).unwrap(), InteractionType::Ping);
    assert_eq!(classify_kind(2).unwrap(), InteractionType::ApplicationCommand);
    assert_eq!(classify_kind(3).unwrap(), InteractionType::MessageComponent);
    assert_eq!(classify_kind(5).unwrap(), InteractionType::ModalSubmit);
    for code in [0u8, 4, 6, 7, 200] {
        match classify_kind(code) {
            Err(General::InvalidPayload(_)) => {}
            other => panic!("code {} must be an invalid payload, got {:?}", code, other),
        }
    }
}

#[test]
fn ids_come_from_the_invoker() {
    let direct: PingInteraction = Interaction {
        kind: InteractionType::Ping,
        data: PingData,
        token: "t".to_string(),
        guild_id: None,
        channel_id: None,
        message: None,
        invoker: Invoker::Direct { user: a_user("7", "u"), dm_channel_id: "dm-7".to_string() },
    };
    assert_eq!(direct.ids(), ("7".to_string(), "dm-7".to_string()));

    let guild: PingInteraction = Interaction {
        kind: InteractionType::Ping,
        data: PingData,
        token: "t".to_string(),
        guild_id: Some("g".to_string()),
        channel_id: Some("ch".to_string()),
        message: None,
        invoker: Invoker::Guild { user: a_user("8", "u"), member: a_member() },
    };
    assert_eq!(guild.ids(), ("8".to_string(), String::new()));
}

#[test]
fn the_entry_argument_is_the_first_text_option() {
    let with_entry: gratitude::interaction::CommandInteraction = Interaction {
        kind: InteractionType::ApplicationCommand,
        data: ApplicationCommandData {
            id: "i".to_string(),
            name: gratitude::commands::CommandName::Entry,
            kind: gratitude::commands::CommandType::ChatInput,
            options: Some(vec![OptionData {
                name: "entry".to_string(),
                kind: gratitude::commands::OptionType::Text,
                value: Some(OptionValue::Text("grateful for rain".to_string())),
                options: None,
            }]),
            guild_id: None,
            target_id: None,
        },
        token: "t".to_string(),
        guild_id: None,
        channel_id: None,
        message: None,
        invoker: Invoker::Direct { user: a_user("1", "u"), dm_channel_id: "c".to_string() },
    };
    assert_eq!(with_entry.entry(), Some("grateful for rain".to_string()));

    let mut without = with_entry;
    without.data.options = None;
    assert_eq!(without.entry(), None);
}

#[test]
fn the_button_opens_a_form_titled_after_the_user() {
    let press: ButtonInteraction = Interaction {
        kind: InteractionType::MessageComponent,
        data: ComponentIdData { custom_id: CustomId::GratefulButton },
        token: "t".to_string(),
        guild_id: None,
        channel_id: Some("ch".to_string()),
        message: Message {
            id: Some("m".to_string()),
            channel_id: Some("ch".to_string()),
            content: None,
            flags: None,
            components: SingleButtonActionRow::entry_button(),
        },
        invoker: Invoker::Direct { user: a_user("1", "Sam"), dm_channel_id: "c".to_string() },
    };
    let response = press.handle_grateful();
    assert_eq!(response.kind, InteractionResponseType::Modal);
    assert_eq!(response.data.custom_id, ModalId::GratefulModal);
    assert_eq!(response.data.title, "Sam's Gratitude Journal");
    assert_eq!(response.data.components.components.custom_id, TextInputId::GratefulInput);
}

fn a_submission(text: &str) -> SingleTextModalButtonInteraction {
    Interaction {
        kind: InteractionType::ModalSubmit,
        data: ModalSubmitData {
            custom_id: ModalId::GratefulModal,
            components: gratitude::interaction::ActionRow {
                kind: ActionRowType::ActionRow,
                components: TextInputSubmit {
                    kind: gratitude::interaction::ModalComponentType::TextInput,
                    custom_id: TextInputId::GratefulInput,
                    value: text.to_string(),
                },
            },
        },
        token: "t".to_string(),
        guild_id: None,
        channel_id: Some("ch".to_string()),
        message: Message {
            id: Some("m".to_string()),
            channel_id: Some("ch".to_string()),
            content: None,
            flags: None,
            components: SingleButtonActionRow::entry_button(),
        },
        invoker: Invoker::Direct { user: a_user("1", "Sam"), dm_channel_id: "c".to_string() },
    }
}

#[test]
fn a_form_submission_is_confirmed_and_its_button_disabled() {
    let mut submission = a_submission("a warm meal");
    assert_eq!(submission.entry(), "a warm meal");
    let response = submission.confirmation();
    assert_eq!(response.kind, InteractionResponseType::ChannelMessageWithSource);
    assert_eq!(
        response.data.content,
        Some("**You added the following entry:**\na warm meal".to_string())
    );
    assert_eq!(submission.message.components.components.disabled, Some(false));
    submission.disable_button();
    assert_eq!(submission.message.components.components.disabled, Some(true));
    // Redundant disabling is tolerated.
    submission.disable_button();
    assert_eq!(submission.message.components.components.disabled, Some(true));
}

#[test]
fn the_fixed_messages_read_as_expected() {
    assert_eq!(
        NoComponentMessage::success().content.unwrap(),
        "**It looks like that worked! 🥳** If it didn't do what you expected, contact Fitti#6969"
    );
    assert_eq!(
        NoComponentMessage::error().content.unwrap(),
        "Oh no! It looks like something went wrong!\nAsk Fitti#6969 for help!"
    );
    assert_eq!(NoComponentMessage::success().flags, Some(64));
    assert_eq!(NoComponentMessage::goodbye().flags, None);
    assert!(NoComponentMessage::help().content.unwrap().starts_with("__**Welcome to Gratitude Bot!**__"));
    assert_eq!(
        NoComponentMessage::from_entry("rain").content.unwrap(),
        "__**You added the following entry:**__\nrain"
    );
}

#[test]
fn the_welcome_and_prompts_carry_the_entry_button() {
    let welcome = SingleButtonMessage::welcome();
    assert_eq!(welcome.components.components.custom_id, CustomId::GratefulButton);
    assert_eq!(welcome.components.components.disabled, Some(false));

    let with_memory = SingleButtonMessage::from_entry(Some("rain".to_string()));
    assert_eq!(
        with_memory.content.unwrap(),
        "__**Here's something you said you were grateful for in the past:**__\nrain"
    );
    let without = SingleButtonMessage::from_entry(None);
    assert_eq!(without.content.unwrap(), "Hope you're having a great day!");
    assert_eq!(without.components.kind, ActionRowType::ActionRow);
}

#[test]
fn enrollment_decisions_follow_the_pending_state() {
    assert_eq!(start_action(true, true), StartAction::RemoveDeleteKey);
    assert_eq!(start_action(false, true), StartAction::ReportAlreadyActive);
    assert_eq!(start_action(false, false), StartAction::InsertAddKey);

    assert_eq!(stop_action(true, true), StopAction::RemoveAddKey);
    assert_eq!(stop_action(false, true), StopAction::ReportNotActive);
    assert_eq!(stop_action(false, false), StopAction::DropAndInsertDeleteKey);
}

#[test]
fn verdicts_follow_the_call_outcomes() {
    assert_eq!(start_verdict(StartAction::ReportAlreadyActive, true, true), Verdict::AlreadyActive);
    assert_eq!(start_verdict(StartAction::InsertAddKey, false, true), Verdict::Failed);
    assert_eq!(start_verdict(StartAction::InsertAddKey, true, false), Verdict::DmsClosed);
    assert_eq!(start_verdict(StartAction::RemoveDeleteKey, true, true), Verdict::Success);

    assert_eq!(stop_verdict(StopAction::ReportNotActive, true, true, true), Verdict::NotActive);
    assert_eq!(
        stop_verdict(StopAction::DropAndInsertDeleteKey, false, true, true),
        Verdict::Failed
    );
    assert_eq!(
        stop_verdict(StopAction::DropAndInsertDeleteKey, true, false, true),
        Verdict::Failed
    );
    assert_eq!(stop_verdict(StopAction::RemoveAddKey, true, true, false), Verdict::DmsClosed);
    assert_eq!(stop_verdict(StopAction::RemoveAddKey, true, true, true), Verdict::Success);

    assert_eq!(entry_verdict(true), Verdict::Success);
    assert_eq!(entry_verdict(false), Verdict::DmsClosed);
}

#[test]
fn each_verdict_gets_its_message() {
    let failed = respond(Verdict::Failed);
    assert_eq!(
        failed.data.content.unwrap(),
        "Oh no! It looks like something went wrong!\nAsk Fitti#6969 for help!"
    );
    let already = respond(Verdict::AlreadyActive);
    assert!(already.data.content.unwrap().starts_with("Looks like you're already an active user!"));
    let not_yet = respond(Verdict::NotActive);
    assert!(not_yet.data.content.unwrap().starts_with("Looks like you're not an active user!"));
    let closed = respond(Verdict::DmsClosed);
    assert!(closed.data.content.unwrap().starts_with("It looks like the bot can't DM you!"));
    let ok = respond(Verdict::Success);
    assert!(ok.data.content.unwrap().starts_with("**It looks like that worked!"));
}

#[test]
fn activity_checks_combine_registry_and_pending_keys() {
    let users = vec![BotUser { uid: b"1".to_vec(), channel_id: b"c".to_vec() }];
    assert!(already_active(&users, &b"1".to_vec(), false));
    assert!(already_active(&users, &b"2".to_vec(), true));
    assert!(!already_active(&users, &b"2".to_vec(), false));

    assert!(not_active(&users, &b"2".to_vec(), false));
    assert!(not_active(&users, &b"1".to_vec(), true));
    assert!(!not_active(&users, &b"1".to_vec(), false));
}

#[test]
fn failures_map_to_their_statuses() {
    let bad = Http::from(General::HeaderNotFound("x-signature-ed25519".to_string()));
    assert_eq!(bad.status, Status::BadRequest);
    assert_eq!(bad.status.code(), 400);
    let unauthorized = Http::from(General::VerificationFailed(
        gratitude::verification::Error::InvalidSignature,
    ));
    assert_eq!(unauthorized.status, Status::Unauthorized);
    assert_eq!(unauthorized.status.code(), 401);
    let internal = Http::from(General::Upstream("store unreachable".to_string()));
    assert_eq!(internal.status, Status::InternalServerError);
    assert_eq!(internal.status.code(), 500);
    let malformed = Http::from(General::JsonFailed);
    assert_eq!(malformed.status, Status::BadRequest);
}
