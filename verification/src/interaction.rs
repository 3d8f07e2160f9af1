//! Inbound interactions: their shapes, their routing, and the responses
//! this service sends back.
//!
//! Every branch over an interaction's declared kind is exhaustive; a kind
//! this service does not know is a protocol violation and is answered with
//! an error, never silently ignored.

use vstd::prelude::*;

pub mod data_types;
pub mod command_handler;

pub use data_types::{
    ActionRow, ActionRowType, ApplicationCommandData, Button, ButtonInteraction, Channel,
    ChannelType, CommandInteraction, ComponentIdData, CustomId, Interaction,
    InteractionComponentType, InteractionResponse, InteractionResponseType, InteractionType,
    Invoker, Member, Message, ModalComponentType, ModalId, ModalResponse, ModalSubmitData,
    NoComponent, NoComponentMessage, NoMessage, NoResponseData, OptionData, OptionValue,
    PingData, PingInteraction, SimpleMessageResponse, SingleButtonActionRow, SingleButtonMessage,
    SingleComponentInteraction, SingleComponentMessage, SingleComponentModalInteraction,
    SingleComponentModalSubmit, SingleTextInputActionRow, SingleTextInputModalData,
    SingleTextInputModalResponse, SingleTextModalButtonInteraction,
    SingleTextModalComponentInteraction, TextInput, TextInputId, TextInputSubmit, User,
};

use crate::error::General;

verus! {

/// What a plain outbound message holds: no ids, the given text, the given
/// flags, no components.
pub open spec fn spec_plain_message(m: NoComponentMessage, text: Seq<char>, flags: Option<u16>) -> bool {
    &&& m.id is None
    &&& m.channel_id is None
    &&& m.content matches Some(c) && c@ == text
    &&& m.flags == flags
    &&& m.components is None
}

/// The flag marking a message as visible to its recipient alone.
pub const EPHEMERAL: u16 = 64;

/// Classify an inbound interaction's declared kind code. The branch is
/// exhaustive: a code this service does not know is a protocol violation,
/// answered as an invalid payload, never a silent no-op.
pub fn classify_kind(code: u8) -> (r: Result<InteractionType, General>)
    ensures
        code == 1 ==> r == Ok::<InteractionType, General>(InteractionType::Ping),
        code == 2 ==> r == Ok::<InteractionType, General>(InteractionType::ApplicationCommand),
        code == 3 ==> r == Ok::<InteractionType, General>(InteractionType::MessageComponent),
        code == 5 ==> r == Ok::<InteractionType, General>(InteractionType::ModalSubmit),
        (code != 1 && code != 2 && code != 3 && code != 5) ==> (r matches Err(
            General::InvalidPayload(_),
        )),
{
    match code {
        1 => Ok(InteractionType::Ping),
        2 => Ok(InteractionType::ApplicationCommand),
        3 => Ok(InteractionType::MessageComponent),
        5 => Ok(InteractionType::ModalSubmit),
        _ => Err(General::InvalidPayload(String::from_str("unrecognized interaction type"))),
    }
}

impl PingInteraction {
    /// Answer a liveness check: the fixed acknowledgement, no side effect.
    pub fn handle(&self) -> (r: InteractionResponse<NoResponseData>)
        ensures
            r.kind == InteractionResponseType::Pong,
            r.data is None,
    {
        InteractionResponse { kind: InteractionResponseType::Pong, data: None }
    }
}

impl<D, M> Interaction<D, M> {
    /// The invoking user's id, and the direct-message channel id where the
    /// interaction already carries one: a guild invocation carries none,
    /// and the caller must have a channel created before messaging.
    pub fn ids(&self) -> (r: (String, String))
        ensures
            match self.invoker {
                Invoker::Direct { user, dm_channel_id } => r.0@ == user.id@ && r.1@
                    == dm_channel_id@,
                Invoker::Guild { user, .. } => r.0@ == user.id@ && r.1@.len() == 0,
            },
    {
        match &self.invoker {
            Invoker::Direct { user, dm_channel_id } => (user.id.clone(), dm_channel_id.clone()),
            Invoker::Guild { user, .. } => (user.id.clone(), String::new()),
        }
    }
}

impl CommandInteraction {
    /// The text argument of the journal-entry command: the first option's
    /// text value, or nothing where the payload carries no such option —
    /// a form-shape violation the caller answers as a protocol error.
    pub fn entry(&self) -> (r: Option<String>)
        ensures
            match self.data.options {
                Some(opts) => if opts.len() > 0 {
                    match opts[0].value {
                        Some(OptionValue::Text(s)) => r matches Some(v) && v@ == s@,
                        _ => r is None,
                    }
                } else {
                    r is None
                },
                None => r is None,
            },
    {
        match &self.data.options {
            Some(opts) => {
                if opts.len() > 0 {
                    match &opts[0].value {
                        Some(OptionValue::Text(s)) => Some(s.clone()),
                        _ => None,
                    }
                } else {
                    None
                }
            },
            None => None,
        }
    }
}

impl ButtonInteraction {
    /// Answer an activation of the journal-entry button: present the
    /// journal-entry form, titled after the invoking user.
    pub fn handle_grateful(&self) -> (r: SingleTextInputModalResponse)
        ensures
            r.kind == InteractionResponseType::Modal,
            r.data.custom_id == ModalId::GratefulModal,
            r.data.title@ == self.invoker.spec_user().username@ + "'s Gratitude Journal"@,
    {
        let name = match &self.invoker {
            Invoker::Direct { user, .. } => user.username.clone(),
            Invoker::Guild { user, .. } => user.username.clone(),
        };
        InteractionResponse {
            kind: InteractionResponseType::Modal,
            data: SingleTextInputModalData::with_name(name),
        }
    }
}

impl SingleTextModalButtonInteraction {
    /// The text the submitted journal-entry form carries.
    pub fn entry(&self) -> (r: String)
        ensures
            r@ == self.data.components.components.value@,
    {
        self.data.components.components.value.clone()
    }

    /// Mark the button of the originating message disabled, so a second
    /// submission from the same message is not offered; everything else
    /// about the interaction stays as it was.
    pub fn disable_button(&mut self)
        ensures
            final(self).message.components.components.disabled == Some(true),
            final(self).message.components.components.label
                == old(self).message.components.components.label,
            final(self).message.components.components.custom_id
                == old(self).message.components.components.custom_id,
            final(self).message.components.components.style
                == old(self).message.components.components.style,
            final(self).message.components.components.kind
                == old(self).message.components.components.kind,
            final(self).message.id == old(self).message.id,
            final(self).message.channel_id == old(self).message.channel_id,
            final(self).message.content == old(self).message.content,
            final(self).message.flags == old(self).message.flags,
            final(self).message.components.kind == old(self).message.components.kind,
            final(self).data == old(self).data,
            final(self).kind == old(self).kind,
            final(self).token == old(self).token,
            final(self).guild_id == old(self).guild_id,
            final(self).channel_id == old(self).channel_id,
            final(self).invoker == old(self).invoker,
    {
        self.message.components.components.disabled = Some(true);
    }

    /// The message confirming what was just added to the journal.
    pub fn confirmation(&self) -> (r: SimpleMessageResponse)
        ensures
            r.kind == InteractionResponseType::ChannelMessageWithSource,
            spec_plain_message(
                r.data,
                "**You added the following entry:**\n"@
                    + self.data.components.components.value@,
                None,
            ),
    {
        let mut content = String::from_str("**You added the following entry:**\n");
        content.append(self.data.components.components.value.as_str());
        InteractionResponse {
            kind: InteractionResponseType::ChannelMessageWithSource,
            data: Message {
                id: None,
                channel_id: None,
                content: Some(content),
                flags: None,
                components: None,
            },
        }
    }
}

impl SimpleMessageResponse {
    /// A placeholder answer for a command that exists but does nothing yet.
    pub fn not_implemented() -> (r: Self)
        ensures
            r.kind == InteractionResponseType::ChannelMessageWithSource,
            spec_plain_message(
                r.data,
                "This command is not yet implemented! Coming soon!"@,
                Some(EPHEMERAL),
            ),
    {
        InteractionResponse {
            kind: InteractionResponseType::ChannelMessageWithSource,
            data: NoComponentMessage::not_implemented(),
        }
    }

    /// The help answer.
    pub fn help() -> (r: Self)
        ensures
            r.kind == InteractionResponseType::ChannelMessageWithSource,
            r.data.content matches Some(c) && c@ == spec_help_text(),
            r.data.flags == Some(EPHEMERAL),
    {
        InteractionResponse {
            kind: InteractionResponseType::ChannelMessageWithSource,
            data: NoComponentMessage::help(),
        }
    }

    /// The answer when a command took effect.
    pub fn success() -> (r: Self)
        ensures
            r.kind == InteractionResponseType::ChannelMessageWithSource,
            spec_plain_message(r.data, spec_success_text(), Some(EPHEMERAL)),
    {
        InteractionResponse {
            kind: InteractionResponseType::ChannelMessageWithSource,
            data: NoComponentMessage::success(),
        }
    }

    /// The answer when a command did not take effect.
    pub fn error() -> (r: Self)
        ensures
            r.kind == InteractionResponseType::ChannelMessageWithSource,
            spec_plain_message(r.data, spec_error_text(), Some(EPHEMERAL)),
    {
        InteractionResponse {
            kind: InteractionResponseType::ChannelMessageWithSource,
            data: NoComponentMessage::error(),
        }
    }

    /// The answer when the invoker cannot be messaged directly.
    pub fn dms_closed() -> (r: Self)
        ensures
            r.kind == InteractionResponseType::ChannelMessageWithSource,
            spec_plain_message(r.data, spec_dms_closed_text(), Some(EPHEMERAL)),
    {
        InteractionResponse {
            kind: InteractionResponseType::ChannelMessageWithSource,
            data: NoComponentMessage::dms_closed(),
        }
    }

    /// The answer when an enrollment finds the invoker already enrolled.
    pub fn already_active() -> (r: Self)
        ensures
            r.kind == InteractionResponseType::ChannelMessageWithSource,
            spec_plain_message(r.data, spec_already_active_text(), Some(EPHEMERAL)),
    {
        InteractionResponse {
            kind: InteractionResponseType::ChannelMessageWithSource,
            data: NoComponentMessage::already_active(),
        }
    }

    /// The answer when an unenrollment finds the invoker not enrolled.
    pub fn not_active() -> (r: Self)
        ensures
            r.kind == InteractionResponseType::ChannelMessageWithSource,
            spec_plain_message(r.data, spec_not_active_text(), Some(EPHEMERAL)),
    {
        InteractionResponse {
            kind: InteractionResponseType::ChannelMessageWithSource,
            data: NoComponentMessage::not_active(),
        }
    }
}

/// The help answer's text.
pub open spec fn spec_help_text() -> Seq<char> {
    "__**Welcome to Gratitude Bot!**__\n*This bot makes you focus on the positive things in life!*\n\nIt does this by randomly, once every few days on average, nudging you to add an entry to the gratitude journal it keeps for you, while reminding you of things you said you were grateful for in the past. Anything goes here: The smallest thing that made you smile today, or that big event that changed your life last month. Over time, your brain will change to be more aware of the nice things in life, help you appreciate what you have right now!\n\nYou can use **/start** to sign up for those reminders, **/stop** to stop receiving them, and **/entry** to add something to the journal at any point!\n\n*The bot is open source, and you can view (and copy!) the code right here: <https://github.com/Fittiboy/gratitude>!*"@
}

/// The success answer's text.
pub open spec fn spec_success_text() -> Seq<char> {
    "**It looks like that worked! 🥳** If it didn't do what you expected, contact Fitti#6969"@
}

/// The failure answer's text.
pub open spec fn spec_error_text() -> Seq<char> {
    "Oh no! It looks like something went wrong!\nAsk Fitti#6969 for help!"@
}

/// The closed-direct-messages answer's text.
pub open spec fn spec_dms_closed_text() -> Seq<char> {
    "It looks like the bot can't DM you! Check your privacy settings: https://support.discord.com/hc/en-us/articles/217916488-Blocking-Privacy-Settings"@
}

/// The already-enrolled answer's text.
pub open spec fn spec_already_active_text() -> Seq<char> {
    "Looks like you're already an active user! The bot will randomly send you reminders every few days.\nUse the **/stop** command to stop receiving those reminders! Remember that you can use **/entry** to add something to your journal at any time!"@
}

/// The not-enrolled answer's text.
pub open spec fn spec_not_active_text() -> Seq<char> {
    "Looks like you're not an active user! The bot will not send you reminders.\nUse the **/start** command to start receiving those reminders! Remember that you can always use **/entry** to add something to your journal!"@
}

/// The farewell text sent on unenrollment.
pub open spec fn spec_goodbye_text() -> Seq<char> {
    "**You will no longer receive reminders! See you around! 😊**\nRememeber that you can still use **/entry** to make entries, and **/start** to receive these reminders again!"@
}

/// The welcome text sent on enrollment.
pub open spec fn spec_welcome_text() -> Seq<char> {
    "**Hi there! Thank you for deciding to use Gratitude Bot! 🥳**\nThe bot will send you reminders, every few days or so, to think about someting you are grateful for, and ask you to add it to your journal! You can use /stop at any time to stop these reminders\n\n👇 Click the button below to make an entry into your journal right now!"@
}

impl NoComponentMessage {
    /// The confirmation of a freshly added journal entry.
    pub fn from_entry(entry: &str) -> (r: Self)
        ensures
            spec_plain_message(
                r,
                "__**You added the following entry:**__\n"@ + entry@,
                None,
            ),
    {
        let mut content = String::from_str("__**You added the following entry:**__\n");
        content.append(entry);
        Message { id: None, channel_id: None, content: Some(content), flags: None, components: None }
    }

    /// A placeholder message for a command that does nothing yet.
    pub fn not_implemented() -> (r: Self)
        ensures
            spec_plain_message(
                r,
                "This command is not yet implemented! Coming soon!"@,
                Some(EPHEMERAL),
            ),
    {
        Message {
            id: None,
            channel_id: None,
            content: Some(String::from_str("This command is not yet implemented! Coming soon!")),
            flags: Some(EPHEMERAL),
            components: None,
        }
    }

    /// The farewell message sent on unenrollment.
    pub fn goodbye() -> (r: Self)
        ensures
            spec_plain_message(r, spec_goodbye_text(), None),
    {
        Message {
            id: None,
            channel_id: None,
            content: Some(
                String::from_str(
                    "**You will no longer receive reminders! See you around! 😊**\nRememeber that you can still use **/entry** to make entries, and **/start** to receive these reminders again!",
                ),
            ),
            flags: None,
            components: None,
        }
    }

    /// The help message.
    pub fn help() -> (r: Self)
        ensures
            spec_plain_message(r, spec_help_text(), Some(EPHEMERAL)),
    {
        Message {
            id: None,
            channel_id: None,
            content: Some(
                String::from_str(
                    "__**Welcome to Gratitude Bot!**__\n*This bot makes you focus on the positive things in life!*\n\nIt does this by randomly, once every few days on average, nudging you to add an entry to the gratitude journal it keeps for you, while reminding you of things you said you were grateful for in the past. Anything goes here: The smallest thing that made you smile today, or that big event that changed your life last month. Over time, your brain will change to be more aware of the nice things in life, help you appreciate what you have right now!\n\nYou can use **/start** to sign up for those reminders, **/stop** to stop receiving them, and **/entry** to add something to the journal at any point!\n\n*The bot is open source, and you can view (and copy!) the code right here: <https://github.com/Fittiboy/gratitude>!*",
                ),
            ),
            flags: Some(EPHEMERAL),
            components: None,
        }
    }

    /// The message confirming that a command took effect.
    pub fn success() -> (r: Self)
        ensures
            spec_plain_message(r, spec_success_text(), Some(EPHEMERAL)),
    {
        Message {
            id: None,
            channel_id: None,
            content: Some(
                String::from_str(
                    "**It looks like that worked! 🥳** If it didn't do what you expected, contact Fitti#6969",
                ),
            ),
            flags: Some(EPHEMERAL),
            components: None,
        }
    }

    /// The message reporting that a command did not take effect.
    pub fn error() -> (r: Self)
        ensures
            spec_plain_message(r, spec_error_text(), Some(EPHEMERAL)),
    {
        Message {
            id: None,
            channel_id: None,
            content: Some(
                String::from_str(
                    "Oh no! It looks like something went wrong!\nAsk Fitti#6969 for help!",
                ),
            ),
            flags: Some(EPHEMERAL),
            components: None,
        }
    }

    /// The message explaining that the invoker cannot be messaged.
    pub fn dms_closed() -> (r: Self)
        ensures
            spec_plain_message(r, spec_dms_closed_text(), Some(EPHEMERAL)),
    {
        Message {
            id: None,
            channel_id: None,
            content: Some(
                String::from_str(
                    "It looks like the bot can't DM you! Check your privacy settings: https://support.discord.com/hc/en-us/articles/217916488-Blocking-Privacy-Settings",
                ),
            ),
            flags: Some(EPHEMERAL),
            components: None,
        }
    }

    /// The message for an enrollment that finds the invoker enrolled.
    pub fn already_active() -> (r: Self)
        ensures
            spec_plain_message(r, spec_already_active_text(), Some(EPHEMERAL)),
    {
        Message {
            id: None,
            channel_id: None,
            content: Some(
                String::from_str(
                    "Looks like you're already an active user! The bot will randomly send you reminders every few days.\nUse the **/stop** command to stop receiving those reminders! Remember that you can use **/entry** to add something to your journal at any time!",
                ),
            ),
            flags: Some(EPHEMERAL),
            components: None,
        }
    }

    /// The message for an unenrollment that finds the invoker not enrolled.
    pub fn not_active() -> (r: Self)
        ensures
            spec_plain_message(r, spec_not_active_text(), Some(EPHEMERAL)),
    {
        Message {
            id: None,
            channel_id: None,
            content: Some(
                String::from_str(
                    "Looks like you're not an active user! The bot will not send you reminders.\nUse the **/start** command to start receiving those reminders! Remember that you can always use **/entry** to add something to your journal!",
                ),
            ),
            flags: Some(EPHEMERAL),
            components: None,
        }
    }
}

/// What the journal-entry button looks like.
pub open spec fn spec_entry_button(b: Button) -> bool {
    &&& b.kind == InteractionComponentType::Button
    &&& b.style == 3u8
    &&& b.label@ == "What are you grateful for today?"@
    &&& b.custom_id == CustomId::GratefulButton
    &&& b.disabled == Some(false)
}

impl Button {
    /// The journal-entry button offered under reminders and welcomes.
    pub fn entry() -> (r: Self)
        ensures
            spec_entry_button(r),
    {
        Button {
            kind: InteractionComponentType::Button,
            style: 3,
            label: String::from_str("What are you grateful for today?"),
            custom_id: CustomId::GratefulButton,
            disabled: Some(false),
        }
    }
}

impl SingleButtonActionRow {
    /// A row holding the journal-entry button.
    pub fn entry_button() -> (r: Self)
        ensures
            r.kind == ActionRowType::ActionRow,
            spec_entry_button(r.components),
    {
        ActionRow { kind: ActionRowType::ActionRow, components: Button::entry() }
    }
}

impl TextInput {
    /// The journal-entry form's one text field, as presented.
    pub fn new() -> (r: Self)
        ensures
            r.kind == ModalComponentType::TextInput,
            r.custom_id == TextInputId::GratefulInput,
            r.style == 2u8,
            r.label@ == "Express your gratitude for something!"@,
            r.min_length == 5u32,
            r.max_length == 1000u32,
            r.placeholder@
                == "Today, I am grateful for… (a nice meal, someone smiling at me, how I perfectly parked my car)"@,
    {
        TextInput {
            kind: ModalComponentType::TextInput,
            custom_id: TextInputId::GratefulInput,
            style: 2,
            label: String::from_str("Express your gratitude for something!"),
            min_length: 5,
            max_length: 1000,
            placeholder: String::from_str(
                "Today, I am grateful for… (a nice meal, someone smiling at me, how I perfectly parked my car)",
            ),
        }
    }
}

impl SingleTextInputActionRow {
    /// A row holding the journal-entry text field.
    pub fn with_text_entry() -> (r: Self)
        ensures
            r.kind == ActionRowType::ActionRow,
            r.components.custom_id == TextInputId::GratefulInput,
            r.components.min_length == 5u32,
            r.components.max_length == 1000u32,
    {
        ActionRow { kind: ActionRowType::ActionRow, components: TextInput::new() }
    }
}

impl SingleTextInputModalData {
    /// The journal-entry form, titled after its owner.
    pub fn with_name(name: String) -> (r: Self)
        ensures
            r.custom_id == ModalId::GratefulModal,
            r.title@ == name@ + "'s Gratitude Journal"@,
            r.components.kind == ActionRowType::ActionRow,
            r.components.components.custom_id == TextInputId::GratefulInput,
    {
        let mut title = name;
        title.append("'s Gratitude Journal");
        ModalResponse {
            custom_id: ModalId::GratefulModal,
            title,
            components: SingleTextInputActionRow::with_text_entry(),
        }
    }
}

impl SingleButtonMessage {
    /// The welcome sent on enrollment, the journal-entry button under it.
    pub fn welcome() -> (r: Self)
        ensures
            r.id is None,
            r.channel_id is None,
            r.content matches Some(c) && c@ == spec_welcome_text(),
            r.flags is None,
            r.components.kind == ActionRowType::ActionRow,
            spec_entry_button(r.components.components),
    {
        Message {
            id: None,
            channel_id: None,
            content: Some(
                String::from_str(
                    "**Hi there! Thank you for deciding to use Gratitude Bot! 🥳**\nThe bot will send you reminders, every few days or so, to think about someting you are grateful for, and ask you to add it to your journal! You can use /stop at any time to stop these reminders\n\n👇 Click the button below to make an entry into your journal right now!",
                ),
            ),
            flags: None,
            components: SingleButtonActionRow::entry_button(),
        }
    }

    /// A reminder prompt: a past entry where the journal has one, a plain
    /// greeting where it is empty, the journal-entry button under either.
    pub fn from_entry(journal_entry: Option<String>) -> (r: Self)
        ensures
            r.id is None,
            r.channel_id is None,
            match journal_entry {
                Some(text) => r.content matches Some(c) && c@
                    == "__**Here's something you said you were grateful for in the past:**__\n"@
                    + text@,
                None => r.content matches Some(c) && c@ == "Hope you're having a great day!"@,
            },
            r.flags is None,
            r.components.kind == ActionRowType::ActionRow,
            spec_entry_button(r.components.components),
    {
        let content = match journal_entry {
            Some(text) => {
                let mut c = String::from_str(
                    "__**Here's something you said you were grateful for in the past:**__\n",
                );
                c.append(text.as_str());
                c
            },
            None => String::from_str("Hope you're having a great day!"),
        };
        Message {
            id: None,
            channel_id: None,
            content: Some(content),
            flags: None,
            components: SingleButtonActionRow::entry_button(),
        }
    }
}

} // verus!
