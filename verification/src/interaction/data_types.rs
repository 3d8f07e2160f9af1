//! The shapes of inbound interactions and outbound responses.
//!
//! An interaction names its kind, carries kind-specific data, and names its
//! invoker. The invoker is a tagged union: either a user reached directly,
//! whose direct-message channel is known, or a guild member; exactly one of
//! the two, so no handler ever meets a half-present pair of optional
//! fields. The wire nests single components inside one-element rows; here a
//! row holds its single component directly, and only the serializing edge
//! speaks the nested shape.

use vstd::prelude::*;

use crate::commands::{CommandName, CommandType, OptionType};

verus! {

/// The declared kind of an inbound interaction.
#[derive(Debug, PartialEq, Eq, Structural, Clone, Copy)]
pub enum InteractionType {
    /// A liveness check.
    Ping,
    /// A named command invocation.
    ApplicationCommand,
    /// A UI element was activated.
    MessageComponent,
    /// A previously presented form was submitted.
    ModalSubmit,
}

impl InteractionType {
    /// The numeric wire code of this kind.
    pub fn code(&self) -> (r: u8)
        ensures
            r == match self {
                InteractionType::Ping => 1u8,
                InteractionType::ApplicationCommand => 2u8,
                InteractionType::MessageComponent => 3u8,
                InteractionType::ModalSubmit => 5u8,
            },
    {
        match self {
            InteractionType::Ping => 1,
            InteractionType::ApplicationCommand => 2,
            InteractionType::MessageComponent => 3,
            InteractionType::ModalSubmit => 5,
        }
    }
}

/// The payload of a liveness check: nothing.
#[derive(Debug, PartialEq, Eq, Structural, Clone, Copy)]
pub struct PingData;

/// The opaque id of an activatable UI element this service sends.
#[derive(Debug, PartialEq, Eq, Structural, Clone, Copy)]
pub enum CustomId {
    /// The journal-entry button under a reminder.
    GratefulButton,
}

/// The opaque id of a form this service presents.
#[derive(Debug, PartialEq, Eq, Structural, Clone, Copy)]
pub enum ModalId {
    /// The journal-entry form.
    GratefulModal,
}

/// The opaque id of the one text field of the journal-entry form.
#[derive(Debug, PartialEq, Eq, Structural, Clone, Copy)]
pub enum TextInputId {
    /// The journal-entry text field.
    GratefulInput,
}

/// The payload of a UI-element activation: which element.
#[derive(Debug, PartialEq, Eq, Structural, Clone, Copy)]
pub struct ComponentIdData {
    pub custom_id: CustomId,
}

/// The kind tag of a component row.
#[derive(Debug, PartialEq, Eq, Structural, Clone, Copy)]
pub enum ActionRowType {
    ActionRow,
}

/// The kind tag of an interactive message component.
#[derive(Debug, PartialEq, Eq, Structural, Clone, Copy)]
pub enum InteractionComponentType {
    Button,
}

/// The kind tag of a form component.
#[derive(Debug, PartialEq, Eq, Structural, Clone, Copy)]
pub enum ModalComponentType {
    TextInput,
}

/// A submitted form: which form, and its components as submitted.
#[derive(Debug)]
pub struct ModalSubmitData<C> {
    pub custom_id: ModalId,
    pub components: C,
}

/// One row of components; this side carries the row's single component
/// directly.
#[derive(Debug)]
pub struct ActionRow<C> {
    pub kind: ActionRowType,
    pub components: C,
}

/// A clickable button under a message.
#[derive(Debug)]
pub struct Button {
    pub kind: InteractionComponentType,
    pub style: u8,
    pub label: String,
    pub custom_id: CustomId,
    pub disabled: Option<bool>,
}

/// A text field of a form, as presented.
#[derive(Debug)]
pub struct TextInput {
    pub kind: ModalComponentType,
    pub custom_id: TextInputId,
    pub style: u8,
    pub label: String,
    pub min_length: u32,
    pub max_length: u32,
    pub placeholder: String,
}

/// A text field of a form, as submitted back.
#[derive(Debug)]
pub struct TextInputSubmit {
    pub kind: ModalComponentType,
    pub custom_id: TextInputId,
    pub value: String,
}

/// The typed value of one command argument.
#[derive(Debug)]
pub enum OptionValue {
    Text(String),
    Integer(u32),
    Bool(bool),
}

/// One argument of a command invocation.
#[derive(Debug)]
pub struct OptionData {
    pub name: String,
    pub kind: OptionType,
    pub value: Option<OptionValue>,
    pub options: Option<Vec<OptionData>>,
}

/// The payload of a command invocation.
#[derive(Debug)]
pub struct ApplicationCommandData {
    pub id: String,
    pub name: CommandName,
    pub kind: CommandType,
    pub options: Option<Vec<OptionData>>,
    pub guild_id: Option<String>,
    pub target_id: Option<String>,
}

/// The user behind an interaction.
#[derive(Debug)]
pub struct User {
    pub id: String,
    pub username: String,
    pub discriminator: String,
}

/// A guild member's details beyond the user themselves.
#[derive(Debug)]
pub struct Member {
    pub nick: Option<String>,
    pub avatar: Option<String>,
    pub roles: Vec<String>,
    pub joined_at: String,
    pub premium: Option<String>,
    pub deaf: bool,
    pub mute: bool,
    pub flags: u8,
    pub pending: Option<bool>,
    pub permissions: Option<String>,
    pub communication_disabled_until: Option<String>,
}

/// Who invoked an interaction: exactly one of a user reached directly,
/// whose direct-message channel id is at hand, or a member of a guild.
#[derive(Debug)]
pub enum Invoker {
    /// A user in a direct-message channel.
    Direct { user: User, dm_channel_id: String },
    /// A member of a guild; no direct channel is known yet.
    Guild { user: User, member: Member },
}

impl Invoker {
    /// The invoking user, whichever side of the union holds them.
    pub open spec fn spec_user(self) -> User {
        match self {
            Invoker::Direct { user, .. } => user,
            Invoker::Guild { user, .. } => user,
        }
    }
}

/// One inbound interaction: its kind, its kind-specific data, the message
/// it refers to where there is one, and its invoker.
#[derive(Debug)]
pub struct Interaction<D, M> {
    pub kind: InteractionType,
    pub data: D,
    pub token: String,
    pub guild_id: Option<String>,
    pub channel_id: Option<String>,
    pub message: M,
    pub invoker: Invoker,
}

/// The declared kind of an outbound response.
#[derive(Debug, PartialEq, Eq, Structural, Clone, Copy)]
pub enum InteractionResponseType {
    Pong,
    ChannelMessageWithSource,
    ACKWithSource,
    Modal,
}

impl InteractionResponseType {
    /// The numeric wire code of this kind.
    pub fn code(&self) -> (r: u8)
        ensures
            r == match self {
                InteractionResponseType::Pong => 1u8,
                InteractionResponseType::ChannelMessageWithSource => 4u8,
                InteractionResponseType::ACKWithSource => 5u8,
                InteractionResponseType::Modal => 9u8,
            },
    {
        match self {
            InteractionResponseType::Pong => 1,
            InteractionResponseType::ChannelMessageWithSource => 4,
            InteractionResponseType::ACKWithSource => 5,
            InteractionResponseType::Modal => 9,
        }
    }
}

/// One outbound response: its kind and its kind-specific data.
#[derive(Debug)]
pub struct InteractionResponse<D> {
    pub kind: InteractionResponseType,
    pub data: D,
}

/// A form to present: which form, its title, and its components.
#[derive(Debug)]
pub struct ModalResponse<C> {
    pub custom_id: ModalId,
    pub title: String,
    pub components: C,
}

/// An outbound chat message, optionally with interactive components.
#[derive(Debug)]
pub struct Message<C> {
    pub id: Option<String>,
    pub channel_id: Option<String>,
    pub content: Option<String>,
    pub flags: Option<u16>,
    pub components: C,
}

/// A channel, as the notification client reports one.
#[derive(Debug)]
pub struct Channel {
    pub id: String,
    pub kind: ChannelType,
    pub guild_id: Option<String>,
}

/// The kind of a channel.
#[derive(Debug, PartialEq, Eq, Structural, Clone, Copy)]
pub enum ChannelType {
    GuildText,
    Dm,
    GuildVoice,
    GroupDm,
    GuildCategory,
    GuildAnnouncement,
    AnnouncementThread,
    PublicThread,
    PrivateThread,
    GuildStageVoice,
    GuildDirectory,
    GuildForum,
}

/// The absence of components, a message, or response data.
pub type NoComponent = Option<()>;

/// See [`NoComponent`].
pub type NoMessage = Option<()>;

/// See [`NoComponent`].
pub type NoResponseData = Option<()>;

/// A liveness-check interaction.
pub type PingInteraction = Interaction<PingData, NoMessage>;

/// A command invocation.
pub type CommandInteraction = Interaction<ApplicationCommandData, NoMessage>;

/// A message whose single row holds one component of type `C`.
pub type SingleComponentMessage<C> = Message<ActionRow<C>>;

/// An activation of a single-component message's component.
pub type SingleComponentInteraction<C> = Interaction<ComponentIdData, SingleComponentMessage<C>>;

/// An activation of the journal-entry button.
pub type ButtonInteraction = SingleComponentInteraction<Button>;

/// A submission of a form whose single row holds one component of type `C`.
pub type SingleComponentModalSubmit<C> = ModalSubmitData<ActionRow<C>>;

/// A form submission referring back to a single-component message.
pub type SingleComponentModalInteraction<C, C2> = Interaction<
    SingleComponentModalSubmit<C>,
    SingleComponentMessage<C2>,
>;

/// A submission of a single-text-field form.
pub type SingleTextModalComponentInteraction<C> = SingleComponentModalInteraction<
    TextInputSubmit,
    C,
>;

/// A submission of the journal-entry form, referring back to the message
/// whose button opened it.
pub type SingleTextModalButtonInteraction = SingleTextModalComponentInteraction<Button>;

/// A message without components.
pub type NoComponentMessage = Message<NoComponent>;

/// A response carrying a plain chat message.
pub type SimpleMessageResponse = InteractionResponse<NoComponentMessage>;

/// A row holding one button.
pub type SingleButtonActionRow = ActionRow<Button>;

/// A row holding one text field.
pub type SingleTextInputActionRow = ActionRow<TextInput>;

/// The journal-entry form's data: one row with one text field.
pub type SingleTextInputModalData = ModalResponse<SingleTextInputActionRow>;

/// A response presenting the journal-entry form.
pub type SingleTextInputModalResponse = InteractionResponse<SingleTextInputModalData>;

/// A message carrying one button.
pub type SingleButtonMessage = Message<SingleButtonActionRow>;

} // verus!
