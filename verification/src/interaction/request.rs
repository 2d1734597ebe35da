//! Inbound Discord interaction payload models.
use vstd::prelude::*;

verus! {

/// Lets verified code carry arbitrary JSON command data as an opaque value.
#[verifier::external_type_specification]
#[verifier::external_body]
pub struct ExJsonValue(serde_json::Value);

/// Identifies the kind of Discord interaction received by the webhook.
#[derive(Debug, Clone, Copy, PartialEq, Eq, Structural)]
pub enum InteractionKind {
    /// Initial verification request sent by Discord.
    Ping,
    /// Invocation of an application command.
    ApplicationCommand,
    /// Request for command-option autocomplete choices.
    ApplicationCommandAutocomplete,
    /// An interaction type not yet modeled by this library.
    Unknown,
}

/// The interaction kind that Discord's numeric interaction `type` code denotes: codes that
/// are not modeled denote `Unknown` rather than being rejected.
pub open spec fn interaction_kind_for_code(code: u8) -> InteractionKind {
    if code == 1 {
        InteractionKind::Ping
    } else if code == 2 {
        InteractionKind::ApplicationCommand
    } else if code == 4 {
        InteractionKind::ApplicationCommandAutocomplete
    } else {
        InteractionKind::Unknown
    }
}

impl InteractionKind {
    /// Decodes Discord's numeric interaction `type` code; codes that are not modeled decode
    /// to `Unknown`, so a valid request envelope is never rejected for its kind.
    pub fn from_code(code: u8) -> (kind: InteractionKind)
        ensures
            kind == interaction_kind_for_code(code),
    {
        if code == 1 {
            InteractionKind::Ping
        } else if code == 2 {
            InteractionKind::ApplicationCommand
        } else if code == 4 {
            InteractionKind::ApplicationCommandAutocomplete
        } else {
            InteractionKind::Unknown
        }
    }
}

/// Each modeled kind is decoded from exactly one code: `Ping` exactly from 1,
/// `ApplicationCommand` exactly from 2, `ApplicationCommandAutocomplete` exactly from 4, and
/// every other code decodes to `Unknown`.
pub proof fn lemma_interaction_kind_codes(code: u8)
    ensures
        (interaction_kind_for_code(code) == InteractionKind::Ping) <==> code == 1,
        (interaction_kind_for_code(code) == InteractionKind::ApplicationCommand) <==> code == 2,
        (interaction_kind_for_code(code) == InteractionKind::ApplicationCommandAutocomplete)
            <==> code == 4,
        (interaction_kind_for_code(code) == InteractionKind::Unknown) <==> (code != 1 && code
            != 2 && code != 4),
{
}

/// Represents a Discord interaction envelope with application-defined command data.
#[derive(Debug, Clone)]
pub struct Interaction<T = serde_json::Value> {
    /// Snowflake identifier for this interaction.
    pub id: Option<String>,
    /// Snowflake identifier for the Discord application receiving the interaction.
    pub application_id: Option<String>,
    /// One-time interaction token used to send follow-up interaction responses.
    pub token: Option<String>,
    /// Type of interaction supplied by Discord.
    pub kind: InteractionKind,
    /// Bot-specific payload for command-related interactions.
    pub data: Option<T>,
    /// ID of the guild in which the interaction occurred.
    pub guild_id: Option<String>,
    /// Invoking member details for guild interactions.
    pub member: Option<Member>,
}

/// Represents the member that invoked a guild interaction.
#[derive(Debug, Clone)]
pub struct Member {
    /// Guild permissions granted to the member as a decimal bitfield string.
    pub permissions: Option<String>,
    /// Discord user associated with the member.
    pub user: User,
}

/// Represents the invoking Discord user.
#[derive(Debug, Clone)]
pub struct User {
    /// Discord snowflake identifier for the user.
    pub id: String,
}

} // verus!
