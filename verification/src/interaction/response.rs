//! Outbound Discord interaction callback response models.
use vstd::prelude::*;

verus! {

/// The Discord message flag bit (bit 6) that limits a message's visibility to the invoking user.
pub const EPHEMERAL_MESSAGE_FLAG: u64 = 64;

/// Bit flags that control Discord interaction message behavior.
#[derive(Debug, Clone, Copy, PartialEq, Eq, Structural)]
pub struct MessageFlags {
    /// The raw flag bits.
    bits: u64,
}

impl MessageFlags {
    /// The raw flag bits of these flags.
    pub closed spec fn bits_view(&self) -> u64 {
        self.bits
    }

    /// The flag that limits a message's visibility to the invoking user.
    pub fn ephemeral() -> (flags: MessageFlags)
        ensures
            flags.bits_view() == EPHEMERAL_MESSAGE_FLAG,
    {
        MessageFlags { bits: EPHEMERAL_MESSAGE_FLAG }
    }

    /// Returns the raw flag bits, as Discord's `flags` field carries them.
    pub fn bits(&self) -> (bits: u64)
        ensures
            bits == self.bits_view(),
    {
        self.bits
    }
}

/// Discord component type of an action row.
pub const ACTION_ROW_COMPONENT_TYPE: u8 = 1;

/// Discord component type of a text input.
pub const TEXT_INPUT_COMPONENT_TYPE: u8 = 4;

/// Text-input style of a single-line field.
pub const SHORT_TEXT_INPUT_STYLE: u8 = 1;

/// The view of an optional string.
pub open spec fn optional_text(text: Option<String>) -> Option<Seq<char>> {
    match text {
        Some(s) => Some(s@),
        None => None,
    }
}

/// Identifies the callback protocol response sent to Discord.
#[derive(Debug, Copy, Clone, PartialEq, Eq, Structural)]
pub enum InteractionCallbackType {
    /// Acknowledges a Discord ping interaction.
    Pong,
    /// Creates an immediate interaction response message.
    ChannelMessageWithSource,
    /// Defers an ephemeral message while command work continues asynchronously.
    DeferredChannelMessageWithSource,
    /// Supplies choices for an autocomplete interaction.
    ApplicationCommandAutocompleteResult,
    /// Opens a modal for user input.
    Modal,
}

/// The numeric code by which Discord's callback protocol names each callback type.
pub open spec fn callback_type_code(kind: InteractionCallbackType) -> u8 {
    match kind {
        InteractionCallbackType::Pong => 1,
        InteractionCallbackType::ChannelMessageWithSource => 4,
        InteractionCallbackType::DeferredChannelMessageWithSource => 5,
        InteractionCallbackType::ApplicationCommandAutocompleteResult => 8,
        InteractionCallbackType::Modal => 9,
    }
}

/// The callback type that Discord's protocol names by `code`, if any.
pub open spec fn callback_type_for_code(code: u8) -> Option<InteractionCallbackType> {
    if code == 1 {
        Some(InteractionCallbackType::Pong)
    } else if code == 4 {
        Some(InteractionCallbackType::ChannelMessageWithSource)
    } else if code == 5 {
        Some(InteractionCallbackType::DeferredChannelMessageWithSource)
    } else if code == 8 {
        Some(InteractionCallbackType::ApplicationCommandAutocompleteResult)
    } else if code == 9 {
        Some(InteractionCallbackType::Modal)
    } else {
        None
    }
}

impl InteractionCallbackType {
    /// Returns the numeric code that Discord's callback protocol uses for this type.
    pub fn code(&self) -> (code: u8)
        ensures
            code == callback_type_code(*self),
    {
        match self {
            InteractionCallbackType::Pong => 1,
            InteractionCallbackType::ChannelMessageWithSource => 4,
            InteractionCallbackType::DeferredChannelMessageWithSource => 5,
            InteractionCallbackType::ApplicationCommandAutocompleteResult => 8,
            InteractionCallbackType::Modal => 9,
        }
    }

    /// Returns the callback type that Discord's protocol names by `code`, if any.
    pub fn from_code(code: u8) -> (kind: Option<InteractionCallbackType>)
        ensures
            kind == callback_type_for_code(code),
    {
        if code == 1 {
            Some(InteractionCallbackType::Pong)
        } else if code == 4 {
            Some(InteractionCallbackType::ChannelMessageWithSource)
        } else if code == 5 {
            Some(InteractionCallbackType::DeferredChannelMessageWithSource)
        } else if code == 8 {
            Some(InteractionCallbackType::ApplicationCommandAutocompleteResult)
        } else if code == 9 {
            Some(InteractionCallbackType::Modal)
        } else {
            None
        }
    }
}

/// Reading a callback type's code back gives the same callback type, and no two callback
/// types share a code.
pub proof fn lemma_callback_type_code_round_trip(kind: InteractionCallbackType)
    ensures
        callback_type_for_code(callback_type_code(kind)) == Some(kind),
{
}

/// Decoding is the exact inverse of encoding: a code decodes to a callback type only when that
/// type's code is the code, so every code that is no callback type's code decodes to nothing.
pub proof fn lemma_callback_type_decoding_inverts_encoding(code: u8)
    ensures
        callback_type_for_code(code) matches Some(kind) ==> callback_type_code(kind) == code,
        (forall|kind: InteractionCallbackType| #[trigger] callback_type_code(kind) != code)
            ==> callback_type_for_code(code) is None,
{
    if callback_type_for_code(code) is Some {
        let kind = callback_type_for_code(code)->0;
        assert(callback_type_code(kind) == code);
    } else {
        assert(callback_type_code(InteractionCallbackType::Pong) == 1);
    }
}

/// Represents one selectable autocomplete choice.
#[derive(Debug)]
pub struct ApplicationCommandOptionChoice {
    /// Human-readable text shown in Discord.
    pub name: String,
    /// Value submitted to the command when selected.
    pub value: String,
}

/// The abstract content of an autocomplete choice.
pub struct ChoiceView {
    /// Human-readable text shown in Discord.
    pub name: Seq<char>,
    /// Value submitted to the command when selected.
    pub value: Seq<char>,
}

impl View for ApplicationCommandOptionChoice {
    type V = ChoiceView;

    open spec fn view(&self) -> ChoiceView {
        ChoiceView { name: self.name@, value: self.value@ }
    }
}

/// A Discord modal text-input component.
#[derive(Debug)]
pub struct ModalTextInput {
    /// Discord component type for a text input.
    component_type: u8,
    /// Developer-defined field identifier included in modal submission data.
    custom_id: String,
    /// User-facing field label.
    label: String,
    /// Text-input style: one line (`1`) or multiple lines (`2`).
    style: u8,
    /// Whether Discord requires a response for this field.
    required: bool,
    /// Optional initial value shown in the field.
    value: Option<String>,
}

/// The abstract content of a modal text input.
pub struct TextInputView {
    /// Discord component type.
    pub component_type: u8,
    /// Developer-defined field identifier.
    pub custom_id: Seq<char>,
    /// User-facing field label.
    pub label: Seq<char>,
    /// Text-input style.
    pub style: u8,
    /// Whether Discord requires a response.
    pub required: bool,
    /// Optional initial value.
    pub value: Option<Seq<char>>,
}

impl View for ModalTextInput {
    type V = TextInputView;

    closed spec fn view(&self) -> TextInputView {
        TextInputView {
            component_type: self.component_type,
            custom_id: self.custom_id@,
            label: self.label@,
            style: self.style,
            required: self.required,
            value: optional_text(self.value),
        }
    }
}

/// A Discord action row that contains one modal text input.
#[derive(Debug)]
pub struct ModalActionRow {
    /// Discord component type for an action row.
    component_type: u8,
    /// Text input displayed in this row.
    components: Vec<ModalTextInput>,
}

/// The abstract content of an action row.
pub struct ActionRowView {
    /// Discord component type.
    pub component_type: u8,
    /// Text inputs displayed in this row.
    pub components: Seq<TextInputView>,
}

impl View for ModalActionRow {
    type V = ActionRowView;

    closed spec fn view(&self) -> ActionRowView {
        ActionRowView {
            component_type: self.component_type,
            components: self.components@.map_values(|input: ModalTextInput| input@),
        }
    }
}

/// The action row that Discord's modal format requires around one text input.
pub open spec fn single_input_row(input: TextInputView) -> ActionRowView {
    ActionRowView { component_type: ACTION_ROW_COMPONENT_TYPE, components: seq![input] }
}

impl ModalActionRow {
    /// Wraps one text input in the action row required by Discord's modal format.
    fn text_input(input: ModalTextInput) -> (row: Self)
        ensures
            row@ == single_input_row(input@),
    {
        let row = ModalActionRow { component_type: 1, components: vec![input] };
        assert(row.components@.map_values(|i: ModalTextInput| i@) =~= seq![input@]);
        row
    }
}

impl ModalActionRow {
    /// Returns the Discord component type of the row.
    pub fn component_type(&self) -> (component_type: u8)
        ensures
            component_type == self@.component_type,
    {
        self.component_type
    }

    /// Returns the text inputs displayed in the row.
    pub fn components(&self) -> (components: &Vec<ModalTextInput>)
        ensures
            components@.map_values(|input: ModalTextInput| input@) == self@.components,
    {
        &self.components
    }
}

impl ModalTextInput {
    /// Returns the Discord component type of the input.
    pub fn component_type(&self) -> (component_type: u8)
        ensures
            component_type == self@.component_type,
    {
        self.component_type
    }

    /// Returns the developer-defined field identifier.
    pub fn custom_id(&self) -> (custom_id: &str)
        ensures
            custom_id@ == self@.custom_id,
    {
        self.custom_id.as_str()
    }

    /// Returns the user-facing field label.
    pub fn label(&self) -> (label: &str)
        ensures
            label@ == self@.label,
    {
        self.label.as_str()
    }

    /// Returns the text-input style.
    pub fn style(&self) -> (style: u8)
        ensures
            style == self@.style,
    {
        self.style
    }

    /// Returns whether Discord requires a response for this field.
    pub fn required(&self) -> (required: bool)
        ensures
            required == self@.required,
    {
        self.required
    }

    /// Returns the optional initial value shown in the field.
    pub fn value(&self) -> (value: Option<&str>)
        ensures
            match value {
                Some(text) => self@.value == Some(text@),
                None => self@.value is None,
            },
    {
        match &self.value {
            Some(text) => Some(text.as_str()),
            None => None,
        }
    }
    /// Creates a required single-line text input.
    pub fn short(custom_id: &str, label: &str) -> (input: Self)
        ensures
            input@ == (TextInputView {
                component_type: TEXT_INPUT_COMPONENT_TYPE,
                custom_id: custom_id@,
                label: label@,
                style: SHORT_TEXT_INPUT_STYLE,
                required: true,
                value: None,
            }),
    {
        ModalTextInput {
            component_type: 4,
            custom_id: String::from_str(custom_id),
            label: String::from_str(label),
            style: 1,
            required: true,
            value: None,
        }
    }
}

/// Contains message or autocomplete data in an interaction response.
#[derive(Debug)]
pub struct InteractionCallbackData {
    /// Message text displayed to the invoking user.
    pub content: Option<String>,
    /// Discord message flags, such as ephemeral visibility.
    pub flags: Option<u64>,
    /// Choices returned for an autocomplete interaction.
    pub choices: Option<Vec<ApplicationCommandOptionChoice>>,
    /// Developer-defined identifier returned when the modal is submitted.
    pub custom_id: Option<String>,
    /// User-facing modal title.
    pub title: Option<String>,
    /// Input fields displayed in a modal response.
    pub components: Option<Vec<ModalActionRow>>,
}

/// The abstract content of callback data.
pub struct CallbackDataView {
    /// Message text.
    pub content: Option<Seq<char>>,
    /// Message flags.
    pub flags: Option<u64>,
    /// Autocomplete choices.
    pub choices: Option<Seq<ChoiceView>>,
    /// Modal identifier.
    pub custom_id: Option<Seq<char>>,
    /// Modal title.
    pub title: Option<Seq<char>>,
    /// Modal rows.
    pub components: Option<Seq<ActionRowView>>,
}

impl View for InteractionCallbackData {
    type V = CallbackDataView;

    open spec fn view(&self) -> CallbackDataView {
        CallbackDataView {
            content: optional_text(self.content),
            flags: self.flags,
            choices: match self.choices {
                Some(choices) => Some(
                    choices@.map_values(|choice: ApplicationCommandOptionChoice| choice@),
                ),
                None => None,
            },
            custom_id: optional_text(self.custom_id),
            title: optional_text(self.title),
            components: match self.components {
                Some(rows) => Some(rows@.map_values(|row: ModalActionRow| row@)),
                None => None,
            },
        }
    }
}

/// Represents a response to a Discord interaction webhook.
#[derive(Debug)]
pub struct InteractionResponse {
    /// Callback type that controls Discord's response handling.
    pub kind: InteractionCallbackType,
    /// Optional callback payload.
    pub data: Option<InteractionCallbackData>,
}

/// The abstract content of an interaction response.
pub struct ResponseView {
    /// Callback type.
    pub kind: InteractionCallbackType,
    /// Callback payload.
    pub data: Option<CallbackDataView>,
}

impl View for InteractionResponse {
    type V = ResponseView;

    open spec fn view(&self) -> ResponseView {
        ResponseView {
            kind: self.kind,
            data: match self.data {
                Some(data) => Some(data@),
                None => None,
            },
        }
    }
}

/// Callback data that carries nothing but the given message text and flags.
pub open spec fn message_data(content: Option<Seq<char>>, flags: Option<u64>) -> CallbackDataView {
    CallbackDataView {
        content,
        flags,
        choices: None,
        custom_id: None,
        title: None,
        components: None,
    }
}

impl InteractionResponse {
    /// Builds a response that acknowledges a Discord ping.
    pub fn pong() -> (response: Self)
        ensures
            response@ == (ResponseView { kind: InteractionCallbackType::Pong, data: None }),
    {
        InteractionResponse { kind: InteractionCallbackType::Pong, data: None }
    }

    /// Builds an ephemeral message response visible only to the invoking user.
    ///
    /// `content` is the text displayed in the response message.
    pub fn ephemeral(content: &str) -> (response: Self)
        ensures
            response@ == (ResponseView {
                kind: InteractionCallbackType::ChannelMessageWithSource,
                data: Some(message_data(Some(content@), Some(EPHEMERAL_MESSAGE_FLAG))),
            }),
    {
        InteractionResponse {
            kind: InteractionCallbackType::ChannelMessageWithSource,
            data: Some(
                InteractionCallbackData {
                    content: Some(String::from_str(content)),
                    flags: Some(MessageFlags::ephemeral().bits()),
                    choices: None,
                    custom_id: None,
                    title: None,
                    components: None,
                },
            ),
        }
    }

    /// Builds an ephemeral acknowledgement for a command that will respond later.
    pub fn deferred_ephemeral() -> (response: Self)
        ensures
            response@ == (ResponseView {
                kind: InteractionCallbackType::DeferredChannelMessageWithSource,
                data: Some(message_data(None, Some(EPHEMERAL_MESSAGE_FLAG))),
            }),
    {
        InteractionResponse {
            kind: InteractionCallbackType::DeferredChannelMessageWithSource,
            data: Some(
                InteractionCallbackData {
                    content: None,
                    flags: Some(MessageFlags::ephemeral().bits()),
                    choices: None,
                    custom_id: None,
                    title: None,
                    components: None,
                },
            ),
        }
    }

    /// Builds an autocomplete response containing the supplied choices, in order.
    pub fn autocomplete(choices: Vec<ApplicationCommandOptionChoice>) -> (response: Self)
        ensures
            response@ == (ResponseView {
                kind: InteractionCallbackType::ApplicationCommandAutocompleteResult,
                data: Some(
                    CallbackDataView {
                        content: None,
                        flags: None,
                        choices: Some(
                            choices@.map_values(|choice: ApplicationCommandOptionChoice| choice@),
                        ),
                        custom_id: None,
                        title: None,
                        components: None,
                    },
                ),
            }),
    {
        InteractionResponse {
            kind: InteractionCallbackType::ApplicationCommandAutocompleteResult,
            data: Some(
                InteractionCallbackData {
                    content: None,
                    flags: None,
                    choices: Some(choices),
                    custom_id: None,
                    title: None,
                    components: None,
                },
            ),
        }
    }

    /// Builds a modal containing the supplied text-input fields, each in its own action row
    /// and in the order given.
    ///
    /// `custom_id` is returned in the modal submission interaction, `title` is shown to the
    /// user, and `components` are the text inputs Discord displays.
    pub fn modal(custom_id: &str, title: &str, components: Vec<ModalTextInput>) -> (response:
        Self)
        ensures
            response@ == (ResponseView {
                kind: InteractionCallbackType::Modal,
                data: Some(
                    CallbackDataView {
                        content: None,
                        flags: None,
                        choices: None,
                        custom_id: Some(custom_id@),
                        title: Some(title@),
                        components: Some(
                            components@.map_values(
                                |input: ModalTextInput| single_input_row(input@),
                            ),
                        ),
                    },
                ),
            }),
    {
        let mut rows: Vec<ModalActionRow> = Vec::new();
        for input in iter: components
            invariant
                rows@.len() == iter.index(),
                iter.seq() == components@,
                forall|j: int|
                    0 <= j < iter.index() ==> (#[trigger] rows@[j])@ == single_input_row(
                        components@[j]@,
                    ),
        {
            rows.push(ModalActionRow::text_input(input));
        }
        let response = InteractionResponse {
            kind: InteractionCallbackType::Modal,
            data: Some(
                InteractionCallbackData {
                    content: None,
                    flags: None,
                    choices: None,
                    custom_id: Some(String::from_str(custom_id)),
                    title: Some(String::from_str(title)),
                    components: Some(rows),
                },
            ),
        };
        assert(rows@.map_values(|row: ModalActionRow| row@) =~= components@.map_values(
            |input: ModalTextInput| single_input_row(input@),
        ));
        response
    }
}

} // verus!
