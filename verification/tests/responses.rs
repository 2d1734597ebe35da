use athenaeum::interaction::response::{MessageFlags, ModalTextInput, EPHEMERAL_MESSAGE_FLAG};
use athenaeum::interaction::{
    ApplicationCommandOptionChoice, InteractionCallbackType, InteractionKind, InteractionResponse,
};

#[test]
fn builds_a_pong() {
    let response = InteractionResponse::pong();

    assert_eq!(response.kind, InteractionCallbackType::Pong);
    assert_eq!(response.kind.code(), 1);
    assert!(response.data.is_none());
}

#[test]
fn builds_an_ephemeral_message() {
    let response = InteractionResponse::ephemeral("Saved");
    let data = response.data.expect("message data");

    assert_eq!(response.kind.code(), 4);
    assert_eq!(data.content.as_deref(), Some("Saved"));
    assert_eq!(data.flags, Some(64));
    assert!(data.choices.is_none());
    assert!(data.custom_id.is_none());
    assert!(data.title.is_none());
    assert!(data.components.is_none());
}

#[test]
fn builds_an_ephemeral_deferral() {
    let response = InteractionResponse::deferred_ephemeral();
    let data = response.data.expect("deferral data");

    assert_eq!(response.kind.code(), 5);
    assert!(data.content.is_none());
    assert_eq!(data.flags, Some(EPHEMERAL_MESSAGE_FLAG));
}

#[test]
fn builds_autocomplete_choices() {
    let response = InteractionResponse::autocomplete(vec![
        ApplicationCommandOptionChoice { name: "Moderator".to_string(), value: "mod".to_string() },
        ApplicationCommandOptionChoice { name: "Admin".to_string(), value: "admin".to_string() },
    ]);
    let data = response.data.expect("autocomplete data");
    let choices = data.choices.expect("choices");

    assert_eq!(response.kind.code(), 8);
    assert!(data.flags.is_none());
    assert_eq!(choices.len(), 2);
    assert_eq!(choices[0].name, "Moderator");
    assert_eq!(choices[0].value, "mod");
    assert_eq!(choices[1].name, "Admin");
}

#[test]
fn builds_a_modal() {
    let response = InteractionResponse::modal(
        "countdown-details",
        "Countdown details",
        vec![
            ModalTextInput::short("event-name", "Event name"),
            ModalTextInput::short("event-date", "Event date"),
        ],
    );
    let data = response.data.expect("modal data");
    let rows = data.components.expect("modal rows");

    assert_eq!(response.kind.code(), 9);
    assert_eq!(data.custom_id.as_deref(), Some("countdown-details"));
    assert_eq!(data.title.as_deref(), Some("Countdown details"));
    assert_eq!(rows.len(), 2);
    assert_eq!(rows[0].component_type(), 1);
    assert_eq!(rows[0].components().len(), 1);
    assert_eq!(rows[0].components()[0].custom_id(), "event-name");
    assert_eq!(rows[1].components()[0].label(), "Event date");
}

#[test]
fn builds_a_short_text_input() {
    let input = ModalTextInput::short("event-name", "Event name");

    assert_eq!(input.component_type(), 4);
    assert_eq!(input.custom_id(), "event-name");
    assert_eq!(input.label(), "Event name");
    assert_eq!(input.style(), 1);
    assert!(input.required());
    assert!(input.value().is_none());
}

#[test]
fn callback_codes_round_trip() {
    for kind in [
        InteractionCallbackType::Pong,
        InteractionCallbackType::ChannelMessageWithSource,
        InteractionCallbackType::DeferredChannelMessageWithSource,
        InteractionCallbackType::ApplicationCommandAutocompleteResult,
        InteractionCallbackType::Modal,
    ] {
        assert_eq!(InteractionCallbackType::from_code(kind.code()), Some(kind));
    }
    assert_eq!(InteractionCallbackType::from_code(2), None);
}

#[test]
fn decodes_interaction_kinds() {
    assert_eq!(InteractionKind::from_code(1), InteractionKind::Ping);
    assert_eq!(InteractionKind::from_code(2), InteractionKind::ApplicationCommand);
    assert_eq!(InteractionKind::from_code(4), InteractionKind::ApplicationCommandAutocomplete);
    assert_eq!(InteractionKind::from_code(99), InteractionKind::Unknown);
    assert_eq!(InteractionKind::from_code(3), InteractionKind::Unknown);
}

#[test]
fn ephemeral_flag_is_bit_six() {
    assert_eq!(MessageFlags::ephemeral().bits(), 1 << 6);
    assert_eq!(MessageFlags::ephemeral().bits(), EPHEMERAL_MESSAGE_FLAG);
}

#[test]
fn serializes_ephemeral_message() {
    let response = InteractionResponse::ephemeral("Saved");
    let data = response.data.expect("message data");

    assert_eq!(response.kind.code(), 4);
    assert_eq!(data.content.as_deref(), Some("Saved"));
    assert_eq!(data.flags, Some(64));
    assert!(data.choices.is_none());
    assert!(data.custom_id.is_none());
    assert!(data.title.is_none());
    assert!(data.components.is_none());
}

#[test]
fn serializes_ephemeral_deferral() {
    let response = InteractionResponse::deferred_ephemeral();
    let data = response.data.expect("deferral data");

    assert_eq!(response.kind.code(), 5);
    assert_eq!(data.flags, Some(64));
    assert!(data.content.is_none());
    assert!(data.choices.is_none());
    assert!(data.custom_id.is_none());
    assert!(data.title.is_none());
    assert!(data.components.is_none());
}

#[test]
fn serializes_autocomplete_choices() {
    let response = InteractionResponse::autocomplete(vec![ApplicationCommandOptionChoice {
        name: "Moderator".to_string(),
        value: "Moderator".to_string(),
    }]);
    let data = response.data.expect("autocomplete data");
    let choices = data.choices.expect("choices");

    assert_eq!(response.kind.code(), 8);
    assert_eq!(choices.len(), 1);
    assert_eq!(choices[0].name, "Moderator");
    assert_eq!(choices[0].value, "Moderator");
    assert!(data.content.is_none());
    assert!(data.flags.is_none());
    assert!(data.custom_id.is_none());
    assert!(data.title.is_none());
    assert!(data.components.is_none());
}

#[test]
fn serializes_modal_response() {
    let response = InteractionResponse::modal(
        "countdown-details",
        "Countdown details",
        vec![ModalTextInput::short("event-name", "Event name")],
    );
    let data = response.data.expect("modal data");
    let rows = data.components.expect("modal rows");

    assert_eq!(response.kind.code(), 9);
    assert_eq!(data.custom_id.as_deref(), Some("countdown-details"));
    assert_eq!(data.title.as_deref(), Some("Countdown details"));
    assert!(data.content.is_none());
    assert!(data.flags.is_none());
    assert!(data.choices.is_none());
    assert_eq!(rows.len(), 1);
    assert_eq!(rows[0].component_type(), 1);
    assert_eq!(rows[0].components().len(), 1);
    let input = &rows[0].components()[0];
    assert_eq!(input.component_type(), 4);
    assert_eq!(input.custom_id(), "event-name");
    assert_eq!(input.label(), "Event name");
    assert_eq!(input.style(), 1);
    assert!(input.required());
    assert!(input.value().is_none());
}
