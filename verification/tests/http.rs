use athenaeum::http::discord::DISCORD_API_V10_BASE;
use athenaeum::http::{
    BotMethod, DiscordBotClient, InteractionResponder, ResponderError, DISCORD_API_BASE,
};
use athenaeum::interaction::{Interaction, InteractionKind, InteractionResponse};

#[test]
fn builds_authorized_relative_requests() {
    let client = DiscordBotClient::with_api_base_url(
        reqwest::Client::new(),
        "token",
        "https://discord.example/",
    );
    let request = client
        .to_request_builder(&client.get("/channels/123"))
        .into_reqwest()
        .build()
        .expect("request should build");

    assert_eq!(request.url().as_str(), "https://discord.example/channels/123");
    assert_eq!(request.headers()["authorization"], "Bot token");
}

#[test]
fn builds_all_supported_request_methods() {
    let client = DiscordBotClient::new(reqwest::Client::new(), "token");
    for request in [client.post("messages"), client.put("roles"), client.delete("roles")] {
        assert_eq!(
            client
                .to_request_builder(&request)
                .into_reqwest()
                .build()
                .expect("request should build")
                .headers()["authorization"],
            "Bot token"
        );
    }
}

#[test]
fn joins_request_paths_with_one_slash() {
    let client = DiscordBotClient::with_api_base_url(
        reqwest::Client::new(),
        "token",
        "https://discord.example///",
    );

    assert_eq!(client.request_url("channels/1"), "https://discord.example/channels/1");
    assert_eq!(client.request_url("//channels/1"), "https://discord.example/channels/1");
    assert_eq!(client.request_url(""), "https://discord.example/");
}

#[test]
fn targets_production_by_default() {
    let client = DiscordBotClient::new(reqwest::Client::new(), "abc");
    let request =
        client.to_request_builder(&client.put("/guilds/1")).into_reqwest().build().expect("build");

    assert_eq!(client.request_url("/x"), "https://discord.com/api/v10/x");
    assert_eq!(request.url().as_str(), "https://discord.com/api/v10/guilds/1");
    assert_eq!(request.method(), reqwest::Method::PUT);
    assert_eq!(DISCORD_API_V10_BASE, "https://discord.com/api/v10");
}

#[test]
fn creates_a_production_responder() {
    let responder = InteractionResponder::new(reqwest::Client::new());

    assert_eq!(responder.api_base_url(), DISCORD_API_BASE);
}

fn interaction() -> Interaction {
    Interaction {
        id: Some("interaction".to_string()),
        application_id: Some("application".to_string()),
        token: Some("token".to_string()),
        kind: InteractionKind::ApplicationCommand,
        data: None,
        guild_id: None,
        member: None,
    }
}

#[test]
fn plans_the_ephemeral_deferral() {
    let responder =
        InteractionResponder::with_api_base_url(reqwest::Client::new(), "http://127.0.0.1:9/");
    let planned = responder.deferral_request(&interaction()).expect("identifiers present");

    assert_eq!(planned.method, BotMethod::Post);
    assert_eq!(planned.url, "http://127.0.0.1:9/interactions/interaction/token/callback");
    assert_eq!(planned.body.kind.code(), 5);
    assert_eq!(planned.body.data.expect("deferral data").flags, Some(64));
}

#[test]
fn plans_the_original_response_update() {
    let responder =
        InteractionResponder::with_api_base_url(reqwest::Client::new(), "http://127.0.0.1:9");
    let response = InteractionResponse::ephemeral("Done");
    let planned = responder
        .update_original_request(&interaction(), &response)
        .expect("identifiers and data present");

    assert_eq!(planned.method, BotMethod::Patch);
    assert_eq!(planned.url, "http://127.0.0.1:9/webhooks/application/token/messages/@original");
    assert_eq!(planned.body.content.as_deref(), Some("Done"));
    assert_eq!(planned.body.flags, Some(64));
}

#[test]
fn reports_missing_identifiers_in_order() {
    let responder = InteractionResponder::new(reqwest::Client::new());
    let mut missing_id = interaction();
    missing_id.id = None;
    missing_id.token = None;
    let mut missing_token = interaction();
    missing_token.token = None;
    let mut missing_application = interaction();
    missing_application.application_id = None;
    missing_application.token = None;

    assert_eq!(
        responder.deferral_request(&missing_id).err(),
        Some(ResponderError::MissingInteractionId)
    );
    assert_eq!(
        responder.deferral_request(&missing_token).err(),
        Some(ResponderError::MissingInteractionToken)
    );
    assert_eq!(
        responder
            .update_original_request(&missing_application, &InteractionResponse::pong())
            .err(),
        Some(ResponderError::MissingApplicationId)
    );
    assert_eq!(
        responder.update_original_request(&missing_token, &InteractionResponse::pong()).err(),
        Some(ResponderError::MissingInteractionToken)
    );
    let error = responder
        .update_original_request(&interaction(), &InteractionResponse::pong())
        .err()
        .expect("a pong carries no message data");
    assert_eq!(error, ResponderError::MissingResponseData);
    assert_eq!(error.to_string(), "Interaction response did not contain message data");
    assert_eq!(ResponderError::MissingInteractionId.to_string(), "Missing interaction id");
}

#[test]
fn normalizing_a_base_url_twice_changes_nothing() {
    let once = InteractionResponder::with_api_base_url(reqwest::Client::new(), "http://x.test//");
    let twice = InteractionResponder::with_api_base_url(reqwest::Client::new(), once.api_base_url());

    assert_eq!(once.api_base_url(), "http://x.test");
    assert_eq!(twice.api_base_url(), once.api_base_url());
    assert_eq!(once.clone().api_base_url(), "http://x.test");
}

#[test]
fn plans_bot_requests_with_method_url_and_authorization() {
    let client = DiscordBotClient::new(reqwest::Client::new(), "token");
    let cases = [
        (client.get("/channels/1"), BotMethod::Get, reqwest::Method::GET),
        (client.post("messages"), BotMethod::Post, reqwest::Method::POST),
        (client.put("//roles"), BotMethod::Put, reqwest::Method::PUT),
        (client.delete("roles"), BotMethod::Delete, reqwest::Method::DELETE),
        (client.request(BotMethod::Patch, "/guilds/1"), BotMethod::Patch, reqwest::Method::PATCH),
    ];
    for (request, method, reqwest_method) in cases {
        assert_eq!(request.method, method);
        assert_eq!(request.authorization, "Bot token");
        let built =
            client.to_request_builder(&request).into_reqwest().build().expect("request should build");
        assert_eq!(built.method(), reqwest_method);
        assert_eq!(built.url().as_str(), request.url);
        assert_eq!(built.headers().get_all("authorization").iter().count(), 1);
        assert_eq!(built.headers()["authorization"], "Bot token");
    }
    assert_eq!(client.get("/channels/1").url, "https://discord.com/api/v10/channels/1");
    assert_eq!(client.put("//roles").url, "https://discord.com/api/v10/roles");
    assert_eq!(client.get("x").url, client.get("//x").url);
}

#[test]
fn starts_planned_webhook_requests() {
    let responder =
        InteractionResponder::with_api_base_url(reqwest::Client::new(), "http://127.0.0.1:9");
    let planned = responder.deferral_request(&interaction()).expect("identifiers present");
    let built = responder
        .start_webhook_request(&planned)
        .into_reqwest()
        .build()
        .expect("request should build");

    assert_eq!(built.method(), reqwest::Method::POST);
    assert_eq!(built.url().as_str(), "http://127.0.0.1:9/interactions/interaction/token/callback");
    assert!(built.headers().get("authorization").is_none());

    let response = InteractionResponse::ephemeral("Done");
    let planned = responder.update_original_request(&interaction(), &response).expect("present");
    let built = responder
        .start_webhook_request(&planned)
        .into_reqwest()
        .build()
        .expect("request should build");
    assert_eq!(built.method(), reqwest::Method::PATCH);
}
