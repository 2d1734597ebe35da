//! Discord interaction callback delivery and bot REST requests.
use vstd::prelude::*;

use crate::interaction::{Interaction, InteractionCallbackData, InteractionResponse};
use crate::interaction::response::{ResponseView, message_data, EPHEMERAL_MESSAGE_FLAG};
use crate::interaction::InteractionCallbackType;
use crate::text::{join_text, lemma_trim_end_char_shape, trim_end_matching};
use discord::{lacks_trailing_slash, normalized_base_url, reqwest_method, start_request};
use reqwest::Client;

/// Provides bot-authenticated Discord REST requests.
pub mod discord;
pub use discord::{BotMethod, BotRequest, BotRequestBuilder, DiscordBotClient};

verus! {

/// Base URL for Discord's REST API.
pub const DISCORD_API_BASE: &'static str = "https://discord.com/api/v10";

/// Explains why an interaction response cannot be delivered.
#[derive(Debug, Clone, Copy, PartialEq, Eq, Structural)]
pub enum ResponderError {
    /// The interaction carries no interaction id.
    MissingInteractionId,
    /// The interaction carries no application id.
    MissingApplicationId,
    /// The interaction carries no interaction token.
    MissingInteractionToken,
    /// The response to deliver carries no message data.
    MissingResponseData,
}

impl ResponderError {
    /// Returns the human-readable explanation of the error.
    pub fn to_string(&self) -> (message: String)
        ensures
            message@ == match *self {
                ResponderError::MissingInteractionId => "Missing interaction id"@,
                ResponderError::MissingApplicationId => "Missing application id"@,
                ResponderError::MissingInteractionToken => "Missing interaction token"@,
                ResponderError::MissingResponseData => "Interaction response did not contain message data"@,
            },
    {
        match self {
            ResponderError::MissingInteractionId => String::from_str("Missing interaction id"),
            ResponderError::MissingApplicationId => String::from_str("Missing application id"),
            ResponderError::MissingInteractionToken => String::from_str(
                "Missing interaction token",
            ),
            ResponderError::MissingResponseData => String::from_str(
                "Interaction response did not contain message data",
            ),
        }
    }
}

/// The URL of the callback endpoint that acknowledges interaction `id` with `token`.
pub open spec fn callback_url(base: Seq<char>, id: Seq<char>, token: Seq<char>) -> Seq<char> {
    base + "/interactions/"@ + id + "/"@ + token + "/callback"@
}

/// The URL of the endpoint that edits the original response of application `application_id`'s
/// interaction with `token`.
pub open spec fn original_response_url(
    base: Seq<char>,
    application_id: Seq<char>,
    token: Seq<char>,
) -> Seq<char> {
    base + "/webhooks/"@ + application_id + "/"@ + token + "/messages/@original"@
}

/// The callback URL holds the base, the interaction id and the whole token, each at its place:
/// it starts with `base + "/interactions/"`, the id follows, then `"/"`, the full token, and it
/// ends with `"/callback"`; its length is the sum of its parts.
pub proof fn lemma_callback_url_parts(base: Seq<char>, id: Seq<char>, token: Seq<char>)
    ensures
        ({
            let url = callback_url(base, id, token);
            let id_start: int = base.len() as int + 14;
            let token_start: int = id_start + id.len() + 1;
            &&& url.len() == base.len() + id.len() + token.len() + 24
            &&& url.take(base.len() as int) == base
            &&& url.subrange(base.len() as int, id_start) == "/interactions/"@
            &&& url.subrange(id_start, id_start + id.len()) == id
            &&& url[id_start + id.len()] == '/'
            &&& url.subrange(token_start, token_start + token.len()) == token
            &&& url.skip(token_start + token.len()) == "/callback"@
        }),
{
    reveal_strlit("/interactions/");
    reveal_strlit("/");
    reveal_strlit("/callback");
    let url = callback_url(base, id, token);
    let id_start: int = base.len() as int + 14;
    let token_start: int = id_start + id.len() + 1;
    assert(url.take(base.len() as int) =~= base);
    assert(url.subrange(base.len() as int, id_start) =~= "/interactions/"@);
    assert(url.subrange(id_start, id_start + id.len()) =~= id);
    assert(url.subrange(token_start, token_start + token.len()) =~= token);
    assert(url.skip(token_start + token.len()) =~= "/callback"@);
}

/// The original-message URL holds the base, the application id and the whole token, each at
/// its place: it starts with `base + "/webhooks/"`, the application id follows, then `"/"`,
/// the full token, and it ends with `"/messages/@original"`; its length is the sum of its parts.
pub proof fn lemma_original_response_url_parts(
    base: Seq<char>,
    application_id: Seq<char>,
    token: Seq<char>,
)
    ensures
        ({
            let url = original_response_url(base, application_id, token);
            let id_start: int = base.len() as int + 10;
            let token_start: int = id_start + application_id.len() + 1;
            &&& url.len() == base.len() + application_id.len() + token.len() + 30
            &&& url.take(base.len() as int) == base
            &&& url.subrange(base.len() as int, id_start) == "/webhooks/"@
            &&& url.subrange(id_start, id_start + application_id.len()) == application_id
            &&& url[id_start + application_id.len()] == '/'
            &&& url.subrange(token_start, token_start + token.len()) == token
            &&& url.skip(token_start + token.len()) == "/messages/@original"@
        }),
{
    reveal_strlit("/webhooks/");
    reveal_strlit("/");
    reveal_strlit("/messages/@original");
    let url = original_response_url(base, application_id, token);
    let id_start: int = base.len() as int + 10;
    let token_start: int = id_start + application_id.len() + 1;
    assert(url.take(base.len() as int) =~= base);
    assert(url.subrange(base.len() as int, id_start) =~= "/webhooks/"@);
    assert(url.subrange(id_start, id_start + application_id.len()) =~= application_id);
    assert(url.subrange(token_start, token_start + token.len()) =~= token);
    assert(url.skip(token_start + token.len()) =~= "/messages/@original"@);
}

/// Returns the interaction ID required by Discord's callback endpoint.
fn require_interaction_id<T>(interaction: &Interaction<T>) -> (id: Result<&str, ResponderError>)
    ensures
        match interaction.id {
            Some(expected) => id matches Ok(found) && found@ == expected@,
            None => id == Err::<&str, _>(ResponderError::MissingInteractionId),
        },
{
    match &interaction.id {
        Some(id) => Ok(id.as_str()),
        None => Err(ResponderError::MissingInteractionId),
    }
}

/// Returns the application ID required by Discord's webhook endpoint.
fn require_application_id<T>(interaction: &Interaction<T>) -> (id: Result<&str, ResponderError>)
    ensures
        match interaction.application_id {
            Some(expected) => id matches Ok(found) && found@ == expected@,
            None => id == Err::<&str, _>(ResponderError::MissingApplicationId),
        },
{
    match &interaction.application_id {
        Some(id) => Ok(id.as_str()),
        None => Err(ResponderError::MissingApplicationId),
    }
}

/// Returns the token required by Discord interaction response endpoints.
fn require_interaction_token<T>(interaction: &Interaction<T>) -> (token: Result<
    &str,
    ResponderError,
>)
    ensures
        match interaction.token {
            Some(expected) => token matches Ok(found) && found@ == expected@,
            None => token == Err::<&str, _>(ResponderError::MissingInteractionToken),
        },
{
    match &interaction.token {
        Some(token) => Ok(token.as_str()),
        None => Err(ResponderError::MissingInteractionToken),
    }
}

/// A planned webhook request: its HTTP method, absolute URL and JSON body.
#[derive(Debug)]
pub struct WebhookRequest<B> {
    /// HTTP method of the request.
    pub method: BotMethod,
    /// Absolute URL the request targets.
    pub url: String,
    /// Payload to send as the request's JSON body.
    pub body: B,
}

/// Delivers deferred and completed Discord interaction responses over HTTP.
///
/// The library decides what is sent where; the caller performs the request with `client()`.
pub struct InteractionResponder {
    /// HTTP client used to call Discord interaction webhook endpoints.
    client: Client,
    /// Base URL for Discord interaction webhook requests.
    api_base_url: String,
}

impl InteractionResponder {
    /// The kept base URL never ends with a slash.
    #[verifier::type_invariant]
    closed spec fn base_url_is_normalized(self) -> bool {
        lacks_trailing_slash(self.api_base_url@)
    }

    /// The base URL that endpoint paths are joined to.
    pub closed spec fn base_url(&self) -> Seq<char> {
        self.api_base_url@
    }

    /// The HTTP client that performs this responder's requests.
    pub closed spec fn http_client(&self) -> Client {
        self.client
    }

    /// Creates an interaction responder that targets Discord's production REST API.
    pub fn new(client: Client) -> (responder: Self)
        ensures
            responder.base_url() == DISCORD_API_BASE@,
            responder.http_client() == client,
    {
        proof {
            reveal_strlit("https://discord.com/api/v10");
        }
        InteractionResponder { client, api_base_url: String::from_str(DISCORD_API_BASE) }
    }

    /// Creates a responder that targets a Discord-compatible REST endpoint; trailing slashes
    /// of `api_base_url` are dropped.
    pub fn with_api_base_url(client: Client, api_base_url: &str) -> (responder: Self)
        ensures
            responder.base_url() == normalized_base_url(api_base_url@),
            lacks_trailing_slash(responder.base_url()),
            responder.http_client() == client,
    {
        let base = trim_end_matching(api_base_url, '/');
        proof {
            lemma_trim_end_char_shape(api_base_url@, '/');
        }
        InteractionResponder { client, api_base_url: base }
    }

    /// Returns the HTTP client that performs this responder's requests: the one the responder
    /// was built with.
    pub fn client(&self) -> (client: &Client)
        ensures
            *client == self.http_client(),
    {
        &self.client
    }

    /// Returns the base URL that endpoint paths are joined to.
    pub fn api_base_url(&self) -> (base: &str)
        ensures
            base@ == self.base_url(),
            lacks_trailing_slash(base@),
    {
        proof {
            use_type_invariant(self);
        }
        self.api_base_url.as_str()
    }

    /// Plans the acknowledgement that defers a command before Discord's three-second deadline:
    /// a POST to the callback URL with the ephemeral deferral as its JSON body.
    ///
    /// Fails with `MissingInteractionId` when the interaction has no id, and otherwise with
    /// `MissingInteractionToken` when it has no token.
    pub fn deferral_request<T>(&self, interaction: &Interaction<T>) -> (request: Result<
        WebhookRequest<InteractionResponse>,
        ResponderError,
    >)
        ensures
            request is Ok <==> (interaction.id is Some && interaction.token is Some),
            request matches Err(error) ==> error == (if interaction.id is None {
                ResponderError::MissingInteractionId
            } else {
                ResponderError::MissingInteractionToken
            }),
            request matches Ok(planned) ==> {
                &&& planned.method == BotMethod::Post
                &&& planned.url@ == callback_url(
                    self.base_url(),
                    interaction.id->0@,
                    interaction.token->0@,
                )
                &&& planned.body@ == (ResponseView {
                    kind: InteractionCallbackType::DeferredChannelMessageWithSource,
                    data: Some(message_data(None, Some(EPHEMERAL_MESSAGE_FLAG))),
                })
            },
    {
        let interaction_id = require_interaction_id(interaction)?;
        let token = require_interaction_token(interaction)?;
        let mut url = join_text(self.api_base_url.as_str(), "/interactions/");
        url.append(interaction_id);
        url.append("/");
        url.append(token);
        url.append("/callback");
        assert(url@ =~= callback_url(self.base_url(), interaction_id@, token@));
        Ok(
            WebhookRequest {
                method: BotMethod::Post,
                url,
                body: InteractionResponse::deferred_ephemeral(),
            },
        )
    }

    /// Plans the update that replaces the deferred interaction message with a completed one:
    /// a PATCH to the original-message URL with the message data of `response` as its JSON
    /// body.
    ///
    /// Fails with `MissingApplicationId`, `MissingInteractionToken` or `MissingResponseData`,
    /// checked in that order.
    pub fn update_original_request<'a, T>(
        &self,
        interaction: &Interaction<T>,
        response: &'a InteractionResponse,
    ) -> (request: Result<WebhookRequest<&'a InteractionCallbackData>, ResponderError>)
        ensures
            request is Ok <==> (interaction.application_id is Some && interaction.token is Some
                && response.data is Some),
            request matches Err(error) ==> error == (if interaction.application_id is None {
                ResponderError::MissingApplicationId
            } else if interaction.token is None {
                ResponderError::MissingInteractionToken
            } else {
                ResponderError::MissingResponseData
            }),
            request matches Ok(planned) ==> {
                &&& planned.method == BotMethod::Patch
                &&& planned.url@ == original_response_url(
                    self.base_url(),
                    interaction.application_id->0@,
                    interaction.token->0@,
                )
                &&& response.data == Some(*planned.body)
            },
    {
        let application_id = require_application_id(interaction)?;
        let token = require_interaction_token(interaction)?;
        let data = match &response.data {
            Some(data) => data,
            None => {
                return Err(ResponderError::MissingResponseData);
            },
        };
        let mut url = join_text(self.api_base_url.as_str(), "/webhooks/");
        url.append(application_id);
        url.append("/");
        url.append(token);
        url.append("/messages/@original");
        assert(url@ =~= original_response_url(self.base_url(), application_id@, token@));
        Ok(WebhookRequest { method: BotMethod::Patch, url, body: data })
    }
}

impl InteractionResponder {
    /// Starts the `reqwest` request that a planned webhook request describes, on this
    /// responder's client: its method and URL, with no header added. The caller attaches the
    /// planned body as JSON and sends it.
    pub fn start_webhook_request<B>(&self, planned: &WebhookRequest<B>) -> (started:
        BotRequestBuilder)
        ensures
            started.sent_by() == self.http_client(),
            started.method() == planned.method,
            started.requested_url() == planned.url@,
            started.added_headers() == Seq::<(Seq<char>, Seq<char>)>::empty(),
    {
        let method = reqwest_method(planned.method);
        start_request(&self.client, method, planned.url.clone())
    }
}

impl Clone for InteractionResponder {
    /// Copies the responder, sharing its HTTP connection pool.
    fn clone(&self) -> (copy: Self)
        ensures
            copy.base_url() == self.base_url(),
    {
        proof {
            use_type_invariant(self);
        }
        InteractionResponder {
            client: self.client.clone(),
            api_base_url: self.api_base_url.clone(),
        }
    }
}

} // verus!
