//! Bot-authenticated Discord REST request construction.
use vstd::prelude::*;

use crate::text::{
    join_text, lemma_trim_end_char_shape, lemma_trim_start_char_drops_slashes,
    lemma_trim_start_char_shape, trim_end_char, trim_end_matching, trim_start_char,
    trim_start_matching,
};
use reqwest::{Client, Method, RequestBuilder};

verus! {

/// Lets verified code hold a reusable HTTP client.
#[verifier::external_type_specification]
#[verifier::external_body]
pub struct ExClient(reqwest::Client);

/// Lets verified code pass an HTTP method through.
#[verifier::external_type_specification]
#[verifier::external_body]
pub struct ExMethod(reqwest::Method);

/// Lets verified code return a request under construction.
#[verifier::external_type_specification]
#[verifier::external_body]
pub struct ExRequestBuilder(reqwest::RequestBuilder);

/// Copies a client handle; the copy shares the original's connection pool and settings.
/// Nothing is stated of the copy, which is opaque here.
pub assume_specification[ <reqwest::Client as core::clone::Clone>::clone ](
    client: &reqwest::Client,
) -> reqwest::Client;

/// Discord's versioned production REST API base URL.
pub const DISCORD_API_V10_BASE: &'static str = "https://discord.com/api/v10";

/// The `Authorization` header value that authenticates a bot with the given token.
pub open spec fn bot_authorization(bot_token: Seq<char>) -> Seq<char> {
    seq!['B', 'o', 't', ' '] + bot_token
}

/// The base URL kept for requests: the given URL without trailing slashes.
pub open spec fn normalized_base_url(api_base_url: Seq<char>) -> Seq<char> {
    trim_end_char(api_base_url, '/')
}

/// Holds when `url` does not end with a slash.
pub open spec fn lacks_trailing_slash(url: Seq<char>) -> bool {
    url.len() > 0 ==> url.last() != '/'
}

/// The absolute URL of a request for `path` relative to `base`: leading slashes of the path
/// are dropped and exactly one slash joins the two.
pub open spec fn api_url(base: Seq<char>, path: Seq<char>) -> Seq<char> {
    base + seq!['/'] + trim_start_char(path, '/')
}

/// A request path is kept verbatim apart from its leading slashes: when the path's first `k`
/// characters are slashes and the next one (if any) is not, the URL is the base, one slash,
/// and the rest of the path from position `k` on.
pub proof fn lemma_request_path_kept(base: Seq<char>, path: Seq<char>, k: int)
    requires
        0 <= k <= path.len(),
        forall|i: int| 0 <= i < k ==> #[trigger] path[i] == '/',
        k < path.len() ==> path[k] != '/',
    ensures
        api_url(base, path) == base + seq!['/'] + path.skip(k),
{
    lemma_trim_start_char_shape(path, '/');
    lemma_trim_start_char_drops_slashes(path, '/');
    let trimmed = trim_start_char(path, '/');
    let start = path.len() - trimmed.len();
    if start < path.len() {
        assert(path[start] == trimmed[0]);
    }
    if k < start {
        assert(path[k] == '/');
    }
    if start < k {
        assert(path[start] == '/');
    }
    assert(k == start);
}

/// A path that does not start with a slash is joined to the base unchanged.
pub proof fn lemma_unslashed_path_kept(base: Seq<char>, path: Seq<char>)
    requires
        path.len() == 0 || path[0] != '/',
    ensures
        api_url(base, path) == base + seq!['/'] + path,
{
}

/// Leading slashes of a request path do not change the request URL.
pub proof fn lemma_leading_slash_ignored(base: Seq<char>, path: Seq<char>)
    ensures
        api_url(base, seq!['/'] + path) == api_url(base, path),
{
    let slashed = seq!['/'] + path;
    assert(slashed.drop_first() =~= path);
}

/// An HTTP method of a Discord bot request.
#[derive(Debug, Clone, Copy, PartialEq, Eq, Structural)]
pub enum BotMethod {
    /// `GET`
    Get,
    /// `POST`
    Post,
    /// `PUT`
    Put,
    /// `PATCH`
    Patch,
    /// `DELETE`
    Delete,
    /// `HEAD`
    Head,
    /// `OPTIONS`
    Options,
    /// `CONNECT`
    Connect,
    /// `TRACE`
    Trace,
}

/// A `reqwest` HTTP method, with the bot method it stands for.
pub struct HttpMethod {
    /// The `reqwest` method.
    method: Method,
    /// The bot method it stands for.
    name: Ghost<BotMethod>,
}

impl HttpMethod {
    /// The bot method that this `reqwest` method stands for.
    pub closed spec fn name(&self) -> BotMethod {
        self.name@
    }
}

/// Converts a bot request method to the `reqwest::Method` constant of the same name.
///
/// Trusted: picks the `reqwest::Method` constant of the same name, one arm per method.
#[verifier::external_body]
pub(crate) fn reqwest_method(method: BotMethod) -> (converted: HttpMethod)
    ensures
        converted.name() == method,
{
    let name = Ghost(method);
    let method = match method {
        BotMethod::Get => Method::GET,
        BotMethod::Post => Method::POST,
        BotMethod::Put => Method::PUT,
        BotMethod::Patch => Method::PATCH,
        BotMethod::Delete => Method::DELETE,
        BotMethod::Head => Method::HEAD,
        BotMethod::Options => Method::OPTIONS,
        BotMethod::Connect => Method::CONNECT,
        BotMethod::Trace => Method::TRACE,
    };
    HttpMethod { method, name }
}

/// A `reqwest` request under construction, with what it was handed so far: the client that
/// will send it, its method, the URL text it was started with, and the headers added, in order.
///
/// `reqwest` parses the URL text when the request starts and checks each header as it is
/// added; a malformed URL or header is kept as an error that `build` or `send` reports.
pub struct BotRequestBuilder {
    /// The `reqwest` request under construction.
    builder: RequestBuilder,
    /// The client that sends the request.
    client: Ghost<Client>,
    /// The request's method.
    method: Ghost<BotMethod>,
    /// The URL text the request was started with.
    url: Ghost<Seq<char>>,
    /// The headers added, as name and value, in order.
    headers: Ghost<Seq<(Seq<char>, Seq<char>)>>,
}

impl BotRequestBuilder {
    /// The client that sends the request.
    pub closed spec fn sent_by(&self) -> Client {
        self.client@
    }

    /// The request's method.
    pub closed spec fn method(&self) -> BotMethod {
        self.method@
    }

    /// The URL text the request was started with.
    pub closed spec fn requested_url(&self) -> Seq<char> {
        self.url@
    }

    /// The headers added to the request, as name and value, in order.
    pub closed spec fn added_headers(&self) -> Seq<(Seq<char>, Seq<char>)> {
        self.headers@
    }

    /// The `reqwest` request under construction.
    pub closed spec fn reqwest_builder(&self) -> RequestBuilder {
        self.builder
    }

    /// Returns the `reqwest` request under construction, ready to receive a body and be sent.
    pub fn into_reqwest(self) -> (builder: RequestBuilder)
        ensures
            builder == self.reqwest_builder(),
    {
        self.builder
    }
}

/// Starts a request on `client` for `method` and `url`, with no header added yet.
///
/// Trusted: calls `reqwest::Client::request`, which keeps a handle to the client, the method
/// and the URL (or the error of parsing it) in the returned builder and never panics.
#[verifier::external_body]
pub(crate) fn start_request(client: &Client, method: HttpMethod, url: String) -> (started:
    BotRequestBuilder)
    ensures
        started.sent_by() == *client,
        started.method() == method.name(),
        started.requested_url() == url@,
        started.added_headers() == Seq::<(Seq<char>, Seq<char>)>::empty(),
{
    let requested = Ghost(url@);
    let builder = client.request(method.method, url);
    BotRequestBuilder {
        builder,
        client: Ghost(*client),
        method: method.name,
        url: requested,
        headers: Ghost(Seq::empty()),
    }
}

/// Adds one header to a request under construction.
///
/// Trusted: calls `reqwest::RequestBuilder::header`, which appends the header (or keeps the
/// error of an invalid name or value) and never panics.
#[verifier::external_body]
fn add_header(builder: BotRequestBuilder, name: &str, value: &str) -> (added: BotRequestBuilder)
    ensures
        added.sent_by() == builder.sent_by(),
        added.method() == builder.method(),
        added.requested_url() == builder.requested_url(),
        added.added_headers() == builder.added_headers().push((name@, value@)),
{
    let headers = Ghost(builder.headers@.push((name@, value@)));
    BotRequestBuilder {
        builder: builder.builder.header(name, value),
        client: builder.client,
        method: builder.method,
        url: builder.url,
        headers,
    }
}

/// A bot-authorized Discord REST request: its method, absolute URL and the value of its
/// `Authorization` header.
#[derive(Debug, Clone)]
pub struct BotRequest {
    /// HTTP method of the request.
    pub method: BotMethod,
    /// Absolute URL the request targets.
    pub url: String,
    /// Value of the request's `Authorization` header.
    pub authorization: String,
}

/// Builds authenticated requests to Discord's bot REST API.
pub struct DiscordBotClient {
    /// Reusable HTTP client used to send Discord API requests.
    client: Client,
    /// Preformatted bot authorization header value.
    authorization: String,
    /// Base URL used for production and mock Discord endpoints.
    api_base_url: String,
}

impl DiscordBotClient {
    /// The kept base URL never ends with a slash.
    #[verifier::type_invariant]
    closed spec fn base_url_is_normalized(self) -> bool {
        lacks_trailing_slash(self.api_base_url@)
    }

    /// The `Authorization` header value sent with every request.
    pub closed spec fn authorization_header(&self) -> Seq<char> {
        self.authorization@
    }

    /// The base URL that request paths are joined to.
    pub closed spec fn base_url(&self) -> Seq<char> {
        self.api_base_url@
    }

    /// The HTTP client that sends this client's requests.
    pub closed spec fn http_client(&self) -> Client {
        self.client
    }

    /// Creates a client targeting Discord's production version 10 REST API.
    pub fn new(client: Client, bot_token: &str) -> (bot: Self)
        ensures
            bot.authorization_header() == bot_authorization(bot_token@),
            bot.base_url() == DISCORD_API_V10_BASE@,
            bot.http_client() == client,
    {
        proof {
            reveal_strlit("https://discord.com/api/v10");
        }
        Self::with_api_base_url(client, bot_token, DISCORD_API_V10_BASE)
    }

    /// Creates a client targeting a Discord-compatible REST endpoint.
    pub fn with_api_base_url(client: Client, bot_token: &str, api_base_url: &str) -> (bot: Self)
        ensures
            bot.authorization_header() == bot_authorization(bot_token@),
            bot.base_url() == normalized_base_url(api_base_url@),
            lacks_trailing_slash(bot.base_url()),
            bot.http_client() == client,
    {
        let authorization = join_text("Bot ", bot_token);
        proof {
            reveal_strlit("Bot ");
            assert(authorization@ =~= bot_authorization(bot_token@));
        }
        let base = trim_end_matching(api_base_url, '/');
        proof {
            lemma_trim_end_char_shape(api_base_url@, '/');
        }
        DiscordBotClient { client, authorization, api_base_url: base }
    }

    /// Returns the base URL that request paths are joined to; it never ends with a slash.
    pub fn api_base_url(&self) -> (base: &str)
        ensures
            base@ == self.base_url(),
            lacks_trailing_slash(base@),
    {
        proof {
            use_type_invariant(self);
        }
        self.api_base_url.as_str()
    }

    /// Returns the absolute URL that a request for `path` targets.
    pub fn request_url(&self, path: &str) -> (url: String)
        ensures
            url@ == api_url(self.base_url(), path@),
    {
        let mut url = join_text(self.api_base_url.as_str(), "/");
        let relative = trim_start_matching(path, '/');
        url.append(relative.as_str());
        proof {
            reveal_strlit("/");
            assert(url@ =~= api_url(self.base_url(), path@));
        }
        url
    }

    /// Builds one bot-authorized request for a relative Discord API path: `method`, the URL of
    /// `path` under the base URL, and the bot's `Authorization` header.
    pub fn request(&self, method: BotMethod, path: &str) -> (request: BotRequest)
        ensures
            request.method == method,
            request.url@ == api_url(self.base_url(), path@),
            request.authorization@ == self.authorization_header(),
    {
        BotRequest {
            method,
            url: self.request_url(path),
            authorization: self.authorization.clone(),
        }
    }

    /// Builds one bot-authorized GET request.
    pub fn get(&self, path: &str) -> (request: BotRequest)
        ensures
            request.method == BotMethod::Get,
            request.url@ == api_url(self.base_url(), path@),
            request.authorization@ == self.authorization_header(),
    {
        self.request(BotMethod::Get, path)
    }

    /// Builds one bot-authorized POST request.
    pub fn post(&self, path: &str) -> (request: BotRequest)
        ensures
            request.method == BotMethod::Post,
            request.url@ == api_url(self.base_url(), path@),
            request.authorization@ == self.authorization_header(),
    {
        self.request(BotMethod::Post, path)
    }

    /// Builds one bot-authorized PUT request.
    pub fn put(&self, path: &str) -> (request: BotRequest)
        ensures
            request.method == BotMethod::Put,
            request.url@ == api_url(self.base_url(), path@),
            request.authorization@ == self.authorization_header(),
    {
        self.request(BotMethod::Put, path)
    }

    /// Builds one bot-authorized DELETE request.
    pub fn delete(&self, path: &str) -> (request: BotRequest)
        ensures
            request.method == BotMethod::Delete,
            request.url@ == api_url(self.base_url(), path@),
            request.authorization@ == self.authorization_header(),
    {
        self.request(BotMethod::Delete, path)
    }

    /// Turns a planned request into a `reqwest` request on this client's connection pool,
    /// ready to receive a body and be sent: its method and URL, and one `Authorization` header
    /// with the planned value.
    pub fn to_request_builder(&self, request: &BotRequest) -> (built: BotRequestBuilder)
        ensures
            built.sent_by() == self.http_client(),
            built.method() == request.method,
            built.requested_url() == request.url@,
            built.added_headers() == seq![("Authorization"@, request.authorization@)],
    {
        let method = reqwest_method(request.method);
        let builder = start_request(&self.client, method, request.url.clone());
        let built = add_header(builder, "Authorization", request.authorization.as_str());
        assert(built.added_headers() =~= seq![("Authorization"@, request.authorization@)]);
        built
    }
}

impl Clone for DiscordBotClient {
    /// Copies the client, sharing its HTTP connection pool.
    fn clone(&self) -> (copy: Self)
        ensures
            copy.authorization_header() == self.authorization_header(),
            copy.base_url() == self.base_url(),
    {
        proof {
            use_type_invariant(self);
        }
        DiscordBotClient {
            client: self.client.clone(),
            authorization: self.authorization.clone(),
            api_base_url: self.api_base_url.clone(),
        }
    }
}

} // verus!
