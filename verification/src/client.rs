//! The generation client: what is sent to each backend, how its answer is
//! read, and how the outcome of a round trip becomes a result or an error.
//!
//! The client does not talk to the network. `ApiClient::request` says what is
//! to be sent; `ApiClient::generate` takes what came back.

use crate::extract::{code_of, explanation_of, extract, fenced_blocks, CaptureSpan};
use crate::json::{
    at_index, at_key, field_of, fields_view, item_of, items_view, option_text, pairs_view,
    push_field, push_item, text_at, text_of, JsonModel, JsonValue,
};
use crate::text::{chars_of, joined};
use crate::types::{
    GenerateOptions, GenerateResult, GenerationMode, LLMProvider, OptionsModel, ProviderModel,
    ResultModel,
};
use vstd::prelude::*;
use vstd::string::*;

verus! {

/// Where requests to OpenAI go, unless the caller says otherwise.
pub const OPENAI_ENDPOINT: &'static str = "https://api.openai.com/v1/chat/completions";

/// Where requests to Anthropic go, unless the caller says otherwise.
pub const ANTHROPIC_ENDPOINT: &'static str = "https://api.anthropic.com/v1/messages";

/// Where requests to a local model go, unless the caller says otherwise.
pub const LOCAL_ENDPOINT: &'static str = "http://localhost:11434/api/generate";

/// The version of the Anthropic API that the client speaks.
pub const ANTHROPIC_VERSION: &'static str = "2023-06-01";

/// The seconds after which the transport is to give a request up.
pub const REQUEST_TIMEOUT_SECS: u64 = 30;

/// What every system prompt starts with.
pub const BASE_PROMPT: &'static str =
    "You are CRAITE, an elite Web3 code generator and AI development assistant. You specialize in blockchain development, smart contracts, dApps, DeFi protocols, and NFTs. Generate production-ready, secure, and optimized code following best practices.";

/// What the system prompt ends with where the code is to be learnt from.
pub const EDUCATIONAL_SUFFIX: &'static str =
    "\nProvide detailed explanations and comments to help the user learn.";

/// What the system prompt ends with where the code is to be deployed.
pub const PRODUCTION_SUFFIX: &'static str =
    "\nGenerate clean, production-ready code with minimal but essential comments.";

/// The address that requests to `provider` go to by default.
pub open spec fn default_endpoint(provider: ProviderModel) -> Seq<char> {
    match provider {
        ProviderModel::OpenAI => OPENAI_ENDPOINT@,
        ProviderModel::Anthropic => ANTHROPIC_ENDPOINT@,
        ProviderModel::Local => LOCAL_ENDPOINT@,
        ProviderModel::Custom(url) => url,
    }
}

/// A character that may stand in the value of a header: the tab and every
/// character but the other controls of ASCII.
pub open spec fn is_header_char(c: char) -> bool {
    (c as u32 >= 32 && c as u32 != 127) || c as u32 == 9
}

/// A text that may be the value of a header.
pub open spec fn is_header_value(s: Seq<char>) -> bool {
    forall|i: int| 0 <= i < s.len() ==> is_header_char(#[trigger] s[i])
}

/// Requests to `provider` carry the API key.
pub open spec fn sends_key(provider: ProviderModel) -> bool {
    provider is OpenAI || provider is Anthropic
}

/// The headers of every request to `provider`: the content type, and what
/// authenticates the caller. OpenAI takes the key as a bearer token.
/// Anthropic takes it in a header of its own, beside the version of its API.
/// The other backends take no key.
pub open spec fn default_headers(provider: ProviderModel, api_key: Seq<char>) -> Seq<
    (Seq<char>, Seq<char>),
> {
    seq![("content-type"@, "application/json"@)] + (match provider {
        ProviderModel::OpenAI => seq![("authorization"@, "Bearer "@ + api_key)],
        ProviderModel::Anthropic => seq![
            ("x-api-key"@, api_key),
            ("anthropic-version"@, ANTHROPIC_VERSION@),
        ],
        _ => Seq::empty(),
    })
}

/// The system prompt: the base sentence, followed by what the mode asks for.
pub open spec fn system_prompt(mode: GenerationMode) -> Seq<char> {
    match mode {
        GenerationMode::Educational => BASE_PROMPT@ + EDUCATIONAL_SUFFIX@,
        GenerationMode::Production => BASE_PROMPT@ + PRODUCTION_SUFFIX@,
    }
}

/// One turn of a conversation, as the chat backends take it.
pub open spec fn chat_message(role: Seq<char>, content: Seq<char>) -> JsonModel {
    JsonModel::Object(seq![("role"@, JsonModel::Str(role)), ("content"@, JsonModel::Str(content))])
}

/// The body of a request, in the shape that `provider` takes.
///
/// OpenAI takes the system prompt as the first of two messages. Anthropic
/// takes it beside the messages, which hold the user's turn alone. The other
/// backends take one prompt, the system prompt and the user's joined by an
/// empty line, and are told not to stream.
pub open spec fn payload(
    provider: ProviderModel,
    options: OptionsModel,
    system_prompt: Seq<char>,
) -> JsonModel {
    match provider {
        ProviderModel::OpenAI => JsonModel::Object(
            seq![
                (
                    "messages"@,
                    JsonModel::Array(
                        seq![
                            chat_message("system"@, system_prompt),
                            chat_message("user"@, options.prompt),
                        ],
                    ),
                ),
                ("temperature"@, JsonModel::Float(options.temperature)),
                ("max_tokens"@, JsonModel::Number(options.max_tokens as int)),
            ],
        ),
        ProviderModel::Anthropic => JsonModel::Object(
            seq![
                ("system"@, JsonModel::Str(system_prompt)),
                ("messages"@, JsonModel::Array(seq![chat_message("user"@, options.prompt)])),
                ("max_tokens"@, JsonModel::Number(options.max_tokens as int)),
                ("temperature"@, JsonModel::Float(options.temperature)),
            ],
        ),
        _ => JsonModel::Object(
            seq![
                ("prompt"@, JsonModel::Str(system_prompt + "\n\n"@ + options.prompt)),
                ("temperature"@, JsonModel::Float(options.temperature)),
                ("max_tokens"@, JsonModel::Number(options.max_tokens as int)),
                ("stream"@, JsonModel::Bool(false)),
            ],
        ),
    }
}

/// The text, or the empty text where there is none.
pub open spec fn or_empty(text: Option<Seq<char>>) -> Seq<char> {
    match text {
        Some(s) => s,
        None => Seq::empty(),
    }
}

/// The text that an answer of `provider` carries.
///
/// OpenAI: `choices[0].message.content`. Anthropic: `content[0].text`. The
/// other backends: `response`, or `content` where `response` is no string.
/// Where the answer has another shape, the text is empty.
pub open spec fn response_text(provider: ProviderModel, response: JsonModel) -> Seq<char> {
    let root = Some(response);
    match provider {
        ProviderModel::OpenAI => or_empty(
            text_at(at_key(at_key(at_index(at_key(root, "choices"@), 0), "message"@), "content"@)),
        ),
        ProviderModel::Anthropic => or_empty(
            text_at(at_key(at_index(at_key(root, "content"@), 0), "text"@)),
        ),
        _ => match text_at(at_key(root, "response"@)) {
            Some(s) => s,
            None => or_empty(text_at(at_key(root, "content"@))),
        },
    }
}

/// A status that stands for success: 200 to 299.
pub open spec fn is_success(status: u16) -> bool {
    200 <= status < 300
}

/// Why a request for code gave no result.
#[derive(Debug, Clone, PartialEq, Eq)]
pub enum ClientError {
    /// The API key holds a character that cannot stand in a header.
    InvalidApiKey,
    /// The request could not be sent, or the answer did not arrive.
    Transport { reason: String },
    /// The backend answered with a status that does not stand for success.
    HttpStatus { status: u16, body: String },
    /// The body of the answer is no JSON document.
    ResponseParse,
    /// The pattern of a fenced block did not compile.
    Pattern,
}

/// The mathematical model of an error.
pub enum ErrorModel {
    InvalidApiKey,
    Transport { reason: Seq<char> },
    HttpStatus { status: u16, body: Seq<char> },
    ResponseParse,
    Pattern,
}

impl View for ClientError {
    type V = ErrorModel;

    open spec fn view(&self) -> ErrorModel {
        match self {
            ClientError::InvalidApiKey => ErrorModel::InvalidApiKey,
            ClientError::Transport { reason } => ErrorModel::Transport { reason: reason@ },
            ClientError::HttpStatus { status, body } => ErrorModel::HttpStatus {
                status: *status,
                body: body@,
            },
            ClientError::ResponseParse => ErrorModel::ResponseParse,
            ClientError::Pattern => ErrorModel::Pattern,
        }
    }
}

/// The sentence that tells of an error.
pub open spec fn error_message(error: ErrorModel) -> Seq<char> {
    match error {
        ErrorModel::InvalidApiKey => "failed to parse header value"@,
        ErrorModel::Transport { reason } => "Failed to send request: "@ + reason,
        ErrorModel::HttpStatus { status, body } => "API error: "@ + body,
        ErrorModel::ResponseParse => "Failed to parse response"@,
        ErrorModel::Pattern => "Failed to compile the code block pattern"@,
    }
}

impl ClientError {
    /// The sentence that tells of this error.
    pub fn message(&self) -> (r: String)
        ensures
            r@ == error_message(self@),
    {
        match self {
            ClientError::InvalidApiKey => "failed to parse header value".to_owned(),
            ClientError::Transport { reason } => joined(
                "Failed to send request: ",
                reason.as_str(),
            ),
            ClientError::HttpStatus { status, body } => joined("API error: ", body.as_str()),
            ClientError::ResponseParse => "Failed to parse response".to_owned(),
            ClientError::Pattern => "Failed to compile the code block pattern".to_owned(),
        }
    }
}

/// What is to be sent for a request for code: a POST of `body` to `url`.
#[derive(Debug, Clone, PartialEq, Eq)]
pub struct HttpRequest {
    pub url: String,
    pub headers: Vec<(String, String)>,
    pub body: JsonValue,
}

/// How the round trip of a request ended.
#[derive(Debug, Clone, PartialEq, Eq)]
pub enum HttpOutcome {
    /// The request could not be sent, or the answer did not arrive.
    Failed { reason: String },
    /// The backend answered. `json` is the body as a document, if it is one.
    Answered { status: u16, body: String, json: Option<JsonValue> },
}

/// The mathematical model of the end of a round trip.
pub enum OutcomeModel {
    Failed { reason: Seq<char> },
    Answered { status: u16, body: Seq<char>, json: Option<JsonModel> },
}

impl View for HttpOutcome {
    type V = OutcomeModel;

    open spec fn view(&self) -> OutcomeModel {
        match self {
            HttpOutcome::Failed { reason } => OutcomeModel::Failed { reason: reason@ },
            HttpOutcome::Answered { status, body, json } => OutcomeModel::Answered {
                status: *status,
                body: body@,
                json: match json {
                    Some(document) => Some(document@),
                    None => None,
                },
            },
        }
    }
}

/// The result that the text of an answer gives, for the fenced blocks found
/// in it: the code and the explanation of the text, under the language that
/// was asked for, with no tool named.
pub open spec fn result_of(
    content: Seq<char>,
    spans: Seq<CaptureSpan>,
    language: Seq<char>,
) -> ResultModel {
    ResultModel {
        code: code_of(content, spans),
        language,
        explanation: explanation_of(content, spans),
        tools_used: Seq::empty(),
    }
}

/// What reading the text of an answer gives: the result for the fenced
/// blocks that the `regex` crate finds, or an error where the pattern of a
/// block does not compile.
pub open spec fn read_content(content: Seq<char>, language: Seq<char>) -> Result<
    ResultModel,
    ErrorModel,
> {
    match fenced_blocks(content) {
        Some(spans) => Ok(result_of(content, spans, language)),
        None => Err(ErrorModel::Pattern),
    }
}

/// What a round trip gives. No answer is a transport error. An answer with
/// a status that does not stand for success is an error that carries the
/// status and the body. An answer whose body is no document is a parse
/// error. Any other answer is read as `provider` writes it.
pub open spec fn outcome_result(
    provider: ProviderModel,
    language: Seq<char>,
    outcome: OutcomeModel,
) -> Result<ResultModel, ErrorModel> {
    match outcome {
        OutcomeModel::Failed { reason } => Err(ErrorModel::Transport { reason }),
        OutcomeModel::Answered { status, body, json } => if !is_success(status) {
            Err(ErrorModel::HttpStatus { status, body })
        } else {
            match json {
                Some(document) => read_content(response_text(provider, document), language),
                None => Err(ErrorModel::ResponseParse),
            }
        },
    }
}

/// The views of a result and of an error.
pub open spec fn result_view(r: Result<GenerateResult, ClientError>) -> Result<
    ResultModel,
    ErrorModel,
> {
    match r {
        Ok(result) => Ok(result@),
        Err(error) => Err(error@),
    }
}

/// A client for one backend. Its fields do not change once it is made.
#[derive(Debug, Clone, PartialEq, Eq)]
pub struct ApiClient {
    api_key: String,
    provider: LLMProvider,
    endpoint: String,
    model: String,
    headers: Vec<(String, String)>,
}

/// The mathematical model of a client.
pub struct ClientModel {
    pub api_key: Seq<char>,
    pub provider: ProviderModel,
    pub endpoint: Seq<char>,
    pub model: Seq<char>,
    pub headers: Seq<(Seq<char>, Seq<char>)>,
}

impl View for ApiClient {
    type V = ClientModel;

    closed spec fn view(&self) -> ClientModel {
        ClientModel {
            api_key: self.api_key@,
            provider: self.provider@,
            endpoint: self.endpoint@,
            model: self.model@,
            headers: pairs_view(self.headers@),
        }
    }
}

/// The client for `provider` that the given values make.
pub open spec fn client_of(
    api_key: Seq<char>,
    provider: ProviderModel,
    endpoint: Option<Seq<char>>,
    model: Seq<char>,
) -> ClientModel {
    ClientModel {
        api_key,
        provider,
        endpoint: match endpoint {
            Some(url) => url,
            None => default_endpoint(provider),
        },
        model,
        headers: default_headers(provider, api_key),
    }
}

/// Whether `text` may be the value of a header.
pub fn header_value_ok(text: &str) -> (r: bool)
    ensures
        r == is_header_value(text@),
{
    let chars = chars_of(text);
    let mut i: usize = 0;
    while i < chars.len()
        invariant
            i <= chars.len(),
            chars@ == text@,
            forall|j: int| 0 <= j < i ==> is_header_char(#[trigger] text@[j]),
        decreases chars.len() - i,
    {
        let code: u32 = chars[i] as u32;
        if !((code >= 32 && code != 127) || code == 9) {
            assert(!is_header_char(text@[i as int]));
            return false;
        }
        i += 1;
    }
    true
}

/// Appends the header `name: value` to `headers`.
fn push_header(headers: &mut Vec<(String, String)>, name: &str, value: String)
    ensures
        pairs_view(final(headers)@) == pairs_view(old(headers)@).push((name@, value@)),
{
    headers.push((name.to_owned(), value));
    assert(pairs_view(headers@) =~= pairs_view(old(headers)@).push((name@, value@)));
}

/// Builds one turn of a conversation.
fn message(role: &str, content: &str) -> (r: JsonValue)
    ensures
        r@ == chat_message(role@, content@),
{
    let mut fields: Vec<(String, JsonValue)> = Vec::new();
    assert(fields_view(fields@) =~= Seq::empty());
    push_field(&mut fields, "role", JsonValue::text(role));
    push_field(&mut fields, "content", JsonValue::text(content));
    let r = JsonValue::object(fields);
    assert(r@->Object_0 =~= chat_message(role@, content@)->Object_0);
    r
}

impl ApiClient {
    /// A client for `provider`.
    ///
    /// Requests go to `endpoint`, or to the provider's default address where
    /// none is given. Where the provider takes the API key, the key must be
    /// fit to stand in a header; a key that is not is refused.
    pub fn new(
        api_key: String,
        provider: LLMProvider,
        endpoint: Option<String>,
        model: String,
    ) -> (r: Result<Self, ClientError>)
        ensures
            match r {
                Ok(client) => {
                    &&& sends_key(provider@) ==> is_header_value(api_key@)
                    &&& client@ == client_of(
                        api_key@,
                        provider@,
                        option_text(endpoint),
                        model@,
                    )
                },
                Err(error) => {
                    &&& error == ClientError::InvalidApiKey
                    &&& sends_key(provider@)
                    &&& !is_header_value(api_key@)
                },
            },
    {
        let mut headers: Vec<(String, String)> = Vec::new();
        assert(pairs_view(headers@) =~= Seq::empty());
        push_header(&mut headers, "content-type", "application/json".to_owned());
        match &provider {
            LLMProvider::OpenAI => {
                if !header_value_ok(api_key.as_str()) {
                    return Err(ClientError::InvalidApiKey);
                }
                push_header(&mut headers, "authorization", joined("Bearer ", api_key.as_str()));
            },
            LLMProvider::Anthropic => {
                if !header_value_ok(api_key.as_str()) {
                    return Err(ClientError::InvalidApiKey);
                }
                push_header(&mut headers, "x-api-key", api_key.clone());
                push_header(&mut headers, "anthropic-version", ANTHROPIC_VERSION.to_owned());
            },
            _ => {},
        }
        assert(pairs_view(headers@) =~= default_headers(provider@, api_key@));
        let endpoint = match endpoint {
            Some(url) => url,
            None => ApiClient::default_endpoint(&provider),
        };
        Ok(ApiClient { api_key, provider, endpoint, model, headers })
    }

    /// The address that requests to `provider` go to by default.
    pub fn default_endpoint(provider: &LLMProvider) -> (r: String)
        ensures
            r@ == default_endpoint(provider@),
    {
        match provider {
            LLMProvider::OpenAI => OPENAI_ENDPOINT.to_owned(),
            LLMProvider::Anthropic => ANTHROPIC_ENDPOINT.to_owned(),
            LLMProvider::Local => LOCAL_ENDPOINT.to_owned(),
            LLMProvider::Custom(url) => url.clone(),
        }
    }

    /// The backend of this client.
    pub fn provider(&self) -> (r: &LLMProvider)
        ensures
            r@ == self@.provider,
    {
        &self.provider
    }

    /// The address that requests go to.
    pub fn endpoint(&self) -> (r: &str)
        ensures
            r@ == self@.endpoint,
    {
        self.endpoint.as_str()
    }

    /// The model that the client was made for.
    pub fn model(&self) -> (r: &str)
        ensures
            r@ == self@.model,
    {
        self.model.as_str()
    }

    /// The headers of every request.
    pub fn headers(&self) -> (r: &Vec<(String, String)>)
        ensures
            pairs_view(r@) == self@.headers,
    {
        &self.headers
    }

    /// The system prompt for `mode`.
    pub fn build_system_prompt(&self, mode: &GenerationMode) -> (r: String)
        ensures
            r@ == system_prompt(*mode),
    {
        match mode {
            GenerationMode::Educational => joined(BASE_PROMPT, EDUCATIONAL_SUFFIX),
            GenerationMode::Production => joined(BASE_PROMPT, PRODUCTION_SUFFIX),
        }
    }

    /// The body of a request, in the shape that the backend takes.
    pub fn build_payload(&self, options: &GenerateOptions, system_prompt: &str) -> (r: JsonValue)
        ensures
            r@ == payload(self@.provider, options@, system_prompt@),
    {
        let mut fields: Vec<(String, JsonValue)> = Vec::new();
        assert(fields_view(fields@) =~= Seq::empty());
        match &self.provider {
            LLMProvider::OpenAI => {
                let mut messages: Vec<JsonValue> = Vec::new();
                assert(items_view(messages@) =~= Seq::empty());
                push_item(&mut messages, message("system", system_prompt));
                push_item(&mut messages, message("user", options.prompt.as_str()));
                assert(items_view(messages@) =~= seq![
                    chat_message("system"@, system_prompt@),
                    chat_message("user"@, options@.prompt),
                ]);
                push_field(&mut fields, "messages", JsonValue::array(messages));
                push_field(&mut fields, "temperature", JsonValue::Float(options.temperature));
                push_field(&mut fields, "max_tokens", JsonValue::UInt(options.max_tokens as u64));
            },
            LLMProvider::Anthropic => {
                let mut messages: Vec<JsonValue> = Vec::new();
                assert(items_view(messages@) =~= Seq::empty());
                push_item(&mut messages, message("user", options.prompt.as_str()));
                assert(items_view(messages@) =~= seq![chat_message("user"@, options@.prompt)]);
                push_field(&mut fields, "system", JsonValue::text(system_prompt));
                push_field(&mut fields, "messages", JsonValue::array(messages));
                push_field(&mut fields, "max_tokens", JsonValue::UInt(options.max_tokens as u64));
                push_field(&mut fields, "temperature", JsonValue::Float(options.temperature));
            },
            _ => {
                let mut prompt = joined(system_prompt, "\n\n");
                prompt.append(options.prompt.as_str());
                push_field(&mut fields, "prompt", JsonValue::Str(prompt));
                push_field(&mut fields, "temperature", JsonValue::Float(options.temperature));
                push_field(&mut fields, "max_tokens", JsonValue::UInt(options.max_tokens as u64));
                push_field(&mut fields, "stream", JsonValue::Bool(false));
            },
        }
        let r = JsonValue::object(fields);
        assert(r@->Object_0 =~= payload(self@.provider, options@, system_prompt@)->Object_0);
        r
    }

    /// The text that an answer of the backend carries; empty where the
    /// answer has another shape than the backend's.
    pub fn response_content<'a>(&self, response: &'a JsonValue) -> (r: &'a str)
        ensures
            r@ == response_text(self@.provider, response@),
    {
        let root = Some(response);
        let found = match &self.provider {
            LLMProvider::OpenAI => text_of(
                field_of(
                    field_of(item_of(field_of(root, "choices"), 0), "message"),
                    "content",
                ),
            ),
            LLMProvider::Anthropic => text_of(
                field_of(item_of(field_of(root, "content"), 0), "text"),
            ),
            _ => match text_of(field_of(root, "response")) {
                Some(s) => Some(s),
                None => text_of(field_of(root, "content")),
            },
        };
        match found {
            Some(s) => s,
            None => {
                let empty = "";
                proof {
                    reveal_strlit("");
                }
                assert(empty@ =~= Seq::<char>::empty());
                empty
            },
        }
    }

    /// Splits the text of an answer into its code and its explanation.
    pub fn extract_code_from_content(&self, content: &str) -> (r: Result<
        (String, Option<String>),
        ClientError,
    >)
        ensures
            match fenced_blocks(content@) {
                Some(spans) => r matches Ok(parts) && parts.0@ == code_of(content@, spans)
                    && option_text(parts.1) == explanation_of(content@, spans),
                None => r == Err::<(String, Option<String>), ClientError>(ClientError::Pattern),
            },
    {
        match extract(content) {
            Ok(parts) => Ok(parts),
            Err(_) => Err(ClientError::Pattern),
        }
    }

    /// Reads an answer of the backend: the code and the explanation of its
    /// text, under the language that was asked for.
    pub fn parse_response(&self, response: &JsonValue, language: &str) -> (r: Result<
        GenerateResult,
        ClientError,
    >)
        ensures
            result_view(r) == read_content(response_text(self@.provider, response@), language@),
    {
        let content = self.response_content(response);
        match self.extract_code_from_content(content) {
            Ok(parts) => {
                let result = GenerateResult {
                    code: parts.0,
                    language: language.to_owned(),
                    explanation: parts.1,
                    tools_used: Vec::new(),
                };
                assert(result@.tools_used =~= Seq::empty());
                Ok(result)
            },
            Err(error) => Err(error),
        }
    }

    /// What is to be sent for `options`: a POST to the endpoint, with the
    /// client's headers and the payload for the options under the system
    /// prompt of their mode.
    pub fn request(&self, options: &GenerateOptions) -> (r: HttpRequest)
        ensures
            r.url@ == self@.endpoint,
            pairs_view(r.headers@) == self@.headers,
            r.body@ == payload(self@.provider, options@, system_prompt(options.mode)),
    {
        let prompt = self.build_system_prompt(&options.mode);
        let body = self.build_payload(options, prompt.as_str());
        let mut headers: Vec<(String, String)> = Vec::new();
        let mut i: usize = 0;
        while i < self.headers.len()
            invariant
                i <= self.headers.len(),
                headers@.len() == i,
                forall|j: int|
                    0 <= j < i ==> (#[trigger] headers@[j]).0@ == self.headers@[j].0@
                        && headers@[j].1@ == self.headers@[j].1@,
            decreases self.headers.len() - i,
        {
            headers.push((self.headers[i].0.clone(), self.headers[i].1.clone()));
            i += 1;
        }
        assert(pairs_view(headers@) =~= pairs_view(self.headers@));
        HttpRequest { url: self.endpoint.clone(), headers, body }
    }

    /// The result of a request for code, given how its round trip ended.
    pub fn generate(&self, options: &GenerateOptions, outcome: HttpOutcome) -> (r: Result<
        GenerateResult,
        ClientError,
    >)
        ensures
            result_view(r) == outcome_result(self@.provider, options@.language, outcome@),
    {
        match outcome {
            HttpOutcome::Failed { reason } => Err(ClientError::Transport { reason }),
            HttpOutcome::Answered { status, body, json } => {
                if !(200 <= status && status < 300) {
                    return Err(ClientError::HttpStatus { status, body });
                }
                match json {
                    Some(document) => self.parse_response(&document, options.language.as_str()),
                    None => Err(ClientError::ResponseParse),
                }
            },
        }
    }
}

/// The holder of an API key, from which clients for the backends are made.
#[derive(Debug, Clone, PartialEq, Eq)]
pub struct CraiteClient {
    api_key: String,
}

impl View for CraiteClient {
    type V = Seq<char>;

    closed spec fn view(&self) -> Seq<char> {
        self.api_key@
    }
}

impl CraiteClient {
    /// The holder of `api_key`.
    pub fn new(api_key: &str) -> (r: Self)
        ensures
            r@ == api_key@,
    {
        CraiteClient { api_key: api_key.to_owned() }
    }

    /// The key that is held.
    pub fn api_key(&self) -> (r: &str)
        ensures
            r@ == self@,
    {
        self.api_key.as_str()
    }

    /// A client for `provider` that uses the key that is held.
    pub fn api_client(
        &self,
        provider: LLMProvider,
        endpoint: Option<String>,
        model: String,
    ) -> (r: Result<ApiClient, ClientError>)
        ensures
            match r {
                Ok(client) => {
                    &&& sends_key(provider@) ==> is_header_value(self@)
                    &&& client@ == client_of(
                        self@,
                        provider@,
                        option_text(endpoint),
                        model@,
                    )
                },
                Err(error) => {
                    &&& error == ClientError::InvalidApiKey
                    &&& sends_key(provider@)
                    &&& !is_header_value(self@)
                },
            },
    {
        ApiClient::new(self.api_key.clone(), provider, endpoint, model)
    }
}

/// The keys of the payload for each backend: those of its own shape and no
/// others.
pub proof fn lemma_payload_keys(
    provider: ProviderModel,
    options: OptionsModel,
    system_prompt: Seq<char>,
)
    ensures
        provider is OpenAI ==> payload(provider, options, system_prompt).keys() == seq![
            "messages"@,
            "temperature"@,
            "max_tokens"@,
        ],
        provider is Anthropic ==> payload(provider, options, system_prompt).keys() == seq![
            "system"@,
            "messages"@,
            "max_tokens"@,
            "temperature"@,
        ],
        provider is Local || provider is Custom ==> payload(
            provider,
            options,
            system_prompt,
        ).keys() == seq!["prompt"@, "temperature"@, "max_tokens"@, "stream"@],
{
    let keys = payload(provider, options, system_prompt).keys();
    match provider {
        ProviderModel::OpenAI => {
            assert(keys =~= seq!["messages"@, "temperature"@, "max_tokens"@]);
        },
        ProviderModel::Anthropic => {
            assert(keys =~= seq!["system"@, "messages"@, "max_tokens"@, "temperature"@]);
        },
        _ => {
            assert(keys =~= seq!["prompt"@, "temperature"@, "max_tokens"@, "stream"@]);
        },
    }
}

/// The result of a request carries the language that was asked for, whatever
/// the backend wrote.
pub proof fn lemma_result_echoes_language(
    provider: ProviderModel,
    language: Seq<char>,
    outcome: OutcomeModel,
)
    ensures
        outcome_result(provider, language, outcome) matches Ok(result) ==> result.language
            == language && result.tools_used == Seq::<Seq<char>>::empty(),
{
}

} // verus!
