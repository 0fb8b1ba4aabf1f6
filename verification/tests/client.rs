use craite::client::{
    header_value_ok, ANTHROPIC_ENDPOINT, BASE_PROMPT, LOCAL_ENDPOINT, OPENAI_ENDPOINT,
    REQUEST_TIMEOUT_SECS,
};
use craite::{
    create_client, ApiClient, ClientError, GenerateOptions, GenerateResult, GenerationMode,
    HttpOutcome, JsonValue, LLMProvider,
};

fn text(s: &str) -> JsonValue {
    JsonValue::Str(s.to_string())
}

fn object(fields: Vec<(&str, JsonValue)>) -> JsonValue {
    JsonValue::Object(fields.into_iter().map(|(k, v)| (k.to_string(), v)).collect())
}

fn client(provider: LLMProvider) -> ApiClient {
    ApiClient::new("sk-test".to_string(), provider, None, "model-x".to_string()).unwrap()
}

fn options() -> GenerateOptions {
    GenerateOptions {
        prompt: "Create a DAO contract with voting".to_string(),
        language: "solidity".to_string(),
        mode: GenerationMode::Production,
        temperature: 0.7f64.to_bits(),
        max_tokens: 2000,
    }
}

fn pair(name: &str, value: &str) -> (String, String) {
    (name.to_string(), value.to_string())
}

fn answered(status: u16, body: &str, json: Option<JsonValue>) -> HttpOutcome {
    HttpOutcome::Answered { status, body: body.to_string(), json }
}

fn openai_answer(content: &str) -> JsonValue {
    object(vec![(
        "choices",
        JsonValue::Array(vec![object(vec![(
            "message",
            object(vec![("role", text("assistant")), ("content", text(content))]),
        )])]),
    )])
}

#[test]
fn create_client_holds_the_key() {
    let holder = create_client("sk-123");
    assert_eq!(holder.api_key(), "sk-123");
    let api = holder.api_client(LLMProvider::Anthropic, None, "m".to_string()).unwrap();
    assert_eq!(
        api.headers(),
        &vec![
            pair("content-type", "application/json"),
            pair("x-api-key", "sk-123"),
            pair("anthropic-version", "2023-06-01"),
        ]
    );
    assert!(create_client("bad\nkey").api_client(LLMProvider::OpenAI, None, "m".to_string()).is_err());
}

#[test]
fn each_provider_has_its_default_endpoint() {
    assert_eq!(OPENAI_ENDPOINT, "https://api.openai.com/v1/chat/completions");
    assert_eq!(ANTHROPIC_ENDPOINT, "https://api.anthropic.com/v1/messages");
    assert_eq!(LOCAL_ENDPOINT, "http://localhost:11434/api/generate");
    assert_eq!(ApiClient::default_endpoint(&LLMProvider::OpenAI), OPENAI_ENDPOINT);
    assert_eq!(ApiClient::default_endpoint(&LLMProvider::Anthropic), ANTHROPIC_ENDPOINT);
    assert_eq!(ApiClient::default_endpoint(&LLMProvider::Local), LOCAL_ENDPOINT);
    assert_eq!(
        ApiClient::default_endpoint(&LLMProvider::Custom("http://my.host/gen".to_string())),
        "http://my.host/gen"
    );
    assert_eq!(client(LLMProvider::OpenAI).endpoint(), OPENAI_ENDPOINT);
    assert_eq!(
        client(LLMProvider::Custom("http://my.host/gen".to_string())).endpoint(),
        "http://my.host/gen"
    );
    assert_eq!(REQUEST_TIMEOUT_SECS, 30);
}

#[test]
fn a_given_endpoint_replaces_the_default() {
    let api = ApiClient::new(
        "k".to_string(),
        LLMProvider::OpenAI,
        Some("https://proxy.example/v1".to_string()),
        "gpt".to_string(),
    )
    .unwrap();
    assert_eq!(api.endpoint(), "https://proxy.example/v1");
    assert_eq!(api.model(), "gpt");
    assert_eq!(api.provider(), &LLMProvider::OpenAI);
}

#[test]
fn each_provider_has_its_headers() {
    assert_eq!(
        client(LLMProvider::OpenAI).headers(),
        &vec![pair("content-type", "application/json"), pair("authorization", "Bearer sk-test")]
    );
    assert_eq!(
        client(LLMProvider::Anthropic).headers(),
        &vec![
            pair("content-type", "application/json"),
            pair("x-api-key", "sk-test"),
            pair("anthropic-version", "2023-06-01"),
        ]
    );
    assert_eq!(
        client(LLMProvider::Local).headers(),
        &vec![pair("content-type", "application/json")]
    );
    assert_eq!(
        client(LLMProvider::Custom("http://h".to_string())).headers(),
        &vec![pair("content-type", "application/json")]
    );
}

#[test]
fn a_key_that_cannot_stand_in_a_header_is_refused() {
    for provider in [LLMProvider::OpenAI, LLMProvider::Anthropic] {
        let r = ApiClient::new("bad\nkey".to_string(), provider, None, "m".to_string());
        assert_eq!(r, Err(ClientError::InvalidApiKey));
    }
    let del = ApiClient::new("a\u{7f}".to_string(), LLMProvider::OpenAI, None, "m".to_string());
    assert_eq!(del, Err(ClientError::InvalidApiKey));
    assert!(ApiClient::new("bad\nkey".to_string(), LLMProvider::Local, None, "m".to_string()).is_ok());
    assert!(ApiClient::new(
        "bad\nkey".to_string(),
        LLMProvider::Custom("http://h".to_string()),
        None,
        "m".to_string()
    )
    .is_ok());
    assert!(ApiClient::new("tab\tis fine é".to_string(), LLMProvider::OpenAI, None, "m".to_string())
        .is_ok());
}

#[test]
fn header_values_exclude_control_characters() {
    assert!(header_value_ok(""));
    assert!(header_value_ok("Bearer abc-123_~"));
    assert!(header_value_ok("with\ttab"));
    assert!(header_value_ok("ünïcödé"));
    assert!(!header_value_ok("line\nbreak"));
    assert!(!header_value_ok("carriage\rreturn"));
    assert!(!header_value_ok("nul\0"));
    assert!(!header_value_ok("del\u{7f}"));
    assert!(!header_value_ok("\u{1f}"));
}

#[test]
fn the_system_prompt_follows_the_mode() {
    let api = client(LLMProvider::Local);
    assert_eq!(
        api.build_system_prompt(&GenerationMode::Educational),
        "You are CRAITE, an elite Web3 code generator and AI development assistant. You \
         specialize in blockchain development, smart contracts, dApps, DeFi protocols, and NFTs. \
         Generate production-ready, secure, and optimized code following best practices.\n\
         Provide detailed explanations and comments to help the user learn."
    );
    assert_eq!(
        api.build_system_prompt(&GenerationMode::Production),
        format!(
            "{}\nGenerate clean, production-ready code with minimal but essential comments.",
            BASE_PROMPT
        )
    );
}

#[test]
fn the_openai_payload_has_two_messages() {
    let payload = client(LLMProvider::OpenAI).build_payload(&options(), "SYSTEM");
    let expected = object(vec![
        (
            "messages",
            JsonValue::Array(vec![
                object(vec![("role", text("system")), ("content", text("SYSTEM"))]),
                object(vec![
                    ("role", text("user")),
                    ("content", text("Create a DAO contract with voting")),
                ]),
            ]),
        ),
        ("temperature", JsonValue::Float(0.7f64.to_bits())),
        ("max_tokens", JsonValue::UInt(2000)),
    ]);
    assert_eq!(payload, expected);
    assert_eq!(payload.member("model"), None);
    assert_eq!(payload.member("system"), None);
    assert_eq!(payload.member("prompt"), None);
    assert_eq!(payload.member("stream"), None);
}

#[test]
fn the_anthropic_payload_has_the_system_prompt_beside_the_messages() {
    let payload = client(LLMProvider::Anthropic).build_payload(&options(), "SYSTEM");
    let expected = object(vec![
        ("system", text("SYSTEM")),
        (
            "messages",
            JsonValue::Array(vec![object(vec![
                ("role", text("user")),
                ("content", text("Create a DAO contract with voting")),
            ])]),
        ),
        ("max_tokens", JsonValue::UInt(2000)),
        ("temperature", JsonValue::Float(0.7f64.to_bits())),
    ]);
    assert_eq!(payload, expected);
    assert_eq!(payload.member("prompt"), None);
    assert_eq!(payload.member("stream"), None);
}

#[test]
fn the_local_payload_has_one_prompt() {
    for provider in [LLMProvider::Local, LLMProvider::Custom("http://h".to_string())] {
        let payload = client(provider).build_payload(&options(), "SYSTEM");
        let expected = object(vec![
                ("prompt", text("SYSTEM\n\nCreate a DAO contract with voting")),
            ("temperature", JsonValue::Float(0.7f64.to_bits())),
            ("max_tokens", JsonValue::UInt(2000)),
            ("stream", JsonValue::Bool(false)),
        ]);
        assert_eq!(payload, expected);
        assert_eq!(payload.member("messages"), None);
        assert_eq!(payload.member("system"), None);
    }
}

#[test]
fn a_request_goes_to_the_endpoint_with_the_headers() {
    let api = client(LLMProvider::OpenAI);
    let request = api.request(&options());
    assert_eq!(request.url, OPENAI_ENDPOINT);
    assert_eq!(&request.headers, api.headers());
    let prompt = api.build_system_prompt(&GenerationMode::Production);
    assert_eq!(request.body, api.build_payload(&options(), &prompt));
}

#[test]
fn each_provider_reads_its_own_answer() {
    let openai = openai_answer("from openai");
    let anthropic = object(vec![(
        "content",
        JsonValue::Array(vec![object(vec![("type", text("text")), ("text", text("from anthropic"))])]),
    )]);
    let local = object(vec![("response", text("from local")), ("content", text("ignored"))]);
    let fallback = object(vec![("response", JsonValue::Int(1)), ("content", text("from content"))]);
    assert_eq!(client(LLMProvider::OpenAI).response_content(&openai), "from openai");
    assert_eq!(client(LLMProvider::Anthropic).response_content(&anthropic), "from anthropic");
    assert_eq!(client(LLMProvider::Local).response_content(&local), "from local");
    assert_eq!(client(LLMProvider::Local).response_content(&fallback), "from content");
    assert_eq!(
        client(LLMProvider::Custom("http://h".to_string())).response_content(&local),
        "from local"
    );
}

#[test]
fn an_answer_of_another_shape_reads_as_empty() {
    let openai = openai_answer("x");
    let local = object(vec![("response", text("y"))]);
    assert_eq!(client(LLMProvider::Anthropic).response_content(&openai), "");
    assert_eq!(client(LLMProvider::Local).response_content(&openai), "");
    assert_eq!(client(LLMProvider::OpenAI).response_content(&local), "");
    assert_eq!(client(LLMProvider::OpenAI).response_content(&JsonValue::Null), "");
    let empty_choices = object(vec![("choices", JsonValue::Array(Vec::new()))]);
    assert_eq!(client(LLMProvider::OpenAI).response_content(&empty_choices), "");
    let wrong_type = object(vec![(
        "choices",
        JsonValue::Array(vec![object(vec![("message", object(vec![("content", JsonValue::Int(3))]))])]),
    )]);
    assert_eq!(client(LLMProvider::OpenAI).response_content(&wrong_type), "");
    let parsed = client(LLMProvider::OpenAI).parse_response(&JsonValue::Null, "rust").unwrap();
    assert_eq!(
        parsed,
        GenerateResult {
            code: String::new(),
            language: "rust".to_string(),
            explanation: None,
            tools_used: Vec::new(),
        }
    );
}

#[test]
fn parse_response_splits_code_and_explanation() {
    let answer = openai_answer("Here:\n```solidity\ncontract Dao {}\n```\nDone.");
    let result = client(LLMProvider::OpenAI).parse_response(&answer, "solidity").unwrap();
    assert_eq!(
        result,
        GenerateResult {
            code: "contract Dao {}".to_string(),
            language: "solidity".to_string(),
            explanation: Some("Here:\n\nDone.".to_string()),
            tools_used: Vec::new(),
        }
    );
}

#[test]
fn the_result_echoes_the_language_asked_for() {
    let answer = openai_answer("```python\nprint(1)\n```");
    let result = client(LLMProvider::OpenAI).parse_response(&answer, "solidity").unwrap();
    assert_eq!(result.language, "solidity");
    assert_eq!(result.code, "print(1)");
}

#[test]
fn generate_reads_a_successful_answer() {
    let api = client(LLMProvider::OpenAI);
    let json = openai_answer("```solidity\ncontract Dao {}\n```");
    let result = api.generate(&options(), answered(200, "{...}", Some(json))).unwrap();
    assert_eq!(
        result,
        GenerateResult {
            code: "contract Dao {}".to_string(),
            language: "solidity".to_string(),
            explanation: None,
            tools_used: Vec::new(),
        }
    );
    let edge = api.generate(&options(), answered(299, "", Some(openai_answer("plain")))).unwrap();
    assert_eq!(edge.code, "plain");
}

#[test]
fn generate_reports_a_failed_transport() {
    let api = client(LLMProvider::OpenAI);
    let result = api.generate(&options(), HttpOutcome::Failed { reason: "timed out".to_string() });
    assert_eq!(result, Err(ClientError::Transport { reason: "timed out".to_string() }));
}

#[test]
fn generate_reports_a_bad_status_with_the_body() {
    let api = client(LLMProvider::OpenAI);
    for status in [199u16, 300, 401, 404, 500] {
        let outcome = answered(status, "{\"error\":\"no\"}", Some(openai_answer("ignored")));
        assert_eq!(
            api.generate(&options(), outcome),
            Err(ClientError::HttpStatus { status, body: "{\"error\":\"no\"}".to_string() })
        );
    }
}

#[test]
fn generate_reports_a_body_that_is_no_json() {
    let api = client(LLMProvider::OpenAI);
    let result = api.generate(&options(), answered(200, "<html>", None));
    assert_eq!(result, Err(ClientError::ResponseParse));
}

#[test]
fn errors_tell_what_happened() {
    assert_eq!(ClientError::InvalidApiKey.message(), "failed to parse header value");
    assert_eq!(
        ClientError::Transport { reason: "refused".to_string() }.message(),
        "Failed to send request: refused"
    );
    assert_eq!(
        ClientError::HttpStatus { status: 500, body: "boom".to_string() }.message(),
        "API error: boom"
    );
    assert_eq!(ClientError::ResponseParse.message(), "Failed to parse response");
    assert_eq!(ClientError::Pattern.message(), "Failed to compile the code block pattern");
}
