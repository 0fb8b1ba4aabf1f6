//! The values that a caller hands to the generation client and gets back.

use crate::json::{option_text, strings_view};
use vstd::prelude::*;
use vstd::string::*;

verus! {

/// The backend that a client talks to. It decides the endpoint, the headers
/// that authenticate a request, and the shape of requests and answers.
#[derive(Debug, Clone, PartialEq, Eq)]
pub enum LLMProvider {
    OpenAI,
    Anthropic,
    /// A model served on this machine.
    Local,
    /// A service at the given address that speaks as a local model does.
    Custom(String),
}

/// The mathematical model of a backend.
pub enum ProviderModel {
    OpenAI,
    Anthropic,
    Local,
    Custom(Seq<char>),
}

impl View for LLMProvider {
    type V = ProviderModel;

    open spec fn view(&self) -> ProviderModel {
        match self {
            LLMProvider::OpenAI => ProviderModel::OpenAI,
            LLMProvider::Anthropic => ProviderModel::Anthropic,
            LLMProvider::Local => ProviderModel::Local,
            LLMProvider::Custom(url) => ProviderModel::Custom(url@),
        }
    }
}

/// What the code is written for: to be learnt from, or to be deployed.
#[derive(Debug, Clone, Copy, PartialEq, Eq)]
pub enum GenerationMode {
    Educational,
    Production,
}

/// One request for code.
#[derive(Debug, Clone, PartialEq, Eq)]
pub struct GenerateOptions {
    /// What the code is to do, in the caller's words.
    pub prompt: String,
    /// The language asked for, such as `solidity`.
    pub language: String,
    pub mode: GenerationMode,
    /// The sampling temperature, a binary64 number held as its IEEE-754 bit
    /// pattern. It is handed to the backend as it is.
    pub temperature: u64,
    /// The most tokens that the backend may answer with.
    pub max_tokens: u32,
}

/// The mathematical model of a request for code.
pub struct OptionsModel {
    pub prompt: Seq<char>,
    pub language: Seq<char>,
    pub mode: GenerationMode,
    pub temperature: u64,
    pub max_tokens: u32,
}

impl View for GenerateOptions {
    type V = OptionsModel;

    open spec fn view(&self) -> OptionsModel {
        OptionsModel {
            prompt: self.prompt@,
            language: self.language@,
            mode: self.mode,
            temperature: self.temperature,
            max_tokens: self.max_tokens,
        }
    }
}

/// What a request for code gave.
#[derive(Debug, Clone, PartialEq, Eq)]
pub struct GenerateResult {
    pub code: String,
    /// The language that was asked for. It is not checked against the code.
    pub language: String,
    /// The prose around the code, if there was any.
    pub explanation: Option<String>,
    /// The tools that took part, in order.
    pub tools_used: Vec<String>,
}

/// The mathematical model of the result of a request for code.
pub struct ResultModel {
    pub code: Seq<char>,
    pub language: Seq<char>,
    pub explanation: Option<Seq<char>>,
    pub tools_used: Seq<Seq<char>>,
}

impl View for GenerateResult {
    type V = ResultModel;

    open spec fn view(&self) -> ResultModel {
        ResultModel {
            code: self.code@,
            language: self.language@,
            explanation: option_text(self.explanation),
            tools_used: strings_view(self.tools_used@),
        }
    }
}

} // verus!
