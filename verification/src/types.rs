//! Question and answer model, and the client configuration.

use crate::json::{Json, JsonV, jv};
use vstd::prelude::*;

verus! {

/// How a question is delivered to the human answering it.
#[derive(Clone, Copy, Debug, PartialEq, Eq, Structural)]
pub enum QuestionMethod {
    /// Delivery by push notification, the one mechanism the service offers.
    Push,
}

/// The shape of answer a question expects.
#[derive(Clone, Debug, PartialEq)]
pub enum AnswerFormat {
    /// Any text typed by the human.
    FreeText,
    /// A selection among fixed choices; `multiple` allows more than one.
    Options { options: Vec<String>, multiple: bool },
}

/// The mathematical shape of an [`AnswerFormat`].
#[verifier::ext_equal]
pub ghost enum FormatV {
    FreeText,
    Options { options: Seq<Seq<char>>, multiple: bool },
}

impl DeepView for AnswerFormat {
    type V = FormatV;

    open spec fn deep_view(&self) -> FormatV {
        match self {
            AnswerFormat::FreeText => FormatV::FreeText,
            AnswerFormat::Options { options, multiple } => FormatV::Options {
                options: options.deep_view(),
                multiple: *multiple,
            },
        }
    }
}

/// A question put to a human.
#[derive(Clone, Debug, PartialEq)]
pub struct ConfirmationQuestion {
    /// The delivery mechanism.
    pub method: QuestionMethod,
    /// The question's subject or title.
    pub subject: String,
    /// An optional detailed body.
    pub body: Option<String>,
    /// The shape of the expected answer.
    pub answer_format: AnswerFormat,
}

/// The mathematical shape of a [`ConfirmationQuestion`].
#[verifier::ext_equal]
pub ghost struct QuestionV {
    pub method: QuestionMethod,
    pub subject: Seq<char>,
    pub body: Option<Seq<char>>,
    pub answer_format: FormatV,
}

impl DeepView for ConfirmationQuestion {
    type V = QuestionV;

    open spec fn deep_view(&self) -> QuestionV {
        QuestionV {
            method: self.method,
            subject: self.subject@,
            body: self.body.deep_view(),
            answer_format: self.answer_format.deep_view(),
        }
    }
}

/// What the human answered.
#[derive(Clone, Debug, PartialEq)]
pub enum AnswerContent {
    /// The text of a free-text answer.
    FreeText { text: String },
    /// The selected positions, as indices into the question's options.
    Options { selected_indexes: Vec<u32> },
}

/// The mathematical shape of an [`AnswerContent`].
#[verifier::ext_equal]
pub ghost enum ContentV {
    FreeText { text: Seq<char> },
    Options { selected_indexes: Seq<u32> },
}

impl DeepView for AnswerContent {
    type V = ContentV;

    open spec fn deep_view(&self) -> ContentV {
        match self {
            AnswerContent::FreeText { text } => ContentV::FreeText { text: text@ },
            AnswerContent::Options { selected_indexes } => ContentV::Options {
                selected_indexes: selected_indexes.deep_view(),
            },
        }
    }
}

/// An answer to a confirmation question.
#[derive(Clone, Debug, PartialEq)]
pub struct ConfirmationAnswer {
    /// The answer itself.
    pub answer_content: AnswerContent,
}

/// The mathematical shape of a [`ConfirmationAnswer`].
#[verifier::ext_equal]
pub ghost struct AnswerV {
    pub answer_content: ContentV,
}

impl DeepView for ConfirmationAnswer {
    type V = AnswerV;

    open spec fn deep_view(&self) -> AnswerV {
        AnswerV { answer_content: self.answer_content.deep_view() }
    }
}

/// An answer together with the timestamp the server recorded. The
/// timestamp is opaque to this library and carried through as the JSON
/// value the server sent.
#[derive(Debug, PartialEq)]
pub struct ConfirmationAnswerWithDate {
    /// The answer.
    pub answer: ConfirmationAnswer,
    /// When it was given, as the server encoded it.
    pub date: Json,
}

/// The mathematical shape of a [`ConfirmationAnswerWithDate`].
#[verifier::ext_equal]
pub ghost struct AnswerWithDateV {
    pub answer: AnswerV,
    pub date: JsonV,
}

impl DeepView for ConfirmationAnswerWithDate {
    type V = AnswerWithDateV;

    open spec fn deep_view(&self) -> AnswerWithDateV {
        AnswerWithDateV { answer: self.answer.deep_view(), date: jv(self.date) }
    }
}

/// Configuration for a client: a mandatory API key and an optional
/// endpoint override.
#[derive(Clone, Debug)]
pub struct WaitHumanConfig {
    /// API key sent as the `Authorization` header (mandatory, non-empty).
    pub api_key: String,
    /// Optional custom endpoint URL; when absent the default endpoint is used.
    pub endpoint: Option<String>,
}

impl WaitHumanConfig {
    /// Creates a configuration with the given API key and no endpoint override.
    pub fn new(api_key: String) -> (r: WaitHumanConfig)
        ensures
            r.api_key == api_key,
            r.endpoint is None,
    {
        WaitHumanConfig { api_key, endpoint: None }
    }

    /// Sets the endpoint URL.
    pub fn with_endpoint(self, endpoint: String) -> (r: WaitHumanConfig)
        ensures
            r.api_key == self.api_key,
            r.endpoint == Some(endpoint),
    {
        WaitHumanConfig { api_key: self.api_key, endpoint: Some(endpoint) }
    }
}

/// Options for a single ask request.
#[derive(Clone, Debug)]
pub struct AskOptions {
    /// Optional timeout in seconds; with `None` the poll loop runs until
    /// an answer arrives.
    pub timeout_seconds: Option<u64>,
}

impl Default for AskOptions {
    /// The default options carry no timeout.
    fn default() -> (r: AskOptions)
        ensures
            r.timeout_seconds is None,
    {
        AskOptions { timeout_seconds: None }
    }
}

} // verus!
