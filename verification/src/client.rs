//! The client: configuration, request building, and the decisions of the
//! create-then-poll protocol.
//!
//! An ask is one creation request followed by a poll loop. The transport —
//! sending the HTTP requests, reading the clock, sleeping between polls —
//! is the caller's unverified shell; every decision it takes is a verified
//! function here: what to send ([`WaitHuman::create_url`],
//! [`create_request_body`](crate::wire::create_request_body)), what a
//! response means ([`handle_create_response`], [`handle_poll_response`]),
//! and when to give up ([`check_timeout`]).

use crate::error::{ErrorV, WaitHumanError};
use crate::json::clone_string;
use crate::types::{
    AnswerContent, AnswerFormat, AskOptions, ConfirmationAnswerWithDate, ConfirmationQuestion,
    ContentV, QuestionMethod, WaitHumanConfig,
};
use crate::wire::{
    json_of, spec_decode_create_response, spec_decode_poll_body, decode_create_response,
    decode_poll_body, parse_json_doc,
};
use vstd::prelude::*;

verus! {

/// Milliseconds slept between two polls.
pub const POLL_INTERVAL_MS: u64 = 3000;

/// The endpoint used when the configuration does not override it.
pub open spec fn default_endpoint() -> Seq<char> {
    "https://api.waithuman.com"@
}

/// An endpoint with one trailing slash removed.
pub open spec fn spec_strip_trailing_slash(s: Seq<char>) -> Seq<char> {
    if s.len() > 0 && s.last() == '/' {
        s.drop_last()
    } else {
        s
    }
}

/// The endpoint a configuration selects: the override when present, the
/// default otherwise, a trailing slash stripped either way.
pub open spec fn spec_endpoint_of(config: WaitHumanConfig) -> Seq<char> {
    spec_strip_trailing_slash(
        match config.endpoint {
            Some(e) => e@,
            None => default_endpoint(),
        },
    )
}

/// Removes one trailing slash, as [`spec_strip_trailing_slash`] states.
fn strip_trailing_slash(s: String) -> (r: String)
    ensures
        r@ == spec_strip_trailing_slash(s@),
{
    let n = s.as_str().unicode_len();
    if n > 0 && s.as_str().get_char(n - 1) == '/' {
        let r = s.as_str().substring_char(0, n - 1).to_owned();
        proof {
            assert(r@ =~= s@.drop_last());
        }
        r
    } else {
        s
    }
}

/// The confirmation client: an API key and the endpoint it talks to.
/// Both are fixed at construction; a client can be shared freely.
#[derive(Clone, Debug)]
pub struct WaitHuman {
    /// The API key, sent as the `Authorization` header of every request.
    pub api_key: String,
    /// The endpoint, with no trailing slash beyond what construction kept.
    pub endpoint: String,
}

impl WaitHuman {
    /// Creates a client from a configuration. Fails exactly when the API
    /// key is empty, before anything else happens.
    pub fn new(config: WaitHumanConfig) -> (r: Result<WaitHuman, WaitHumanError>)
        ensures
            config.api_key@.len() == 0 ==> (r matches Err(e) && e.deep_view()
                == ErrorV::InvalidResponse("api_key is mandatory"@)),
            config.api_key@.len() > 0 ==> (r matches Ok(c) && c.api_key@ == config.api_key@
                && c.endpoint@ == spec_endpoint_of(config)),
    {
        if config.api_key.as_str().is_empty() {
            return Err(WaitHumanError::InvalidResponse("api_key is mandatory".to_owned()));
        }
        let base = match config.endpoint {
            Some(e) => e,
            None => "https://api.waithuman.com".to_owned(),
        };
        let endpoint = strip_trailing_slash(base);
        Ok(WaitHuman { api_key: config.api_key, endpoint })
    }

    /// Creates a client from just an API key, with the default endpoint.
    pub fn new_from_key(api_key: String) -> (r: Result<WaitHuman, WaitHumanError>)
        ensures
            api_key@.len() == 0 ==> (r matches Err(e) && e.deep_view()
                == ErrorV::InvalidResponse("api_key is mandatory"@)),
            api_key@.len() > 0 ==> (r matches Ok(c) && c.api_key@ == api_key@
                && c.endpoint@ == spec_strip_trailing_slash(default_endpoint())),
    {
        WaitHuman::new(WaitHumanConfig::new(api_key))
    }

    /// The URL confirmations are created at.
    pub fn create_url(&self) -> (r: String)
        ensures
            r@ == self.endpoint@ + "/confirmations/create"@,
    {
        clone_string(&self.endpoint).concat("/confirmations/create")
    }

    /// The URL a confirmation's status is polled at. Long polling is
    /// deliberately disabled: this client polls at a fixed interval.
    pub fn poll_url(&self, confirmation_id: &str) -> (r: String)
        ensures
            r@ == self.endpoint@ + "/confirmations/get/"@ + confirmation_id@
                + "?long_poll=false"@,
    {
        let mut u = clone_string(&self.endpoint);
        u.append("/confirmations/get/");
        u.append(confirmation_id);
        u.append("?long_poll=false");
        u
    }
}

/// Builds a free-text question with the push delivery method.
pub fn build_free_text_question(subject: String, body: Option<String>) -> (r: ConfirmationQuestion)
    ensures
        r.method == QuestionMethod::Push,
        r.subject == subject,
        r.body == body,
        r.answer_format == AnswerFormat::FreeText,
{
    ConfirmationQuestion {
        method: QuestionMethod::Push,
        subject,
        body,
        answer_format: AnswerFormat::FreeText,
    }
}

/// Builds a single-selection multiple-choice question with the push
/// delivery method. The choices are materialized in the question exactly
/// as given, in order.
pub fn build_multiple_choice_question(
    subject: String,
    choices: Vec<String>,
    body: Option<String>,
) -> (r: ConfirmationQuestion)
    ensures
        r.method == QuestionMethod::Push,
        r.subject == subject,
        r.body == body,
        r.answer_format == (AnswerFormat::Options { options: choices, multiple: false }),
{
    ConfirmationQuestion {
        method: QuestionMethod::Push,
        subject,
        body,
        answer_format: AnswerFormat::Options { options: choices, multiple: false },
    }
}

/// The Debug rendering of an answer's content: what `format!("{:?}", ..)`
/// prints for it, a function of the content alone, reached through
/// [`debug_content`]. It fills the `actual` field of an
/// unexpected-answer-type error.
pub uninterp spec fn content_debug_of(c: ContentV) -> Seq<char>;

/// Relies on the derived Debug rendering of `AnswerContent`: a
/// deterministic function of the content alone, named by
/// [`content_debug_of`].
#[verifier::external_body]
fn debug_content(c: &AnswerContent) -> (r: String)
    ensures
        r@ == content_debug_of(c.deep_view()),
{
    format!("{:?}", c)
}

/// Narrows an answer to its free text. Any other content is an
/// unexpected-answer-type error carrying the Debug rendering of what was
/// received.
pub fn extract_free_text(answer: ConfirmationAnswerWithDate) -> (r: Result<
    String,
    WaitHumanError,
>)
    ensures
        match answer.answer.answer_content {
            AnswerContent::FreeText { text } => r matches Ok(t) && t == text,
            AnswerContent::Options { .. } => r matches Err(e) && e.deep_view()
                == (ErrorV::UnexpectedAnswerType {
                    expected: "free_text"@,
                    actual: content_debug_of(answer.answer.answer_content.deep_view()),
                }),
        },
{
    match answer.answer.answer_content {
        AnswerContent::FreeText { text } => Ok(text),
        other => Err(WaitHumanError::UnexpectedAnswerType {
            expected: "free_text".to_owned(),
            actual: debug_content(&other),
        }),
    }
}

/// Narrows an answer to the chosen option's text: the first selected
/// index, read against the question's own choices. An empty selection and
/// an out-of-range index are each their own error; free-text content is an
/// unexpected-answer-type error carrying the Debug rendering of what was
/// received.
pub fn select_choice(choices: &Vec<String>, answer: ConfirmationAnswerWithDate) -> (r: Result<
    String,
    WaitHumanError,
>)
    ensures
        match answer.answer.answer_content {
            AnswerContent::Options { selected_indexes } => {
                if selected_indexes@.len() == 0 {
                    r matches Err(e) && e.deep_view() == ErrorV::InvalidResponse(
                        "No selection received"@,
                    )
                } else if selected_indexes@[0] < choices@.len() {
                    r matches Ok(c) && c@ == choices@[selected_indexes@[0] as int]@
                } else {
                    r matches Err(e) && e.deep_view() == (ErrorV::InvalidSelectedIndex {
                        index: selected_indexes@[0],
                    })
                }
            },
            AnswerContent::FreeText { .. } => r matches Err(e) && e.deep_view()
                == (ErrorV::UnexpectedAnswerType {
                    expected: "options"@,
                    actual: content_debug_of(answer.answer.answer_content.deep_view()),
                }),
        },
{
    match answer.answer.answer_content {
        AnswerContent::Options { selected_indexes } => {
            if selected_indexes.len() == 0 {
                return Err(WaitHumanError::InvalidResponse("No selection received".to_owned()));
            }
            let index = selected_indexes[0];
            if (index as usize) < choices.len() {
                Ok(clone_string(&choices[index as usize]))
            } else {
                Err(WaitHumanError::InvalidSelectedIndex { index })
            }
        },
        other => Err(WaitHumanError::UnexpectedAnswerType {
            expected: "options".to_owned(),
            actual: debug_content(&other),
        }),
    }
}

/// The timeout an options value selects.
pub fn effective_timeout(options: Option<AskOptions>) -> (r: Option<u64>)
    ensures
        r == match options {
            Some(o) => o.timeout_seconds,
            None => None::<u64>,
        },
{
    match options {
        Some(o) => o.timeout_seconds,
        None => None,
    }
}

/// What one HTTP exchange came to, as the transport reports it.
#[derive(Clone, Debug, PartialEq)]
pub enum HttpOutcome {
    /// The request itself failed; the transport's description of why.
    TransportError(String),
    /// The server replied with a non-success status.
    Failure { status_text: String },
    /// The server replied with a success status and this body.
    Success { body: String },
}

/// What the poll loop does next.
#[derive(Debug)]
pub enum PollStep {
    /// The ask is over, with this result.
    Done(Result<ConfirmationAnswerWithDate, WaitHumanError>),
    /// No answer yet: sleep [`POLL_INTERVAL_MS`] and poll again.
    Sleep,
}

/// The confirmation identifier a creation response's text carries, if the
/// text parses to the expected shape.
pub open spec fn spec_create_id_of_text(s: Seq<char>) -> Option<Seq<char>> {
    match json_of(s) {
        Some(d) => spec_decode_create_response(d),
        None => None,
    }
}

/// What a poll response's text says: `Some(Some(..))` an answer,
/// `Some(None)` none yet, `None` a text without the expected shape.
pub open spec fn spec_poll_answer_of_text(s: Seq<char>) -> Option<
    Option<crate::types::AnswerWithDateV>,
> {
    match json_of(s) {
        Some(d) => spec_decode_poll_body(d),
        None => None,
    }
}

/// Decides the creation step from the transport's outcome: a transport
/// error is a network error, a non-success status is `CreateFailed` —
/// never retried — and a success body must carry the confirmation
/// identifier.
pub fn handle_create_response(outcome: HttpOutcome) -> (r: Result<String, WaitHumanError>)
    ensures
        match outcome {
            HttpOutcome::TransportError(m) => r matches Err(e) && e.deep_view()
                == ErrorV::NetworkError(m@),
            HttpOutcome::Failure { status_text } => r matches Err(e) && e.deep_view()
                == (ErrorV::CreateFailed { status_text: status_text@ }),
            HttpOutcome::Success { body } => match spec_create_id_of_text(body@) {
                Some(id) => r matches Ok(i) && i@ == id,
                None => r matches Err(e) && e.deep_view() == ErrorV::InvalidResponse(
                    "malformed creation response"@,
                ),
            },
        },
{
    match outcome {
        HttpOutcome::TransportError(m) => Err(WaitHumanError::NetworkError(m)),
        HttpOutcome::Failure { status_text } => Err(WaitHumanError::CreateFailed { status_text }),
        HttpOutcome::Success { body } => {
            let parsed = match parse_json_doc(body.as_str()) {
                Some(j) => j,
                None => {
                    return Err(WaitHumanError::InvalidResponse(
                        "malformed creation response".to_owned(),
                    ));
                },
            };
            match decode_create_response(&parsed) {
                Some(id) => Ok(id),
                None => Err(WaitHumanError::InvalidResponse(
                    "malformed creation response".to_owned(),
                )),
            }
        },
    }
}

/// Decides a poll step from the transport's outcome: a transport error is
/// a network error, a non-success status is `PollFailed` — one failed poll
/// aborts the whole ask — a body with an answer ends the ask, and a body
/// without one means sleep and poll again.
pub fn handle_poll_response(outcome: HttpOutcome) -> (r: PollStep)
    ensures
        match outcome {
            HttpOutcome::TransportError(m) => r matches PollStep::Done(res) && res matches Err(e)
                && e.deep_view() == ErrorV::NetworkError(m@),
            HttpOutcome::Failure { status_text } => r matches PollStep::Done(res)
                && res matches Err(e) && e.deep_view() == (ErrorV::PollFailed {
                    status_text: status_text@,
                }),
            HttpOutcome::Success { body } => match spec_poll_answer_of_text(body@) {
                Some(Some(av)) => r matches PollStep::Done(res) && res matches Ok(a)
                    && a.deep_view() == av,
                Some(None) => r is Sleep,
                None => r matches PollStep::Done(res) && res matches Err(e) && e.deep_view()
                    == ErrorV::InvalidResponse("malformed poll response"@),
            },
        },
{
    match outcome {
        HttpOutcome::TransportError(m) => PollStep::Done(Err(WaitHumanError::NetworkError(m))),
        HttpOutcome::Failure { status_text } => PollStep::Done(
            Err(WaitHumanError::PollFailed { status_text }),
        ),
        HttpOutcome::Success { body } => {
            let parsed = match parse_json_doc(body.as_str()) {
                Some(j) => j,
                None => {
                    return PollStep::Done(Err(WaitHumanError::InvalidResponse(
                        "malformed poll response".to_owned(),
                    )));
                },
            };
            match decode_poll_body(&parsed) {
                Some(Some(answer)) => PollStep::Done(Ok(answer)),
                Some(None) => PollStep::Sleep,
                None => PollStep::Done(Err(WaitHumanError::InvalidResponse(
                    "malformed poll response".to_owned(),
                ))),
            }
        },
    }
}

/// Whether the poll loop has run out of time: only with a timeout set,
/// and only strictly past it.
pub open spec fn spec_timed_out(timeout_seconds: Option<u64>, elapsed_ms: u64) -> bool {
    match timeout_seconds {
        Some(t) => elapsed_ms > t * 1000,
        None => false,
    }
}

/// Checks the timeout at the top of a poll iteration: the error, carrying
/// the elapsed time, exactly when the elapsed time is strictly past the
/// bound; with no timeout the loop polls for ever.
pub fn check_timeout(timeout_seconds: Option<u64>, elapsed_ms: u64) -> (r: Option<
    WaitHumanError,
>)
    ensures
        spec_timed_out(timeout_seconds, elapsed_ms) ==> (r matches Some(e) && e.deep_view()
            == (ErrorV::Timeout { elapsed_ms })),
        !spec_timed_out(timeout_seconds, elapsed_ms) ==> r is None,
{
    match timeout_seconds {
        Some(t) => {
            let limit: u64 = if t <= u64::MAX / 1000 {
                t * 1000
            } else {
                u64::MAX
            };
            proof {
                if t > u64::MAX / 1000 {
                    assert(t * 1000 > u64::MAX) by (nonlinear_arith)
                        requires t > u64::MAX / 1000;
                }
            }
            if elapsed_ms > limit {
                Some(WaitHumanError::Timeout { elapsed_ms })
            } else {
                None
            }
        },
        None => None,
    }
}

/// A timeout error is only ever late: when the check fires, the elapsed
/// milliseconds strictly exceed the requested bound.
pub proof fn lemma_timeout_is_late(timeout_seconds: u64, elapsed_ms: u64)
    requires
        spec_timed_out(Some(timeout_seconds), elapsed_ms),
    ensures
        elapsed_ms > timeout_seconds * 1000,
{
}

} // verus!
