use wait_human::client::{
    build_free_text_question, build_multiple_choice_question, check_timeout, effective_timeout,
    extract_free_text, handle_create_response, handle_poll_response, select_choice, HttpOutcome,
    PollStep, WaitHuman, POLL_INTERVAL_MS,
};
use wait_human::error::WaitHumanError;
use wait_human::json::Json;
use wait_human::types::{
    AnswerContent, AnswerFormat, AskOptions, ConfirmationAnswer, ConfirmationAnswerWithDate,
    QuestionMethod, WaitHumanConfig,
};

fn options_answer(selected: Vec<u32>) -> ConfirmationAnswerWithDate {
    ConfirmationAnswerWithDate {
        answer: ConfirmationAnswer {
            answer_content: AnswerContent::Options { selected_indexes: selected },
        },
        date: Json::Null,
    }
}

fn free_text_answer(text: &str) -> ConfirmationAnswerWithDate {
    ConfirmationAnswerWithDate {
        answer: ConfirmationAnswer {
            answer_content: AnswerContent::FreeText { text: text.to_string() },
        },
        date: Json::Null,
    }
}

#[test]
fn empty_api_key_is_rejected_before_any_request() {
    let r = WaitHuman::new(WaitHumanConfig::new(String::new()));
    match r {
        Err(WaitHumanError::InvalidResponse(m)) => assert_eq!(m, "api_key is mandatory"),
        other => panic!("expected a configuration error, got {:?}", other),
    }
    let r = WaitHuman::new_from_key(String::new());
    assert!(matches!(r, Err(WaitHumanError::InvalidResponse(_))));
}

#[test]
fn any_nonempty_api_key_constructs_a_client() {
    let c = WaitHuman::new_from_key("some-api-key".to_string()).unwrap();
    assert_eq!(c.api_key, "some-api-key");
    assert_eq!(c.endpoint, "https://api.waithuman.com");
    let c = WaitHuman::new(WaitHumanConfig::new("k".to_string())).unwrap();
    assert_eq!(c.endpoint, "https://api.waithuman.com");
}

#[test]
fn endpoint_override_drops_one_trailing_slash() {
    let cfg = WaitHumanConfig::new("k".to_string())
        .with_endpoint("http://localhost:8080/".to_string());
    let c = WaitHuman::new(cfg).unwrap();
    assert_eq!(c.endpoint, "http://localhost:8080");

    let cfg = WaitHumanConfig::new("k".to_string())
        .with_endpoint("http://localhost:8080".to_string());
    let c = WaitHuman::new(cfg).unwrap();
    assert_eq!(c.endpoint, "http://localhost:8080");
}

#[test]
fn urls_follow_the_two_endpoints() {
    let c = WaitHuman::new_from_key("k".to_string()).unwrap();
    assert_eq!(c.create_url(), "https://api.waithuman.com/confirmations/create");
    assert_eq!(
        c.poll_url("abc-123"),
        "https://api.waithuman.com/confirmations/get/abc-123?long_poll=false"
    );
}

#[test]
fn question_builders_fix_method_and_format() {
    let q = build_free_text_question("subject".to_string(), Some("body".to_string()));
    assert_eq!(q.method, QuestionMethod::Push);
    assert_eq!(q.subject, "subject");
    assert_eq!(q.body, Some("body".to_string()));
    assert_eq!(q.answer_format, AnswerFormat::FreeText);

    let q = build_multiple_choice_question(
        "s".to_string(),
        vec!["a".to_string(), "b".to_string()],
        None,
    );
    assert_eq!(
        q.answer_format,
        AnswerFormat::Options {
            options: vec!["a".to_string(), "b".to_string()],
            multiple: false,
        }
    );
}

#[test]
fn first_selected_index_picks_the_choice() {
    let choices = vec!["yes".to_string(), "no".to_string()];
    assert_eq!(select_choice(&choices, options_answer(vec![0])).unwrap(), "yes");
    assert_eq!(select_choice(&choices, options_answer(vec![1])).unwrap(), "no");
    assert_eq!(select_choice(&choices, options_answer(vec![1, 0])).unwrap(), "no");
}

#[test]
fn out_of_range_selection_is_its_own_error() {
    let choices = vec!["yes".to_string(), "no".to_string()];
    match select_choice(&choices, options_answer(vec![5])) {
        Err(WaitHumanError::InvalidSelectedIndex { index }) => assert_eq!(index, 5),
        other => panic!("expected InvalidSelectedIndex, got {:?}", other),
    }
    // the first out-of-range index: one past the end
    match select_choice(&choices, options_answer(vec![2])) {
        Err(WaitHumanError::InvalidSelectedIndex { index }) => assert_eq!(index, 2),
        other => panic!("expected InvalidSelectedIndex, got {:?}", other),
    }
}

#[test]
fn empty_selection_is_an_invalid_response() {
    let choices = vec!["yes".to_string(), "no".to_string()];
    match select_choice(&choices, options_answer(vec![])) {
        Err(WaitHumanError::InvalidResponse(m)) => assert_eq!(m, "No selection received"),
        other => panic!("expected InvalidResponse, got {:?}", other),
    }
}

#[test]
fn free_text_content_mismatches_a_choice_question() {
    let choices = vec!["yes".to_string()];
    match select_choice(&choices, free_text_answer("hello")) {
        Err(WaitHumanError::UnexpectedAnswerType { expected, actual }) => {
            assert_eq!(expected, "options");
            assert_eq!(
                actual,
                format!("{:?}", AnswerContent::FreeText { text: "hello".to_string() })
            );
        },
        other => panic!("expected UnexpectedAnswerType, got {:?}", other),
    }
}

#[test]
fn options_content_mismatches_a_free_text_question() {
    match extract_free_text(options_answer(vec![0])) {
        Err(WaitHumanError::UnexpectedAnswerType { expected, actual }) => {
            assert_eq!(expected, "free_text");
            assert_eq!(
                actual,
                format!("{:?}", AnswerContent::Options { selected_indexes: vec![0] })
            );
        },
        other => panic!("expected UnexpectedAnswerType, got {:?}", other),
    }
    assert_eq!(extract_free_text(free_text_answer("hello")).unwrap(), "hello");
}

#[test]
fn effective_timeout_reads_the_options() {
    assert_eq!(effective_timeout(None), None);
    assert_eq!(effective_timeout(Some(AskOptions { timeout_seconds: None })), None);
    assert_eq!(effective_timeout(Some(AskOptions { timeout_seconds: Some(7) })), Some(7));
}

#[test]
fn timeout_fires_only_strictly_past_the_bound() {
    assert!(check_timeout(Some(2), 1999).is_none());
    assert!(check_timeout(Some(2), 2000).is_none());
    match check_timeout(Some(2), 2001) {
        Some(WaitHumanError::Timeout { elapsed_ms }) => assert_eq!(elapsed_ms, 2001),
        other => panic!("expected Timeout, got {:?}", other),
    }
    assert!(check_timeout(None, u64::MAX).is_none());
    assert!(check_timeout(Some(u64::MAX), u64::MAX).is_none());
}

#[test]
fn failed_creation_is_create_failed() {
    let r = handle_create_response(HttpOutcome::Failure {
        status_text: "500 Internal Server Error".to_string(),
    });
    match r {
        Err(WaitHumanError::CreateFailed { status_text }) => {
            assert_eq!(status_text, "500 Internal Server Error")
        },
        other => panic!("expected CreateFailed, got {:?}", other),
    }
}

#[test]
fn creation_transport_error_is_network_error() {
    let r = handle_create_response(HttpOutcome::TransportError("connection refused".to_string()));
    match r {
        Err(WaitHumanError::NetworkError(m)) => assert_eq!(m, "connection refused"),
        other => panic!("expected NetworkError, got {:?}", other),
    }
}

#[test]
fn creation_success_yields_the_identifier() {
    let r = handle_create_response(HttpOutcome::Success {
        body: "{\"confirmation_request_id\": \"req-42\"}".to_string(),
    });
    assert_eq!(r.unwrap(), "req-42");
}

#[test]
fn malformed_creation_body_is_invalid_response() {
    for body in ["not json", "{}", "{\"confirmation_request_id\": 3}"] {
        let r = handle_create_response(HttpOutcome::Success { body: body.to_string() });
        assert!(matches!(r, Err(WaitHumanError::InvalidResponse(_))), "body: {}", body);
    }
}

#[test]
fn poll_without_answer_sleeps() {
    let r = handle_poll_response(HttpOutcome::Success {
        body: "{\"maybe_answer\": null}".to_string(),
    });
    assert!(matches!(r, PollStep::Sleep));
    let r = handle_poll_response(HttpOutcome::Success { body: "{}".to_string() });
    assert!(matches!(r, PollStep::Sleep));
}

#[test]
fn poll_with_answer_finishes() {
    let body = "{\"maybe_answer\": {\"answer\": {\"answer_content\": \
                {\"free_text\": {\"text\": \"ok then\"}}}, \"date\": \"2024-05-01\"}}";
    match handle_poll_response(HttpOutcome::Success { body: body.to_string() }) {
        PollStep::Done(Ok(a)) => {
            assert_eq!(
                a.answer.answer_content,
                AnswerContent::FreeText { text: "ok then".to_string() }
            );
            assert_eq!(a.date, Json::Str("2024-05-01".to_string()));
        },
        other => panic!("expected an answer, got {:?}", other),
    }
}

#[test]
fn poll_failure_and_transport_error_abort() {
    match handle_poll_response(HttpOutcome::Failure { status_text: "502 Bad Gateway".to_string() })
    {
        PollStep::Done(Err(WaitHumanError::PollFailed { status_text })) => {
            assert_eq!(status_text, "502 Bad Gateway")
        },
        other => panic!("expected PollFailed, got {:?}", other),
    }
    match handle_poll_response(HttpOutcome::TransportError("timed out".to_string())) {
        PollStep::Done(Err(WaitHumanError::NetworkError(m))) => assert_eq!(m, "timed out"),
        other => panic!("expected NetworkError, got {:?}", other),
    }
}

#[test]
fn malformed_poll_body_is_invalid_response() {
    for body in ["not json", "{\"maybe_answer\": {\"answer\": 3}}", "[1,2]"] {
        match handle_poll_response(HttpOutcome::Success { body: body.to_string() }) {
            PollStep::Done(Err(WaitHumanError::InvalidResponse(_))) => {},
            other => panic!("expected InvalidResponse for {}, got {:?}", body, other),
        }
    }
}

// A driver in miniature: the decisions of the loop are the library's, the
// scripted bodies stand for the mock server.
fn run_scripted_polls(bodies: &[&str]) -> (usize, Result<ConfirmationAnswerWithDate, WaitHumanError>) {
    let mut polls: usize = 0;
    let mut simulated_elapsed_ms: u64 = 0;
    loop {
        if let Some(e) = check_timeout(None, simulated_elapsed_ms) {
            return (polls, Err(e));
        }
        let body = bodies[polls];
        polls += 1;
        match handle_poll_response(HttpOutcome::Success { body: body.to_string() }) {
            PollStep::Done(r) => return (polls, r),
            PollStep::Sleep => simulated_elapsed_ms += POLL_INTERVAL_MS,
        }
    }
}

#[test]
fn answer_on_kth_poll_takes_exactly_k_polls() {
    let empty = "{\"maybe_answer\": null}";
    let full = "{\"maybe_answer\": {\"answer\": {\"answer_content\": \
                {\"options\": {\"selected_indexes\": [1]}}}, \"date\": null}}";
    let (polls, r) = run_scripted_polls(&[empty, empty, full, empty]);
    assert_eq!(polls, 3);
    let a = r.unwrap();
    assert_eq!(
        a.answer.answer_content,
        AnswerContent::Options { selected_indexes: vec![1] }
    );
}

// The whole ask, with a scripted server: create, poll to an answer, narrow.
fn scripted_ask_multiple_choice(
    choices: &[&str],
    selected: Vec<u32>,
) -> Result<String, WaitHumanError> {
    let choices_vec: Vec<String> = choices.iter().map(|c| c.to_string()).collect();
    let question = build_multiple_choice_question("pick".to_string(), choices_vec.clone(), None);
    let c = WaitHuman::new_from_key("k".to_string()).unwrap();
    assert_eq!(c.create_url(), "https://api.waithuman.com/confirmations/create");
    let _ = wait_human::wire::create_request_body(&question);

    let id = handle_create_response(HttpOutcome::Success {
        body: "{\"confirmation_request_id\": \"req-1\"}".to_string(),
    })?;
    assert_eq!(id, "req-1");

    let selected_text = selected
        .iter()
        .map(|i| i.to_string())
        .collect::<Vec<String>>()
        .join(",");
    let empty = "{\"maybe_answer\": null}".to_string();
    let full = format!(
        "{{\"maybe_answer\": {{\"answer\": {{\"answer_content\": \
         {{\"options\": {{\"selected_indexes\": [{}]}}}}}}, \"date\": null}}}}",
        selected_text
    );
    let bodies = [empty.clone(), full];
    let mut polls: usize = 0;
    loop {
        if let Some(e) = check_timeout(None, 0) {
            return Err(e);
        }
        let body = bodies[polls].clone();
        polls += 1;
        match handle_poll_response(HttpOutcome::Success { body }) {
            PollStep::Done(r) => {
                let answer = r?;
                return select_choice(&choices_vec, answer);
            },
            PollStep::Sleep => {},
        }
    }
}

#[test]
fn scripted_ask_returns_the_choice_text() {
    assert_eq!(scripted_ask_multiple_choice(&["yes", "no"], vec![0]).unwrap(), "yes");
    assert_eq!(scripted_ask_multiple_choice(&["yes", "no"], vec![1]).unwrap(), "no");
    match scripted_ask_multiple_choice(&["yes", "no"], vec![5]) {
        Err(WaitHumanError::InvalidSelectedIndex { index }) => assert_eq!(index, 5),
        other => panic!("expected InvalidSelectedIndex, got {:?}", other),
    }
    match scripted_ask_multiple_choice(&["yes", "no"], vec![]) {
        Err(WaitHumanError::InvalidResponse(m)) => assert_eq!(m, "No selection received"),
        other => panic!("expected InvalidResponse, got {:?}", other),
    }
}

#[test]
fn failed_creation_performs_zero_polls() {
    let mut polls: usize = 0;
    let create = handle_create_response(HttpOutcome::Failure {
        status_text: "403 Forbidden".to_string(),
    });
    if create.is_ok() {
        polls += 1; // the driver would only poll after a created confirmation
    }
    assert!(matches!(create, Err(WaitHumanError::CreateFailed { .. })));
    assert_eq!(polls, 0);
}
