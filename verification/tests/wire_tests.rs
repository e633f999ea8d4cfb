use wait_human::client::build_multiple_choice_question;
use wait_human::json::Json;
use wait_human::types::{AnswerFormat, ConfirmationQuestion, QuestionMethod};
use wait_human::wire::{
    create_request_body, decode_question, decode_question_text, encode_question,
    encode_question_text,
};

fn sample_question() -> ConfirmationQuestion {
    build_multiple_choice_question(
        "Send invoice?".to_string(),
        vec!["a".to_string(), "b".to_string()],
        Some("Customer asked.".to_string()),
    )
}

#[test]
fn question_round_trips_through_the_tree() {
    let q = sample_question();
    let tree = encode_question(&q);
    let back = decode_question(&tree).unwrap();
    assert_eq!(back, q);
}

#[test]
fn question_round_trips_through_text() {
    let q = sample_question();
    let text = encode_question_text(&q);
    let back = decode_question_text(&text).unwrap();
    assert_eq!(back, q);

    let free = ConfirmationQuestion {
        method: QuestionMethod::Push,
        subject: "s".to_string(),
        body: None,
        answer_format: AnswerFormat::FreeText,
    };
    let text = encode_question_text(&free);
    let back = decode_question_text(&text).unwrap();
    assert_eq!(back, free);
}

#[test]
fn encoded_question_has_the_wire_field_names() {
    let q = sample_question();
    let text = encode_question_text(&q);
    let v: serde_json::Value = serde_json::from_str(&text).unwrap();
    assert_eq!(v["method"], serde_json::Value::String("push".to_string()));
    assert_eq!(v["subject"], serde_json::Value::String("Send invoice?".to_string()));
    assert_eq!(v["body"], serde_json::Value::String("Customer asked.".to_string()));
    assert_eq!(
        v["answer_format"]["options"]["options"][1],
        serde_json::Value::String("b".to_string())
    );
    assert_eq!(v["answer_format"]["options"]["multiple"], serde_json::Value::Bool(false));
}

#[test]
fn free_text_format_encodes_as_its_tag() {
    let free = ConfirmationQuestion {
        method: QuestionMethod::Push,
        subject: "s".to_string(),
        body: None,
        answer_format: AnswerFormat::FreeText,
    };
    let text = encode_question_text(&free);
    let v: serde_json::Value = serde_json::from_str(&text).unwrap();
    assert_eq!(v["answer_format"], serde_json::Value::String("free_text".to_string()));
    assert_eq!(v["body"], serde_json::Value::Null);
}

#[test]
fn create_request_wraps_the_question() {
    let q = sample_question();
    let body = create_request_body(&q);
    let v: serde_json::Value = serde_json::from_str(&body).unwrap();
    assert_eq!(v["question"]["subject"], serde_json::Value::String("Send invoice?".to_string()));
}

#[test]
fn malformed_questions_do_not_decode() {
    assert!(decode_question_text("not json at all").is_none());
    assert!(decode_question_text("{}").is_none());
    assert!(decode_question_text("{\"method\": \"push\", \"subject\": \"s\"}").is_none());
    assert!(
        decode_question_text(
            "{\"method\": \"pull\", \"subject\": \"s\", \"answer_format\": \"free_text\"}"
        )
        .is_none()
    );
}

#[test]
fn empty_choice_list_round_trips() {
    let q = build_multiple_choice_question("s".to_string(), vec![], None);
    let text = encode_question_text(&q);
    let back = decode_question_text(&text).unwrap();
    assert_eq!(back, q);
}

#[test]
fn duplicate_copies_a_tree_exactly() {
    let tree = Json::Obj(vec![
        ("a".to_string(), Json::Arr(vec![Json::UInt(1), Json::Bool(true), Json::Null])),
        ("b".to_string(), Json::Str("x".to_string())),
    ]);
    let copy = tree.duplicate();
    assert_eq!(copy, tree);
}
