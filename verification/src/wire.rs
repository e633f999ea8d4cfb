//! The wire codec.
//!
//! The confirmation service speaks JSON over two endpoints, and the exact
//! field names and tag strings are a fixed contract with the backend:
//!
//! - a question is `{"method": "push", "subject": s, "body": b|null,
//!   "answer_format": f}`, where `f` is `"free_text"` or
//!   `{"options": {"options": [..strings..], "multiple": bool}}`;
//! - an answer's content is `{"free_text": {"text": s}}` or
//!   `{"options": {"selected_indexes": [..unsigned..]}}`;
//! - creation is requested as `{"question": q}` and answered with
//!   `{"confirmation_request_id": id}`;
//! - a poll is answered with `{"maybe_answer": a|null}`, where `a` is
//!   `{"answer": {"answer_content": c}, "date": d}` and `d` is carried
//!   through untouched.
//!
//! Encoding and decoding between these shapes and the typed model are
//! verified functions over the [`Json`](crate::json::Json) tree; only the
//! steps between text and tree call an outside crate.

use crate::json::{Json, JsonV, jv, jv_seq, jv_fields, lemma_jv_seq, lemma_jv_fields, spec_lookup, lookup};
use crate::types::{
    AnswerFormat, FormatV, QuestionMethod, ConfirmationQuestion, QuestionV, AnswerContent,
    ContentV, ConfirmationAnswer, AnswerV, ConfirmationAnswerWithDate, AnswerWithDateV,
};
use vstd::prelude::*;

verus! {

// --- The wire shape, mathematically ---

/// The tag string of a delivery method.
pub open spec fn method_tag(m: QuestionMethod) -> Seq<char> {
    match m {
        QuestionMethod::Push => "push"@,
    }
}

/// The wire shape of an answer format.
pub open spec fn spec_encode_format(f: FormatV) -> JsonV {
    match f {
        FormatV::FreeText => JsonV::Str("free_text"@),
        FormatV::Options { options, multiple } => JsonV::Obj(
            seq![
                (
                    "options"@,
                    JsonV::Obj(
                        seq![
                            ("options"@, JsonV::Arr(options.map_values(|o: Seq<char>| JsonV::Str(o)))),
                            ("multiple"@, JsonV::Bool(multiple)),
                        ],
                    ),
                ),
            ],
        ),
    }
}

/// The wire shape of a question.
pub open spec fn spec_encode_question(q: QuestionV) -> JsonV {
    JsonV::Obj(
        seq![
            ("method"@, JsonV::Str(method_tag(q.method))),
            ("subject"@, JsonV::Str(q.subject)),
            (
                "body"@,
                match q.body {
                    Some(b) => JsonV::Str(b),
                    None => JsonV::Null,
                },
            ),
            ("answer_format"@, spec_encode_format(q.answer_format)),
        ],
    )
}

/// The wire shape of a creation request.
pub open spec fn spec_encode_create_request(q: QuestionV) -> JsonV {
    JsonV::Obj(seq![("question"@, spec_encode_question(q))])
}

// --- Decoding, mathematically ---

/// Reads a sequence of JSON strings; any other element is malformed.
pub open spec fn spec_decode_strings(items: Seq<JsonV>) -> Option<Seq<Seq<char>>>
    decreases items.len(),
{
    if items.len() == 0 {
        Some(Seq::empty())
    } else {
        match items[0] {
            JsonV::Str(s) => match spec_decode_strings(items.drop_first()) {
                Some(rest) => Some(seq![s] + rest),
                None => None,
            },
            _ => None,
        }
    }
}

/// Reads a sequence of JSON unsigned numbers that fit an index.
pub open spec fn spec_decode_indexes(items: Seq<JsonV>) -> Option<Seq<u32>>
    decreases items.len(),
{
    if items.len() == 0 {
        Some(Seq::empty())
    } else {
        match items[0] {
            JsonV::UInt(n) => if n <= u32::MAX {
                match spec_decode_indexes(items.drop_first()) {
                    Some(rest) => Some(seq![n as u32] + rest),
                    None => None,
                }
            } else {
                None
            },
            _ => None,
        }
    }
}

/// Reads an answer format from its wire shape.
pub open spec fn spec_decode_format(j: JsonV) -> Option<FormatV> {
    match j {
        JsonV::Str(s) => if s == "free_text"@ {
            Some(FormatV::FreeText)
        } else {
            None
        },
        JsonV::Obj(fields) => match spec_lookup(fields, "options"@) {
            Some(JsonV::Obj(inner)) => match (
                spec_lookup(inner, "options"@),
                spec_lookup(inner, "multiple"@),
            ) {
                (Some(JsonV::Arr(items)), Some(JsonV::Bool(m))) => match spec_decode_strings(
                    items,
                ) {
                    Some(options) => Some(FormatV::Options { options, multiple: m }),
                    None => None,
                },
                _ => None,
            },
            _ => None,
        },
        _ => None,
    }
}

/// Reads an optional body: an absent or null field is no body.
pub open spec fn spec_decode_body(j: Option<JsonV>) -> Option<Option<Seq<char>>> {
    match j {
        None => Some(None),
        Some(JsonV::Null) => Some(None),
        Some(JsonV::Str(b)) => Some(Some(b)),
        Some(_) => None,
    }
}

/// Reads a question from its wire shape.
pub open spec fn spec_decode_question(j: JsonV) -> Option<QuestionV> {
    match j {
        JsonV::Obj(fields) => match (
            spec_lookup(fields, "method"@),
            spec_lookup(fields, "subject"@),
            spec_lookup(fields, "answer_format"@),
        ) {
            (Some(JsonV::Str(m)), Some(JsonV::Str(subject)), Some(fj)) => if m == "push"@ {
                match (spec_decode_format(fj), spec_decode_body(spec_lookup(fields, "body"@))) {
                    (Some(answer_format), Some(body)) => Some(
                        QuestionV { method: QuestionMethod::Push, subject, body, answer_format },
                    ),
                    _ => None,
                }
            } else {
                None
            },
            _ => None,
        },
        _ => None,
    }
}

/// Reads an answer's content from its wire shape.
pub open spec fn spec_decode_content(j: JsonV) -> Option<ContentV> {
    match j {
        JsonV::Obj(fields) => match spec_lookup(fields, "free_text"@) {
            Some(JsonV::Obj(inner)) => match spec_lookup(inner, "text"@) {
                Some(JsonV::Str(text)) => Some(ContentV::FreeText { text }),
                _ => None,
            },
            Some(_) => None,
            None => match spec_lookup(fields, "options"@) {
                Some(JsonV::Obj(inner)) => match spec_lookup(inner, "selected_indexes"@) {
                    Some(JsonV::Arr(items)) => match spec_decode_indexes(items) {
                        Some(selected_indexes) => Some(ContentV::Options { selected_indexes }),
                        None => None,
                    },
                    _ => None,
                },
                _ => None,
            },
        },
        _ => None,
    }
}

/// Reads an answer with its timestamp from its wire shape. A missing
/// timestamp is carried as null.
pub open spec fn spec_decode_answer_with_date(j: JsonV) -> Option<AnswerWithDateV> {
    match j {
        JsonV::Obj(fields) => match spec_lookup(fields, "answer"@) {
            Some(JsonV::Obj(inner)) => match spec_lookup(inner, "answer_content"@) {
                Some(cj) => match spec_decode_content(cj) {
                    Some(answer_content) => Some(
                        AnswerWithDateV {
                            answer: AnswerV { answer_content },
                            date: match spec_lookup(fields, "date"@) {
                                Some(d) => d,
                                None => JsonV::Null,
                            },
                        },
                    ),
                    None => None,
                },
                None => None,
            },
            _ => None,
        },
        _ => None,
    }
}

/// Reads a creation response: the confirmation identifier.
pub open spec fn spec_decode_create_response(j: JsonV) -> Option<Seq<char>> {
    match j {
        JsonV::Obj(fields) => match spec_lookup(fields, "confirmation_request_id"@) {
            Some(JsonV::Str(id)) => Some(id),
            _ => None,
        },
        _ => None,
    }
}

/// Reads a poll response: the answer when one is present, or nothing yet.
/// An absent or null `maybe_answer` means no answer yet.
pub open spec fn spec_decode_poll_body(j: JsonV) -> Option<Option<AnswerWithDateV>> {
    match j {
        JsonV::Obj(fields) => match spec_lookup(fields, "maybe_answer"@) {
            None => Some(None),
            Some(JsonV::Null) => Some(None),
            Some(a) => match spec_decode_answer_with_date(a) {
                Some(av) => Some(Some(av)),
                None => None,
            },
        },
        _ => None,
    }
}

// --- The element decoders, characterized pointwise ---

/// A sequence of JSON values decodes as strings exactly when every element
/// is a string, and then element by element.
pub proof fn lemma_decode_strings(items: Seq<JsonV>)
    ensures
        (spec_decode_strings(items) is Some) <==> (forall|k: int|
            0 <= k < items.len() ==> items[k] is Str),
        spec_decode_strings(items) matches Some(v) ==> v.len() == items.len() && (forall|k: int|
            0 <= k < items.len() ==> v[k] == items[k]->Str_0),
    decreases items.len(),
{
    if items.len() > 0 {
        lemma_decode_strings(items.drop_first());
        assert(forall|k: int| 1 <= k < items.len()
            ==> items.drop_first()[k - 1] == #[trigger] items[k]);
        if items[0] is Str && spec_decode_strings(items.drop_first()) is Some {
            let rest = spec_decode_strings(items.drop_first())->Some_0;
            let v = seq![items[0]->Str_0] + rest;
            assert(forall|k: int| 1 <= k < items.len() ==> v[k] == rest[k - 1]);
        }
    }
}

/// A sequence of JSON values decodes as indexes exactly when every element
/// is an unsigned number that fits, and then element by element.
pub proof fn lemma_decode_indexes(items: Seq<JsonV>)
    ensures
        (spec_decode_indexes(items) is Some) <==> (forall|k: int|
            0 <= k < items.len() ==> items[k] is UInt && items[k]->UInt_0 <= u32::MAX),
        spec_decode_indexes(items) matches Some(v) ==> v.len() == items.len() && (forall|k: int|
            0 <= k < items.len() ==> v[k] == items[k]->UInt_0 as u32),
    decreases items.len(),
{
    if items.len() > 0 {
        lemma_decode_indexes(items.drop_first());
        assert(forall|k: int| 1 <= k < items.len()
            ==> items.drop_first()[k - 1] == #[trigger] items[k]);
        if items[0] is UInt && items[0]->UInt_0 <= u32::MAX
            && spec_decode_indexes(items.drop_first()) is Some {
            let rest = spec_decode_indexes(items.drop_first())->Some_0;
            let v = seq![items[0]->UInt_0 as u32] + rest;
            assert(forall|k: int| 1 <= k < items.len() ==> v[k] == rest[k - 1]);
        }
    }
}

// --- Executable encoding ---

/// Encodes an answer format to its wire shape.
#[verifier::loop_isolation(false)]
pub fn encode_format(f: &AnswerFormat) -> (r: Json)
    ensures
        jv(r) == spec_encode_format(f.deep_view()),
{
    match f {
        AnswerFormat::FreeText => Json::Str("free_text".to_owned()),
        AnswerFormat::Options { options, multiple } => {
            let mut arr: Vec<Json> = Vec::new();
            let mut i: usize = 0;
            while i < options.len()
                invariant
                    0 <= i <= options@.len(),
                    arr@.len() == i,
                    forall|k: int| 0 <= k < i ==> jv(arr@[k]) == JsonV::Str(options@[k]@),
                decreases options@.len() - i,
            {
                arr.push(Json::Str(crate::json::clone_string(&options[i])));
                i = i + 1;
            }
            let ghost garr = arr@;
            let mut inner: Vec<(String, Json)> = Vec::new();
            inner.push(("options".to_owned(), Json::Arr(arr)));
            inner.push(("multiple".to_owned(), Json::Bool(*multiple)));
            let ghost ginner = inner@;
            let mut outer: Vec<(String, Json)> = Vec::new();
            outer.push(("options".to_owned(), Json::Obj(inner)));
            let ghost gouter = outer@;
            let r = Json::Obj(outer);
            proof {
                lemma_jv_seq(garr);
                let mapped = options.deep_view().map_values(|o: Seq<char>| JsonV::Str(o));
                assert(jv_seq(garr) =~= mapped);
                lemma_jv_fields(ginner);
                lemma_jv_fields(gouter);
                let sinner = seq![
                    ("options"@, JsonV::Arr(mapped)),
                    ("multiple"@, JsonV::Bool(*multiple)),
                ];
                assert(jv_fields(ginner) =~~= sinner);
                assert(jv_fields(gouter) =~~= seq![("options"@, JsonV::Obj(sinner))]);
                assert(jv(r) =~~= spec_encode_format(f.deep_view()));
            }
            r
        },
    }
}

/// Encodes a question to its wire shape.
pub fn encode_question(q: &ConfirmationQuestion) -> (r: Json)
    ensures
        jv(r) == spec_encode_question(q.deep_view()),
{
    let fj = encode_format(&q.answer_format);
    let body_j = match &q.body {
        Some(b) => Json::Str(crate::json::clone_string(b)),
        None => Json::Null,
    };
    let mut fields: Vec<(String, Json)> = Vec::new();
    fields.push(("method".to_owned(), Json::Str("push".to_owned())));
    fields.push(("subject".to_owned(), Json::Str(crate::json::clone_string(&q.subject))));
    fields.push(("body".to_owned(), body_j));
    fields.push(("answer_format".to_owned(), fj));
    let ghost gfields = fields@;
    let r = Json::Obj(fields);
    proof {
        lemma_jv_fields(gfields);
        let target = spec_encode_question(q.deep_view())->Obj_0;
        assert(jv_fields(gfields).len() == 4);
        assert(jv_fields(gfields)[0] =~~= target[0]);
        assert(jv_fields(gfields)[1] =~~= target[1]);
        assert(jv_fields(gfields)[2] =~~= target[2]);
        assert(jv_fields(gfields)[3] =~~= target[3]);
        assert(jv_fields(gfields) =~~= target);
        assert(jv(r) =~~= spec_encode_question(q.deep_view()));
    }
    r
}

/// Encodes a creation request carrying the question.
pub fn encode_create_request(q: &ConfirmationQuestion) -> (r: Json)
    ensures
        jv(r) == spec_encode_create_request(q.deep_view()),
{
    let qj = encode_question(q);
    let mut fields: Vec<(String, Json)> = Vec::new();
    fields.push(("question".to_owned(), qj));
    let ghost gfields = fields@;
    let r = Json::Obj(fields);
    proof {
        lemma_jv_fields(gfields);
        assert(jv_fields(gfields) =~~= spec_encode_create_request(q.deep_view())->Obj_0);
        assert(jv(r) =~~= spec_encode_create_request(q.deep_view()));
    }
    r
}

// --- Executable decoding ---

/// Decodes an array of JSON strings.
#[verifier::loop_isolation(false)]
pub fn decode_strings(items: &Vec<Json>) -> (r: Option<Vec<String>>)
    ensures
        match r {
            Some(v) => spec_decode_strings(jv_seq(items@)) == Some(v.deep_view()),
            None => spec_decode_strings(jv_seq(items@)) is None,
        },
{
    let ghost gitems = jv_seq(items@);
    proof {
        lemma_jv_seq(items@);
        lemma_decode_strings(gitems);
    }
    let mut out: Vec<String> = Vec::new();
    let mut i: usize = 0;
    while i < items.len()
        invariant
            0 <= i <= items@.len(),
            out@.len() == i,
            forall|k: int| 0 <= k < i ==> gitems[k] is Str && out@[k]@ == gitems[k]->Str_0,
        decreases items@.len() - i,
    {
        match &items[i] {
            Json::Str(s) => {
                out.push(crate::json::clone_string(s));
            },
            _ => {
                assert(!(gitems[i as int] is Str));
                return None;
            },
        }
        i = i + 1;
    }
    proof {
        let v = spec_decode_strings(gitems)->Some_0;
        assert(out.deep_view() =~= v);
    }
    Some(out)
}

/// Decodes an array of JSON unsigned numbers into selection indexes.
#[verifier::loop_isolation(false)]
pub fn decode_indexes(items: &Vec<Json>) -> (r: Option<Vec<u32>>)
    ensures
        match r {
            Some(v) => spec_decode_indexes(jv_seq(items@)) == Some(v.deep_view()),
            None => spec_decode_indexes(jv_seq(items@)) is None,
        },
{
    let ghost gitems = jv_seq(items@);
    proof {
        lemma_jv_seq(items@);
        lemma_decode_indexes(gitems);
    }
    let mut out: Vec<u32> = Vec::new();
    let mut i: usize = 0;
    while i < items.len()
        invariant
            0 <= i <= items@.len(),
            out@.len() == i,
            forall|k: int| #![trigger gitems[k]] 0 <= k < i
                ==> gitems[k] is UInt && gitems[k]->UInt_0 <= u32::MAX
                && out@[k] == gitems[k]->UInt_0 as u32,
        decreases items@.len() - i,
    {
        match &items[i] {
            Json::UInt(n) => {
                if *n <= u32::MAX as u64 {
                    out.push(*n as u32);
                } else {
                    proof {
                        assert(gitems[i as int] == jv(items@[i as int]));
                        assert(gitems[i as int]->UInt_0 > u32::MAX);
                    }
                    return None;
                }
            },
            _ => {
                proof {
                    assert(gitems[i as int] == jv(items@[i as int]));
                    assert(!(gitems[i as int] is UInt));
                }
                return None;
            },
        }
        i = i + 1;
    }
    proof {
        assert(gitems.len() == items@.len());
        assert(forall|k: int| 0 <= k < gitems.len()
            ==> #[trigger] gitems[k] is UInt && gitems[k]->UInt_0 <= u32::MAX);
        assert(spec_decode_indexes(gitems) is Some);
        let v = spec_decode_indexes(gitems)->Some_0;
        assert forall|k: int| 0 <= k < out@.len() implies out.deep_view()[k] == v[k] by {
            assert(v[k] == gitems[k]->UInt_0 as u32);
        }
        assert(out.deep_view() =~= v);
    }
    Some(out)
}

/// Decodes an answer format from its wire shape.
pub fn decode_format(j: &Json) -> (r: Option<AnswerFormat>)
    ensures
        match r {
            Some(f) => spec_decode_format(jv(*j)) == Some(f.deep_view()),
            None => spec_decode_format(jv(*j)) is None,
        },
{
    match j {
        Json::Str(s) => {
            let tag = "free_text".to_owned();
            if *s == tag {
                Some(AnswerFormat::FreeText)
            } else {
                None
            }
        },
        Json::Obj(fields) => {
            match lookup(fields, &"options".to_owned()) {
                Some(Json::Obj(inner)) => {
                    let arr = match lookup(inner, &"options".to_owned()) {
                        Some(Json::Arr(items)) => items,
                        _ => {
                            return None;
                        },
                    };
                    let m = match lookup(inner, &"multiple".to_owned()) {
                        Some(Json::Bool(m)) => *m,
                        _ => {
                            return None;
                        },
                    };
                    match decode_strings(arr) {
                        Some(options) => Some(AnswerFormat::Options { options, multiple: m }),
                        None => None,
                    }
                },
                _ => None,
            }
        },
        _ => None,
    }
}

/// Decodes a question from its wire shape.
pub fn decode_question(j: &Json) -> (r: Option<ConfirmationQuestion>)
    ensures
        match r {
            Some(q) => spec_decode_question(jv(*j)) == Some(q.deep_view()),
            None => spec_decode_question(jv(*j)) is None,
        },
{
    let fields = match j {
        Json::Obj(fields) => fields,
        _ => {
            return None;
        },
    };
    let m = match lookup(fields, &"method".to_owned()) {
        Some(Json::Str(m)) => m,
        _ => {
            return None;
        },
    };
    let subject = match lookup(fields, &"subject".to_owned()) {
        Some(Json::Str(subject)) => subject,
        _ => {
            return None;
        },
    };
    let fj = match lookup(fields, &"answer_format".to_owned()) {
        Some(fj) => fj,
        None => {
            return None;
        },
    };
    let push_tag = "push".to_owned();
    if !(*m == push_tag) {
        return None;
    }
    let answer_format = match decode_format(fj) {
        Some(f) => f,
        None => {
            return None;
        },
    };
    let body = match lookup(fields, &"body".to_owned()) {
        None => None,
        Some(Json::Null) => None,
        Some(Json::Str(b)) => Some(crate::json::clone_string(b)),
        Some(_) => {
            return None;
        },
    };
    Some(ConfirmationQuestion {
        method: QuestionMethod::Push,
        subject: crate::json::clone_string(subject),
        body,
        answer_format,
    })
}

/// Decodes an answer's content from its wire shape.
pub fn decode_content(j: &Json) -> (r: Option<AnswerContent>)
    ensures
        match r {
            Some(c) => spec_decode_content(jv(*j)) == Some(c.deep_view()),
            None => spec_decode_content(jv(*j)) is None,
        },
{
    let fields = match j {
        Json::Obj(fields) => fields,
        _ => {
            return None;
        },
    };
    match lookup(fields, &"free_text".to_owned()) {
        Some(Json::Obj(inner)) => {
            match lookup(inner, &"text".to_owned()) {
                Some(Json::Str(text)) => Some(AnswerContent::FreeText {
                    text: crate::json::clone_string(text),
                }),
                _ => None,
            }
        },
        Some(_) => None,
        None => {
            match lookup(fields, &"options".to_owned()) {
                Some(Json::Obj(inner)) => {
                    match lookup(inner, &"selected_indexes".to_owned()) {
                        Some(Json::Arr(items)) => {
                            match decode_indexes(items) {
                                Some(selected_indexes) => Some(AnswerContent::Options {
                                    selected_indexes,
                                }),
                                None => None,
                            }
                        },
                        _ => None,
                    }
                },
                _ => None,
            }
        },
    }
}

/// Decodes an answer with its timestamp from its wire shape.
pub fn decode_answer_with_date(j: &Json) -> (r: Option<ConfirmationAnswerWithDate>)
    ensures
        match r {
            Some(a) => spec_decode_answer_with_date(jv(*j)) == Some(a.deep_view()),
            None => spec_decode_answer_with_date(jv(*j)) is None,
        },
{
    let fields = match j {
        Json::Obj(fields) => fields,
        _ => {
            return None;
        },
    };
    let inner = match lookup(fields, &"answer".to_owned()) {
        Some(Json::Obj(inner)) => inner,
        _ => {
            return None;
        },
    };
    let cj = match lookup(inner, &"answer_content".to_owned()) {
        Some(cj) => cj,
        None => {
            return None;
        },
    };
    let answer_content = match decode_content(cj) {
        Some(c) => c,
        None => {
            return None;
        },
    };
    let date = match lookup(fields, &"date".to_owned()) {
        Some(d) => d.duplicate(),
        None => Json::Null,
    };
    Some(ConfirmationAnswerWithDate {
        answer: ConfirmationAnswer { answer_content },
        date,
    })
}

/// Decodes a creation response: the confirmation identifier.
pub fn decode_create_response(j: &Json) -> (r: Option<String>)
    ensures
        match r {
            Some(id) => spec_decode_create_response(jv(*j)) == Some(id@),
            None => spec_decode_create_response(jv(*j)) is None,
        },
{
    let fields = match j {
        Json::Obj(fields) => fields,
        _ => {
            return None;
        },
    };
    match lookup(fields, &"confirmation_request_id".to_owned()) {
        Some(Json::Str(id)) => Some(crate::json::clone_string(id)),
        _ => None,
    }
}

/// Decodes a poll response: `Some(Some(..))` an answer, `Some(None)` no
/// answer yet, `None` a malformed body.
pub fn decode_poll_body(j: &Json) -> (r: Option<Option<ConfirmationAnswerWithDate>>)
    ensures
        match r {
            Some(Some(a)) => spec_decode_poll_body(jv(*j)) == Some(Some(a.deep_view())),
            Some(None) => spec_decode_poll_body(jv(*j)) == Some(None::<AnswerWithDateV>),
            None => spec_decode_poll_body(jv(*j)) is None,
        },
{
    let fields = match j {
        Json::Obj(fields) => fields,
        _ => {
            return None;
        },
    };
    match lookup(fields, &"maybe_answer".to_owned()) {
        None => Some(None),
        Some(Json::Null) => Some(None),
        Some(a) => {
            match decode_answer_with_date(a) {
                Some(av) => Some(Some(av)),
                None => None,
            }
        },
    }
}

// --- The round trip ---

/// Encoded option lists decode back to themselves.
proof fn lemma_strings_round_trip(options: Seq<Seq<char>>)
    ensures
        spec_decode_strings(options.map_values(|o: Seq<char>| JsonV::Str(o))) == Some(options),
    decreases options.len(),
{
    let mapped = options.map_values(|o: Seq<char>| JsonV::Str(o));
    if options.len() == 0 {
        assert(options =~= Seq::<Seq<char>>::empty());
    } else {
        lemma_strings_round_trip(options.drop_first());
        assert(mapped.drop_first() =~= options.drop_first().map_values(
            |o: Seq<char>| JsonV::Str(o),
        ));
        assert(seq![options[0]] + options.drop_first() =~= options);
    }
}

/// An encoded answer format decodes back to itself.
proof fn lemma_format_round_trip(f: FormatV)
    ensures
        spec_decode_format(spec_encode_format(f)) == Some(f),
{
    reveal_strlit("options");
    reveal_strlit("multiple");
    reveal_strlit("free_text");
    reveal_with_fuel(spec_lookup, 4);
    match f {
        FormatV::FreeText => {
        },
        FormatV::Options { options, multiple } => {
            let mapped = options.map_values(|o: Seq<char>| JsonV::Str(o));
            let inner = seq![
                ("options"@, JsonV::Arr(mapped)),
                ("multiple"@, JsonV::Bool(multiple)),
            ];
            let outer = seq![("options"@, JsonV::Obj(inner))];
            assert(spec_encode_format(f) =~~= JsonV::Obj(outer));
            assert(spec_lookup(outer, "options"@) == Some(JsonV::Obj(inner)));
            assert(spec_lookup(inner, "options"@) == Some(JsonV::Arr(mapped)));
            assert("options"@ != "multiple"@) by {
                assert("options"@.len() == 7);
                assert("multiple"@.len() == 8);
            }
            assert(inner.drop_first() =~= seq![("multiple"@, JsonV::Bool(multiple))]);
            assert(spec_lookup(inner, "multiple"@) == Some(JsonV::Bool(multiple)));
            lemma_strings_round_trip(options);
        },
    }
}

/// The schema is stable: a question encoded to its wire shape and decoded
/// back is the same question.
pub proof fn lemma_question_round_trip(q: QuestionV)
    ensures
        spec_decode_question(spec_encode_question(q)) == Some(q),
{
    reveal_strlit("method");
    reveal_strlit("subject");
    reveal_strlit("body");
    reveal_strlit("answer_format");
    reveal_with_fuel(spec_lookup, 6);
    let body_j = match q.body {
        Some(b) => JsonV::Str(b),
        None => JsonV::Null,
    };
    let fj = spec_encode_format(q.answer_format);
    let fields = seq![
        ("method"@, JsonV::Str(method_tag(q.method))),
        ("subject"@, JsonV::Str(q.subject)),
        ("body"@, body_j),
        ("answer_format"@, fj),
    ];
    let efields = spec_encode_question(q)->Obj_0;
    assert(spec_encode_question(q) is Obj);
    assert(efields.len() == 4);
    assert(efields[0] == fields[0]);
    assert(efields[1] == fields[1]);
    assert(efields[2] == fields[2]);
    assert(efields[3] == fields[3]);
    assert(efields =~= fields);
    assert(spec_encode_question(q) =~~= JsonV::Obj(fields));
    assert("method"@.len() == 6 && "subject"@.len() == 7 && "body"@.len() == 4
        && "answer_format"@.len() == 13);
    let rest1 = fields.drop_first();
    let rest2 = rest1.drop_first();
    let rest3 = rest2.drop_first();
    assert(rest1 =~= seq![
        ("subject"@, JsonV::Str(q.subject)),
        ("body"@, body_j),
        ("answer_format"@, fj),
    ]);
    assert(rest2 =~= seq![("body"@, body_j), ("answer_format"@, fj)]);
    assert(rest3 =~= seq![("answer_format"@, fj)]);
    assert(spec_lookup(fields, "method"@) == Some(JsonV::Str(method_tag(q.method))));
    assert(spec_lookup(fields, "subject"@) == Some(JsonV::Str(q.subject)));
    assert(spec_lookup(fields, "body"@) == Some(body_j));
    assert(spec_lookup(fields, "answer_format"@) == Some(fj));
    assert(q.method == QuestionMethod::Push);
    lemma_format_round_trip(q.answer_format);
}

// --- Between text and tree: the only steps that call an outside crate ---

/// serde_json's parsed document type, declared so the conversions below
/// can name it.
#[verifier::external_type_specification]
#[verifier::external_body]
pub struct ExValue(serde_json::Value);

/// The JSON document a text parses to, if any: the result of
/// `serde_json::from_str`, rendered in this library's model by
/// [`parse_json_doc`]. Parsing is a function of the text alone.
pub uninterp spec fn json_of(s: Seq<char>) -> Option<JsonV>;

/// The text a JSON document prints to: the result of
/// `serde_json::to_string`, a function of the document alone, reached
/// through [`render_json`].
pub uninterp spec fn json_text(j: JsonV) -> Seq<char>;

/// Renders serde_json's tree in this library's model, arm for arm; a
/// number outside the unsigned range becomes `Json::Other`.
#[verifier::external_body]
fn value_to_json(v: &serde_json::Value) -> Json {
    match v {
        serde_json::Value::Null => Json::Null,
        serde_json::Value::Bool(b) => Json::Bool(*b),
        serde_json::Value::Number(n) => match n.as_u64() {
            Some(u) => Json::UInt(u),
            None => Json::Other,
        },
        serde_json::Value::String(s) => Json::Str(s.clone()),
        serde_json::Value::Array(a) => Json::Arr(a.iter().map(value_to_json).collect()),
        serde_json::Value::Object(m) => Json::Obj(
            m.iter().map(|(k, x)| (k.clone(), value_to_json(x))).collect(),
        ),
    }
}

/// Renders this library's tree as serde_json's, arm for arm; the values
/// outside the model print as null.
#[verifier::external_body]
fn json_to_value(j: &Json) -> serde_json::Value {
    match j {
        Json::Null | Json::Other => serde_json::Value::Null,
        Json::Bool(b) => serde_json::Value::Bool(*b),
        Json::UInt(n) => serde_json::Value::Number(serde_json::Number::from(*n)),
        Json::Str(s) => serde_json::Value::String(s.clone()),
        Json::Arr(a) => serde_json::Value::Array(a.iter().map(json_to_value).collect()),
        Json::Obj(f) => serde_json::Value::Object(
            f.iter().map(|(k, x)| (k.clone(), json_to_value(x))).collect(),
        ),
    }
}

/// Relies on serde_json::from_str: whether a text parses, and to what
/// document, depends on the text alone; `json_of` names that document.
#[verifier::external_body]
pub(crate) fn parse_json_doc(s: &str) -> (r: Option<Json>)
    ensures
        (r is Some) == (json_of(s@) is Some),
        r matches Some(j) ==> json_of(s@) == Some(jv(j)),
{
    match serde_json::from_str::<serde_json::Value>(s) {
        Ok(v) => Some(value_to_json(&v)),
        Err(_) => None,
    }
}

/// Relies on serde_json::to_string: the text a document prints to depends
/// on the document alone; `json_text` names that text. Printing a `Value`
/// cannot fail — its `Serialize` impl has no error path and every object
/// key is a string — so a text is always produced.
#[verifier::external_body]
fn render_json(j: &Json) -> (r: String)
    ensures
        r@ == json_text(jv(*j)),
{
    serde_json::to_string(&json_to_value(j)).unwrap()
}

// --- Text-level entry points ---

/// The question a text holds: what it parses to, read as a question.
pub open spec fn spec_question_of_text(s: Seq<char>) -> Option<QuestionV> {
    match json_of(s) {
        Some(d) => spec_decode_question(d),
        None => None,
    }
}

/// Parses a text and reads the question it carries.
pub fn decode_question_text(s: &str) -> (r: Option<ConfirmationQuestion>)
    ensures
        match r {
            Some(q) => spec_question_of_text(s@) == Some(q.deep_view()),
            None => spec_question_of_text(s@) is None,
        },
{
    match parse_json_doc(s) {
        Some(j) => decode_question(&j),
        None => None,
    }
}

/// Prints a question's wire shape as text.
pub fn encode_question_text(q: &ConfirmationQuestion) -> (r: String)
    ensures
        r@ == json_text(spec_encode_question(q.deep_view())),
{
    let j = encode_question(q);
    render_json(&j)
}

/// Prints a creation request's wire shape as text: the body of the
/// creation POST, owed for every question.
pub fn create_request_body(q: &ConfirmationQuestion) -> (r: String)
    ensures
        r@ == json_text(spec_encode_create_request(q.deep_view())),
{
    let j = encode_create_request(q);
    render_json(&j)
}

} // verus!
