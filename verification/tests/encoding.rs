use problem_details::problem::{
    EncodeError, JsonObject, ProblemDetails, Serialized, Source, ValidationError, ValidationErrors,
};
use problem_details::response::{
    internal_server_error, respond, APPLICATION_PROBLEM_JSON, INTERNAL_SERVER_ERROR_PROBLEM,
};
use problem_details::text::{array, join, member, number, object, string, Member};

fn failing() -> Serialized {
    Serialized { outcome: Err(EncodeError {}) }
}

fn trace(id: &str) -> Serialized {
    Serialized {
        outcome: Ok(vec![Member { name: "trace_id".to_string(), value: string(id) }]),
    }
}

fn nothing() -> Serialized {
    Serialized { outcome: Ok(Vec::new()) }
}

fn bad_request<E>(extensions: Option<E>) -> ProblemDetails<E> {
    ProblemDetails {
        type_: "validation_error".to_string(),
        status: 400,
        title: "Bad Request".to_string(),
        detail: "invalid input".to_string(),
        extensions,
    }
}

fn body_error(detail: &str, pointer: Option<&str>) -> ValidationError {
    ValidationError {
        detail: detail.to_string(),
        source: Source::Body { pointer: pointer.map(|p| p.to_string()) },
    }
}

fn keys_of(body: &[u8]) -> Vec<String> {
    let value: serde_json::Value = serde_json::from_slice(body).unwrap();
    let mut keys: Vec<String> = value.as_object().unwrap().keys().cloned().collect();
    keys.sort();
    keys
}

#[test]
fn validation_problem_encodes_to_one_flat_object() {
    let problem = bad_request(Some(ValidationErrors {
        errors: vec![body_error("must be positive", Some("/age"))],
    }));
    let response = problem.into_response();
    assert_eq!(response.content_type, "application/problem+json");
    assert_eq!(response.status, 200);
    let expected = "{\"type\":\"validation_error\",\"status\":400,\"title\":\"Bad Request\",\"detail\":\"invalid input\",\"errors\":[{\"detail\":\"must be positive\",\"source\":\"body\",\"pointer\":\"/age\"}]}";
    assert_eq!(response.body.as_ref(), expected.as_bytes());
    let value: serde_json::Value = serde_json::from_slice(response.body.as_ref()).unwrap();
    assert_eq!(value["status"].as_u64(), Some(400));
    assert_eq!(value["errors"][0]["pointer"].as_str(), Some("/age"));
    assert_eq!(value["type"].as_str(), Some("validation_error"));
    assert_eq!(value["title"].as_str(), Some("Bad Request"));
    assert_eq!(value["detail"].as_str(), Some("invalid input"));
    assert_eq!(
        keys_of(response.body.as_ref()),
        vec!["detail", "errors", "status", "title", "type"]
    );
}

#[test]
fn body_round_trips_through_a_json_parser() {
    let problem = bad_request(Some(trace("a\"b\\c\n\u{e9}\u{1}")));
    let response = problem.into_response();
    assert_eq!(response.content_type, APPLICATION_PROBLEM_JSON);
    let value: serde_json::Value = serde_json::from_slice(response.body.as_ref()).unwrap();
    assert_eq!(value["trace_id"].as_str(), Some("a\"b\\c\n\u{e9}\u{1}"));
    let again = serde_json::to_vec(&value).unwrap();
    let reparsed: serde_json::Value = serde_json::from_slice(&again).unwrap();
    assert_eq!(value, reparsed);
    assert_eq!(
        keys_of(response.body.as_ref()),
        vec!["detail", "status", "title", "trace_id", "type"]
    );
}

#[test]
fn problem_without_extension_has_the_four_members_only() {
    let problem: ProblemDetails<ValidationErrors> = bad_request(None);
    let response = problem.into_response();
    assert_eq!(response.status, 200);
    assert_eq!(
        response.body.as_ref(),
        "{\"type\":\"validation_error\",\"status\":400,\"title\":\"Bad Request\",\"detail\":\"invalid input\"}".as_bytes()
    );
    assert_eq!(keys_of(response.body.as_ref()), vec!["detail", "status", "title", "type"]);
}

#[test]
fn extension_without_members_adds_nothing() {
    let response = bad_request(Some(nothing())).into_response();
    assert_eq!(response.status, 200);
    assert_eq!(keys_of(response.body.as_ref()), vec!["detail", "status", "title", "type"]);
}

#[test]
fn failing_extension_without_being_present_is_not_consulted() {
    let problem: ProblemDetails<Serialized> = bad_request(None);
    let response = problem.into_response();
    assert_eq!(response.status, 200);
    assert_eq!(keys_of(response.body.as_ref()), vec!["detail", "status", "title", "type"]);
}

#[test]
fn body_source_without_pointer_has_no_pointer_key() {
    let text = Source::Body { pointer: None }.to_json();
    assert_eq!(text, "{\"source\":\"body\"}".as_bytes());
    let value: serde_json::Value = serde_json::from_slice(&text).unwrap();
    assert!(value.get("pointer").is_none());
}

#[test]
fn body_source_with_pointer_has_it() {
    let text = Source::Body { pointer: Some("/a/b".to_string()) }.to_json();
    assert_eq!(text, "{\"source\":\"body\",\"pointer\":\"/a/b\"}".as_bytes());
    let value: serde_json::Value = serde_json::from_slice(&text).unwrap();
    assert_eq!(value["pointer"].as_str(), Some("/a/b"));
}

#[test]
fn header_source_names_the_header() {
    let text = Source::Header { name: "Authorization".to_string() }.to_json();
    assert_eq!(text, "{\"source\":\"header\",\"name\":\"Authorization\"}".as_bytes());
    let value: serde_json::Value = serde_json::from_slice(&text).unwrap();
    assert_eq!(value["source"].as_str(), Some("header"));
    assert_eq!(value["name"].as_str(), Some("Authorization"));
    assert_eq!(value.as_object().unwrap().len(), 2);
}

#[test]
fn validation_error_is_flat() {
    let error = ValidationError {
        detail: "missing".to_string(),
        source: Source::Header { name: "X-Id".to_string() },
    };
    assert_eq!(
        error.to_json(),
        "{\"detail\":\"missing\",\"source\":\"header\",\"name\":\"X-Id\"}".as_bytes()
    );
    assert_eq!(error.to_members().len(), 3);
    assert_eq!(body_error("bad", None).to_members().len(), 2);
}

#[test]
fn errors_keep_their_order() {
    let list = ValidationErrors {
        errors: vec![
            body_error("first", Some("/a")),
            body_error("second", None),
            ValidationError {
                detail: "third".to_string(),
                source: Source::Header { name: "Accept".to_string() },
            },
        ],
    };
    let text = list.to_json();
    assert_eq!(
        text,
        "{\"errors\":[{\"detail\":\"first\",\"source\":\"body\",\"pointer\":\"/a\"},{\"detail\":\"second\",\"source\":\"body\"},{\"detail\":\"third\",\"source\":\"header\",\"name\":\"Accept\"}]}".as_bytes()
    );
    let value: serde_json::Value = serde_json::from_slice(&text).unwrap();
    let details: Vec<&str> = value["errors"]
        .as_array()
        .unwrap()
        .iter()
        .map(|e| e["detail"].as_str().unwrap())
        .collect();
    assert_eq!(details, vec!["first", "second", "third"]);
}

#[test]
fn no_errors_give_an_empty_array() {
    let list = ValidationErrors { errors: Vec::new() };
    assert_eq!(list.to_json(), "{\"errors\":[]}".as_bytes());
    let members = list.to_members().ok().unwrap();
    assert_eq!(members.len(), 1);
    assert_eq!(members[0].name, "errors");
    assert_eq!(members[0].value, "[]".as_bytes());
}

#[test]
fn one_error_has_no_comma_around_it() {
    let list = ValidationErrors { errors: vec![body_error("only", None)] };
    assert_eq!(
        list.to_json(),
        "{\"errors\":[{\"detail\":\"only\",\"source\":\"body\"}]}".as_bytes()
    );
}

#[test]
fn failing_extension_gives_the_fallback() {
    let response = bad_request(Some(failing())).into_response();
    assert_eq!(response.status, 500);
    assert_eq!(response.content_type, "application/problem+json");
    let expected: &[u8] = br#"{
    "type": "internal_server_error",
    "title": "Internal Server Error",
    "detail": "Something went wrong when processing your request. Please try again later."
    "status": 500
}"#;
    assert_eq!(response.body.as_ref(), expected);
    let ok: ProblemDetails<Serialized> = bad_request(None);
    assert_eq!(ok.into_response().content_type, response.content_type);
}

#[test]
fn failing_extension_fails_the_document() {
    let problem = bad_request(Some(failing()));
    assert!(problem.to_members().is_err());
    assert!(problem.to_json().is_err());
}

#[test]
fn fallback_is_fixed() {
    let response = internal_server_error();
    assert_eq!(response.status, 500);
    assert_eq!(response.content_type, APPLICATION_PROBLEM_JSON);
    assert_eq!(response.body.as_ref(), INTERNAL_SERVER_ERROR_PROBLEM.as_bytes());
    assert_eq!(response.body.len(), 187);
}

#[test]
fn respond_carries_the_text_or_falls_back() {
    let carried = respond(Ok("{}".as_bytes().to_vec()));
    assert_eq!(carried.status, 200);
    assert_eq!(carried.content_type, "application/problem+json");
    assert_eq!(carried.body.as_ref(), "{}".as_bytes());
    let long = vec![0x20u8; 1000];
    assert_eq!(respond(Ok(long.clone())).body.as_ref(), long.as_slice());
    let empty = respond(Ok(Vec::new()));
    assert_eq!(empty.status, 200);
    assert!(empty.body.is_empty());
    let fallen = respond(Err(EncodeError {}));
    assert_eq!(fallen.status, 500);
    assert_eq!(fallen.body.as_ref(), INTERNAL_SERVER_ERROR_PROBLEM.as_bytes());
}

#[test]
fn strings_are_quoted_and_escaped() {
    assert_eq!(string("abc"), "\"abc\"".as_bytes());
    assert_eq!(string(""), "\"\"".as_bytes());
    assert_eq!(string("a\"b"), "\"a\\\"b\"".as_bytes());
    assert_eq!(string("a\\b"), "\"a\\\\b\"".as_bytes());
    assert_eq!(string("line\nbreak\ttab"), "\"line\\nbreak\\ttab\"".as_bytes());
    assert_eq!(string("\u{1}"), "\"\\u0001\"".as_bytes());
    assert_eq!(string("\u{e9}"), "\"\u{e9}\"".as_bytes());
}

#[test]
fn numbers_are_decimal() {
    assert_eq!(number(0), "0".as_bytes());
    assert_eq!(number(7), "7".as_bytes());
    assert_eq!(number(400), "400".as_bytes());
    assert_eq!(number(500), "500".as_bytes());
    assert_eq!(number(65535), "65535".as_bytes());
}

#[test]
fn join_puts_commas_between_parts() {
    assert_eq!(join(&Vec::new()), Vec::<u8>::new());
    assert_eq!(join(&vec!["1".as_bytes().to_vec()]), "1".as_bytes());
    assert_eq!(
        join(&vec!["1".as_bytes().to_vec(), "22".as_bytes().to_vec(), Vec::new()]),
        "1,22,".as_bytes()
    );
}

#[test]
fn arrays_and_objects_are_framed() {
    assert_eq!(array(&Vec::new()), "[]".as_bytes());
    assert_eq!(
        array(&vec!["1".as_bytes().to_vec(), "\"x\"".as_bytes().to_vec()]),
        "[1,\"x\"]".as_bytes()
    );
    assert_eq!(object(&Vec::new()), "{}".as_bytes());
    let first = Member { name: "a\"".to_string(), value: "1".as_bytes().to_vec() };
    assert_eq!(member(&first), "\"a\\\"\":1".as_bytes());
    let second = Member { name: "b".to_string(), value: "[]".as_bytes().to_vec() };
    assert_eq!(object(&vec![first, second]), "{\"a\\\"\":1,\"b\":[]}".as_bytes());
}

#[test]
fn status_in_the_body_is_the_problems_own() {
    let mut problem: ProblemDetails<Serialized> = bad_request(None);
    problem.status = 65535;
    let response = problem.into_response();
    let value: serde_json::Value = serde_json::from_slice(response.body.as_ref()).unwrap();
    assert_eq!(value["status"].as_u64(), Some(65535));
    assert_eq!(response.status, 200);
}

#[test]
fn serialized_extension_hands_out_its_members() {
    let members = trace("t-1").to_members().ok().unwrap();
    assert_eq!(members.len(), 1);
    assert_eq!(members[0].name, "trace_id");
    assert_eq!(members[0].value, "\"t-1\"".as_bytes());
    assert!(failing().to_members().is_err());
    assert_eq!(nothing().to_members().ok().unwrap().len(), 0);
}

#[test]
fn extension_members_follow_the_fixed_ones() {
    let response = bad_request(Some(trace("t-1"))).into_response();
    assert_eq!(
        response.body.as_ref(),
        "{\"type\":\"validation_error\",\"status\":400,\"title\":\"Bad Request\",\"detail\":\"invalid input\",\"trace_id\":\"t-1\"}".as_bytes()
    );
}
