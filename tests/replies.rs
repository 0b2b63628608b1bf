use docker::common::{delete, failure, get, get_vector, post, update};
use docker::error::DockerError;
use docker::http::HttpResult;

fn reply(code: u32, body: &str) -> HttpResult {
    HttpResult::new(code, String::from(body))
}

fn refused_with(r: Result<(), DockerError>, message: &str) -> bool {
    match r {
        Err(DockerError::Docker(m)) => m == message,
        _ => false,
    }
}

#[test]
fn image_list_keeps_identifier() {
    let items = get_vector(reply(200, r#"[{"Id":"sha1","RepoTags":["app:latest"],"Size":10}]"#))
        .unwrap();
    assert_eq!(items.len(), 1);
    let first: serde_json::Value = serde_json::from_str(&items[0]).unwrap();
    assert_eq!(first["Id"].as_str(), Some("sha1"));
    assert_eq!(first["Size"].as_i64(), Some(10));
}

#[test]
fn create_refused_with_message() {
    match post(reply(400, r#"{"message":"invalid data"}"#), 201) {
        Err(DockerError::Docker(m)) => assert_eq!(m, "invalid data"),
        other => panic!("expected a refusal, got {:?}", other),
    }
}

#[test]
fn delete_missing_secret_is_refused() {
    let r = delete(reply(404, r#"{"message":"secret not found"}"#));
    assert!(refused_with(r, "secret not found"));
}

#[test]
fn fetch_one_of_non_json_is_decode_error() {
    assert!(matches!(get(reply(200, "not-json")), Err(DockerError::Json(_))));
}

#[test]
fn empty_list_is_no_error() {
    assert_eq!(get_vector(reply(200, "[]")).unwrap().len(), 0);
    assert_eq!(get_vector(reply(200, " [ ] ")).unwrap().len(), 0);
}

#[test]
fn list_keeps_order_and_element_text() {
    let items = get_vector(reply(200, r#"[3, {"x":2}, "s", null]"#)).unwrap();
    assert_eq!(items, vec!["3", r#"{"x":2}"#, r#""s""#, "null"]);
}

#[test]
fn list_of_non_array_is_decode_error() {
    assert!(matches!(get_vector(reply(200, r#"{"Id":"a"}"#)), Err(DockerError::Json(_))));
    assert!(matches!(get_vector(reply(200, "")), Err(DockerError::Json(_))));
}

#[test]
fn update_ignores_success_body() {
    assert!(update(reply(200, "not-json"), 200).is_ok());
    assert!(update(reply(200, ""), 200).is_ok());
    assert!(update(reply(201, r#"{"Id":"x"}"#), 201).is_ok());
}

#[test]
fn update_with_other_status_is_refused() {
    assert!(refused_with(update(reply(200, r#"{"message":"late"}"#), 201), "late"));
}

#[test]
fn delete_needs_exactly_no_content() {
    assert!(delete(reply(204, "")).is_ok());
    assert!(refused_with(delete(reply(200, r#"{"message":"done"}"#)), "done"));
    assert!(matches!(delete(reply(200, "")), Err(DockerError::Json(_))));
}

#[test]
fn mismatch_is_refusal_for_every_reader() {
    let body = r#"{"message":"boom","extra":1}"#;
    for code in [100u32, 201, 204, 301, 404, 500] {
        match get(reply(code, body)) {
            Err(DockerError::Docker(m)) => assert_eq!(m, "boom"),
            other => panic!("{:?}", other),
        }
        match get_vector(reply(code, body)) {
            Err(DockerError::Docker(m)) => assert_eq!(m, "boom"),
            other => panic!("{:?}", other),
        }
    }
    match post(reply(200, body), 201) {
        Err(DockerError::Docker(m)) => assert_eq!(m, "boom"),
        other => panic!("{:?}", other),
    }
}

#[test]
fn match_hands_on_whole_document() {
    let body = r#"{"ID":"abc","Spec":{"Name":"n","Labels":{"a":"b"}}}"#;
    assert_eq!(get(reply(200, body)).unwrap(), body);
    assert_eq!(post(reply(201, body), 201).unwrap(), body);
    assert!(matches!(post(reply(201, "{"), 201), Err(DockerError::Json(_))));
}

#[test]
fn refusal_without_message_is_decode_error() {
    assert!(matches!(failure("{}"), DockerError::Json(_)));
    assert!(matches!(failure(r#"{"message":3}"#), DockerError::Json(_)));
    assert!(matches!(failure("Internal Server Error"), DockerError::Json(_)));
    assert!(matches!(failure(r#"["message"]"#), DockerError::Json(_)));
    match failure(r#"{"message":"x y"}"#) {
        DockerError::Docker(m) => assert_eq!(m, "x y"),
        other => panic!("{:?}", other),
    }
}
