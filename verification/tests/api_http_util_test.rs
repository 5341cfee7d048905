use std::collections::HashMap;

use omicron_api::api_http_util::{
    api_http_create, api_http_delete, api_http_emit_one, api_http_emit_stream,
    api_http_serialize_for_stream, ApiResponse, ContentType, ResponseBody, STATUS_CREATED,
    STATUS_NO_CONTENT, STATUS_OK,
};

#[derive(Debug, PartialEq)]
struct TestError(u32);

fn json_of_project() -> Result<Vec<u8>, serde_json::Error> {
    let mut view = HashMap::new();
    view.insert("name", "demo-project");
    serde_json::to_vec(&view)
}

fn failed_serialization() -> Result<Vec<u8>, serde_json::Error> {
    // A map whose keys are not strings has no JSON form.
    let mut view: HashMap<Vec<u8>, u8> = HashMap::new();
    view.insert(vec![1, 2], 3);
    serde_json::to_vec(&view)
}

fn full_body(resp: &ApiResponse) -> Vec<u8> {
    match &resp.body {
        ResponseBody::Full(b) => b.to_vec(),
        _ => panic!("expected a full body"),
    }
}

#[test]
fn serialize_object_appends_newline() {
    let item: Result<Result<Vec<u8>, serde_json::Error>, TestError> = Ok(json_of_project());
    let bytes = api_http_serialize_for_stream::<TestError, TestError>(&item).unwrap();
    assert_eq!(&bytes[..], b"{\"name\":\"demo-project\"}\n");
}

#[test]
fn serialize_error_item_is_a_bare_newline() {
    let item: Result<Result<Vec<u8>, serde_json::Error>, TestError> = Err(TestError(7));
    let bytes = api_http_serialize_for_stream::<TestError, TestError>(&item).unwrap();
    assert_eq!(&bytes[..], b"\n");
}

#[test]
fn serialize_failure_is_a_bare_newline() {
    let json = failed_serialization();
    assert!(json.is_err());
    let item: Result<Result<Vec<u8>, serde_json::Error>, TestError> = Ok(json);
    let bytes = api_http_serialize_for_stream::<TestError, TestError>(&item).unwrap();
    assert_eq!(&bytes[..], b"\n");
}

#[test]
fn serialize_empty_json_still_has_newline() {
    let item: Result<Result<Vec<u8>, serde_json::Error>, TestError> = Ok(Ok(vec![]));
    let bytes = api_http_serialize_for_stream::<TestError, TestError>(&item).unwrap();
    assert_eq!(bytes.len(), 1);
    assert_eq!(bytes[0], b'\n');
}

#[test]
fn stream_body_splits_back_into_items() {
    let items: Vec<Result<Result<Vec<u8>, serde_json::Error>, TestError>> = vec![
        Ok(serde_json::to_vec(&vec![1, 2, 3])),
        Err(TestError(1)),
        Ok(failed_serialization()),
        Ok(serde_json::to_vec("a\nb")),
    ];
    let mut body: Vec<u8> = Vec::new();
    for item in &items {
        body.extend_from_slice(&api_http_serialize_for_stream::<TestError, TestError>(item).unwrap());
    }
    assert_eq!(body, b"[1,2,3]\n\n\n\"a\\nb\"\n".to_vec());
    let lines: Vec<&[u8]> = body.split(|b| *b == b'\n').collect();
    // The last newline leaves an empty remainder after it.
    assert_eq!(lines.len(), items.len() + 1);
    assert_eq!(lines[0], b"[1,2,3]");
    assert_eq!(lines[1], b"");
    assert_eq!(lines[2], b"");
    assert_eq!(lines[3], b"\"a\\nb\"");
    assert_eq!(lines[4], b"");
}

#[test]
fn create_is_201_with_json_body() {
    let resp = api_http_create::<TestError>(json_of_project()).unwrap();
    assert_eq!(resp.status, STATUS_CREATED);
    assert_eq!(resp.status, 201);
    assert_eq!(resp.content_type, Some(ContentType::Json));
    assert_eq!(full_body(&resp), b"{\"name\":\"demo-project\"}\n".to_vec());
}

#[test]
fn create_with_failed_serialization_has_newline_body() {
    let resp = api_http_create::<TestError>(failed_serialization()).unwrap();
    assert_eq!(resp.status, 201);
    assert_eq!(full_body(&resp), b"\n".to_vec());
}

#[test]
fn delete_is_204_without_body() {
    let resp = api_http_delete::<TestError>().unwrap();
    assert_eq!(resp.status, STATUS_NO_CONTENT);
    assert_eq!(resp.status, 204);
    assert_eq!(resp.content_type, None);
    assert!(matches!(resp.body, ResponseBody::Empty));
}

#[test]
fn emit_one_is_200_with_json_body() {
    let resp = api_http_emit_one::<TestError>(json_of_project()).unwrap();
    assert_eq!(resp.status, STATUS_OK);
    assert_eq!(resp.status, 200);
    assert_eq!(resp.content_type, Some(ContentType::Json));
    assert_eq!(full_body(&resp), b"{\"name\":\"demo-project\"}\n".to_vec());
}

#[test]
fn emit_stream_is_200_json_stream() {
    let resp = api_http_emit_stream::<TestError>().unwrap();
    assert_eq!(resp.status, 200);
    assert_eq!(resp.content_type, Some(ContentType::JsonStream));
    assert!(matches!(resp.body, ResponseBody::Stream));
}

#[test]
fn content_type_names() {
    assert_eq!(ContentType::Json.as_str(), "application/json");
    assert_eq!(ContentType::JsonStream.as_str(), "application/x-json-stream");
}

fn body_of(items: &[Result<Result<Vec<u8>, serde_json::Error>, TestError>]) -> Vec<u8> {
    let mut body: Vec<u8> = Vec::new();
    for item in items {
        body.extend_from_slice(&api_http_serialize_for_stream::<TestError, TestError>(item).unwrap());
    }
    body
}

#[test]
fn stream_body_of_two_runs_is_their_bodies_joined() {
    let first: Vec<Result<Result<Vec<u8>, serde_json::Error>, TestError>> =
        vec![Ok(serde_json::to_vec(&1u8)), Err(TestError(2))];
    let second: Vec<Result<Result<Vec<u8>, serde_json::Error>, TestError>> =
        vec![Ok(serde_json::to_vec("x")), Ok(failed_serialization())];
    let mut joined = body_of(&first);
    joined.extend_from_slice(&body_of(&second));
    let mut both = Vec::new();
    both.extend(first);
    both.extend(second);
    assert_eq!(body_of(&both), joined);
    assert_eq!(joined, b"1\n\n\"x\"\n\n".to_vec());
    let one = vec![Ok(serde_json::to_vec(&true))];
    assert_eq!(body_of(&one), b"true\n".to_vec());
}
