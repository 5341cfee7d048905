//! Facilities of the API's HTTP layer: how API objects are framed into
//! response bodies, and which response each kind of handler answers with.
//!
//! Serialising an object to JSON happens where its type is known; the
//! functions here take what the serialiser returned (`serde_json::to_vec`'s
//! result) and decide everything that follows from it.
use vstd::prelude::*;
use crate::body::{bytes_contents, bytes_from_vec};
use crate::framing::{
    NEWLINE, concat_chunks, frame_line, frame_lines, single_line, split_lines,
    lemma_chunks_are_frame_lines, lemma_frame_lines_append, lemma_split_frame_lines,
};

verus! {

/// Status code of a response that returns a resource: 200 "OK".
pub const STATUS_OK: u16 = 200u16;

/// Status code of a response to a successful creation: 201 "Created".
pub const STATUS_CREATED: u16 = 201u16;

/// Status code of a response with no body: 204 "No Content".
pub const STATUS_NO_CONTENT: u16 = 204u16;

/// The media types of the API's response bodies.
#[derive(PartialEq, Eq, Structural, Clone, Copy, Debug)]
pub enum ContentType {
    /// One JSON document: `application/json`.
    Json,
    /// Newline-separated JSON documents: `application/x-json-stream`.
    JsonStream,
}

/// The media type's name, as it goes into the `Content-Type` header.
pub open spec fn media_type_name(c: ContentType) -> Seq<char> {
    match c {
        ContentType::Json => "application/json"@,
        ContentType::JsonStream => "application/x-json-stream"@,
    }
}

impl ContentType {
    /// The media type's name, as it goes into the `Content-Type` header.
    pub fn as_str(&self) -> (s: &'static str)
        ensures
            s@ == media_type_name(*self),
            *self == ContentType::Json ==> s@ == "application/json"@,
            *self == ContentType::JsonStream ==> s@ == "application/x-json-stream"@,
    {
        match self {
            ContentType::Json => "application/json",
            ContentType::JsonStream => "application/x-json-stream",
        }
    }
}

/// The body of a response.
pub enum ResponseBody {
    /// No body at all.
    Empty,
    /// The whole body, known when the response is made.
    Full(bytes::Bytes),
    /// A body streamed out item by item, each item framed by
    /// `api_http_serialize_for_stream`.
    Stream,
}

/// A response of the API, as a handler decides it: status code, media type
/// and body.
pub struct ApiResponse {
    pub status: u16,
    pub content_type: Option<ContentType>,
    pub body: ResponseBody,
}

/// What an object contributes to a body: its JSON where serialising it
/// succeeded, nothing where it failed.
pub open spec fn json_payload(object_json: Result<Vec<u8>, serde_json::Error>) -> Seq<u8> {
    match object_json {
        Ok(json) => json@,
        Err(_) => Seq::empty(),
    }
}

/// What a stream item contributes before its newline: the object's JSON
/// where the object was produced and serialised, nothing otherwise.
pub open spec fn stream_payload<E>(maybe_object_json: Result<Result<Vec<u8>, serde_json::Error>, E>) -> Seq<u8> {
    match maybe_object_json {
        Ok(object_json) => json_payload(object_json),
        Err(_) => Seq::empty(),
    }
}

/// The body streamed out for the given items: each item's line, in order.
pub open spec fn stream_body<E>(items: Seq<Result<Result<Vec<u8>, serde_json::Error>, E>>) -> Seq<u8> {
    frame_lines(items.map_values(|item: Result<Result<Vec<u8>, serde_json::Error>, E>| stream_payload(item)))
}

/// Frames one item of a streamed body: the object's JSON followed by a
/// newline.
///
/// The response's status code has already gone out when items are framed,
/// so an item that is an error, or whose object could not be serialised,
/// cannot fail the response: it is skipped, and only its newline is sent (a
/// zero-length chunk would end the response early). So the result is never
/// an error, whatever error type the caller's result carries, and never
/// empty.
pub fn api_http_serialize_for_stream<E, F>(
    maybe_object_json: &Result<Result<Vec<u8>, serde_json::Error>, E>,
) -> (res: Result<bytes::Bytes, F>)
    ensures
        res is Ok,
        bytes_contents(res->Ok_0) == frame_line(stream_payload(*maybe_object_json)),
        *maybe_object_json matches Ok(Ok(json)) ==> bytes_contents(res->Ok_0) == json@.push(10u8),
        *maybe_object_json matches Ok(Err(_)) ==> bytes_contents(res->Ok_0) == seq![10u8],
        *maybe_object_json is Err ==> bytes_contents(res->Ok_0) == seq![10u8],
{
    let mut object_json_bytes: Vec<u8> = match maybe_object_json {
        Ok(Ok(json_bytes)) => json_bytes.clone(),
        Ok(Err(_)) => Vec::new(),
        Err(_) => Vec::new(),
    };
    object_json_bytes.push(NEWLINE);
    Ok(bytes_from_vec(object_json_bytes))
}

/// The response to a successful creation: 201 "Created", whose JSON body
/// describes the created object (framed as one stream item).
pub fn api_http_create<E>(object_view_json: Result<Vec<u8>, serde_json::Error>) -> (res: Result<ApiResponse, E>)
    ensures
        res is Ok,
        res->Ok_0.status == STATUS_CREATED,
        res->Ok_0.status == 201u16,
        res->Ok_0.content_type == Some(ContentType::Json),
        res->Ok_0.body matches ResponseBody::Full(b) && bytes_contents(b) == frame_line(json_payload(object_view_json)),
        res->Ok_0.body is Full,
        object_view_json matches Ok(json) ==> bytes_contents(res->Ok_0.body->Full_0) == json@.push(10u8),
        object_view_json is Err ==> bytes_contents(res->Ok_0.body->Full_0) == seq![10u8],
{
    let item: Result<Result<Vec<u8>, serde_json::Error>, E> = Ok(object_view_json);
    let serialized = match api_http_serialize_for_stream::<E, E>(&item) {
        Ok(b) => b,
        Err(e) => return Err(e),
    };
    Ok(ApiResponse { status: STATUS_CREATED, content_type: Some(ContentType::Json), body: ResponseBody::Full(serialized) })
}

/// The response to a successful deletion: an empty 204 "No Content".
pub fn api_http_delete<E>() -> (res: Result<ApiResponse, E>)
    ensures
        res is Ok,
        res->Ok_0.status == STATUS_NO_CONTENT,
        res->Ok_0.status == 204u16,
        res->Ok_0.content_type is None,
        res->Ok_0.body is Empty,
{
    Ok(ApiResponse { status: STATUS_NO_CONTENT, content_type: None, body: ResponseBody::Empty })
}

/// The response that returns one resource: 200 "OK", whose JSON body
/// describes the object (framed as one stream item).
pub fn api_http_emit_one<E>(object_view_json: Result<Vec<u8>, serde_json::Error>) -> (res: Result<ApiResponse, E>)
    ensures
        res is Ok,
        res->Ok_0.status == STATUS_OK,
        res->Ok_0.status == 200u16,
        res->Ok_0.content_type == Some(ContentType::Json),
        res->Ok_0.body matches ResponseBody::Full(b) && bytes_contents(b) == frame_line(json_payload(object_view_json)),
        res->Ok_0.body is Full,
        object_view_json matches Ok(json) ==> bytes_contents(res->Ok_0.body->Full_0) == json@.push(10u8),
        object_view_json is Err ==> bytes_contents(res->Ok_0.body->Full_0) == seq![10u8],
{
    let item: Result<Result<Vec<u8>, serde_json::Error>, E> = Ok(object_view_json);
    let serialized = match api_http_serialize_for_stream::<E, E>(&item) {
        Ok(b) => b,
        Err(e) => return Err(e),
    };
    Ok(ApiResponse { status: STATUS_OK, content_type: Some(ContentType::Json), body: ResponseBody::Full(serialized) })
}

/// The response that streams a sequence of resources: 200 "OK", with a
/// newline-separated JSON body whose items are each framed by
/// `api_http_serialize_for_stream` as they come.
pub fn api_http_emit_stream<E>() -> (res: Result<ApiResponse, E>)
    ensures
        res is Ok,
        res->Ok_0.status == STATUS_OK,
        res->Ok_0.status == 200u16,
        res->Ok_0.content_type == Some(ContentType::JsonStream),
        res->Ok_0.body is Stream,
{
    Ok(ApiResponse { status: STATUS_OK, content_type: Some(ContentType::JsonStream), body: ResponseBody::Stream })
}

/// What an item contributes to a body is its object's whole JSON, byte for
/// byte, when the object was produced and serialised, and nothing when the
/// item is an error or serialising failed; its line is that followed by one
/// newline byte, so the line is one byte longer than the JSON and starts
/// with it.
pub proof fn lemma_payload_is_the_whole_json<E>(
    json: Vec<u8>,
    failure: serde_json::Error,
    item_error: E,
)
    ensures
        json_payload(Ok(json)) == json@,
        json_payload(Err(failure)) == Seq::<u8>::empty(),
        stream_payload::<E>(Ok(Ok(json))) == json@,
        stream_payload::<E>(Ok(Err(failure))) == Seq::<u8>::empty(),
        stream_payload::<E>(Err(item_error)) == Seq::<u8>::empty(),
        frame_line(json@) == json@.push(10u8),
        frame_line(json@).len() == json@.len() + 1,
        frame_line(json@).take(json@.len() as int) == json@,
        frame_line(json@)[json@.len() as int] == 10u8,
{
    assert(frame_line(json@).take(json@.len() as int) =~= json@);
}

/// A client that splits a streamed body at its newlines gets back one line
/// per item, in order: the object's JSON where the item was an object that
/// serialised, an empty line where the item was skipped. This holds as long
/// as no object's JSON holds a newline byte (compact JSON never does).
pub proof fn lemma_stream_body_splits_into_items<E>(items: Seq<Result<Result<Vec<u8>, serde_json::Error>, E>>)
    requires
        forall|i: int| 0 <= i < items.len() ==> single_line(#[trigger] stream_payload(items[i])),
    ensures
        split_lines(stream_body(items)) == items.map_values(|item: Result<Result<Vec<u8>, serde_json::Error>, E>| stream_payload(item)),
{
    let payloads = items.map_values(|item: Result<Result<Vec<u8>, serde_json::Error>, E>| stream_payload(item));
    assert forall|i: int| 0 <= i < payloads.len() implies single_line(#[trigger] payloads[i]) by {
        assert(payloads[i] == stream_payload(items[i]));
    }
    lemma_split_frame_lines(payloads);
}

/// The chunks that `api_http_serialize_for_stream` returns for the items of
/// a stream, sent one after another, make up exactly `stream_body` of those
/// items: each item is framed on its own, in the order the items come.
pub proof fn lemma_framed_chunks_make_stream_body<E>(
    items: Seq<Result<Result<Vec<u8>, serde_json::Error>, E>>,
    chunks: Seq<bytes::Bytes>,
)
    requires
        chunks.len() == items.len(),
        forall|i: int| 0 <= i < items.len() ==> bytes_contents(#[trigger] chunks[i]) == frame_line(stream_payload(items[i])),
    ensures
        concat_chunks(chunks.map_values(|b: bytes::Bytes| bytes_contents(b))) == stream_body(items),
{
    let contents = chunks.map_values(|b: bytes::Bytes| bytes_contents(b));
    let payloads = items.map_values(|item: Result<Result<Vec<u8>, serde_json::Error>, E>| stream_payload(item));
    assert forall|i: int| 0 <= i < contents.len() implies #[trigger] contents[i] == frame_line(payloads[i]) by {
        assert(contents[i] == bytes_contents(chunks[i]));
        assert(payloads[i] == stream_payload(items[i]));
    }
    lemma_chunks_are_frame_lines(contents, payloads);
}

/// The body streamed for one run of items followed by another is the body
/// of the first run followed by the body of the second; in particular the
/// body of a single item is that item's framed line.
pub proof fn lemma_stream_body_append<E>(
    first: Seq<Result<Result<Vec<u8>, serde_json::Error>, E>>,
    second: Seq<Result<Result<Vec<u8>, serde_json::Error>, E>>,
)
    ensures
        stream_body(first + second) == stream_body(first) + stream_body(second),
        first.len() == 1 ==> stream_body(first) == frame_line(stream_payload(first[0])),
{
    let f = |item: Result<Result<Vec<u8>, serde_json::Error>, E>| stream_payload(item);
    assert((first + second).map_values(f) =~= first.map_values(f) + second.map_values(f));
    lemma_frame_lines_append(first.map_values(f), second.map_values(f));
    if first.len() == 1 {
        let p = first.map_values(f);
        assert(p.drop_first().len() == 0);
        assert(frame_lines(p.drop_first()) =~= Seq::<u8>::empty());
        assert(frame_line(p[0]) + Seq::<u8>::empty() =~= frame_line(p[0]));
    }
}

} // verus!
