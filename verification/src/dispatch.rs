use vstd::prelude::*;

use crate::error::ServerError;

verus! {

#[verifier::external_type_specification]
#[verifier::external_body]
pub struct ExGraphQLRequest(async_graphql::Request);

#[verifier::external_type_specification]
#[verifier::external_body]
pub struct ExGraphQLResponse(async_graphql::Response);

#[verifier::external_type_specification]
#[verifier::external_body]
pub struct ExSerdeJsonError(serde_json::Error);

/// Whether `body` deserializes as one GraphQL operation.
pub uninterp spec fn single_parses(body: Seq<u8>) -> bool;

/// The JSON text a response serializes to: a function of the response
/// value alone.
pub uninterp spec fn response_text(resp: async_graphql::Response) -> Seq<char>;

/// The JSON text a sequence of responses serializes to, in order: a
/// function of the responses alone.
pub uninterp spec fn responses_text(resps: Seq<async_graphql::Response>) -> Seq<char>;

/// Whether `body` deserializes as an array of GraphQL operations.
pub uninterp spec fn batch_parses(body: Seq<u8>) -> bool;

/// Relies on `serde_json::from_slice` for `async_graphql::Request`: whether
/// the bytes deserialize, and into what, is a function of the bytes alone.
#[verifier::external_body]
fn parse_single(body: &[u8]) -> (r: Result<async_graphql::Request, serde_json::Error>)
    ensures
        r is Ok <==> single_parses(body@),
{
    serde_json::from_slice::<async_graphql::Request>(body)
}

/// Relies on `serde_json::from_slice` for `Vec<async_graphql::Request>`: a
/// body deserializes this way exactly when it is a JSON array of
/// operations, and that is a function of the bytes alone.
#[verifier::external_body]
fn parse_batch(body: &[u8]) -> (r: Result<Vec<async_graphql::Request>, serde_json::Error>)
    ensures
        r is Ok <==> batch_parses(body@),
{
    serde_json::from_slice::<Vec<async_graphql::Request>>(body)
}

/// A deserialized request body: one operation, or an ordered batch of
/// operations.
pub enum GatewayRequest {
    Single(async_graphql::Request),
    Batch(Vec<async_graphql::Request>),
}

/// The dispatcher's parse decision: with batching enabled the body must be a
/// JSON array of operations, otherwise a single operation. Exactly the
/// bodies the configured mode deserializes are accepted; every other body
/// is the per-request error `DispatchError`, never a crash.
pub fn parse_request(enable_batch: bool, body: &[u8]) -> (r: Result<
    GatewayRequest,
    ServerError,
>)
    ensures
        enable_batch ==> ((r is Ok) <==> batch_parses(body@)),
        !enable_batch ==> ((r is Ok) <==> single_parses(body@)),
        r is Ok ==> (enable_batch <==> r->Ok_0 is Batch),
        r is Err ==> r->Err_0 == ServerError::DispatchError && !r->Err_0.spec_is_fatal(),
{
    if enable_batch {
        match parse_batch(body) {
            Ok(ops) => Ok(GatewayRequest::Batch(ops)),
            Err(_) => Err(ServerError::DispatchError),
        }
    } else {
        match parse_single(body) {
            Ok(op) => Ok(GatewayRequest::Single(op)),
            Err(_) => Err(ServerError::DispatchError),
        }
    }
}

/// The HTTP reply a protocol handler writes back for one exchange.
pub struct HttpReply {
    /// HTTP status code.
    pub status: u16,
    /// Value of the `content-type` header.
    pub content_type: String,
    /// The response body.
    pub body: String,
}

/// Relies on `serde_json::to_string` for `async_graphql::Response`: the
/// text is a function of the response alone, and serialization succeeds,
/// since `to_string` fails only on a failing `Serialize` impl or a map
/// with non-string keys, and a response's derived `Serialize` does
/// neither (its maps are keyed by names).
#[verifier::external_body]
fn response_json(resp: &async_graphql::Response) -> (r: Result<String, serde_json::Error>)
    ensures
        r is Ok,
        r matches Ok(s) ==> s@ == response_text(*resp),
{
    serde_json::to_string(resp)
}

/// Relies on `serde_json::to_string` for `Vec<async_graphql::Response>`:
/// the text is a function of the responses alone, and serialization
/// succeeds, for the same reasons as for one response.
#[verifier::external_body]
fn responses_json(resps: &Vec<async_graphql::Response>) -> (r: Result<
    String,
    serde_json::Error,
>)
    ensures
        r is Ok,
        r matches Ok(s) ==> s@ == responses_text(resps@),
{
    serde_json::to_string(resps)
}

/// The fixed reply for a body the configured mode does not accept: a
/// request-level error, serialized in the GraphQL error shape.
pub fn parse_error_reply() -> (r: HttpReply)
    ensures
        r.status == 400,
        r.content_type@ == "application/json"@,
        r.body@ == "{\"errors\":[{\"message\":\"failed to parse the request body\"}]}"@,
{
    HttpReply {
        status: 400,
        content_type: "application/json".to_owned(),
        body: "{\"errors\":[{\"message\":\"failed to parse the request body\"}]}".to_owned(),
    }
}

/// Wrap a serialized execution result: every successful exchange is served
/// as `200` with a JSON body.
pub fn ok_reply(body: String) -> (r: HttpReply)
    ensures
        r.status == 200,
        r.content_type@ == "application/json"@,
        r.body@ == body@,
{
    HttpReply { status: 200, content_type: "application/json".to_owned(), body }
}

/// Serialize the execution context's response to the reply of one
/// exchange: always the `200` JSON reply carrying exactly the response's
/// serialized text, unaltered.
pub fn render_response(resp: &async_graphql::Response) -> (r: Result<HttpReply, ServerError>)
    ensures
        r is Ok,
        r matches Ok(h) ==> h.status == 200 && h.content_type@ == "application/json"@
            && h.body@ == response_text(*resp),
{
    match response_json(resp) {
        Ok(body) => Ok(ok_reply(body)),
        Err(_) => Err(ServerError::DispatchError),
    }
}

/// Serialize the responses of a batch, in the order the operations
/// arrived, to the reply of one exchange: always the `200` JSON reply
/// carrying exactly the batch's serialized text, unaltered.
pub fn render_batch_response(resps: &Vec<async_graphql::Response>) -> (r: Result<
    HttpReply,
    ServerError,
>)
    ensures
        r is Ok,
        r matches Ok(h) ==> h.status == 200 && h.content_type@ == "application/json"@
            && h.body@ == responses_text(resps@),
{
    match responses_json(resps) {
        Ok(body) => Ok(ok_reply(body)),
        Err(_) => Err(ServerError::DispatchError),
    }
}

} // verus!
