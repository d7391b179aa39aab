//! The transports the server is exposed through (REST, gRPC, GraphQL,
//! WebSocket): their routes and the fixed answers they compute.

use vstd::prelude::*;
use crate::gql_subscriptions::{error_payload, spec_error_payload};
use crate::json::{json_members_view, json_str, push_member, JsonData, JsonValue};
use crate::text::owned;

verus! {

/// The REST exposure: health checks, entity CRUD and link routes.
pub struct RestExposure;

/// Paths answered by the health check.
pub const HEALTH_PATH: &'static str = "/health";

/// Second path answered by the health check.
pub const HEALTHZ_PATH: &'static str = "/healthz";

/// The health check answer: `{"status": "ok", "service": "this-rs"}`.
pub open spec fn spec_health_body() -> JsonData {
    JsonData::Object(
        seq![("status"@, JsonData::Str("ok"@)), ("service"@, JsonData::Str("this-rs"@))],
    )
}

impl RestExposure {
    /// The body of the health check.
    pub fn health_check() -> (r: JsonValue)
        ensures
            r@ == spec_health_body(),
    {
        let mut m: Vec<(String, JsonValue)> = Vec::new();
        assert(json_members_view(m@) == Seq::<(Seq<char>, JsonData)>::empty());
        push_member(&mut m, "status", json_str("ok"));
        push_member(&mut m, "service", json_str("this-rs"));
        assert(json_members_view(m@) == seq![
            ("status"@, JsonData::Str("ok"@)),
            ("service"@, JsonData::Str("this-rs"@)),
        ]);
        JsonValue::Object(m)
    }
}

/// The gRPC exposure: entity and link services, and the `.proto` export.
pub struct GrpcExposure;

/// Path of the typed `.proto` export.
pub const PROTO_EXPORT_PATH: &'static str = "/grpc/proto";

/// Content type of the `.proto` export and of the SDL export.
pub const TEXT_CONTENT_TYPE: &'static str = "text/plain; charset=utf-8";

impl GrpcExposure {
    /// The route a gRPC service is mounted on when no fallback is
    /// installed: `/<package.Service>/{*rest}`, as tonic mounts it.
    pub fn service_route(service_name: &str) -> (r: String)
        ensures
            r@ == "/"@ + service_name@ + "/{*rest}"@,
    {
        let mut p = owned("/");
        p.append(service_name);
        p.append("/{*rest}");
        p
    }
}

/// The GraphQL exposure: queries and mutations, playground and SDL.
pub struct GraphQLExposure;

/// Path of queries and mutations.
pub const GRAPHQL_PATH: &'static str = "/graphql";

/// Path of the playground.
pub const GRAPHQL_PLAYGROUND_PATH: &'static str = "/graphql/playground";

/// Path of the SDL export.
pub const GRAPHQL_SCHEMA_PATH: &'static str = "/graphql/schema";

/// `{"errors": [{"message": <text>}]}`.
pub open spec fn spec_execution_error_body(message: Seq<char>) -> JsonData {
    JsonData::Object(seq![("errors"@, spec_error_payload(message))])
}

impl GraphQLExposure {
    /// The answer to a request the executor failed on.
    pub fn execution_error_body(message: &str) -> (r: JsonValue)
        ensures
            r@ == spec_execution_error_body(message@),
    {
        let mut m: Vec<(String, JsonValue)> = Vec::new();
        assert(json_members_view(m@) == Seq::<(Seq<char>, JsonData)>::empty());
        push_member(&mut m, "errors", error_payload(message));
        assert(json_members_view(m@) == seq![("errors"@, spec_error_payload(message@))]);
        JsonValue::Object(m)
    }
}

/// The WebSocket exposure: the `/ws` endpoint fed by the event bus.
pub struct WebSocketExposure;

/// Path of the WebSocket endpoint.
pub const WEBSOCKET_PATH: &'static str = "/ws";

/// Which call of the token service failed.
#[derive(Clone, Copy, Debug, PartialEq, Eq, Structural)]
pub enum StsCall {
    /// `POST /auth/token`
    Login,
    /// `GET /auth/keys`
    Keys,
    /// `POST /auth/refresh`
    Refresh,
}

/// The answer to a failed call of the token service: bad credentials and
/// bad refresh tokens are 401, a key set that cannot be built is 500.
pub open spec fn spec_sts_failure(call: StsCall) -> (u16, JsonData) {
    match call {
        StsCall::Login => (401, JsonData::Object(seq![("error"@, JsonData::Str("invalid_credentials"@))])),
        StsCall::Keys => (500, JsonData::Object(seq![("error"@, JsonData::Str("jwks_generation_failed"@))])),
        StsCall::Refresh => (401, JsonData::Object(seq![("error"@, JsonData::Str("invalid_refresh_token"@))])),
    }
}

/// Status and body answering a failed call of the token service.
pub fn sts_failure(call: StsCall) -> (r: (u16, JsonValue))
    ensures
        r.0 == spec_sts_failure(call).0,
        r.1@ == spec_sts_failure(call).1,
{
    let (status, code) = match call {
        StsCall::Login => (401u16, "invalid_credentials"),
        StsCall::Keys => (500u16, "jwks_generation_failed"),
        StsCall::Refresh => (401u16, "invalid_refresh_token"),
    };
    let mut m: Vec<(String, JsonValue)> = Vec::new();
    assert(json_members_view(m@) == Seq::<(Seq<char>, JsonData)>::empty());
    push_member(&mut m, "error", json_str(code));
    assert(json_members_view(m@) == seq![("error"@, JsonData::Str(code@))]);
    (status, JsonValue::Object(m))
}

/// The answer to a revocation: `{"status": "revoked"}`.
pub fn revoked_body() -> (r: JsonValue)
    ensures
        r@ == JsonData::Object(seq![("status"@, JsonData::Str("revoked"@))]),
{
    let mut m: Vec<(String, JsonValue)> = Vec::new();
    assert(json_members_view(m@) == Seq::<(Seq<char>, JsonData)>::empty());
    push_member(&mut m, "status", json_str("revoked"));
    assert(json_members_view(m@) == seq![("status"@, JsonData::Str("revoked"@))]);
    JsonValue::Object(m)
}

} // verus!
