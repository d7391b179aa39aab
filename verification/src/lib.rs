//! Verified core logic of the entity/link server: naming rules, event
//! filtering and conversion, schema and protocol generation, and the
//! per-request decisions of the HTTP, gRPC and WebSocket front ends.

pub mod text;
pub mod config;
pub mod naming;
pub mod ids;
pub mod json;
pub mod timestamp;
pub mod events;
pub mod sse;
pub mod grpc_events;
pub mod status;
pub mod notifications;
pub mod ws_protocol;
pub mod ws_connections;
pub mod auth;
pub mod tenant;
pub mod gql;
pub mod gql_subscriptions;
pub mod gql_exec;
pub mod proto_gen;
pub mod sdl_gen;
pub mod gdpr;
pub mod grpc_services;
pub mod exposures;
pub mod gql_static;
pub mod registry;
