# this_rs — verified server logic

The server side of an entity/link framework: REST, GraphQL, gRPC,
Server-Sent Events and WebSocket front ends over entity and link stores.
The decisions those front ends make are written in Verus and proved
against their contracts; the transports and stores stay outside.

## Layout

- `src/` — the verified library.
  - `text`, `naming`, `ids`, `timestamp`, `json`, `status`, `config`:
    strings, snake/Pascal case and plurals, UUIDs (`uuid` crate), RFC 3339
    times (`chrono` crate), JSON values, gRPC statuses, link definitions.
  - `events`, `sse`, `grpc_events`, `ws_protocol`, `ws_connections`,
    `gql_subscriptions`: framework events, their filters on every stream,
    the messages each stream sends, the WebSocket connection table and
    the `graphql-transport-ws` session.
  - `gql`, `gql_exec`, `gql_static`: parsed GraphQL documents and the
    checks and plans of the query and mutation executor and schemas.
  - `sdl_gen`, `proto_gen`: generation of the GraphQL SDL and of the
    `.proto` file of a deployment.
  - `grpc_services`, `notifications`, `gdpr`, `auth`, `tenant`,
    `exposures`, `registry`: request checks and answers of the services,
    the GDPR erasure cascade as a state machine, authentication and
    tenant resolution, fixed routes and bodies, the entity registry.
  - Public `law_*` proof functions state properties that span several
    functions (filters, round trips, orders of resolution).
- `app/` — plain Rust around the library: serde mirrors of the wire
  messages, conversions to `prost_types::Struct`, GraphQL parsing with
  `graphql-parser`, and axum helpers.
- `tests/` — tests of the library on concrete values.
