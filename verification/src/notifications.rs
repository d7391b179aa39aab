//! In-app notifications as the REST, gRPC and GraphQL front ends show
//! them: message conversion, pagination and request validation.

use vstd::prelude::*;
use crate::ids::{parse_uuid, spec_parse_uuid, spec_uuid_hyphenated, uuid_to_string};
use crate::json::{
    json_items_view, json_members_view, json_str, json_to_struct_fields, lemma_lookup_at_apart, push_member,
    spec_get, spec_struct_fields, JsonData, JsonNumber, JsonValue,
};
use crate::status::{Code, Status};
use crate::text::owned;
use crate::timestamp::Timestamp;

verus! {

/// A notification as the notification store keeps it.
#[derive(Debug)]
pub struct StoredNotification {
    pub id: u128,
    pub recipient_id: String,
    pub notification_type: String,
    pub title: String,
    pub body: String,
    pub data: JsonValue,
    pub read: bool,
    pub created_at: Timestamp,
}

/// The `NotificationResponse` gRPC message; `data` holds the fields of
/// the `google.protobuf.Struct` sent.
#[derive(Debug)]
pub struct NotificationResponse {
    pub id: String,
    pub recipient_id: String,
    pub notification_type: String,
    pub title: String,
    pub body: String,
    pub data: Option<Vec<(String, JsonValue)>>,
    pub read: bool,
    pub created_at: String,
}

/// Convert a stored notification into its gRPC message: `null` data is
/// sent as no struct at all.
pub fn stored_to_response(notif: &StoredNotification) -> (r: NotificationResponse)
    ensures
        r.id@ == spec_uuid_hyphenated(notif.id),
        r.recipient_id@ == notif.recipient_id@,
        r.notification_type@ == notif.notification_type@,
        r.title@ == notif.title@,
        r.body@ == notif.body@,
        r.read == notif.read,
        r.created_at@ == notif.created_at.spec_text(),
        r.created_at@.len() > 0,
        notif.data.spec_is_null() ==> r.data is None,
        !notif.data.spec_is_null() ==> (r.data matches Some(d) && json_members_view(d@)
            == spec_struct_fields(notif.data@)),
{
    let data = if notif.data.is_null() {
        None
    } else {
        Some(json_to_struct_fields(&notif.data))
    };
    NotificationResponse {
        id: uuid_to_string(notif.id),
        recipient_id: notif.recipient_id.clone(),
        notification_type: notif.notification_type.clone(),
        title: notif.title.clone(),
        body: notif.body.clone(),
        data,
        read: notif.read,
        created_at: notif.created_at.to_rfc3339(),
    }
}

/// The JSON a GraphQL subscription sends for a notification.
pub open spec fn spec_notification_graphql(n: StoredNotification) -> JsonData {
    JsonData::Object(
        seq![
            ("id"@, JsonData::Str(spec_uuid_hyphenated(n.id))),
            ("recipientId"@, JsonData::Str(n.recipient_id@)),
            ("notificationType"@, JsonData::Str(n.notification_type@)),
            ("title"@, JsonData::Str(n.title@)),
            ("body"@, JsonData::Str(n.body@)),
            ("data"@, n.data@),
            ("read"@, JsonData::Bool(n.read)),
            ("createdAt"@, JsonData::Str(n.created_at.spec_text())),
        ],
    )
}

/// Convert a stored notification to the GraphQL-friendly JSON value sent
/// by `onNotification` subscriptions.
pub fn notification_to_graphql_value(n: &StoredNotification) -> (r: JsonValue)
    ensures
        r@ == spec_notification_graphql(*n),
{
    let mut m: Vec<(String, JsonValue)> = Vec::new();
    assert(json_members_view(m@) == Seq::<(Seq<char>, JsonData)>::empty());
    push_member(&mut m, "id", JsonValue::String(uuid_to_string(n.id)));
    push_member(&mut m, "recipientId", json_str(n.recipient_id.as_str()));
    push_member(&mut m, "notificationType", json_str(n.notification_type.as_str()));
    push_member(&mut m, "title", json_str(n.title.as_str()));
    push_member(&mut m, "body", json_str(n.body.as_str()));
    push_member(&mut m, "data", n.data.clone_value());
    push_member(&mut m, "read", JsonValue::Bool(n.read));
    push_member(&mut m, "createdAt", JsonValue::String(n.created_at.to_rfc3339()));
    assert(json_members_view(m@) == seq![
        ("id"@, JsonData::Str(spec_uuid_hyphenated(n.id))),
        ("recipientId"@, JsonData::Str(n.recipient_id@)),
        ("notificationType"@, JsonData::Str(n.notification_type@)),
        ("title"@, JsonData::Str(n.title@)),
        ("body"@, JsonData::Str(n.body@)),
        ("data"@, n.data@),
        ("read"@, JsonData::Bool(n.read)),
        ("createdAt"@, JsonData::Str(n.created_at.spec_text())),
    ]);
    JsonValue::Object(m)
}

/// A streamed notification reaches a subscriber: either it asked for
/// every user, or the notification is addressed to the user it named.
pub open spec fn spec_notification_passes(recipient: Seq<char>, user_filter: Option<String>) -> bool {
    match user_filter {
        Some(u) => recipient == u@,
        None => true,
    }
}

/// Whether a streamed notification is forwarded to a subscriber.
pub fn notification_passes(n: &StoredNotification, user_filter: &Option<String>) -> (r: bool)
    ensures
        r == spec_notification_passes(n.recipient_id@, *user_filter),
{
    match user_filter {
        Some(u) => crate::text::str_eq(n.recipient_id.as_str(), u.as_str()),
        None => true,
    }
}

/// The optional user filter of a request: an empty string means none.
pub fn non_empty_filter(user_id: &Option<String>) -> (r: Option<String>)
    ensures
        match *user_id {
            Some(u) => if u@.len() > 0 {
                r matches Some(v) && v@ == u@
            } else {
                r is None
            },
            None => r is None,
        },
{
    match user_id {
        Some(u) => {
            if u.as_str().unicode_len() > 0 {
                Some(u.clone())
            } else {
                None
            }
        },
        None => None,
    }
}

/// Largest page a listing returns.
pub const MAX_PAGE_SIZE: usize = 100;

/// Page size when the client gives none.
pub const DEFAULT_PAGE_SIZE: usize = 20;

/// Page size and offset of a gRPC `ListNotifications` call: a positive
/// limit is capped at 100, anything else means 20; a negative offset
/// means 0.
pub open spec fn spec_grpc_page(limit: int, offset: int) -> (int, int) {
    (
        if limit > 0 {
            if limit <= 100 {
                limit
            } else {
                100
            }
        } else {
            20
        },
        if offset > 0 {
            offset
        } else {
            0
        },
    )
}

/// Page size and offset of the REST listing: the limit defaults to 20 and
/// is capped at 100, the offset defaults to 0.
pub open spec fn spec_rest_page(limit: Option<usize>, offset: Option<usize>) -> (int, int) {
    (
        match limit {
            Some(l) => if l <= 100 {
                l as int
            } else {
                100
            },
            None => 20,
        },
        match offset {
            Some(o) => o as int,
            None => 0,
        },
    )
}

/// Page size and offset of a gRPC `ListNotifications` call.
pub fn grpc_page(limit: i32, offset: i32) -> (r: (usize, usize))
    ensures
        (r.0 as int, r.1 as int) == spec_grpc_page(limit as int, offset as int),
{
    let l: usize = if limit > 0 {
        if limit <= 100 {
            limit as usize
        } else {
            MAX_PAGE_SIZE
        }
    } else {
        DEFAULT_PAGE_SIZE
    };
    let o: usize = if offset > 0 {
        offset as usize
    } else {
        0
    };
    (l, o)
}

/// Pagination query parameters of the REST listing.
#[derive(Debug)]
pub struct PaginationParams {
    /// Maximum number of items to return (default: 20, max: 100)
    pub limit: Option<usize>,
    /// Number of items to skip (default: 0)
    pub offset: Option<usize>,
}

impl PaginationParams {
    /// Effective page size and offset: limit defaults to 20 and is capped
    /// at 100, offset defaults to 0.
    pub fn resolve(&self) -> (r: (usize, usize))
        ensures
            (r.0 as int, r.1 as int) == spec_rest_page(self.limit, self.offset),
    {
        let limit = match self.limit {
            Some(l) => if l <= MAX_PAGE_SIZE {
                l
            } else {
                MAX_PAGE_SIZE
            },
            None => DEFAULT_PAGE_SIZE,
        };
        let offset = match self.offset {
            Some(o) => o,
            None => 0,
        };
        (limit, offset)
    }
}

/// Push platform of a device token.
#[derive(Clone, Copy, Debug, PartialEq, Eq, Structural)]
pub enum Platform {
    Ios,
    Android,
    Web,
}

/// Request body for device token registration.
#[derive(Debug)]
pub struct RegisterTokenRequest {
    /// The push token string
    pub token: String,
    /// Platform: "ios", "android", or "web"
    pub platform: Platform,
}

/// A page never holds more than 100 notifications, whatever the client
/// asks, over REST and over gRPC; and both front ends give the same page
/// for the same positive limit and non-negative offset.
pub proof fn law_pages_are_capped_and_agree(limit: int, offset: int, rest_limit: Option<usize>, rest_offset: Option<usize>)
    ensures
        0 < spec_grpc_page(limit, offset).0 <= 100,
        spec_grpc_page(limit, offset).1 >= 0,
        spec_rest_page(rest_limit, rest_offset).0 <= 100,
        (rest_limit matches Some(l) && l == limit && limit > 0) && (rest_offset matches Some(o)
            && o == offset) ==> spec_rest_page(rest_limit, rest_offset) == spec_grpc_page(limit, offset),
{
}

/// A user id is required: the empty string is refused.
pub fn require_user_id(user_id: &str) -> (r: Result<(), Status>)
    ensures
        r is Ok <==> user_id@.len() > 0,
        r matches Err(s) ==> s.code == Code::InvalidArgument && s.message@
            == "user_id is required"@,
{
    if user_id.unicode_len() == 0 {
        Err(Status::invalid_argument("user_id is required"))
    } else {
        Ok(())
    }
}

/// The identifiers of a `MarkAsRead` call: at least one, each a UUID;
/// the first one that is not names the error.
pub fn parse_notification_ids(ids: &Vec<String>) -> (r: Result<Vec<u128>, Status>)
    ensures
        r is Ok <==> (ids.len() > 0 && forall|i: int|
            0 <= i < ids.len() ==> (#[trigger] spec_parse_uuid(ids[i]@)) is Some),
        r matches Ok(v) ==> v.len() == ids.len() && forall|i: int|
            0 <= i < ids.len() ==> spec_parse_uuid(ids[i]@) == Some(#[trigger] v[i]),
        r matches Err(s) ==> s.code == Code::InvalidArgument && (if ids.len() == 0 {
            s.message@ == "At least one notification_id is required"@
        } else {
            exists|i: int|
                0 <= i < ids.len() && (#[trigger] spec_parse_uuid(ids[i]@)) is None && (forall|
                    j: int,
                | 0 <= j < i ==> (#[trigger] spec_parse_uuid(ids[j]@)) is Some) && s.message@
                    == "Invalid UUID: "@ + ids[i]@
        }),
{
    if ids.len() == 0 {
        return Err(Status::invalid_argument("At least one notification_id is required"));
    }
    let mut out: Vec<u128> = Vec::new();
    let mut i: usize = 0;
    while i < ids.len()
        invariant
            i <= ids.len(),
            out.len() == i,
            forall|j: int| 0 <= j < i ==> spec_parse_uuid(ids[j]@) == Some(#[trigger] out[j]),
        decreases ids.len() - i,
    {
        match parse_uuid(ids[i].as_str()) {
            Some(id) => {
                out.push(id);
            },
            None => {
                let mut msg = owned("Invalid UUID: ");
                msg.append(ids[i].as_str());
                assert forall|j: int| 0 <= j < i implies (#[trigger] spec_parse_uuid(ids[j]@)) is Some by {
                    assert(spec_parse_uuid(ids[j]@) == Some(out[j]));
                }
                return Err(Status { code: Code::InvalidArgument, message: msg });
            },
        }
        i = i + 1;
    }
    assert forall|j: int| 0 <= j < ids.len() implies (#[trigger] spec_parse_uuid(ids[j]@)) is Some by {
        assert(spec_parse_uuid(ids[j]@) == Some(out[j]));
    }
    Ok(out)
}

/// The identifier of a `DeleteNotification` call.
pub fn parse_notification_id(id: &str) -> (r: Result<u128, Status>)
    ensures
        match spec_parse_uuid(id@) {
            Some(v) => r == Ok::<u128, Status>(v),
            None => r matches Err(s) && s.code == Code::InvalidArgument && s.message@
                == "Invalid notification_id UUID"@,
        },
{
    match parse_uuid(id) {
        Some(v) => Ok(v),
        None => Err(Status::invalid_argument("Invalid notification_id UUID")),
    }
}


// ---------------------------------------------------------------------------
// Answers of the REST notification endpoints
// ---------------------------------------------------------------------------

/// Shared state of the REST notification endpoints: the notification,
/// preferences and device-token stores.
pub struct NotificationState<N, P, D> {
    pub notification_store: N,
    pub preferences_store: P,
    pub device_token_store: D,
}

/// A JSON count.
pub open spec fn spec_count(n: usize) -> JsonData {
    JsonData::Number(JsonNumber::PosInt(n as u64))
}

fn count_value(n: usize) -> (r: JsonValue)
    ensures
        r@ == spec_count(n),
{
    JsonValue::Number(JsonNumber::PosInt(n as u64))
}

/// An object with one member.
pub open spec fn spec_single(key: Seq<char>, value: JsonData) -> JsonData {
    JsonData::Object(seq![(key, value)])
}

/// The object `{key: value}`.
pub fn single_member(key: &str, value: JsonValue) -> (r: JsonValue)
    ensures
        r@ == spec_single(key@, value@),
{
    let mut m: Vec<(String, JsonValue)> = Vec::new();
    assert(json_members_view(m@) == Seq::<(Seq<char>, JsonData)>::empty());
    push_member(&mut m, key, value);
    assert(json_members_view(m@) == seq![(key@, value@)]);
    JsonValue::Object(m)
}

/// The object `{key: n}` answering a count (`unread_count`, `marked`).
pub fn count_body(key: &str, n: usize) -> (r: JsonValue)
    ensures
        r@ == spec_single(key@, spec_count(n)),
{
    single_member(key, count_value(n))
}

/// The page of a user's notifications with the totals and the page
/// bounds that were used.
pub open spec fn spec_list_body(
    notifications: Seq<JsonData>,
    total: usize,
    unread: usize,
    limit: usize,
    offset: usize,
) -> JsonData {
    JsonData::Object(
        seq![
            ("notifications"@, JsonData::Array(notifications)),
            ("total"@, spec_count(total)),
            ("unread"@, spec_count(unread)),
            ("limit"@, spec_count(limit)),
            ("offset"@, spec_count(offset)),
        ],
    )
}

/// The body listing a user's notifications.
pub fn list_body(
    notifications: Vec<JsonValue>,
    total: usize,
    unread: usize,
    limit: usize,
    offset: usize,
) -> (r: JsonValue)
    ensures
        r@ == spec_list_body(json_items_view(notifications@), total, unread, limit, offset),
{
    let ghost items = json_items_view(notifications@);
    let mut m: Vec<(String, JsonValue)> = Vec::new();
    assert(json_members_view(m@) == Seq::<(Seq<char>, JsonData)>::empty());
    push_member(&mut m, "notifications", JsonValue::Array(notifications));
    push_member(&mut m, "total", count_value(total));
    push_member(&mut m, "unread", count_value(unread));
    push_member(&mut m, "limit", count_value(limit));
    push_member(&mut m, "offset", count_value(offset));
    assert(json_members_view(m@) == seq![
        ("notifications"@, JsonData::Array(items)),
        ("total"@, spec_count(total)),
        ("unread"@, spec_count(unread)),
        ("limit"@, spec_count(limit)),
        ("offset"@, spec_count(offset)),
    ]);
    JsonValue::Object(m)
}

/// A deleted notification is answered 200 `{"deleted": true}`; an
/// unknown one 404 `{"error": "notification not found"}`.
pub fn delete_answer(deleted: bool) -> (r: (u16, JsonValue))
    ensures
        deleted ==> r.0 == 200 && r.1@ == spec_single("deleted"@, JsonData::Bool(true)),
        !deleted ==> r.0 == 404 && r.1@ == spec_single(
            "error"@,
            JsonData::Str("notification not found"@),
        ),
{
    if deleted {
        (200, single_member("deleted", JsonValue::Bool(true)))
    } else {
        (404, single_member("error", json_str("notification not found")))
    }
}

/// The answer to muting (`true`) or unmuting (`false`) a user.
pub fn muted_body(muted: bool) -> (r: JsonValue)
    ensures
        r@ == spec_single("muted"@, JsonData::Bool(muted)),
{
    single_member("muted", JsonValue::Bool(muted))
}

/// A registered device token is answered 201 `{"registered": true}`.
pub fn register_answer() -> (r: (u16, JsonValue))
    ensures
        r.0 == 201,
        r.1@ == spec_single("registered"@, JsonData::Bool(true)),
{
    (201, single_member("registered", JsonValue::Bool(true)))
}

/// A removed device token is answered 200 `{"unregistered": true}`; an
/// unknown one 404 `{"error": "token not found"}`.
pub fn unregister_answer(removed: bool) -> (r: (u16, JsonValue))
    ensures
        removed ==> r.0 == 200 && r.1@ == spec_single("unregistered"@, JsonData::Bool(true)),
        !removed ==> r.0 == 404 && r.1@ == spec_single("error"@, JsonData::Str("token not found"@)),
{
    if removed {
        (200, single_member("unregistered", JsonValue::Bool(true)))
    } else {
        (404, single_member("error", json_str("token not found")))
    }
}

/// The JSON an `onNotification` subscriber receives is that notification:
/// its identifier, recipient, type, title, body, data, read flag and
/// creation time, each under its own key.
pub proof fn law_notification_graphql_is_the_notification(n: StoredNotification)
    ensures
        spec_get(spec_notification_graphql(n), "id"@) == Some(JsonData::Str(spec_uuid_hyphenated(n.id))),
        spec_get(spec_notification_graphql(n), "recipientId"@) == Some(JsonData::Str(n.recipient_id@)),
        spec_get(spec_notification_graphql(n), "notificationType"@) == Some(
            JsonData::Str(n.notification_type@),
        ),
        spec_get(spec_notification_graphql(n), "title"@) == Some(JsonData::Str(n.title@)),
        spec_get(spec_notification_graphql(n), "body"@) == Some(JsonData::Str(n.body@)),
        spec_get(spec_notification_graphql(n), "data"@) == Some(n.data@),
        spec_get(spec_notification_graphql(n), "read"@) == Some(JsonData::Bool(n.read)),
        spec_get(spec_notification_graphql(n), "createdAt"@) == Some(JsonData::Str(n.created_at.spec_text())),
{
    reveal_strlit("id");
    reveal_strlit("recipientId");
    reveal_strlit("notificationType");
    reveal_strlit("title");
    reveal_strlit("body");
    reveal_strlit("data");
    reveal_strlit("read");
    reveal_strlit("createdAt");
    let m = match spec_notification_graphql(n) {
        JsonData::Object(m) => m,
        _ => Seq::empty(),
    };
    lemma_lookup_at_apart(m, "id"@, 0);
    lemma_lookup_at_apart(m, "recipientId"@, 1);
    lemma_lookup_at_apart(m, "notificationType"@, 2);
    lemma_lookup_at_apart(m, "title"@, 3);
    lemma_lookup_at_apart(m, "body"@, 4);
    lemma_lookup_at_apart(m, "data"@, 5);
    lemma_lookup_at_apart(m, "read"@, 6);
    lemma_lookup_at_apart(m, "createdAt"@, 7);
}

/// The listing body reports each figure under its own key: the page of
/// notifications, the user's total and unread counts, and the limit and
/// offset the page was taken with.
pub proof fn law_list_body_reports_each_figure(
    notifications: Seq<JsonData>,
    total: usize,
    unread: usize,
    limit: usize,
    offset: usize,
)
    ensures
        spec_get(spec_list_body(notifications, total, unread, limit, offset), "notifications"@) == Some(
            JsonData::Array(notifications),
        ),
        spec_get(spec_list_body(notifications, total, unread, limit, offset), "total"@) == Some(
            spec_count(total),
        ),
        spec_get(spec_list_body(notifications, total, unread, limit, offset), "unread"@) == Some(
            spec_count(unread),
        ),
        spec_get(spec_list_body(notifications, total, unread, limit, offset), "limit"@) == Some(
            spec_count(limit),
        ),
        spec_get(spec_list_body(notifications, total, unread, limit, offset), "offset"@) == Some(
            spec_count(offset),
        ),
{
    reveal_strlit("notifications");
    reveal_strlit("total");
    reveal_strlit("unread");
    reveal_strlit("limit");
    reveal_strlit("offset");
    let m = match spec_list_body(notifications, total, unread, limit, offset) {
        JsonData::Object(m) => m,
        _ => Seq::empty(),
    };
    lemma_lookup_at_apart(m, "notifications"@, 0);
    lemma_lookup_at_apart(m, "total"@, 1);
    lemma_lookup_at_apart(m, "unread"@, 2);
    lemma_lookup_at_apart(m, "limit"@, 3);
    lemma_lookup_at_apart(m, "offset"@, 4);
}

} // verus!
