//! WebSocket message protocol: subscription filters, subscriptions and the
//! messages exchanged with clients.

use vstd::prelude::*;
use crate::events::{spec_action, spec_entity_id, spec_entity_type, spec_event_kind, EventEnvelope, FrameworkEvent};
use crate::ids::{random_uuid, spec_uuid_simple, uuid_to_simple_string};
use crate::text::{owned, str_eq};

verus! {

/// Content of an optional string.
pub open spec fn opt_view(o: Option<String>) -> Option<Seq<char>> {
    match o {
        Some(s) => Some(s@),
        None => None,
    }
}

/// A copy of an optional string.
pub fn copy_opt(o: &Option<String>) -> (r: Option<String>)
    ensures
        opt_view(r) == opt_view(*o),
{
    match o {
        Some(s) => Some(s.clone()),
        None => None,
    }
}

/// Filter criteria for event subscriptions. A `None` field is a wildcard.
#[derive(Debug, Default)]
pub struct SubscriptionFilter {
    /// Filter by entity type (e.g., "order", "invoice")
    pub entity_type: Option<String>,
    /// Filter by specific entity ID
    pub entity_id: Option<u128>,
    /// Filter by event type: "created", "updated", "deleted"
    pub event_type: Option<String>,
    /// Filter by event kind: "entity" or "link"
    pub kind: Option<String>,
}

/// Content of a subscription filter.
pub struct FilterView {
    pub entity_type: Option<Seq<char>>,
    pub entity_id: Option<u128>,
    pub event_type: Option<Seq<char>>,
    pub kind: Option<Seq<char>>,
}

impl View for SubscriptionFilter {
    type V = FilterView;

    open spec fn view(&self) -> FilterView {
        FilterView {
            entity_type: opt_view(self.entity_type),
            entity_id: self.entity_id,
            event_type: opt_view(self.event_type),
            kind: opt_view(self.kind),
        }
    }
}

/// The event passes every set criterion of the filter. Link events have
/// no entity type and no entity id, so a filter on either excludes them.
pub open spec fn spec_filter_matches(f: FilterView, e: FrameworkEvent) -> bool {
    &&& f.kind matches Some(k) ==> spec_event_kind(e) == k
    &&& f.entity_type matches Some(t) ==> spec_entity_type(e) == Some(t)
    &&& f.entity_id matches Some(id) ==> spec_entity_id(e) == Some(id)
    &&& f.event_type matches Some(a) ==> spec_action(e) == a
}

impl SubscriptionFilter {
    /// Check if an event matches this filter (all fields AND-ed).
    pub fn matches(&self, event: &FrameworkEvent) -> (r: bool)
        ensures
            r == spec_filter_matches(self@, *event),
    {
        if let Some(kind) = &self.kind {
            if !str_eq(event.event_kind(), kind.as_str()) {
                return false;
            }
        }
        if let Some(entity_type) = &self.entity_type {
            match event.entity_type() {
                Some(et) => {
                    if !str_eq(et, entity_type.as_str()) {
                        return false;
                    }
                },
                None => {
                    return false;
                },
            }
        }
        if let Some(entity_id) = self.entity_id {
            match event.entity_id() {
                Some(eid) => {
                    if eid != entity_id {
                        return false;
                    }
                },
                None => {
                    return false;
                },
            }
        }
        if let Some(event_type) = &self.event_type {
            if !str_eq(event.action(), event_type.as_str()) {
                return false;
            }
        }
        true
    }

    /// A copy of the filter.
    pub fn duplicate(&self) -> (r: SubscriptionFilter)
        ensures
            r@ == self@,
    {
        SubscriptionFilter {
            entity_type: copy_opt(&self.entity_type),
            entity_id: self.entity_id,
            event_type: copy_opt(&self.event_type),
            kind: copy_opt(&self.kind),
        }
    }
}

/// A subscription with its filter and a unique ID.
#[derive(Debug)]
pub struct Subscription {
    /// Unique subscription ID
    pub id: String,
    /// The filter for this subscription
    pub filter: SubscriptionFilter,
}

impl View for Subscription {
    type V = (Seq<char>, FilterView);

    open spec fn view(&self) -> (Seq<char>, FilterView) {
        (self.id@, self.filter@)
    }
}

/// The identifier given to a subscription created with the random
/// identifier `u`: "sub_" followed by its simple form.
pub open spec fn spec_subscription_id(u: u128) -> Seq<char> {
    "sub_"@ + spec_uuid_simple(u)
}

impl Subscription {
    /// Create a new subscription with a generated ID ("sub_" followed by a
    /// random UUID in simple form).
    pub fn new(filter: SubscriptionFilter) -> (r: Subscription)
        ensures
            r.filter@ == filter@,
            exists|u: u128| r.id@ == spec_subscription_id(u),
            r.id@.len() == 36,
    {
        let u = random_uuid();
        let mut id = owned("sub_");
        id.append(uuid_to_simple_string(u).as_str());
        assert(id@ == spec_subscription_id(u));
        proof {
            reveal_strlit("sub_");
        }
        Subscription { id, filter }
    }
}

/// Messages sent from client to server.
#[derive(Debug)]
pub enum ClientMessage {
    /// Subscribe to events matching a filter
    Subscribe { filter: SubscriptionFilter },
    /// Unsubscribe from a specific subscription
    Unsubscribe { subscription_id: String },
    /// Keepalive ping
    Ping,
}

/// Messages sent from the server to a client.
#[derive(Debug)]
pub enum ServerMessage {
    /// An event matching one of the client's subscriptions
    Event { subscription_id: String, data: EventEnvelope },
    /// Subscription confirmation
    Subscribed { subscription_id: String, filter: SubscriptionFilter },
    /// Unsubscription confirmation
    Unsubscribed { subscription_id: String },
    /// Keepalive response
    Pong,
    /// Error message
    Error { message: String },
    /// Sent once on connection, with the connection's identifier
    Welcome { connection_id: String },
}


/// The empty filter matches every event; a filter on an entity type or an
/// entity id never matches a link event.
pub proof fn law_ws_filter_wildcards(e: FrameworkEvent, f: FilterView)
    ensures
        spec_filter_matches(
            FilterView { entity_type: None, entity_id: None, event_type: None, kind: None },
            e,
        ),
        (e is Link && (f.entity_type is Some || f.entity_id is Some)) ==> !spec_filter_matches(f, e),
{
}


/// The reply to a client message that could not be read: `Invalid
/// message: <why>`.
pub fn invalid_message_reply(detail: &str) -> (r: ServerMessage)
    ensures
        r matches ServerMessage::Error { message } && message@ == "Invalid message: "@ + detail@,
{
    let mut m = owned("Invalid message: ");
    m.append(detail);
    ServerMessage::Error { message: m }
}

} // verus!
