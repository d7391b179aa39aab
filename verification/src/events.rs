//! Framework events: what happens to entities and links, wrapped in an
//! envelope with an identifier and a time.

use vstd::prelude::*;
use crate::ids::random_uuid;
use crate::json::JsonValue;
use crate::timestamp::Timestamp;

verus! {

/// Something that happened to an entity.
#[derive(Debug)]
pub enum EntityEvent {
    Created { entity_type: String, entity_id: u128, data: JsonValue },
    Updated { entity_type: String, entity_id: u128, data: JsonValue },
    Deleted { entity_type: String, entity_id: u128 },
}

/// Something that happened to a link between two entities.
#[derive(Debug)]
pub enum LinkEvent {
    Created {
        link_type: String,
        link_id: u128,
        source_id: u128,
        target_id: u128,
        metadata: Option<JsonValue>,
    },
    Deleted { link_type: String, link_id: u128, source_id: u128, target_id: u128 },
}

/// Any event the framework publishes.
#[derive(Debug)]
pub enum FrameworkEvent {
    Entity(EntityEvent),
    Link(LinkEvent),
}

/// An event with its identifier, time and optional sequence number.
#[derive(Debug)]
pub struct EventEnvelope {
    pub id: u128,
    pub event: FrameworkEvent,
    pub timestamp: Timestamp,
    pub seq_no: Option<u64>,
}

/// "entity" for entity events, "link" for link events.
pub open spec fn spec_event_kind(e: FrameworkEvent) -> Seq<char> {
    match e {
        FrameworkEvent::Entity(_) => "entity"@,
        FrameworkEvent::Link(_) => "link"@,
    }
}

/// "created", "updated" or "deleted".
pub open spec fn spec_action(e: FrameworkEvent) -> Seq<char> {
    match e {
        FrameworkEvent::Entity(EntityEvent::Created { .. }) => "created"@,
        FrameworkEvent::Entity(EntityEvent::Updated { .. }) => "updated"@,
        FrameworkEvent::Entity(EntityEvent::Deleted { .. }) => "deleted"@,
        FrameworkEvent::Link(LinkEvent::Created { .. }) => "created"@,
        FrameworkEvent::Link(LinkEvent::Deleted { .. }) => "deleted"@,
    }
}

/// The entity type of an entity event; link events have none.
pub open spec fn spec_entity_type(e: FrameworkEvent) -> Option<Seq<char>> {
    match e {
        FrameworkEvent::Entity(EntityEvent::Created { entity_type, .. }) => Some(entity_type@),
        FrameworkEvent::Entity(EntityEvent::Updated { entity_type, .. }) => Some(entity_type@),
        FrameworkEvent::Entity(EntityEvent::Deleted { entity_type, .. }) => Some(entity_type@),
        FrameworkEvent::Link(_) => None,
    }
}

/// The entity identifier of an entity event; link events have none.
pub open spec fn spec_entity_id(e: FrameworkEvent) -> Option<u128> {
    match e {
        FrameworkEvent::Entity(EntityEvent::Created { entity_id, .. }) => Some(entity_id),
        FrameworkEvent::Entity(EntityEvent::Updated { entity_id, .. }) => Some(entity_id),
        FrameworkEvent::Entity(EntityEvent::Deleted { entity_id, .. }) => Some(entity_id),
        FrameworkEvent::Link(_) => None,
    }
}

/// The link type of a link event; entity events have none.
pub open spec fn spec_link_type(e: FrameworkEvent) -> Option<Seq<char>> {
    match e {
        FrameworkEvent::Link(LinkEvent::Created { link_type, .. }) => Some(link_type@),
        FrameworkEvent::Link(LinkEvent::Deleted { link_type, .. }) => Some(link_type@),
        FrameworkEvent::Entity(_) => None,
    }
}

/// The entity type of an entity event, or the link type of a link event.
pub open spec fn spec_subject_type(e: FrameworkEvent) -> Seq<char> {
    match e {
        FrameworkEvent::Entity(EntityEvent::Created { entity_type, .. }) => entity_type@,
        FrameworkEvent::Entity(EntityEvent::Updated { entity_type, .. }) => entity_type@,
        FrameworkEvent::Entity(EntityEvent::Deleted { entity_type, .. }) => entity_type@,
        FrameworkEvent::Link(LinkEvent::Created { link_type, .. }) => link_type@,
        FrameworkEvent::Link(LinkEvent::Deleted { link_type, .. }) => link_type@,
    }
}

impl FrameworkEvent {
    /// "entity" or "link".
    pub fn event_kind(&self) -> (r: &'static str)
        ensures
            r@ == spec_event_kind(*self),
    {
        match self {
            FrameworkEvent::Entity(_) => "entity",
            FrameworkEvent::Link(_) => "link",
        }
    }

    /// "created", "updated" or "deleted".
    pub fn action(&self) -> (r: &'static str)
        ensures
            r@ == spec_action(*self),
    {
        match self {
            FrameworkEvent::Entity(EntityEvent::Created { .. }) => "created",
            FrameworkEvent::Entity(EntityEvent::Updated { .. }) => "updated",
            FrameworkEvent::Entity(EntityEvent::Deleted { .. }) => "deleted",
            FrameworkEvent::Link(LinkEvent::Created { .. }) => "created",
            FrameworkEvent::Link(LinkEvent::Deleted { .. }) => "deleted",
        }
    }

    /// The entity type of an entity event.
    pub fn entity_type(&self) -> (r: Option<&str>)
        ensures
            match r {
                Some(t) => spec_entity_type(*self) == Some(t@),
                None => spec_entity_type(*self) is None,
            },
    {
        match self {
            FrameworkEvent::Entity(EntityEvent::Created { entity_type, .. }) => Some(
                entity_type.as_str(),
            ),
            FrameworkEvent::Entity(EntityEvent::Updated { entity_type, .. }) => Some(
                entity_type.as_str(),
            ),
            FrameworkEvent::Entity(EntityEvent::Deleted { entity_type, .. }) => Some(
                entity_type.as_str(),
            ),
            FrameworkEvent::Link(_) => None,
        }
    }

    /// The entity identifier of an entity event.
    pub fn entity_id(&self) -> (r: Option<u128>)
        ensures
            r == spec_entity_id(*self),
    {
        match self {
            FrameworkEvent::Entity(EntityEvent::Created { entity_id, .. }) => Some(*entity_id),
            FrameworkEvent::Entity(EntityEvent::Updated { entity_id, .. }) => Some(*entity_id),
            FrameworkEvent::Entity(EntityEvent::Deleted { entity_id, .. }) => Some(*entity_id),
            FrameworkEvent::Link(_) => None,
        }
    }

    /// The link type of a link event.
    pub fn link_type(&self) -> (r: Option<&str>)
        ensures
            match r {
                Some(t) => spec_link_type(*self) == Some(t@),
                None => spec_link_type(*self) is None,
            },
    {
        match self {
            FrameworkEvent::Link(LinkEvent::Created { link_type, .. }) => Some(link_type.as_str()),
            FrameworkEvent::Link(LinkEvent::Deleted { link_type, .. }) => Some(link_type.as_str()),
            FrameworkEvent::Entity(_) => None,
        }
    }

    /// The entity type of an entity event, or the link type of a link event.
    pub fn subject_type(&self) -> (r: &str)
        ensures
            r@ == spec_subject_type(*self),
    {
        match self {
            FrameworkEvent::Entity(EntityEvent::Created { entity_type, .. }) => entity_type.as_str(),
            FrameworkEvent::Entity(EntityEvent::Updated { entity_type, .. }) => entity_type.as_str(),
            FrameworkEvent::Entity(EntityEvent::Deleted { entity_type, .. }) => entity_type.as_str(),
            FrameworkEvent::Link(LinkEvent::Created { link_type, .. }) => link_type.as_str(),
            FrameworkEvent::Link(LinkEvent::Deleted { link_type, .. }) => link_type.as_str(),
        }
    }
}

impl EventEnvelope {
    /// Wrap an event with a fresh random identifier, the current time and
    /// no sequence number.
    pub fn new(event: FrameworkEvent) -> (r: EventEnvelope)
        ensures
            r.event == event,
            r.seq_no is None,
    {
        let id = random_uuid();
        EventEnvelope { id, event, timestamp: Timestamp::now(), seq_no: None }
    }
}

} // verus!
