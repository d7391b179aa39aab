//! The GDPR erasure cascade for one tenant, as a state machine: the caller
//! performs each action (purging stores, removing sinks, publishing the
//! event, answering) and reports its outcome; the machine decides what
//! comes next.
//!
//! Order of the cascade: admin check, notifications, links (when a link
//! service is configured), tenant sinks (when a sink registry is), the
//! erasure event (when an event bus is), then the answer.

use vstd::prelude::*;
use crate::auth::AuthContext;
use crate::json::{JsonData, JsonValue, json_members_view, json_str, push_member};
use crate::text::owned;
use crate::timestamp::Timestamp;

verus! {

/// Which optional services the erasure can reach.
#[derive(Clone, Copy, Debug, PartialEq, Eq, Structural)]
pub struct GdprServices {
    pub has_link_service: bool,
    pub has_sink_registry: bool,
    pub has_event_bus: bool,
}

/// Shared state of the GDPR routes: the notification store, and the
/// link service, sink registry and event bus when configured.
pub struct GdprState<N, L, S, B> {
    pub notification_store: N,
    pub link_service: Option<L>,
    pub sink_registry: Option<S>,
    pub event_bus: Option<B>,
}

impl<N, L, S, B> GdprState<N, L, S, B> {
    /// Which of the optional services are configured.
    pub fn services(&self) -> (r: GdprServices)
        ensures
            r.has_link_service == self.link_service is Some,
            r.has_sink_registry == self.sink_registry is Some,
            r.has_event_bus == self.event_bus is Some,
    {
        GdprServices {
            has_link_service: self.link_service.is_some(),
            has_sink_registry: self.sink_registry.is_some(),
            has_event_bus: self.event_bus.is_some(),
        }
    }
}

/// Where a cascade stands.
#[derive(Clone, Copy, Debug, PartialEq, Eq, Structural)]
pub enum ErasureStage {
    /// Waiting for the request.
    AwaitingRequest,
    /// Notifications are being purged.
    PurgingNotifications,
    /// Links are being purged.
    PurgingLinks,
    /// Tenant sinks are being removed.
    RemovingSinks,
    /// The erasure event is being published.
    PublishingEvent,
    /// The cascade has answered (or refused).
    Finished,
}

/// Outcome of purging the tenant's links.
pub enum LinkPurge {
    /// That many links were deleted.
    Deleted(usize),
    /// The link service failed; the cascade goes on as if none were.
    Failed,
}

/// What the caller reports to the machine.
pub enum ErasureInput {
    /// The erasure request, with the identity of its author and the time.
    Request { auth: Option<AuthContext>, now: Timestamp },
    /// Notifications were purged: that many.
    NotificationsPurged(usize),
    /// Links were purged (or the purge failed).
    LinksPurged(LinkPurge),
    /// The tenant's sinks were removed.
    SinksRemoved,
    /// The erasure event was published.
    EventPublished,
}

/// The `GdprErasure` event published at the end of a cascade.
pub struct GdprErasureEvent {
    pub tenant_id: u128,
    pub entities_deleted: usize,
    pub links_deleted: usize,
    pub notifications_deleted: usize,
    pub erased_at: Timestamp,
}

/// The answer to a completed erasure.
pub struct ErasureResponse {
    pub tenant_id: u128,
    pub notifications_deleted: usize,
    pub links_deleted: usize,
    pub status: String,
    pub erased_at: Timestamp,
}

/// What the caller must do next.
pub enum ErasureAction {
    /// Answer 403 with this body.
    Refuse(JsonValue),
    /// Delete the tenant's notifications and report the count.
    PurgeNotifications,
    /// Delete the tenant's links and report the outcome.
    PurgeLinks,
    /// Remove the tenant's sinks.
    RemoveSinks,
    /// Publish this event for the tenant.
    Publish(GdprErasureEvent),
    /// Answer 200 with this response.
    Respond(ErasureResponse),
    /// The input was not the one this stage waits for: nothing to do.
    Ignore,
}

/// One erasure cascade for a tenant.
pub struct ErasureCascade {
    tenant_id: u128,
    services: GdprServices,
    stage: ErasureStage,
    notifications_deleted: usize,
    links_deleted: usize,
    erased_at: Option<Timestamp>,
}

/// The body of the refusal: `{"error": "admin_required", "message": ...}`.
pub open spec fn spec_admin_required_body() -> JsonData {
    JsonData::Object(
        seq![
            ("error"@, JsonData::Str("admin_required"@)),
            ("message"@, JsonData::Str("GDPR erasure requires admin access"@)),
        ],
    )
}

/// The body of the refusal sent to anyone but an administrator.
pub fn admin_required_body() -> (r: JsonValue)
    ensures
        r@ == spec_admin_required_body(),
{
    let mut m: Vec<(String, JsonValue)> = Vec::new();
    assert(json_members_view(m@) == Seq::<(Seq<char>, JsonData)>::empty());
    push_member(&mut m, "error", json_str("admin_required"));
    push_member(&mut m, "message", json_str("GDPR erasure requires admin access"));
    assert(json_members_view(m@) == seq![
        ("error"@, JsonData::Str("admin_required"@)),
        ("message"@, JsonData::Str("GDPR erasure requires admin access"@)),
    ]);
    JsonValue::Object(m)
}

/// Only an authenticated administrator may erase a tenant's data.
pub open spec fn spec_erasure_permitted(auth: Option<AuthContext>) -> bool {
    auth matches Some(a) && a is Admin
}

/// Whether the author of the request may erase a tenant's data.
pub fn erasure_permitted(auth: &Option<AuthContext>) -> (r: bool)
    ensures
        r == spec_erasure_permitted(*auth),
{
    match auth {
        Some(a) => a.is_admin(),
        None => false,
    }
}

/// Links deleted as the cascade counts them: a failed purge counts none.
pub open spec fn spec_links_counted(p: LinkPurge) -> usize {
    match p {
        LinkPurge::Deleted(n) => n,
        LinkPurge::Failed => 0,
    }
}

/// The stage that follows the purge of notifications.
pub open spec fn spec_after_notifications(s: GdprServices) -> ErasureStage {
    if s.has_link_service {
        ErasureStage::PurgingLinks
    } else {
        spec_after_links(s)
    }
}

/// The stage that follows the purge of links.
pub open spec fn spec_after_links(s: GdprServices) -> ErasureStage {
    if s.has_sink_registry {
        ErasureStage::RemovingSinks
    } else {
        spec_after_sinks(s)
    }
}

/// The stage that follows the removal of sinks.
pub open spec fn spec_after_sinks(s: GdprServices) -> ErasureStage {
    if s.has_event_bus {
        ErasureStage::PublishingEvent
    } else {
        ErasureStage::Finished
    }
}

/// The action that starts `c.stage` (for a cascade that entered it by a
/// step): the purge, removal or publication of that stage, or the answer
/// with the counts reached.
pub open spec fn spec_entry_action(c: ErasureCascade, a: ErasureAction) -> bool {
    match c.spec_stage() {
        ErasureStage::PurgingNotifications => a is PurgeNotifications,
        ErasureStage::PurgingLinks => a is PurgeLinks,
        ErasureStage::RemovingSinks => a is RemoveSinks,
        ErasureStage::PublishingEvent => match (a, c.spec_erased_at()) {
            (ErasureAction::Publish(e), Some(t)) => {
                &&& e.tenant_id == c.spec_tenant_id()
                &&& e.entities_deleted == 0
                &&& e.links_deleted == c.spec_links_deleted()
                &&& e.notifications_deleted == c.spec_notifications_deleted()
                &&& e.erased_at.spec_secs() == t.spec_secs()
                &&& e.erased_at.spec_nanos() == t.spec_nanos()
            },
            _ => false,
        },
        ErasureStage::Finished => match (a, c.spec_erased_at()) {
            (ErasureAction::Respond(r), Some(t)) => {
                &&& r.tenant_id == c.spec_tenant_id()
                &&& r.notifications_deleted == c.spec_notifications_deleted()
                &&& r.links_deleted == c.spec_links_deleted()
                &&& r.status@ == "erased"@
                &&& r.erased_at.spec_secs() == t.spec_secs()
                &&& r.erased_at.spec_nanos() == t.spec_nanos()
            },
            _ => false,
        },
        ErasureStage::AwaitingRequest => false,
    }
}

impl ErasureCascade {
    /// While a purge, removal or publication is under way, the time of
    /// the request is known.
    #[verifier::type_invariant]
    spec fn time_known(self) -> bool {
        match self.stage {
            ErasureStage::AwaitingRequest => true,
            ErasureStage::Finished => true,
            _ => self.erased_at is Some,
        }
    }

    /// The tenant whose data is erased.
    pub closed spec fn spec_tenant_id(self) -> u128 {
        self.tenant_id
    }

    /// The optional services the cascade reaches.
    pub closed spec fn spec_services(self) -> GdprServices {
        self.services
    }

    /// The current stage.
    pub closed spec fn spec_stage(self) -> ErasureStage {
        self.stage
    }

    /// Notifications deleted so far.
    pub closed spec fn spec_notifications_deleted(self) -> usize {
        self.notifications_deleted
    }

    /// Links deleted so far.
    pub closed spec fn spec_links_deleted(self) -> usize {
        self.links_deleted
    }

    /// The time of the request, once an administrator made it.
    pub closed spec fn spec_erased_at(self) -> Option<Timestamp> {
        self.erased_at
    }

    /// A cascade for `tenant_id` with the given services, waiting for the
    /// request.
    pub fn new(tenant_id: u128, services: GdprServices) -> (r: Self)
        ensures
            r.spec_tenant_id() == tenant_id,
            r.spec_services() == services,
            r.spec_stage() == ErasureStage::AwaitingRequest,
            r.spec_notifications_deleted() == 0,
            r.spec_links_deleted() == 0,
            r.spec_erased_at() is None,
    {
        ErasureCascade {
            tenant_id,
            services,
            stage: ErasureStage::AwaitingRequest,
            notifications_deleted: 0,
            links_deleted: 0,
            erased_at: None,
        }
    }

    fn time_copy(&self) -> (r: Timestamp)
        requires
            self.erased_at is Some,
        ensures
            r.spec_secs() == self.erased_at.unwrap().spec_secs(),
            r.spec_nanos() == self.erased_at.unwrap().spec_nanos(),
    {
        match &self.erased_at {
            Some(t) => t.copy(),
            None => vstd::pervasive::unreached(),
        }
    }

    /// The action that starts the stage just entered.
    fn enter(&mut self, stage: ErasureStage) -> (a: ErasureAction)
        requires
            stage != ErasureStage::AwaitingRequest,
            old(self).erased_at is Some,
        ensures
            final(self).stage == stage,
            final(self).tenant_id == old(self).tenant_id,
            final(self).services == old(self).services,
            final(self).notifications_deleted == old(self).notifications_deleted,
            final(self).links_deleted == old(self).links_deleted,
            final(self).erased_at == old(self).erased_at,
            spec_entry_action(*final(self), a),
    {
        self.stage = stage;
        match stage {
            ErasureStage::PurgingNotifications => ErasureAction::PurgeNotifications,
            ErasureStage::PurgingLinks => ErasureAction::PurgeLinks,
            ErasureStage::RemovingSinks => ErasureAction::RemoveSinks,
            ErasureStage::PublishingEvent => ErasureAction::Publish(
                GdprErasureEvent {
                    tenant_id: self.tenant_id,
                    entities_deleted: 0,
                    links_deleted: self.links_deleted,
                    notifications_deleted: self.notifications_deleted,
                    erased_at: self.time_copy(),
                },
            ),
            _ => ErasureAction::Respond(
                ErasureResponse {
                    tenant_id: self.tenant_id,
                    notifications_deleted: self.notifications_deleted,
                    links_deleted: self.links_deleted,
                    status: owned("erased"),
                    erased_at: self.time_copy(),
                },
            ),
        }
    }

    fn after_notifications(&self) -> (r: ErasureStage)
        ensures
            r == spec_after_notifications(self.services),
    {
        if self.services.has_link_service {
            ErasureStage::PurgingLinks
        } else {
            self.after_links()
        }
    }

    fn after_links(&self) -> (r: ErasureStage)
        ensures
            r == spec_after_links(self.services),
    {
        if self.services.has_sink_registry {
            ErasureStage::RemovingSinks
        } else {
            self.after_sinks()
        }
    }

    fn after_sinks(&self) -> (r: ErasureStage)
        ensures
            r == spec_after_sinks(self.services),
    {
        if self.services.has_event_bus {
            ErasureStage::PublishingEvent
        } else {
            ErasureStage::Finished
        }
    }

    /// Advance the cascade with what the caller reports.
    ///
    /// - A request from anyone but an administrator is refused with 403
    ///   and the cascade finishes: nothing is deleted.
    /// - An administrator's request records the time and starts the purge
    ///   of notifications.
    /// - Each reported outcome records its count and starts the next
    ///   configured stage: links, sinks, event, then the answer.
    /// - Any input the current stage does not wait for is ignored.
    pub fn step(&mut self, input: ErasureInput) -> (a: ErasureAction)
        ensures
            final(self).spec_tenant_id() == old(self).spec_tenant_id(),
            final(self).spec_services() == old(self).spec_services(),
            ({
                let o = *old(self);
                let f = *final(self);
                match (o.spec_stage(), input) {
                    (ErasureStage::AwaitingRequest, ErasureInput::Request { auth, now }) => if spec_erasure_permitted(auth) {
                        &&& f.spec_stage() == ErasureStage::PurgingNotifications
                        &&& f.spec_erased_at() matches Some(t) && t.spec_secs() == now.spec_secs()
                            && t.spec_nanos() == now.spec_nanos()
                        &&& f.spec_notifications_deleted() == o.spec_notifications_deleted()
                        &&& f.spec_links_deleted() == o.spec_links_deleted()
                        &&& spec_entry_action(f, a)
                    } else {
                        &&& f.spec_stage() == ErasureStage::Finished
                        &&& f.spec_erased_at() == o.spec_erased_at()
                        &&& f.spec_notifications_deleted() == o.spec_notifications_deleted()
                        &&& f.spec_links_deleted() == o.spec_links_deleted()
                        &&& a matches ErasureAction::Refuse(body) && body@ == spec_admin_required_body()
                    },
                    (ErasureStage::PurgingNotifications, ErasureInput::NotificationsPurged(n)) => {
                        &&& f.spec_stage() == spec_after_notifications(o.spec_services())
                        &&& f.spec_notifications_deleted() == n
                        &&& f.spec_links_deleted() == 0
                        &&& f.spec_erased_at() == o.spec_erased_at()
                        &&& spec_entry_action(f, a)
                    },
                    (ErasureStage::PurgingLinks, ErasureInput::LinksPurged(p)) => {
                        &&& f.spec_stage() == spec_after_links(o.spec_services())
                        &&& f.spec_notifications_deleted() == o.spec_notifications_deleted()
                        &&& f.spec_links_deleted() == spec_links_counted(p)
                        &&& f.spec_erased_at() == o.spec_erased_at()
                        &&& spec_entry_action(f, a)
                    },
                    (ErasureStage::RemovingSinks, ErasureInput::SinksRemoved) => {
                        &&& f.spec_stage() == spec_after_sinks(o.spec_services())
                        &&& f.spec_notifications_deleted() == o.spec_notifications_deleted()
                        &&& f.spec_links_deleted() == o.spec_links_deleted()
                        &&& f.spec_erased_at() == o.spec_erased_at()
                        &&& spec_entry_action(f, a)
                    },
                    (ErasureStage::PublishingEvent, ErasureInput::EventPublished) => {
                        &&& f.spec_stage() == ErasureStage::Finished
                        &&& f.spec_notifications_deleted() == o.spec_notifications_deleted()
                        &&& f.spec_links_deleted() == o.spec_links_deleted()
                        &&& f.spec_erased_at() == o.spec_erased_at()
                        &&& spec_entry_action(f, a)
                    },
                    _ => a is Ignore && f == o,
                }
            }),
    {
        proof {
            use_type_invariant(&*self);
        }
        match (self.stage, input) {
            (ErasureStage::AwaitingRequest, ErasureInput::Request { auth, now }) => {
                if erasure_permitted(&auth) {
                    self.erased_at = Some(now);
                    self.enter(ErasureStage::PurgingNotifications)
                } else {
                    self.stage = ErasureStage::Finished;
                    ErasureAction::Refuse(admin_required_body())
                }
            },
            (ErasureStage::PurgingNotifications, ErasureInput::NotificationsPurged(n)) => {
                self.notifications_deleted = n;
                self.links_deleted = 0;
                let next = self.after_notifications();
                self.enter(next)
            },
            (ErasureStage::PurgingLinks, ErasureInput::LinksPurged(p)) => {
                self.links_deleted = match p {
                    LinkPurge::Deleted(n) => n,
                    LinkPurge::Failed => 0,
                };
                let next = self.after_links();
                self.enter(next)
            },
            (ErasureStage::RemovingSinks, ErasureInput::SinksRemoved) => {
                let next = self.after_sinks();
                self.enter(next)
            },
            (ErasureStage::PublishingEvent, ErasureInput::EventPublished) => {
                self.enter(ErasureStage::Finished)
            },
            _ => ErasureAction::Ignore,
        }
    }
}


/// Position of a stage in the cascade.
pub open spec fn spec_stage_rank(s: ErasureStage) -> int {
    match s {
        ErasureStage::AwaitingRequest => 0,
        ErasureStage::PurgingNotifications => 1,
        ErasureStage::PurgingLinks => 2,
        ErasureStage::RemovingSinks => 3,
        ErasureStage::PublishingEvent => 4,
        ErasureStage::Finished => 5,
    }
}

/// The cascade only moves forward, in the documented order, and stops at
/// a stage exactly when its service is configured: links only with a
/// link service, sinks only with a sink registry, the event only with an
/// event bus; it always reaches the answer.
pub proof fn law_erasure_cascade_order(s: GdprServices)
    ensures
        spec_stage_rank(spec_after_notifications(s)) > spec_stage_rank(ErasureStage::PurgingNotifications),
        spec_stage_rank(spec_after_links(s)) > spec_stage_rank(ErasureStage::PurgingLinks),
        spec_stage_rank(spec_after_sinks(s)) > spec_stage_rank(ErasureStage::RemovingSinks),
        (spec_after_notifications(s) == ErasureStage::PurgingLinks) == s.has_link_service,
        (spec_after_links(s) == ErasureStage::RemovingSinks) == s.has_sink_registry,
        (spec_after_notifications(s) == ErasureStage::RemovingSinks) == (!s.has_link_service
            && s.has_sink_registry),
        (spec_after_sinks(s) == ErasureStage::PublishingEvent) == s.has_event_bus,
        spec_after_sinks(s) == ErasureStage::PublishingEvent || spec_after_sinks(s)
            == ErasureStage::Finished,
{
}

} // verus!
