//! The WebSocket connection table: which clients are connected, what each
//! subscribed to, where an event goes, and how a client message is
//! answered.

use vstd::prelude::*;
use crate::events::FrameworkEvent;
use crate::ids::{random_uuid, spec_uuid_simple, uuid_to_simple_string};
use crate::ws_protocol::{
    spec_filter_matches, ClientMessage, FilterView, ServerMessage, Subscription, SubscriptionFilter,
};
use crate::text::{owned, str_eq};

verus! {

/// Content of one subscription: its identifier and filter.
pub type SubView = (Seq<char>, FilterView);

/// Content of one connection: its identifier and subscriptions in order.
pub type ConnView = (Seq<char>, Seq<SubView>);

/// One connected client and its subscriptions.
#[derive(Debug)]
pub struct Connection {
    pub id: String,
    pub subscriptions: Vec<Subscription>,
}

impl View for Connection {
    type V = ConnView;

    open spec fn view(&self) -> ConnView {
        (self.id@, self.subscriptions@.map_values(|s: Subscription| s@))
    }
}

/// All active connections, each identifier at most once.
#[derive(Debug)]
pub struct ConnectionManager {
    connections: Vec<Connection>,
}

/// The identifiers of the connections are pairwise distinct.
pub open spec fn ids_distinct(v: Seq<ConnView>) -> bool {
    forall|i: int, j: int| 0 <= i < v.len() && 0 <= j < v.len() && i != j ==> v[i].0 != v[j].0
}

/// Position of the connection `id` in the table.
pub open spec fn conn_index(v: Seq<ConnView>, id: Seq<char>) -> Option<int> {
    if exists|i: int| 0 <= i < v.len() && v[i].0 == id {
        Some(choose|i: int| 0 <= i < v.len() && v[i].0 == id)
    } else {
        None
    }
}

/// The subscriptions of the connection `id`, if it is connected.
pub open spec fn subs_of(v: Seq<ConnView>, id: Seq<char>) -> Option<Seq<SubView>> {
    match conn_index(v, id) {
        Some(i) => Some(v[i].1),
        None => None,
    }
}

/// The subscriptions that keep their identifier different from `sub_id`.
pub open spec fn without_sub(s: Seq<SubView>, sub_id: Seq<char>) -> Seq<SubView> {
    s.filter(|x: SubView| x.0 != sub_id)
}

/// Where a dispatched event goes: for each connection in order, each of
/// its subscriptions whose filter matches, as (connection, subscription).
pub open spec fn spec_targets(v: Seq<ConnView>, e: FrameworkEvent) -> Seq<(Seq<char>, Seq<char>)>
    decreases v.len(),
{
    if v.len() == 0 {
        Seq::empty()
    } else {
        spec_targets(v.drop_last(), e) + spec_conn_targets(v.last().0, v.last().1, e)
    }
}

/// Matching subscriptions of one connection.
pub open spec fn spec_conn_targets(conn: Seq<char>, s: Seq<SubView>, e: FrameworkEvent) -> Seq<
    (Seq<char>, Seq<char>),
>
    decreases s.len(),
{
    if s.len() == 0 {
        Seq::empty()
    } else {
        let rest = spec_conn_targets(conn, s.drop_last(), e);
        if spec_filter_matches(s.last().1, e) {
            rest.push((conn, s.last().0))
        } else {
            rest
        }
    }
}

/// What accepting the connection `id` does to the table: it is there with
/// no subscriptions, every other connection keeps its subscriptions, and a
/// new identifier is appended at the end.
pub open spec fn spec_connected(before: Seq<ConnView>, after: Seq<ConnView>, id: Seq<char>) -> bool {
    &&& subs_of(after, id) == Some(Seq::<SubView>::empty())
    &&& forall|other: Seq<char>| other != id ==> subs_of(after, other) == subs_of(before, other)
    &&& conn_index(before, id) is None ==> after == before.push((id, Seq::<SubView>::empty()))
}

/// What the disconnection of `id` does to the table: the connection is
/// gone, every other one keeps its subscriptions, and the table loses
/// exactly its entry (nothing changes for an unknown identifier).
pub open spec fn spec_disconnected(before: Seq<ConnView>, after: Seq<ConnView>, id: Seq<char>) -> bool {
    &&& subs_of(after, id) is None
    &&& forall|other: Seq<char>| other != id ==> subs_of(after, other) == subs_of(before, other)
    &&& match conn_index(before, id) {
        Some(k) => after == before.remove(k),
        None => after == before,
    }
}

/// The identifier given to a connection accepted with the random
/// identifier `u`: "conn_" followed by its simple form.
pub open spec fn spec_connection_id(u: u128) -> Seq<char> {
    "conn_"@ + spec_uuid_simple(u)
}

/// The error text for an unknown connection: "Connection ID not found".
pub open spec fn spec_conn_not_found(id: Seq<char>) -> Seq<char> {
    "Connection "@ + id + " not found"@
}

fn conn_not_found(id: &str) -> (r: String)
    ensures
        r@ == spec_conn_not_found(id@),
{
    let mut m = owned("Connection ");
    m.append(id);
    m.append(" not found");
    m
}

impl ConnectionManager {
    /// Content of the table: the connections in order.
    pub closed spec fn spec_conns(&self) -> Seq<ConnView> {
        self.connections@.map_values(|c: Connection| c@)
    }

    /// No identifier twice.
    #[verifier::type_invariant]
    spec fn wf(self) -> bool {
        ids_distinct(self.spec_conns())
    }

    /// An empty table.
    pub fn new() -> (r: ConnectionManager)
        ensures
            r.spec_conns() == Seq::<ConnView>::empty(),
    {
        let r = ConnectionManager { connections: Vec::new() };
        assert(r.spec_conns() =~= Seq::<ConnView>::empty());
        r
    }

    /// Number of active connections.
    pub fn connection_count(&self) -> (r: usize)
        ensures
            r == self.spec_conns().len(),
    {
        self.connections.len()
    }

    fn find(&self, id: &str) -> (r: Option<usize>)
        ensures
            match r {
                Some(i) => conn_index(self.spec_conns(), id@) == Some(i as int),
                None => conn_index(self.spec_conns(), id@) is None,
            },
    {
        proof {
            use_type_invariant(self);
        }
        let mut i: usize = 0;
        while i < self.connections.len()
            invariant
                i <= self.connections@.len(),
                ids_distinct(self.spec_conns()),
                forall|j: int| 0 <= j < i ==> (#[trigger] self.spec_conns()[j]).0 != id@,
            decreases self.connections@.len() - i,
        {
            if str_eq(self.connections[i].id.as_str(), id) {
                let ghost v = self.spec_conns();
                assert(v[i as int].0 == id@);
                let ghost k = choose|k: int| 0 <= k < v.len() && v[k].0 == id@;
                assert(k == i);
                return Some(i);
            }
            i = i + 1;
        }
        None
    }

    /// Register the connection `id` with no subscriptions; a connection
    /// already registered under that identifier is replaced.
    pub fn connect_with_id(&mut self, id: String)
        ensures
            spec_connected(old(self).spec_conns(), final(self).spec_conns(), id@),
    {
        proof {
            use_type_invariant(&*self);
        }
        let ghost v0 = self.spec_conns();
        let c = Connection { id: id.clone(), subscriptions: Vec::new() };
        assert(c@ == (id@, Seq::<SubView>::empty()));
        let found = self.find(id.as_str());
        let mut conns: Vec<Connection> = Vec::new();
        std::mem::swap(&mut conns, &mut self.connections);
        assert(conns@.map_values(|c: Connection| c@) == v0);
        match found {
            Some(k) => {
                conns.set(k, c);
                let ghost v1 = conns@.map_values(|c: Connection| c@);
                assert(v1 =~= v0.update(k as int, (id@, Seq::<SubView>::empty())));
                assert(ids_distinct(v1));
                assert(v1[k as int].0 == id@);
                assert forall|other: Seq<char>| other != id@ implies subs_of(v1, other) == subs_of(
                    v0,
                    other,
                ) by {
                    if exists|i: int| 0 <= i < v0.len() && v0[i].0 == other {
                        let i = choose|i: int| 0 <= i < v0.len() && v0[i].0 == other;
                        assert(v1[i].0 == other);
                    }
                    if exists|i: int| 0 <= i < v1.len() && v1[i].0 == other {
                        let i = choose|i: int| 0 <= i < v1.len() && v1[i].0 == other;
                        assert(v0[i].0 == other);
                    }
                }
            },
            None => {
                conns.push(c);
                let ghost v1 = conns@.map_values(|c: Connection| c@);
                assert(v1 =~= v0.push((id@, Seq::<SubView>::empty())));
                assert(ids_distinct(v1));
                assert(v1[v0.len() as int].0 == id@);
                assert forall|other: Seq<char>| other != id@ implies subs_of(v1, other) == subs_of(
                    v0,
                    other,
                ) by {
                    if exists|i: int| 0 <= i < v0.len() && v0[i].0 == other {
                        let i = choose|i: int| 0 <= i < v0.len() && v0[i].0 == other;
                        assert(v1[i].0 == other);
                    }
                    if exists|i: int| 0 <= i < v1.len() && v1[i].0 == other {
                        let i = choose|i: int| 0 <= i < v1.len() && v1[i].0 == other;
                        assert(v0[i].0 == other);
                    }
                }
            },
        }
        self.connections = conns;
    }

    /// Register a new connection under a generated identifier ("conn_"
    /// followed by a random UUID in simple form) and return it.
    pub fn connect(&mut self) -> (r: String)
        ensures
            exists|u: u128| r@ == spec_connection_id(u),
            r@.len() == 37,
            spec_connected(old(self).spec_conns(), final(self).spec_conns(), r@),
    {
        let u = random_uuid();
        let mut id = owned("conn_");
        id.append(uuid_to_simple_string(u).as_str());
        assert(id@ == spec_connection_id(u));
        proof {
            reveal_strlit("conn_");
        }
        let r = id.clone();
        self.connect_with_id(id);
        r
    }

    /// Remove a connection when the client disconnects (nothing happens
    /// for an unknown identifier).
    pub fn disconnect(&mut self, connection_id: &str)
        ensures
            spec_disconnected(old(self).spec_conns(), final(self).spec_conns(), connection_id@),
    {
        proof {
            use_type_invariant(&*self);
        }
        let ghost v0 = self.spec_conns();
        let found = self.find(connection_id);
        let mut conns: Vec<Connection> = Vec::new();
        std::mem::swap(&mut conns, &mut self.connections);
        assert(conns@.map_values(|c: Connection| c@) == v0);
        match found {
            Some(k) => {
                conns.remove(k);
                let ghost v1 = conns@.map_values(|c: Connection| c@);
                assert(v1 =~= v0.remove(k as int));
                assert(ids_distinct(v1)) by {
                    assert forall|i: int, j: int|
                        0 <= i < v1.len() && 0 <= j < v1.len() && i != j implies v1[i].0
                        != v1[j].0 by {
                        let i0 = if i < k {
                            i
                        } else {
                            i + 1
                        };
                        let j0 = if j < k {
                            j
                        } else {
                            j + 1
                        };
                        assert(v1[i] == v0[i0]);
                        assert(v1[j] == v0[j0]);
                    }
                }
                assert(!(exists|i: int| 0 <= i < v1.len() && v1[i].0 == connection_id@)) by {
                    if exists|i: int| 0 <= i < v1.len() && v1[i].0 == connection_id@ {
                        let i = choose|i: int| 0 <= i < v1.len() && v1[i].0 == connection_id@;
                        let i0 = if i < k {
                            i
                        } else {
                            i + 1
                        };
                        assert(v1[i] == v0[i0]);
                        assert(v0[k as int].0 == connection_id@);
                    }
                }
                assert forall|other: Seq<char>| other != connection_id@ implies subs_of(v1, other)
                    == subs_of(v0, other) by {
                    if exists|i: int| 0 <= i < v0.len() && v0[i].0 == other {
                        let i = choose|i: int| 0 <= i < v0.len() && v0[i].0 == other;
                        assert(i != k);
                        let i1 = if i < k {
                            i
                        } else {
                            i - 1
                        };
                        assert(v1[i1] == v0[i]);
                        let c = choose|c: int| 0 <= c < v1.len() && v1[c].0 == other;
                        let c0 = if c < k {
                            c
                        } else {
                            c + 1
                        };
                        assert(v1[c] == v0[c0]);
                    }
                    if exists|i: int| 0 <= i < v1.len() && v1[i].0 == other {
                        let i = choose|i: int| 0 <= i < v1.len() && v1[i].0 == other;
                        let i0 = if i < k {
                            i
                        } else {
                            i + 1
                        };
                        assert(v1[i] == v0[i0]);
                    }
                }
            },
            None => {},
        }
        self.connections = conns;
    }

    /// Add a subscription to a connection. Fails with "Connection ID not
    /// found" when the connection is unknown.
    pub fn add_subscription(&mut self, connection_id: &str, subscription: Subscription) -> (r: Result<
        (),
        String,
    >)
        ensures
            match subs_of(old(self).spec_conns(), connection_id@) {
                Some(s) => r is Ok && subs_of(final(self).spec_conns(), connection_id@) == Some(
                    s.push(subscription@),
                ),
                None => r matches Err(m) && m@ == spec_conn_not_found(connection_id@)
                    && final(self).spec_conns() == old(self).spec_conns(),
            },
            forall|other: Seq<char>|
                other != connection_id@ ==> subs_of(final(self).spec_conns(), other) == subs_of(
                    old(self).spec_conns(),
                    other,
                ),
    {
        proof {
            use_type_invariant(&*self);
        }
        let ghost v0 = self.spec_conns();
        match self.find(connection_id) {
            Some(k) => {
                let mut conns: Vec<Connection> = Vec::new();
                std::mem::swap(&mut conns, &mut self.connections);
                assert(conns@.map_values(|c: Connection| c@) == v0);
                let ghost sv = subscription@;
                let mut c = conns.remove(k);
                let ghost c0 = c@;
                c.subscriptions.push(subscription);
                assert(c@.1 =~= c0.1.push(sv));
                conns.insert(k, c);
                let ghost v1 = conns@.map_values(|c: Connection| c@);
                assert(v1 =~= v0.update(k as int, (c0.0, c0.1.push(sv))));
                proof { self.lemma_update_keeps(v0, v1, k as int, connection_id@); }
                self.connections = conns;
                Ok(())
            },
            None => Err(conn_not_found(connection_id)),
        }
    }

    proof fn lemma_update_keeps(&self, v0: Seq<ConnView>, v1: Seq<ConnView>, k: int, id: Seq<char>)
        requires
            ids_distinct(v0),
            0 <= k < v0.len(),
            v0[k].0 == id,
            v1.len() == v0.len(),
            v1[k].0 == id,
            forall|i: int| 0 <= i < v0.len() && i != k ==> v1[i] == v0[i],
        ensures
            ids_distinct(v1),
            conn_index(v1, id) == Some(k),
            conn_index(v0, id) == Some(k),
            forall|other: Seq<char>| other != id ==> subs_of(v1, other) == subs_of(v0, other),
    {
        assert forall|i: int, j: int|
            0 <= i < v1.len() && 0 <= j < v1.len() && i != j implies v1[i].0 != v1[j].0 by {
            if i != k && j != k {
                assert(v1[i] == v0[i] && v1[j] == v0[j]);
            } else if i == k {
                assert(v1[j] == v0[j]);
            } else {
                assert(v1[i] == v0[i]);
            }
        }
        let a = choose|i: int| 0 <= i < v1.len() && v1[i].0 == id;
        assert(v1[k].0 == id);
        let b = choose|i: int| 0 <= i < v0.len() && v0[i].0 == id;
        assert(v0[k].0 == id);
        assert forall|other: Seq<char>| other != id implies subs_of(v1, other) == subs_of(
            v0,
            other,
        ) by {
            if exists|i: int| 0 <= i < v0.len() && v0[i].0 == other {
                let i = choose|i: int| 0 <= i < v0.len() && v0[i].0 == other;
                assert(i != k);
                assert(v1[i] == v0[i]);
                let c = choose|c: int| 0 <= c < v1.len() && v1[c].0 == other;
                assert(c != k);
                assert(v1[c] == v0[c]);
            }
            if exists|i: int| 0 <= i < v1.len() && v1[i].0 == other {
                let i = choose|i: int| 0 <= i < v1.len() && v1[i].0 == other;
                assert(i != k);
                assert(v1[i] == v0[i]);
            }
        }
    }

    /// Add a subscription with a generated identifier to a connection and
    /// return that identifier.
    pub fn subscribe(&mut self, connection_id: &str, filter: SubscriptionFilter) -> (r: Result<
        String,
        String,
    >)
        ensures
            match subs_of(old(self).spec_conns(), connection_id@) {
                Some(s) => r matches Ok(id) && (exists|u: u128|
                    id@ == crate::ws_protocol::spec_subscription_id(u)) && subs_of(
                    final(self).spec_conns(),
                    connection_id@,
                ) == Some(s.push((id@, filter@))),
                None => r matches Err(m) && m@ == spec_conn_not_found(connection_id@)
                    && final(self).spec_conns() == old(self).spec_conns(),
            },
            forall|other: Seq<char>|
                other != connection_id@ ==> subs_of(final(self).spec_conns(), other) == subs_of(
                    old(self).spec_conns(),
                    other,
                ),
    {
        let subscription = Subscription::new(filter);
        let sub_id = subscription.id.clone();
        match self.add_subscription(connection_id, subscription) {
            Ok(()) => Ok(sub_id),
            Err(e) => Err(e),
        }
    }

    /// Remove every subscription of a connection with the given
    /// identifier; `Ok(true)` when one was removed. Fails with
    /// "Connection ID not found" when the connection is unknown.
    pub fn unsubscribe(&mut self, connection_id: &str, subscription_id: &str) -> (r: Result<
        bool,
        String,
    >)
        ensures
            match subs_of(old(self).spec_conns(), connection_id@) {
                Some(s) => r matches Ok(removed) && subs_of(final(self).spec_conns(), connection_id@)
                    == Some(without_sub(s, subscription_id@)) && removed == (without_sub(
                    s,
                    subscription_id@,
                ).len() < s.len()),
                None => r matches Err(m) && m@ == spec_conn_not_found(connection_id@)
                    && final(self).spec_conns() == old(self).spec_conns(),
            },
            forall|other: Seq<char>|
                other != connection_id@ ==> subs_of(final(self).spec_conns(), other) == subs_of(
                    old(self).spec_conns(),
                    other,
                ),
    {
        proof {
            use_type_invariant(&*self);
        }
        let ghost v0 = self.spec_conns();
        match self.find(connection_id) {
            Some(k) => {
                let mut conns: Vec<Connection> = Vec::new();
                std::mem::swap(&mut conns, &mut self.connections);
                assert(conns@.map_values(|c: Connection| c@) == v0);
                let c = conns.remove(k);
                let ghost c0 = c@;
                let before = c.subscriptions.len();
                let mut kept: Vec<Subscription> = Vec::new();
                let Connection { id, subscriptions } = c;
                let subs = subscriptions;
                let ghost all = subs@;
                let ghost allv = all.map_values(|s: Subscription| s@);
                let mut i: usize = 0;
                while i < subs.len()
                    invariant
                        subs@ == all,
                        allv == all.map_values(|s: Subscription| s@),
                        i <= subs.len(),
                        kept@.map_values(|s: Subscription| s@) == without_sub(
                            allv.subrange(0, i as int),
                            subscription_id@,
                        ),
                    decreases subs.len() - i,
                {
                    let ghost pre = allv.subrange(0, i as int);
                    assert(allv.subrange(0, i + 1) == pre.push(allv[i as int]));
                    let keep = !str_eq(subs[i].id.as_str(), subscription_id);
                    let ghost kv0 = kept@.map_values(|s: Subscription| s@);
                    reveal_with_fuel(Seq::filter, 1);
                    assert(without_sub(pre.push(allv[i as int]), subscription_id@) == if allv[i as int].0 != subscription_id@ {
                        without_sub(pre, subscription_id@).push(allv[i as int])
                    } else {
                        without_sub(pre, subscription_id@)
                    }) by {
                        assert(pre.push(allv[i as int]).drop_last() == pre);
                    }
                    if keep {
                        let copy = Subscription {
                            id: subs[i].id.clone(),
                            filter: subs[i].filter.duplicate(),
                        };
                        let ghost sv = allv[i as int];
                        assert(copy@ == sv);
                        kept.push(copy);
                        assert(kept@.map_values(|s: Subscription| s@) =~= kv0.push(sv));
                    }
                    i = i + 1;
                }
                assert(allv.subrange(0, subs.len() as int) == allv);
                let after = kept.len();
                let nc = Connection { id, subscriptions: kept };
                conns.insert(k, nc);
                let ghost v1 = conns@.map_values(|c: Connection| c@);
                assert(v1 =~= v0.update(k as int, (c0.0, without_sub(c0.1, subscription_id@))));
                proof { self.lemma_update_keeps(v0, v1, k as int, connection_id@); }
                self.connections = conns;
                Ok(after < before)
            },
            None => Err(conn_not_found(connection_id)),
        }
    }
    /// Where an event goes: every (connection, subscription) whose filter
    /// matches, connections in table order, subscriptions in the order
    /// they were made.
    pub fn dispatch_targets(&self, event: &FrameworkEvent) -> (r: Vec<(String, String)>)
        ensures
            r@.map_values(|p: (String, String)| (p.0@, p.1@)) == spec_targets(self.spec_conns(), *event),
    {
        let mut out: Vec<(String, String)> = Vec::new();
        let ghost v = self.spec_conns();
        let mut i: usize = 0;
        assert(v.subrange(0, 0) =~= Seq::<ConnView>::empty());
        while i < self.connections.len()
            invariant
                v == self.spec_conns(),
                i <= self.connections@.len(),
                out@.map_values(|p: (String, String)| (p.0@, p.1@)) == spec_targets(
                    v.subrange(0, i as int),
                    *event,
                ),
            decreases self.connections@.len() - i,
        {
            let c = &self.connections[i];
            let ghost cv = c@;
            assert(cv == v[i as int]);
            let ghost base = out@.map_values(|p: (String, String)| (p.0@, p.1@));
            let mut j: usize = 0;
            assert(cv.1.subrange(0, 0) =~= Seq::<SubView>::empty());
            assert(base + spec_conn_targets(cv.0, cv.1.subrange(0, 0), *event) =~= base);
            while j < c.subscriptions.len()
                invariant
                    cv == c@,
                    j <= c.subscriptions@.len(),
                    out@.map_values(|p: (String, String)| (p.0@, p.1@)) == base + spec_conn_targets(
                        cv.0,
                        cv.1.subrange(0, j as int),
                        *event,
                    ),
                decreases c.subscriptions@.len() - j,
            {
                let sub = &c.subscriptions[j];
                let ghost pre = cv.1.subrange(0, j as int);
                assert(cv.1.subrange(0, j + 1).drop_last() =~= pre);
                assert(cv.1.subrange(0, j + 1).last() == sub@);
                let ghost o0 = out@.map_values(|p: (String, String)| (p.0@, p.1@));
                if sub.filter.matches(event) {
                    out.push((c.id.clone(), sub.id.clone()));
                    assert(out@.map_values(|p: (String, String)| (p.0@, p.1@)) =~= o0.push(
                        (cv.0, sub.id@),
                    ));
                }
                j = j + 1;
            }
            assert(cv.1.subrange(0, c.subscriptions@.len() as int) =~= cv.1);
            assert(v.subrange(0, i + 1).drop_last() =~= v.subrange(0, i as int));
            assert(v.subrange(0, i + 1).last() == cv);
            i = i + 1;
        }
        assert(v.subrange(0, v.len() as int) =~= v);
        out
    }

    /// Handle one message from a client and give the reply to send back:
    /// subscribing answers `Subscribed` with the new identifier and the
    /// filter; unsubscribing answers `Unsubscribed`, or an error when the
    /// subscription or the connection is unknown; a ping answers `Pong`.
    pub fn handle_client_message(&mut self, connection_id: &str, msg: ClientMessage) -> (r:
        ServerMessage)
        ensures
            forall|other: Seq<char>|
                other != connection_id@ ==> subs_of(final(self).spec_conns(), other) == subs_of(
                    old(self).spec_conns(),
                    other,
                ),
            match msg {
                ClientMessage::Subscribe { filter } => match subs_of(
                    old(self).spec_conns(),
                    connection_id@,
                ) {
                    Some(s) => r matches ServerMessage::Subscribed { subscription_id, filter: f } && f@
                        == filter@ && (exists|u: u128|
                        subscription_id@ == crate::ws_protocol::spec_subscription_id(u)) && subs_of(
                        final(self).spec_conns(),
                        connection_id@,
                    ) == Some(s.push((subscription_id@, filter@))),
                    None => r matches ServerMessage::Error { message } && message@
                        == spec_conn_not_found(connection_id@) && final(self).spec_conns()
                        == old(self).spec_conns(),
                },
                ClientMessage::Unsubscribe { subscription_id } => match subs_of(
                    old(self).spec_conns(),
                    connection_id@,
                ) {
                    Some(s) => subs_of(final(self).spec_conns(), connection_id@) == Some(
                        without_sub(s, subscription_id@),
                    ) && if without_sub(s, subscription_id@).len() < s.len() {
                        r matches ServerMessage::Unsubscribed { subscription_id: sid } && sid@
                            == subscription_id@
                    } else {
                        r matches ServerMessage::Error { message } && message@ == "Subscription "@
                            + subscription_id@ + " not found"@
                    },
                    None => r matches ServerMessage::Error { message } && message@
                        == spec_conn_not_found(connection_id@) && final(self).spec_conns()
                        == old(self).spec_conns(),
                },
                ClientMessage::Ping => r is Pong && final(self).spec_conns() == old(
                    self,
                ).spec_conns(),
            },
    {
        match msg {
            ClientMessage::Subscribe { filter } => {
                let echo = filter.duplicate();
                match self.subscribe(connection_id, filter) {
                    Ok(sub_id) => ServerMessage::Subscribed { subscription_id: sub_id, filter: echo },
                    Err(e) => ServerMessage::Error { message: e },
                }
            },
            ClientMessage::Unsubscribe { subscription_id } => {
                match self.unsubscribe(connection_id, subscription_id.as_str()) {
                    Ok(removed) => {
                        if removed {
                            ServerMessage::Unsubscribed { subscription_id }
                        } else {
                            let mut m = owned("Subscription ");
                            m.append(subscription_id.as_str());
                            m.append(" not found");
                            ServerMessage::Error { message: m }
                        }
                    },
                    Err(e) => ServerMessage::Error { message: e },
                }
            },
            ClientMessage::Ping => ServerMessage::Pong,
        }
    }
}

/// Connecting a new client and disconnecting it again leaves the table as
/// it was: what `connect` (or `connect_with_id`) promises for an identifier
/// not in use, followed by what `disconnect` promises for it, gives back
/// the table it started from.
pub proof fn law_connect_then_disconnect(
    before: Seq<ConnView>,
    connected: Seq<ConnView>,
    after: Seq<ConnView>,
    id: Seq<char>,
)
    requires
        ids_distinct(before),
        conn_index(before, id) is None,
        spec_connected(before, connected, id),
        spec_disconnected(connected, after, id),
    ensures
        after == before,
{
    let w = before.push((id, Seq::<SubView>::empty()));
    assert(connected == w);
    assert(w[before.len() as int].0 == id);
    let k = choose|i: int| 0 <= i < w.len() && w[i].0 == id;
    if k < before.len() {
        assert(w[k] == before[k]);
        assert(false);
    }
    assert(conn_index(w, id) == Some(before.len() as int));
    assert(w.remove(before.len() as int) =~= before);
}

/// A subscription whose identifier was not in use is found again by
/// unsubscribing it: the list goes back to what it was and the removal is
/// reported. Unsubscribing the same identifier again removes nothing.
pub proof fn law_subscribe_then_unsubscribe(s: Seq<SubView>, sub: SubView)
    requires
        forall|i: int| 0 <= i < s.len() ==> (#[trigger] s[i]).0 != sub.0,
    ensures
        without_sub(s.push(sub), sub.0) == s,
        without_sub(s.push(sub), sub.0).len() < s.push(sub).len(),
        without_sub(without_sub(s.push(sub), sub.0), sub.0).len() == without_sub(
            s.push(sub),
            sub.0,
        ).len(),
{
    lemma_without_absent(s, sub.0);
    reveal_with_fuel(Seq::filter, 1);
    assert(s.push(sub).drop_last() == s);
    assert(without_sub(s.push(sub), sub.0) == without_sub(s, sub.0));
}

proof fn lemma_without_absent(s: Seq<SubView>, id: Seq<char>)
    requires
        forall|i: int| 0 <= i < s.len() ==> (#[trigger] s[i]).0 != id,
    ensures
        without_sub(s, id) == s,
    decreases s.len(),
{
    reveal_with_fuel(Seq::filter, 1);
    if s.len() > 0 {
        lemma_without_absent(s.drop_last(), id);
        assert(s.drop_last().push(s.last()) =~= s);
        assert(s[s.len() - 1].0 != id);
    } else {
        assert(without_sub(s, id) =~= s);
    }
}

/// An entry of one connection's dispatch list names that connection and
/// one of its subscriptions whose filter matches.
proof fn lemma_conn_targets_contains(c: Seq<char>, s: Seq<SubView>, e: FrameworkEvent, p: (Seq<char>, Seq<char>))
    ensures
        spec_conn_targets(c, s, e).contains(p) <==> (p.0 == c && exists|j: int|
            0 <= j < s.len() && (#[trigger] s[j]).0 == p.1 && spec_filter_matches(s[j].1, e)),
    decreases s.len(),
{
    if s.len() > 0 {
        let init = s.drop_last();
        lemma_conn_targets_contains(c, init, e, p);
        let rest = spec_conn_targets(c, init, e);
        if spec_conn_targets(c, s, e).contains(p) {
            if rest.contains(p) {
                let j = choose|j: int| 0 <= j < init.len() && (#[trigger] init[j]).0 == p.1 && spec_filter_matches(init[j].1, e);
                assert(s[j] == init[j]);
            } else {
                assert(spec_filter_matches(s.last().1, e));
                let k = choose|k: int| 0 <= k < rest.push((c, s.last().0)).len() && rest.push((c, s.last().0))[k] == p;
                assert(k == rest.len());
                assert(s[s.len() - 1] == s.last());
            }
        }
        if p.0 == c && exists|j: int| 0 <= j < s.len() && (#[trigger] s[j]).0 == p.1 && spec_filter_matches(s[j].1, e) {
            let j = choose|j: int| 0 <= j < s.len() && (#[trigger] s[j]).0 == p.1 && spec_filter_matches(s[j].1, e);
            if j < init.len() {
                assert(init[j] == s[j]);
                let k = choose|k: int| 0 <= k < rest.len() && rest[k] == p;
                if spec_filter_matches(s.last().1, e) {
                    assert(rest.push((c, s.last().0))[k] == p);
                }
            } else {
                assert(s[j] == s.last());
                assert(rest.push((c, s.last().0))[rest.len() as int] == p);
            }
        }
    }
}

/// An entry of the dispatch list comes from the dispatch list of one of
/// the connections.
proof fn lemma_targets_contains(v: Seq<ConnView>, e: FrameworkEvent, p: (Seq<char>, Seq<char>))
    ensures
        spec_targets(v, e).contains(p) <==> exists|k: int|
            0 <= k < v.len() && spec_conn_targets((#[trigger] v[k]).0, v[k].1, e).contains(p),
    decreases v.len(),
{
    if v.len() > 0 {
        let init = v.drop_last();
        lemma_targets_contains(init, e, p);
        let a = spec_targets(init, e);
        let b = spec_conn_targets(v.last().0, v.last().1, e);
        if (a + b).contains(p) {
            let i = choose|i: int| 0 <= i < (a + b).len() && (a + b)[i] == p;
            if i < a.len() {
                assert(a[i] == p);
                let k = choose|k: int| 0 <= k < init.len() && spec_conn_targets((#[trigger] init[k]).0, init[k].1, e).contains(p);
                assert(v[k] == init[k]);
            } else {
                assert(b[i - a.len()] == p);
                assert(v[v.len() - 1] == v.last());
            }
        }
        if exists|k: int| 0 <= k < v.len() && spec_conn_targets((#[trigger] v[k]).0, v[k].1, e).contains(p) {
            let k = choose|k: int| 0 <= k < v.len() && spec_conn_targets((#[trigger] v[k]).0, v[k].1, e).contains(p);
            if k < init.len() {
                assert(init[k] == v[k]);
                let i = choose|i: int| 0 <= i < a.len() && a[i] == p;
                assert((a + b)[i] == p);
            } else {
                assert(v[k] == v.last());
                let i = choose|i: int| 0 <= i < b.len() && b[i] == p;
                assert((a + b)[a.len() + i] == p);
            }
        }
    }
}

/// A client that holds the subscription `sid` with filter `f` (added
/// under an identifier it did not use yet) is sent, under that
/// subscription, exactly the events that `f` matches.
pub proof fn law_subscription_receives_matching_events(
    v: Seq<ConnView>,
    connection_id: Seq<char>,
    before: Seq<SubView>,
    sid: Seq<char>,
    f: FilterView,
    e: FrameworkEvent,
)
    requires
        ids_distinct(v),
        subs_of(v, connection_id) == Some(before.push((sid, f))),
        forall|j: int| 0 <= j < before.len() ==> (#[trigger] before[j]).0 != sid,
    ensures
        spec_targets(v, e).contains((connection_id, sid)) == spec_filter_matches(f, e),
{
    let p = (connection_id, sid);
    let k0 = conn_index(v, connection_id)->0;
    let s = before.push((sid, f));
    lemma_targets_contains(v, e, p);
    lemma_conn_targets_contains(connection_id, s, e, p);
    if spec_targets(v, e).contains(p) {
        let k = choose|k: int| 0 <= k < v.len() && spec_conn_targets((#[trigger] v[k]).0, v[k].1, e).contains(p);
        lemma_conn_targets_contains(v[k].0, v[k].1, e, p);
        assert(v[k].0 == connection_id);
        assert(k == k0);
        let j = choose|j: int| 0 <= j < s.len() && (#[trigger] s[j]).0 == sid && spec_filter_matches(s[j].1, e);
        if j < before.len() {
            assert(s[j] == before[j]);
        }
        assert(j == before.len());
    }
    if spec_filter_matches(f, e) {
        assert(s[before.len() as int] == (sid, f));
        assert(spec_conn_targets(v[k0].0, v[k0].1, e).contains(p));
    }
}

proof fn lemma_without_sub_len(s: Seq<SubView>, id: Seq<char>)
    ensures
        without_sub(s, id).len() <= s.len(),
        (exists|i: int| 0 <= i < s.len() && (#[trigger] s[i]).0 == id) ==> without_sub(s, id).len() < s.len(),
        forall|i: int| 0 <= i < without_sub(s, id).len() ==> (#[trigger] without_sub(s, id)[i]).0 != id,
    decreases s.len(),
{
    reveal_with_fuel(Seq::filter, 1);
    if s.len() > 0 {
        let init = s.drop_last();
        lemma_without_sub_len(init, id);
        assert(init.push(s.last()) =~= s);
        if exists|i: int| 0 <= i < s.len() && (#[trigger] s[i]).0 == id {
            let i = choose|i: int| 0 <= i < s.len() && (#[trigger] s[i]).0 == id;
            if i < init.len() {
                assert(init[i] == s[i]);
            } else {
                assert(s[i] == s.last());
            }
        }
        let w = without_sub(init, id);
        if s.last().0 != id {
            assert forall|i: int| 0 <= i < w.push(s.last()).len() implies (#[trigger] w.push(s.last())[i]).0 != id by {
                if i < w.len() {
                    assert(w.push(s.last())[i] == w[i]);
                }
            }
        }
    }
}

/// After a subscription `sub` is added to a connection, the first
/// unsubscription of its identifier removes something and reports
/// `Ok(true)`, and a second one removes nothing and reports `Ok(false)`,
/// whether or not the identifier was in use before.
pub proof fn law_unsubscribe_twice(s: Seq<SubView>, sub: SubView)
    ensures
        without_sub(s.push(sub), sub.0).len() < s.push(sub).len(),
        !(without_sub(without_sub(s.push(sub), sub.0), sub.0).len() < without_sub(
            s.push(sub),
            sub.0,
        ).len()),
{
    let t = s.push(sub);
    assert(t[s.len() as int].0 == sub.0);
    lemma_without_sub_len(t, sub.0);
    let w = without_sub(t, sub.0);
    lemma_without_absent(w, sub.0);
}

} // verus!
