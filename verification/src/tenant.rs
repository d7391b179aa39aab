//! Tenant resolution: which tenant a request acts for.
//!
//! Resolution order: the `X-Tenant-Id` header, then the tenant of the
//! authenticated identity, then a `tenant_id=` query parameter. A source
//! whose value is not a UUID is skipped.

use vstd::prelude::*;
use crate::auth::{spec_tenant_of, AuthContext};
use crate::ids::{parse_uuid, spec_parse_uuid};
use crate::text::{spec_split_char, spec_starts_with, split_char, strip_prefix};

verus! {

/// The tenant named by the first `tenant_id=<uuid>` pair among `pairs`.
pub open spec fn spec_query_tenant(pairs: Seq<Seq<char>>) -> Option<u128>
    decreases pairs.len(),
{
    if pairs.len() == 0 {
        None
    } else {
        let p = pairs[0];
        if spec_starts_with(p, "tenant_id="@) && spec_parse_uuid(
            p.subrange("tenant_id="@.len() as int, p.len() as int),
        ) is Some {
            spec_parse_uuid(p.subrange("tenant_id="@.len() as int, p.len() as int))
        } else {
            spec_query_tenant(pairs.drop_first())
        }
    }
}

/// The tenant a request acts for.
pub open spec fn spec_resolve_tenant(
    header: Option<Seq<char>>,
    auth: Option<AuthContext>,
    query: Option<Seq<char>>,
) -> Option<u128> {
    if header matches Some(h) && spec_parse_uuid(h) is Some {
        spec_parse_uuid(header->0)
    } else if auth matches Some(a) && spec_tenant_of(a) is Some {
        spec_tenant_of(auth->0)
    } else {
        match query {
            Some(q) => spec_query_tenant(spec_split_char(q, '&')),
            None => None,
        }
    }
}

fn query_tenant(query: &str) -> (r: Option<u128>)
    ensures
        r == spec_query_tenant(spec_split_char(query@, '&')),
{
    let pairs = split_char(query, '&');
    let ghost ps = spec_split_char(query@, '&');
    let mut i: usize = 0;
    assert(ps.subrange(0, ps.len() as int) =~= ps);
    while i < pairs.len()
        invariant
            ps == spec_split_char(query@, '&'),
            pairs.len() == ps.len(),
            forall|k: int| 0 <= k < pairs.len() ==> #[trigger] pairs[k]@ == ps[k],
            i <= pairs.len(),
            spec_query_tenant(ps) == spec_query_tenant(ps.subrange(i as int, ps.len() as int)),
        decreases pairs.len() - i,
    {
        let ghost rest = ps.subrange(i as int, ps.len() as int);
        assert(rest[0] == pairs[i as int]@);
        assert(rest.drop_first() =~= ps.subrange(i + 1, ps.len() as int));
        match strip_prefix(pairs[i].as_str(), "tenant_id=") {
            Some(value) => {
                match parse_uuid(value.as_str()) {
                    Some(tid) => {
                        assert(spec_starts_with(rest[0], "tenant_id="@));
                        assert(value@ == rest[0].subrange("tenant_id="@.len() as int, rest[0].len() as int));
                        assert(spec_query_tenant(rest) == Some(tid));
                        return Some(tid);
                    },
                    None => {},
                }
            },
            None => {},
        }
        i = i + 1;
    }
    assert(ps.subrange(pairs.len() as int, ps.len() as int) =~= Seq::<Seq<char>>::empty());
    None
}

/// Resolve the tenant of a request from the `X-Tenant-Id` header value,
/// the identity set by the auth middleware and the URI's query string.
pub fn resolve_tenant_id(header: Option<&str>, auth: Option<&AuthContext>, query: Option<&str>) -> (r:
    Option<u128>)
    ensures
        r == spec_resolve_tenant(
            match header {
                Some(h) => Some(h@),
                None => None,
            },
            match auth {
                Some(a) => Some(*a),
                None => None,
            },
            match query {
                Some(q) => Some(q@),
                None => None,
            },
        ),
{
    if let Some(h) = header {
        if let Some(tid) = parse_uuid(h) {
            return Some(tid);
        }
    }
    if let Some(a) = auth {
        if let Some(tid) = a.tenant_id() {
            return Some(tid);
        }
    }
    if let Some(q) = query {
        return query_tenant(q);
    }
    None
}

/// The header, when its value is a UUID, wins over every other source.
pub proof fn law_header_takes_priority(
    header: Seq<char>,
    auth: Option<AuthContext>,
    query: Option<Seq<char>>,
)
    requires
        spec_parse_uuid(header) is Some,
    ensures
        spec_resolve_tenant(Some(header), auth, query) == spec_parse_uuid(header),
{
}

/// Without a usable header, the tenant of the authenticated identity wins
/// over the query parameter; only without either does the query decide.
pub proof fn law_identity_before_query(
    header: Option<Seq<char>>,
    auth: Option<AuthContext>,
    query: Option<Seq<char>>,
)
    requires
        !(header matches Some(h) && spec_parse_uuid(h) is Some),
    ensures
        (auth matches Some(a) && spec_tenant_of(a) is Some) ==> spec_resolve_tenant(header, auth, query)
            == spec_tenant_of(auth->0),
        !(auth matches Some(a) && spec_tenant_of(a) is Some) ==> spec_resolve_tenant(header, auth, query)
            == match query {
                Some(q) => spec_query_tenant(spec_split_char(q, '&')),
                None => None,
            },
{
}

/// With no source at all, no tenant is resolved.
pub proof fn law_no_source_no_tenant()
    ensures
        spec_resolve_tenant(None, None, None) is None,
{
}

/// An authenticated identity that carries a tenant acts for exactly that
/// tenant: a user or an owner of tenant T, or a service acting for T,
/// resolves to T when no header gives a tenant, whatever the query says; an
/// administrator, an anonymous caller or a service without a tenant leaves
/// the query parameter to decide.
pub proof fn law_identity_tenant_is_its_own(auth: AuthContext, header: Option<Seq<char>>, query: Option<Seq<char>>)
    requires
        !(header matches Some(h) && spec_parse_uuid(h) is Some),
    ensures
        auth matches AuthContext::User { tenant_id, .. } ==> spec_tenant_of(auth) == Some(tenant_id),
        auth matches AuthContext::Owner { tenant_id, .. } ==> spec_tenant_of(auth) == Some(tenant_id),
        auth matches AuthContext::Service { tenant_id, .. } ==> spec_tenant_of(auth) == tenant_id,
        auth matches AuthContext::User { tenant_id, .. } ==> spec_resolve_tenant(header, Some(auth), query)
            == Some(tenant_id),
        auth matches AuthContext::Owner { tenant_id, .. } ==> spec_resolve_tenant(header, Some(auth), query)
            == Some(tenant_id),
        auth matches AuthContext::Service { tenant_id: Some(t), .. } ==> spec_resolve_tenant(
            header,
            Some(auth),
            query,
        ) == Some(t),
        (auth is Admin || auth is Anonymous || auth matches AuthContext::Service { tenant_id: None, .. })
            ==> spec_resolve_tenant(header, Some(auth), query) == spec_resolve_tenant(header, None, query),
{
}

} // verus!
