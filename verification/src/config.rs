//! The links configuration: which entity types exist and how they relate.

use vstd::prelude::*;
use crate::text::{owned, str_eq};

verus! {

/// A declared relationship between two entity types.
pub struct LinkDefinition {
    /// Name of the relationship (e.g. "has_invoice")
    pub link_type: String,
    /// Entity type on the source side (e.g. "order")
    pub source_type: String,
    /// Entity type on the target side (e.g. "invoice")
    pub target_type: String,
    /// Name of the relation seen from the source (e.g. "invoices")
    pub forward_route_name: String,
    /// Name of the relation seen from the target (e.g. "order")
    pub reverse_route_name: String,
    /// Optional human description
    pub description: Option<String>,
    /// Fields a link of this type must carry
    pub required_fields: Option<Vec<String>>,
}

/// Naming of one entity type.
pub struct EntityConfig {
    /// Singular name, used as the entity type (e.g. "order")
    pub singular: String,
    /// Plural name (e.g. "orders")
    pub plural: String,
}

/// Entities and links declared by the registered modules.
pub struct LinksConfig {
    pub entities: Vec<EntityConfig>,
    pub links: Vec<LinkDefinition>,
}

/// The link definition relates `source` to `target`.
pub open spec fn link_matches(l: LinkDefinition, source: Seq<char>, target: Seq<char>) -> bool {
    l.source_type@ == source && l.target_type@ == target
}

/// `links[i]` is the first definition relating `source` to `target`.
pub open spec fn is_first_link_match(
    links: Seq<LinkDefinition>,
    source: Seq<char>,
    target: Seq<char>,
    i: int,
) -> bool {
    &&& 0 <= i < links.len()
    &&& link_matches(links[i], source, target)
    &&& forall|j: int| 0 <= j < i ==> !link_matches(#[trigger] links[j], source, target)
}

/// No link configuration relates the two entity types.
pub struct LinkTypeNotFound {
    pub source_type: String,
    pub target_type: String,
}

impl LinkTypeNotFound {
    /// The text of the error: "No link configuration found for S -> T".
    pub open spec fn spec_message(&self) -> Seq<char> {
        "No link configuration found for "@ + self.source_type@ + " -> "@ + self.target_type@
    }

    /// Human-readable description of the error.
    pub fn message(&self) -> (r: String)
        ensures
            r@ == self.spec_message(),
    {
        let mut m = owned("No link configuration found for ");
        m.append(self.source_type.as_str());
        m.append(" -> ");
        m.append(self.target_type.as_str());
        m
    }
}

/// Find the link type declared from `source_type` to `target_type`: the
/// first matching definition wins.
pub fn find_link_type(links: &[LinkDefinition], source_type: &str, target_type: &str) -> (r:
    Result<String, LinkTypeNotFound>)
    ensures
        r is Ok <==> exists|i: int|
            0 <= i < links@.len() && link_matches(#[trigger] links@[i], source_type@, target_type@),
        r matches Ok(t) ==> exists|i: int|
            is_first_link_match(links@, source_type@, target_type@, i) && t@ == links@[i].link_type@,
        r matches Err(e) ==> e.source_type@ == source_type@ && e.target_type@ == target_type@,
{
    let mut i: usize = 0;
    while i < links.len()
        invariant
            i <= links@.len(),
            forall|j: int| 0 <= j < i ==> !link_matches(#[trigger] links@[j], source_type@, target_type@),
        decreases links@.len() - i,
    {
        let l = &links[i];
        if str_eq(l.source_type.as_str(), source_type) && str_eq(l.target_type.as_str(), target_type) {
            assert(is_first_link_match(links@, source_type@, target_type@, i as int));
            return Ok(l.link_type.clone());
        }
        i = i + 1;
    }
    Err(LinkTypeNotFound { source_type: owned(source_type), target_type: owned(target_type) })
}

/// The entities of the configurations, one configuration after the other.
pub open spec fn spec_merged_entities(cs: Seq<LinksConfig>) -> Seq<EntityConfig>
    decreases cs.len(),
{
    if cs.len() == 0 {
        Seq::empty()
    } else {
        spec_merged_entities(cs.drop_last()) + cs.last().entities@
    }
}

/// The links of the configurations, one configuration after the other.
pub open spec fn spec_merged_links(cs: Seq<LinksConfig>) -> Seq<LinkDefinition>
    decreases cs.len(),
{
    if cs.len() == 0 {
        Seq::empty()
    } else {
        spec_merged_links(cs.drop_last()) + cs.last().links@
    }
}

/// The configuration of all registered modules together: their entities
/// and their links, in the order the modules were registered.
pub fn merge_configs(configs: Vec<LinksConfig>) -> (r: LinksConfig)
    ensures
        r.entities@ == spec_merged_entities(configs@),
        r.links@ == spec_merged_links(configs@),
{
    let ghost all = configs@;
    let mut rest = configs;
    let mut entities: Vec<EntityConfig> = Vec::new();
    let mut links: Vec<LinkDefinition> = Vec::new();
    let mut i: usize = 0;
    let n = rest.len();
    assert(all.take(0) =~= Seq::<LinksConfig>::empty());
    assert(all.skip(0) =~= all);
    while i < n
        invariant
            n == all.len(),
            i <= n,
            rest@ == all.skip(i as int),
            entities@ == spec_merged_entities(all.take(i as int)),
            links@ == spec_merged_links(all.take(i as int)),
        decreases n - i,
    {
        let mut c = rest.remove(0);
        assert(c == all[i as int]);
        assert(all.skip(i as int).remove(0) =~= all.skip(i + 1));
        assert(all.take(i + 1).drop_last() =~= all.take(i as int));
        assert(all.take(i + 1).last() == all[i as int]);
        entities.append(&mut c.entities);
        links.append(&mut c.links);
        i = i + 1;
    }
    assert(all.take(n as int) =~= all);
    LinksConfig { entities, links }
}

/// The error of building a server without a link service.
pub const LINK_SERVICE_REQUIRED: &'static str = "LinkService is required. Call .with_link_service()";

/// Building a server needs a link service: the one given, or the error
/// "LinkService is required. Call .with_link_service()".
pub fn require_link_service<L>(link_service: Option<L>) -> (r: Result<L, String>)
    ensures
        match link_service {
            Some(l) => r == Ok::<L, String>(l),
            None => r matches Err(m) && m@ == LINK_SERVICE_REQUIRED@,
        },
{
    match link_service {
        Some(l) => Ok(l),
        None => Err(owned(LINK_SERVICE_REQUIRED)),
    }
}

} // verus!
