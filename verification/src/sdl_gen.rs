//! Generation of the GraphQL schema (SDL) of a deployment: one object type
//! per entity with the fields seen on a sample entity and the relations
//! declared in the links configuration, the query and mutation roots, and
//! the schema definition.

use vstd::prelude::*;
use crate::config::{EntityConfig, LinkDefinition, LinksConfig};
use crate::json::{JsonData, JsonNumber, JsonValue, json_view, json_members_view, lemma_members_view_index};
use crate::gql_exec::{is_first_type, spec_relation_types, lemma_split_two_at_separator};
use crate::naming::{
    spec_pluralize, spec_to_snake, spec_snake_tail, spec_without_prefix, lemma_snake_append,
    lemma_snake_tail_append, lemma_snake_tail_plain,
};
use crate::text::{
    owned, str_eq, split_char, spec_concat, spec_split_char, spec_upper_of, spec_contains,
    spec_starts_with,
    char_to_uppercase, spec_join, is_lower_word, spec_is_upper, spec_contains_char,
    lemma_split_join,
};

verus! {

// ---------------------------------------------------------------------------
// Names
// ---------------------------------------------------------------------------

/// One `_`-separated part with its first character upper-cased and the
/// rest unchanged.
pub open spec fn spec_capitalize_first(p: Seq<char>) -> Seq<char> {
    if p.len() == 0 {
        Seq::empty()
    } else {
        spec_upper_of(p[0]) + p.subrange(1, p.len() as int)
    }
}

/// The GraphQL type name of an entity type: each `_`-separated part with
/// its first letter upper-cased, the parts joined.
pub open spec fn spec_sdl_pascal(s: Seq<char>) -> Seq<char> {
    spec_concat(spec_split_char(s, '_').map_values(|p: Seq<char>| spec_capitalize_first(p)))
}

fn capitalize_first(p: &str) -> (r: String)
    ensures
        r@ == spec_capitalize_first(p@),
{
    let n = p.unicode_len();
    if n == 0 {
        String::new()
    } else {
        let mut r = char_to_uppercase(p.get_char(0));
        r.append(p.substring_char(1, n));
        r
    }
}

proof fn lemma_concat_take_step(parts: Seq<Seq<char>>, k: int)
    requires
        0 <= k < parts.len(),
    ensures
        spec_concat(parts.take(k + 1)) == spec_concat(parts.take(k)) + parts[k],
{
    assert(parts.take(k + 1).drop_last() =~= parts.take(k));
    assert(parts.take(k + 1).last() == parts[k]);
}

/// Information about a GraphQL field of an entity type.
pub struct FieldInfo {
    pub name: String,
    pub graphql_type: String,
    pub nullable: bool,
    pub description: Option<String>,
}

/// Information about a relation of an entity type, from a link definition.
pub struct RelationInfo {
    pub name: String,
    pub target_type: String,
    pub is_list: bool,
    pub link_type: String,
}

/// Content of a field: name, GraphQL type, whether it may be null.
pub open spec fn field_view(f: FieldInfo) -> (Seq<char>, Seq<char>, bool) {
    (f.name@, f.graphql_type@, f.nullable)
}

/// Content of a list of fields.
pub open spec fn fields_view(s: Seq<FieldInfo>) -> Seq<(Seq<char>, Seq<char>, bool)> {
    s.map_values(|f: FieldInfo| field_view(f))
}

/// Content of a relation: its name, the entity type it leads to, whether
/// it is a list, and the link type behind it.
pub open spec fn relation_view(r: RelationInfo) -> (Seq<char>, Seq<char>, bool, Seq<char>) {
    (r.name@, r.target_type@, r.is_list, r.link_type@)
}

/// Content of a list of relations.
pub open spec fn relations_view(s: Seq<RelationInfo>) -> Seq<(Seq<char>, Seq<char>, bool, Seq<char>)> {
    s.map_values(|r: RelationInfo| relation_view(r))
}

/// Where the fields of an entity type come from.
pub enum SampleSource {
    /// No fetcher is registered for the type: it gets no fields.
    NoFetcher,
    /// The fetcher failed to produce a sample: the type is left out.
    Failed,
    /// The sample the fetcher gave, and the first listed entity when the
    /// sample was not a non-empty object and one could be listed.
    Fetched(JsonValue, Option<JsonValue>),
}

/// Content of a sample source.
pub enum SampleData {
    NoFetcher,
    Failed,
    Fetched(JsonData, Option<JsonData>),
}

/// Content of a sample source.
pub open spec fn sample_view(s: SampleSource) -> SampleData {
    match s {
        SampleSource::NoFetcher => SampleData::NoFetcher,
        SampleSource::Failed => SampleData::Failed,
        SampleSource::Fetched(v, l) => SampleData::Fetched(
            v@,
            match l {
                Some(x) => Some(x@),
                None => None,
            },
        ),
    }
}

/// A sample that is not an object, or an empty one, tells nothing of the
/// fields: the first listed entity is used instead when there is one.
pub open spec fn spec_needs_listed_sample(v: JsonData) -> bool {
    match v {
        JsonData::Object(m) => m.len() == 0,
        _ => true,
    }
}

/// The sample whose members become the fields.
pub open spec fn spec_effective_sample(sample: JsonData, listed: Option<JsonData>) -> JsonData {
    match listed {
        Some(l) => if spec_needs_listed_sample(sample) {
            l
        } else {
            sample
        },
        None => sample,
    }
}

/// The GraphQL type of a JSON value.
pub open spec fn spec_graphql_type(v: JsonData) -> Seq<char> {
    match v {
        JsonData::Str(_) => "String"@,
        JsonData::Number(JsonNumber::Float(_)) => "Float"@,
        JsonData::Number(_) => "Int"@,
        JsonData::Bool(_) => "Boolean"@,
        JsonData::Array(_) => "[String]"@,
        JsonData::Object(_) => "JSON"@,
        JsonData::Null => "String"@,
    }
}

/// Fields of the members of an object, in order, the member `host`
/// left out; a member whose sample value is `null` is nullable.
pub open spec fn spec_member_fields(m: Seq<(Seq<char>, JsonData)>) -> Seq<(Seq<char>, Seq<char>, bool)>
    decreases m.len(),
{
    if m.len() == 0 {
        Seq::empty()
    } else {
        let rest = spec_member_fields(m.drop_last());
        let e = m.last();
        if e.0 == "host"@ {
            rest
        } else {
            rest.push((e.0, spec_graphql_type(e.1), e.1 is Null))
        }
    }
}

/// Fields of a sample: those of its members for an object, none otherwise.
pub open spec fn spec_sdl_fields(v: JsonData) -> Seq<(Seq<char>, Seq<char>, bool)> {
    match v {
        JsonData::Object(m) => spec_member_fields(m),
        _ => Seq::empty(),
    }
}

/// Fields of an entity type given where its sample comes from.
pub open spec fn spec_source_fields(s: SampleData) -> Seq<(Seq<char>, Seq<char>, bool)> {
    match s {
        SampleData::Fetched(v, l) => spec_sdl_fields(spec_effective_sample(v, l)),
        _ => Seq::empty(),
    }
}

/// Relations one link definition gives an entity type: the forward one
/// (a list) when the type is the source, then the reverse one (a single
/// entity) when it is the target.
pub open spec fn spec_link_relations(l: LinkDefinition, et: Seq<char>) -> Seq<
    (Seq<char>, Seq<char>, bool, Seq<char>),
> {
    (if l.source_type@ == et {
        seq![(l.forward_route_name@, l.target_type@, true, l.link_type@)]
    } else {
        Seq::empty()
    }) + (if l.target_type@ == et {
        seq![(l.reverse_route_name@, l.source_type@, false, l.link_type@)]
    } else {
        Seq::empty()
    })
}

/// Relations of an entity type, link definition by link definition.
pub open spec fn spec_relations(links: Seq<LinkDefinition>, et: Seq<char>) -> Seq<
    (Seq<char>, Seq<char>, bool, Seq<char>),
>
    decreases links.len(),
{
    if links.len() == 0 {
        Seq::empty()
    } else {
        spec_relations(links.drop_last(), et) + spec_link_relations(links.last(), et)
    }
}

/// The plural of an entity type: that of the first entity configuration
/// with this singular, else the type followed by `s`.
pub open spec fn spec_plural(entities: Seq<EntityConfig>, et: Seq<char>) -> Seq<char>
    decreases entities.len(),
{
    if entities.len() == 0 {
        et + "s"@
    } else if entities[0].singular@ == et {
        entities[0].plural@
    } else {
        spec_plural(entities.drop_first(), et)
    }
}

// ---------------------------------------------------------------------------
// Text of the schema
// ---------------------------------------------------------------------------

/// One field declaration: `  name: Type` with `!` unless nullable.
pub open spec fn spec_field_decl(f: (Seq<char>, Seq<char>, bool)) -> Seq<char> {
    "  "@ + f.0 + ": "@ + f.1 + (if f.2 {
        Seq::empty()
    } else {
        "!"@
    }) + "\n"@
}

/// Field declarations in order.
pub open spec fn spec_field_decls(fs: Seq<(Seq<char>, Seq<char>, bool)>) -> Seq<char>
    decreases fs.len(),
{
    if fs.len() == 0 {
        Seq::empty()
    } else {
        spec_field_decls(fs.drop_last()) + spec_field_decl(fs.last())
    }
}

/// One relation declaration: a non-null list of non-null targets, or a
/// single nullable target.
pub open spec fn spec_relation_decl(r: (Seq<char>, Seq<char>, bool, Seq<char>)) -> Seq<char> {
    if r.2 {
        "  "@ + r.0 + ": ["@ + spec_sdl_pascal(r.1) + "!]!\n"@
    } else {
        "  "@ + r.0 + ": "@ + spec_sdl_pascal(r.1) + "\n"@
    }
}

/// Relation declarations in order.
pub open spec fn spec_relation_decls(rs: Seq<(Seq<char>, Seq<char>, bool, Seq<char>)>) -> Seq<char>
    decreases rs.len(),
{
    if rs.len() == 0 {
        Seq::empty()
    } else {
        spec_relation_decls(rs.drop_last()) + spec_relation_decl(rs.last())
    }
}

/// The object type of an entity, or `None` when its sample could not be
/// fetched.
pub open spec fn spec_entity_type_def(
    et: Seq<char>,
    src: SampleData,
    links: Seq<LinkDefinition>,
) -> Option<Seq<char>> {
    match src {
        SampleData::Failed => None,
        _ => Some(
            "type "@ + spec_sdl_pascal(et) + " {\n"@ + spec_field_decls(spec_source_fields(src))
                + spec_relation_decls(spec_relations(links, et)) + "}"@,
        ),
    }
}

/// The two queries of one entity type: by id, and the paginated list.
pub open spec fn spec_query_lines(et: Seq<char>, plural: Seq<char>) -> Seq<char> {
    "  "@ + et + "(id: ID!): "@ + spec_sdl_pascal(et) + "\n  "@ + plural
        + "(limit: Int, offset: Int): ["@ + spec_sdl_pascal(et) + "!]!\n"@
}

/// Queries of the given entity types in order.
pub open spec fn spec_queries(ets: Seq<Seq<char>>, entities: Seq<EntityConfig>) -> Seq<char>
    decreases ets.len(),
{
    if ets.len() == 0 {
        Seq::empty()
    } else {
        spec_queries(ets.drop_last(), entities) + spec_query_lines(
            ets.last(),
            spec_plural(entities, ets.last()),
        )
    }
}

/// The create, update and delete mutations of one entity type.
pub open spec fn spec_crud_lines(et: Seq<char>) -> Seq<char> {
    let p = spec_sdl_pascal(et);
    "  create"@ + p + "(data: JSON!): "@ + p + "!\n  update"@ + p + "(id: ID!, data: JSON!): "@ + p
        + "!\n  delete"@ + p + "(id: ID!): Boolean!\n"@
}

/// CRUD mutations of the given entity types in order.
pub open spec fn spec_cruds(ets: Seq<Seq<char>>) -> Seq<char>
    decreases ets.len(),
{
    if ets.len() == 0 {
        Seq::empty()
    } else {
        spec_cruds(ets.drop_last()) + spec_crud_lines(ets.last())
    }
}

/// The generic link mutations and the heading of the typed ones.
pub const GENERIC_LINK_MUTATIONS: &'static str = "\n  # Generic link mutations\n  createLink(sourceId: ID!, targetId: ID!, linkType: String!, metadata: JSON): Link!\n  deleteLink(id: ID!): Boolean!\n\n  # Typed link mutations\n";

/// The schema definition that closes the SDL.
pub const SCHEMA_DEFINITION: &'static str = "schema {\n  query: Query\n  mutation: Mutation\n}\n";

/// The typed mutations of one link definition: create-and-link, link and
/// unlink, named after target and source types.
pub open spec fn spec_typed_link_lines(l: LinkDefinition) -> Seq<char> {
    let s = spec_sdl_pascal(l.source_type@);
    let t = spec_sdl_pascal(l.target_type@);
    "  create"@ + t + "For"@ + s + "(parentId: ID!, data: JSON!, linkType: String): "@ + t
        + "!\n  link"@ + t + "To"@ + s
        + "(sourceId: ID!, targetId: ID!, linkType: String, metadata: JSON): Link!\n  unlink"@ + t
        + "From"@ + s + "(sourceId: ID!, targetId: ID!, linkType: String): Boolean!\n"@
}

/// Typed link mutations of the given definitions in order.
pub open spec fn spec_typed_links(links: Seq<LinkDefinition>) -> Seq<char>
    decreases links.len(),
{
    if links.len() == 0 {
        Seq::empty()
    } else {
        spec_typed_links(links.drop_last()) + spec_typed_link_lines(links.last())
    }
}

/// The names of the registered entity types.
pub open spec fn entity_names(e: Seq<(String, SampleSource)>) -> Seq<Seq<char>> {
    e.map_values(|x: (String, SampleSource)| x.0@)
}

/// The object types of the entities in order, each followed by a blank
/// line; those whose sample could not be fetched are left out.
pub open spec fn spec_type_sections(e: Seq<(String, SampleSource)>, links: Seq<LinkDefinition>) -> Seq<char>
    decreases e.len(),
{
    if e.len() == 0 {
        Seq::empty()
    } else {
        let rest = spec_type_sections(e.drop_last(), links);
        match spec_entity_type_def(e.last().0@, sample_view(e.last().1), links) {
            Some(d) => rest + d + "\n\n"@,
            None => rest,
        }
    }
}


/// Generator of the GraphQL schema of a deployment: the registered entity
/// types in registration order, each with where its sample comes from,
/// and the links configuration.
pub struct SchemaGenerator {
    pub entities: Vec<(String, SampleSource)>,
    pub config: LinksConfig,
}

impl SchemaGenerator {
    /// A generator for the given entity types, samples and configuration.
    pub fn new(entities: Vec<(String, SampleSource)>, config: LinksConfig) -> (r: Self)
        ensures
            r.entities@ == entities@,
            r.config == config,
    {
        SchemaGenerator { entities, config }
    }

    /// Converts a snake_case entity type to its GraphQL type name.
    pub fn to_pascal_case(s: &str) -> (r: String)
        ensures
            r@ == spec_sdl_pascal(s@),
    {
        let parts = split_char(s, '_');
        let ghost caps = spec_split_char(s@, '_').map_values(|p: Seq<char>| spec_capitalize_first(p));
        let mut out = String::new();
        let mut k: usize = 0;
        assert(caps.take(0) =~= Seq::<Seq<char>>::empty());
        while k < parts.len()
            invariant
                caps == spec_split_char(s@, '_').map_values(|p: Seq<char>| spec_capitalize_first(p)),
                parts.len() == caps.len(),
                forall|j: int| 0 <= j < parts.len() ==> #[trigger] parts[j]@ == spec_split_char(s@, '_')[j],
                k <= parts.len(),
                out@ == spec_concat(caps.take(k as int)),
            decreases parts.len() - k,
        {
            let c = capitalize_first(parts[k].as_str());
            assert(c@ == caps[k as int]);
            out.append(c.as_str());
            proof {
                lemma_concat_take_step(caps, k as int);
            }
            k = k + 1;
        }
        assert(caps.take(parts.len() as int) =~= caps);
        out
    }

    /// The GraphQL type of a JSON value.
    pub fn json_type_to_graphql(value: &JsonValue) -> (r: String)
        ensures
            r@ == spec_graphql_type(value@),
    {
        match value {
            JsonValue::String(_) => owned("String"),
            JsonValue::Number(JsonNumber::Float(_)) => owned("Float"),
            JsonValue::Number(_) => owned("Int"),
            JsonValue::Bool(_) => owned("Boolean"),
            JsonValue::Array(_) => owned("[String]"),
            JsonValue::Object(_) => owned("JSON"),
            JsonValue::Null => owned("String"),
        }
    }

    /// The fields of a sample entity: one per member of an object except
    /// `host`, in member order, without description; none for a value
    /// that is not an object.
    pub fn extract_fields_from_json(json: &JsonValue) -> (r: Vec<FieldInfo>)
        ensures
            fields_view(r@) == spec_sdl_fields(json@),
            forall|k: int| 0 <= k < r.len() ==> (#[trigger] r@[k]).description is None,
    {
        let mut fields: Vec<FieldInfo> = Vec::new();
        match json {
            JsonValue::Object(members) => {
                let ghost mv = json_members_view(members@);
                proof {
                    lemma_members_view_index(members@);
                }
                let mut i: usize = 0;
                assert(mv.take(0) =~= Seq::<(Seq<char>, JsonData)>::empty());
                while i < members.len()
                    invariant
                        *json == JsonValue::Object(*members),
                        mv == json_members_view(members@),
                        mv.len() == members@.len(),
                        forall|k: int|
                            0 <= k < members@.len() ==> #[trigger] mv[k] == (
                                members@[k].0@,
                                json_view(members@[k].1),
                            ),
                        i <= members.len(),
                        fields_view(fields@) == spec_member_fields(mv.take(i as int)),
                        forall|k: int| 0 <= k < fields.len() ==> (#[trigger] fields@[k]).description is None,
                    decreases members.len() - i,
                {
                    assert(mv[i as int] == (members@[i as int].0@, json_view(members@[i as int].1)));
                    assert(mv.take(i + 1).drop_last() =~= mv.take(i as int));
                    assert(mv.take(i + 1).last() == mv[i as int]);
                    let key = &members[i].0;
                    let value = &members[i].1;
                    if !str_eq(key.as_str(), "host") {
                        let ghost before = fields@;
                        let f = FieldInfo {
                            name: key.clone(),
                            graphql_type: Self::json_type_to_graphql(value),
                            nullable: value.is_null(),
                            description: None,
                        };
                        fields.push(f);
                        assert(fields_view(fields@) =~= fields_view(before).push(field_view(f)));
                    }
                    i = i + 1;
                }
                assert(mv.take(members.len() as int) =~= mv);
            },
            _ => {
                assert(fields_view(fields@) =~= Seq::<(Seq<char>, Seq<char>, bool)>::empty());
            },
        }
        fields
    }

    /// Relations of an entity type from the links configuration.
    pub fn get_relations_for(&self, entity_type: &str) -> (r: Vec<RelationInfo>)
        ensures
            relations_view(r@) == spec_relations(self.config.links@, entity_type@),
    {
        let links = &self.config.links;
        let ghost ls = links@;
        let mut rels: Vec<RelationInfo> = Vec::new();
        let mut i: usize = 0;
        assert(ls.take(0) =~= Seq::<LinkDefinition>::empty());
        assert(relations_view(rels@) =~= Seq::<(Seq<char>, Seq<char>, bool, Seq<char>)>::empty());
        while i < links.len()
            invariant
                ls == links@,
                i <= links.len(),
                relations_view(rels@) == spec_relations(ls.take(i as int), entity_type@),
            decreases links.len() - i,
        {
            let l = &links[i];
            let ghost before = relations_view(rels@);
            assert(ls.take(i + 1).drop_last() =~= ls.take(i as int));
            assert(ls.take(i + 1).last() == *l);
            if str_eq(l.source_type.as_str(), entity_type) {
                let ghost b = rels@;
                let r = RelationInfo {
                    name: l.forward_route_name.clone(),
                    target_type: l.target_type.clone(),
                    is_list: true,
                    link_type: l.link_type.clone(),
                };
                rels.push(r);
                assert(relations_view(rels@) =~= relations_view(b).push(relation_view(r)));
            }
            let ghost mid = relations_view(rels@);
            if str_eq(l.target_type.as_str(), entity_type) {
                let ghost b = rels@;
                let r = RelationInfo {
                    name: l.reverse_route_name.clone(),
                    target_type: l.source_type.clone(),
                    is_list: false,
                    link_type: l.link_type.clone(),
                };
                rels.push(r);
                assert(relations_view(rels@) =~= relations_view(b).push(relation_view(r)));
            }
            assert(relations_view(rels@) =~= before + spec_link_relations(*l, entity_type@));
            i = i + 1;
        }
        assert(ls.take(links.len() as int) =~= ls);
        rels
    }

    /// The plural of an entity type (first matching entity configuration,
    /// else the type followed by `s`).
    pub fn get_plural(&self, entity_type: &str) -> (r: String)
        ensures
            r@ == spec_plural(self.config.entities@, entity_type@),
    {
        let es = &self.config.entities;
        let ghost all = es@;
        let mut i: usize = 0;
        assert(all.subrange(0, all.len() as int) =~= all);
        while i < es.len()
            invariant
                all == es@,
                all == self.config.entities@,
                i <= es.len(),
                spec_plural(all, entity_type@) == spec_plural(
                    all.subrange(i as int, all.len() as int),
                    entity_type@,
                ),
            decreases es.len() - i,
        {
            let e = &es[i];
            assert(all.subrange(i as int, all.len() as int)[0] == *e);
            if str_eq(e.singular.as_str(), entity_type) {
                let ghost sub = all.subrange(i as int, all.len() as int);
                assert(sub.len() > 0 && sub[0].singular@ == entity_type@);
                assert(spec_plural(sub, entity_type@) == sub[0].plural@);
                let r = e.plural.clone();
                assert(r@ == e.plural@);
                return r;
            }
            assert(all.subrange(i as int, all.len() as int).drop_first() =~= all.subrange(
                i + 1,
                all.len() as int,
            ));
            i = i + 1;
        }
        let mut r = owned(entity_type);
        r.append("s");
        r
    }
}


/// Whether a fetched sample tells nothing of the fields (not an object,
/// or an empty one), so that the first listed entity should be used.
pub fn needs_listed_sample(sample: &JsonValue) -> (r: bool)
    ensures
        r == spec_needs_listed_sample(sample@),
{
    match sample {
        JsonValue::Object(m) => {
            proof {
                lemma_members_view_index(m@);
            }
            m.len() == 0
        },
        _ => true,
    }
}

/// The sample whose members become the fields: the first listed entity
/// when the fetched sample tells nothing and one was listed, else the
/// fetched sample.
pub fn effective_sample<'a>(sample: &'a JsonValue, listed: Option<&'a JsonValue>) -> (r: &'a JsonValue)
    ensures
        r@ == spec_effective_sample(
            sample@,
            match listed {
                Some(l) => Some(l@),
                None => None,
            },
        ),
{
    match listed {
        Some(l) => if needs_listed_sample(sample) {
            l
        } else {
            sample
        },
        None => sample,
    }
}

fn field_decls(fields: &Vec<FieldInfo>) -> (r: String)
    ensures
        r@ == spec_field_decls(fields_view(fields@)),
{
    let ghost fv = fields_view(fields@);
    let mut out = String::new();
    let mut i: usize = 0;
    assert(fv.take(0) =~= Seq::<(Seq<char>, Seq<char>, bool)>::empty());
    while i < fields.len()
        invariant
            fv == fields_view(fields@),
            fv.len() == fields.len(),
            i <= fields.len(),
            out@ == spec_field_decls(fv.take(i as int)),
        decreases fields.len() - i,
    {
        let f = &fields[i];
        assert(fv[i as int] == field_view(*f));
        assert(fv.take(i + 1).drop_last() =~= fv.take(i as int));
        assert(fv.take(i + 1).last() == fv[i as int]);
        let mut line = owned("  ");
        line.append(f.name.as_str());
        line.append(": ");
        line.append(f.graphql_type.as_str());
        let ghost mid = line@;
        if !f.nullable {
            line.append("!");
        } else {
            assert(line@ =~= mid + Seq::<char>::empty());
        }
        line.append("\n");
        out.append(line.as_str());
        i = i + 1;
    }
    assert(fv.take(fields.len() as int) =~= fv);
    out
}

fn relation_decls(rels: &Vec<RelationInfo>) -> (r: String)
    ensures
        r@ == spec_relation_decls(relations_view(rels@)),
{
    let ghost rv = relations_view(rels@);
    let mut out = String::new();
    let mut i: usize = 0;
    assert(rv.take(0) =~= Seq::<(Seq<char>, Seq<char>, bool, Seq<char>)>::empty());
    while i < rels.len()
        invariant
            rv == relations_view(rels@),
            rv.len() == rels.len(),
            i <= rels.len(),
            out@ == spec_relation_decls(rv.take(i as int)),
        decreases rels.len() - i,
    {
        let r = &rels[i];
        assert(rv[i as int] == relation_view(*r));
        assert(rv.take(i + 1).drop_last() =~= rv.take(i as int));
        assert(rv.take(i + 1).last() == rv[i as int]);
        let target = SchemaGenerator::to_pascal_case(r.target_type.as_str());
        let mut line = owned("  ");
        line.append(r.name.as_str());
        if r.is_list {
            line.append(": [");
            line.append(target.as_str());
            line.append("!]!\n");
        } else {
            line.append(": ");
            line.append(target.as_str());
            line.append("\n");
        }
        out.append(line.as_str());
        i = i + 1;
    }
    assert(rv.take(rels.len() as int) =~= rv);
    out
}

impl SchemaGenerator {
    /// The object type of an entity: its fields (from the sample, when a
    /// fetcher is registered) then its relations; `None` when the sample
    /// could not be fetched.
    pub fn generate_entity_type(&self, entity_type: &str, source: &SampleSource) -> (r: Option<String>)
        ensures
            match r {
                Some(t) => spec_entity_type_def(entity_type@, sample_view(*source), self.config.links@)
                    == Some(t@),
                None => spec_entity_type_def(entity_type@, sample_view(*source), self.config.links@) is None,
            },
    {
        let fields: Vec<FieldInfo> = match source {
            SampleSource::Failed => {
                return None;
            },
            SampleSource::NoFetcher => {
                let v: Vec<FieldInfo> = Vec::new();
                assert(fields_view(v@) =~= Seq::<(Seq<char>, Seq<char>, bool)>::empty());
                v
            },
            SampleSource::Fetched(sample, listed) => {
                let l = match listed {
                    Some(x) => Some(x),
                    None => None,
                };
                let chosen = effective_sample(sample, l);
                Self::extract_fields_from_json(chosen)
            },
        };
        assert(fields_view(fields@) == spec_source_fields(sample_view(*source)));
        let tname = Self::to_pascal_case(entity_type);
        let rels = self.get_relations_for(entity_type);
        let fd = field_decls(&fields);
        let rd = relation_decls(&rels);
        let mut def = owned("type ");
        def.append(tname.as_str());
        def.append(" {\n");
        def.append(fd.as_str());
        def.append(rd.as_str());
        def.append("}");
        Some(def)
    }

    /// The query root: for each entity type, the query by id and the
    /// paginated list query under its plural.
    pub fn generate_query_root(&self) -> (r: String)
        ensures
            r@ == "type Query {\n"@ + spec_queries(entity_names(self.entities@), self.config.entities@)
                + "}"@,
    {
        let ghost names = entity_names(self.entities@);
        let mut out = String::new();
        let mut i: usize = 0;
        assert(names.take(0) =~= Seq::<Seq<char>>::empty());
        while i < self.entities.len()
            invariant
                names == entity_names(self.entities@),
                names.len() == self.entities.len(),
                i <= self.entities.len(),
                out@ == spec_queries(names.take(i as int), self.config.entities@),
            decreases self.entities.len() - i,
        {
            let et = self.entities[i].0.as_str();
            assert(names[i as int] == et@);
            assert(names.take(i + 1).drop_last() =~= names.take(i as int));
            assert(names.take(i + 1).last() == names[i as int]);
            let tname = Self::to_pascal_case(et);
            let plural = self.get_plural(et);
            let mut lines = owned("  ");
            lines.append(et);
            lines.append("(id: ID!): ");
            lines.append(tname.as_str());
            lines.append("\n  ");
            lines.append(plural.as_str());
            lines.append("(limit: Int, offset: Int): [");
            lines.append(tname.as_str());
            lines.append("!]!\n");
            out.append(lines.as_str());
            i = i + 1;
        }
        assert(names.take(self.entities.len() as int) =~= names);
        let mut query = owned("type Query {\n");
        query.append(out.as_str());
        query.append("}");
        query
    }

    /// The mutation root: create, update and delete for each entity type,
    /// the generic link mutations, then the typed link mutations of each
    /// link definition.
    pub fn generate_mutation_root(&self) -> (r: String)
        ensures
            r@ == "type Mutation {\n"@ + spec_cruds(entity_names(self.entities@))
                + GENERIC_LINK_MUTATIONS@ + spec_typed_links(self.config.links@) + "}"@,
    {
        let ghost names = entity_names(self.entities@);
        let mut cruds = String::new();
        let mut i: usize = 0;
        assert(names.take(0) =~= Seq::<Seq<char>>::empty());
        while i < self.entities.len()
            invariant
                names == entity_names(self.entities@),
                names.len() == self.entities.len(),
                i <= self.entities.len(),
                cruds@ == spec_cruds(names.take(i as int)),
            decreases self.entities.len() - i,
        {
            let et = self.entities[i].0.as_str();
            assert(names[i as int] == et@);
            assert(names.take(i + 1).drop_last() =~= names.take(i as int));
            assert(names.take(i + 1).last() == names[i as int]);
            let p = Self::to_pascal_case(et);
            let mut lines = owned("  create");
            lines.append(p.as_str());
            lines.append("(data: JSON!): ");
            lines.append(p.as_str());
            lines.append("!\n  update");
            lines.append(p.as_str());
            lines.append("(id: ID!, data: JSON!): ");
            lines.append(p.as_str());
            lines.append("!\n  delete");
            lines.append(p.as_str());
            lines.append("(id: ID!): Boolean!\n");
            cruds.append(lines.as_str());
            i = i + 1;
        }
        assert(names.take(self.entities.len() as int) =~= names);
        let links = &self.config.links;
        let ghost ls = links@;
        let mut typed = String::new();
        let mut j: usize = 0;
        assert(ls.take(0) =~= Seq::<LinkDefinition>::empty());
        while j < links.len()
            invariant
                ls == links@,
                j <= links.len(),
                typed@ == spec_typed_links(ls.take(j as int)),
            decreases links.len() - j,
        {
            let l = &links[j];
            assert(ls.take(j + 1).drop_last() =~= ls.take(j as int));
            assert(ls.take(j + 1).last() == *l);
            let s = Self::to_pascal_case(l.source_type.as_str());
            let t = Self::to_pascal_case(l.target_type.as_str());
            let mut lines = owned("  create");
            lines.append(t.as_str());
            lines.append("For");
            lines.append(s.as_str());
            lines.append("(parentId: ID!, data: JSON!, linkType: String): ");
            lines.append(t.as_str());
            lines.append("!\n  link");
            lines.append(t.as_str());
            lines.append("To");
            lines.append(s.as_str());
            lines.append("(sourceId: ID!, targetId: ID!, linkType: String, metadata: JSON): Link!\n  unlink");
            lines.append(t.as_str());
            lines.append("From");
            lines.append(s.as_str());
            lines.append("(sourceId: ID!, targetId: ID!, linkType: String): Boolean!\n");
            typed.append(lines.as_str());
            j = j + 1;
        }
        assert(ls.take(links.len() as int) =~= ls);
        let mut m = owned("type Mutation {\n");
        m.append(cruds.as_str());
        m.append(GENERIC_LINK_MUTATIONS);
        m.append(typed.as_str());
        m.append("}");
        m
    }

    /// The complete SDL: the object types of the entities (each followed
    /// by a blank line, those without a sample left out), the query root,
    /// the mutation root, and the schema definition.
    pub fn generate_sdl(&self) -> (r: String)
        ensures
            r@ == spec_type_sections(self.entities@, self.config.links@) + "type Query {\n"@
                + spec_queries(entity_names(self.entities@), self.config.entities@) + "}"@
                + "\n\n"@ + "type Mutation {\n"@ + spec_cruds(entity_names(self.entities@))
                + GENERIC_LINK_MUTATIONS@ + spec_typed_links(self.config.links@) + "}"@
                + "\n\n"@ + SCHEMA_DEFINITION@,
    {
        let ghost es = self.entities@;
        let mut sdl = String::new();
        let mut i: usize = 0;
        assert(es.take(0) =~= Seq::<(String, SampleSource)>::empty());
        while i < self.entities.len()
            invariant
                es == self.entities@,
                i <= self.entities.len(),
                sdl@ == spec_type_sections(es.take(i as int), self.config.links@),
            decreases self.entities.len() - i,
        {
            let e = &self.entities[i];
            assert(es.take(i + 1).drop_last() =~= es.take(i as int));
            assert(es.take(i + 1).last() == *e);
            let ghost before = sdl@;
            match self.generate_entity_type(e.0.as_str(), &e.1) {
                Some(def) => {
                    sdl.append(def.as_str());
                    sdl.append("\n\n");
                    assert(sdl@ =~= before + def@ + "\n\n"@);
                },
                None => {},
            }
            i = i + 1;
        }
        assert(es.take(self.entities.len() as int) =~= es);
        let q = self.generate_query_root();
        let m = self.generate_mutation_root();
        let ghost s0 = sdl@;
        sdl.append(q.as_str());
        sdl.append("\n\n");
        sdl.append(m.as_str());
        sdl.append("\n\n");
        sdl.append(SCHEMA_DEFINITION);
        assert(sdl@ =~= s0 + q@ + "\n\n"@ + m@ + "\n\n"@ + SCHEMA_DEFINITION@);
        sdl
    }
}

// ---------------------------------------------------------------------------
// Type names and mutation names resolve back to entity types
// ---------------------------------------------------------------------------

/// The capitalized form of a lower-case word converts back to the word,
/// and after a head it converts to an underscore followed by the word.
proof fn lemma_capitalized_word_to_snake(w: Seq<char>)
    requires
        is_lower_word(w),
    ensures
        spec_to_snake(spec_capitalize_first(w)) == w,
        spec_snake_tail(spec_capitalize_first(w)) == seq!['_'] + w,
        spec_capitalize_first(w).len() >= 1,
{
    let c = w[0];
    let u = ((c as u32) - 32) as char;
    let rest = w.subrange(1, w.len() as int);
    assert(spec_upper_of(c) == seq![u]);
    assert(spec_is_upper(u));
    assert((c as u32) - 32 == u as u32);
    vstd::utf8::char_u32_cast(c, c as u32);
    assert(((u as u32) + 32) as char == c);
    assert(crate::text::spec_ascii_lower(u) == c);
    assert(spec_capitalize_first(w) == seq![u] + rest);
    assert forall|i: int| 0 <= i < rest.len() implies !spec_is_upper(#[trigger] rest[i]) by {
        assert(rest[i] == w[i + 1]);
    }
    lemma_snake_tail_plain(rest);
    lemma_snake_append(seq![u], rest);
    assert(seq![u].drop_last() == Seq::<char>::empty());
    assert(seq![u].last() == u);
    assert(spec_to_snake(Seq::<char>::empty()) == Seq::<char>::empty());
    assert(spec_snake_tail(Seq::<char>::empty()) == Seq::<char>::empty());
    assert(crate::naming::spec_snake_piece(u, true) == seq![c]);
    assert(crate::naming::spec_snake_piece(u, false) == seq!['_', c]);
    assert(Seq::<char>::empty() + seq![c] == seq![c]);
    assert(Seq::<char>::empty() + seq!['_', c] == seq!['_', c]);
    assert(spec_to_snake(seq![u]) == seq![c]);
    assert(seq![c] + rest == w);
    lemma_snake_tail_append(seq![u], rest);
    assert(spec_snake_tail(seq![u]) == seq!['_', c]);
    assert(seq!['_', c] + rest == seq!['_'] + w);
}

/// The joined capitalized words convert back to the words joined by '_'.
proof fn lemma_capitalized_words_to_snake(words: Seq<Seq<char>>)
    requires
        words.len() >= 1,
        forall|i: int| 0 <= i < words.len() ==> is_lower_word(#[trigger] words[i]),
    ensures
        spec_to_snake(spec_concat(words.map_values(|p: Seq<char>| spec_capitalize_first(p))))
            == spec_join(words, '_'),
        spec_concat(words.map_values(|p: Seq<char>| spec_capitalize_first(p))).len() >= 1,
    decreases words.len(),
{
    let caps = words.map_values(|p: Seq<char>| spec_capitalize_first(p));
    let w = words.last();
    assert(is_lower_word(words[words.len() - 1]));
    lemma_capitalized_word_to_snake(w);
    assert(caps.last() == spec_capitalize_first(w));
    if words.len() == 1 {
        assert(caps.drop_last() == Seq::<Seq<char>>::empty());
        assert(spec_concat(caps.drop_last()) == Seq::<char>::empty());
        assert(Seq::<char>::empty() + caps.last() == caps.last());
        assert(spec_concat(caps) == spec_capitalize_first(w));
    } else {
        let init = words.drop_last();
        assert forall|i: int| 0 <= i < init.len() implies is_lower_word(#[trigger] init[i]) by {
            assert(init[i] == words[i]);
        }
        lemma_capitalized_words_to_snake(init);
        assert(caps.drop_last() == init.map_values(|p: Seq<char>| spec_capitalize_first(p)));
        let x = spec_concat(caps.drop_last());
        lemma_snake_append(x, spec_capitalize_first(w));
        assert(spec_join(init, '_') + (seq!['_'] + w) == spec_join(init, '_') + seq!['_'] + w);
    }
}

/// An entity type made of lower-case words joined by '_' ("order",
/// "order_item") gets the type name that snake_case conversion turns back
/// into it, and each of its generated mutations ("createOrderItem",
/// "updateOrderItem", "deleteOrderItem") resolves to it when the verb is
/// stripped: the names the schema generator writes are the names the
/// executor understands.
pub proof fn law_mutation_names_resolve_to_entity_type(words: Seq<Seq<char>>, verb: Seq<char>)
    requires
        words.len() >= 1,
        forall|i: int| 0 <= i < words.len() ==> is_lower_word(#[trigger] words[i]),
    ensures
        spec_to_snake(spec_sdl_pascal(spec_join(words, '_'))) == spec_join(words, '_'),
        spec_to_snake(spec_without_prefix(verb + spec_sdl_pascal(spec_join(words, '_')), verb))
            == spec_join(words, '_'),
{
    assert forall|i: int| 0 <= i < words.len() implies !spec_contains_char(#[trigger] words[i], '_') by {
        let w = words[i];
        if spec_contains_char(w, '_') {
            let j = choose|j: int| 0 <= j < w.len() && w[j] == '_';
            if j > 0 {
                assert(crate::text::is_ascii_lower(w[j]) || crate::text::is_ascii_digit(w[j]));
            }
        }
    }
    lemma_split_join(words, '_');
    lemma_capitalized_words_to_snake(words);
    let p = spec_sdl_pascal(spec_join(words, '_'));
    assert((verb + p).subrange(0, verb.len() as int) == verb);
    assert((verb + p).subrange(verb.len() as int, (verb + p).len() as int) == p);
}

/// The name of a relation mutation, prefix, first type name, separator,
/// second type name, resolves to the snake_case forms of the two names.
proof fn lemma_relation_name_resolves(
    prefix: Seq<char>,
    t: Seq<char>,
    sep: Seq<char>,
    s: Seq<char>,
)
    requires
        sep.len() >= 1,
        crate::text::is_ascii_upper(sep[0]),
        forall|k: int| 1 <= k < sep.len() ==> !crate::text::is_ascii_upper(#[trigger] sep[k]),
        !spec_contains(t, sep),
        !spec_contains(s, sep),
    ensures
        spec_relation_types(prefix + t + sep + s, prefix, sep) == Some((spec_to_snake(t), spec_to_snake(s))),
{
    let name = prefix + t + sep + s;
    assert(name.subrange(0, prefix.len() as int) =~= prefix);
    assert(spec_starts_with(name, prefix));
    assert(name.subrange(prefix.len() as int, name.len() as int) =~= t + sep + s);
    lemma_split_two_at_separator(t, sep, s);
}

/// The typed link mutations the schema generator writes for a link
/// definition from the entity type S to the entity type T (both made of
/// lower-case words joined by '_') resolve in the executor to the two
/// types they were made from, as long as neither type name holds the
/// separator: `create<T>For<S>` to the new entity's type T and the
/// parent's type S, `link<T>To<S>` and `unlink<T>From<S>` to T as the
/// source type and S as the target type.
pub proof fn law_typed_link_mutation_names_resolve(target: Seq<Seq<char>>, source: Seq<Seq<char>>)
    requires
        target.len() >= 1,
        source.len() >= 1,
        forall|i: int| 0 <= i < target.len() ==> is_lower_word(#[trigger] target[i]),
        forall|i: int| 0 <= i < source.len() ==> is_lower_word(#[trigger] source[i]),
    ensures
        !spec_contains(spec_sdl_pascal(spec_join(target, '_')), "For"@) && !spec_contains(
            spec_sdl_pascal(spec_join(source, '_')),
            "For"@,
        ) ==> spec_relation_types(
            "create"@ + spec_sdl_pascal(spec_join(target, '_')) + "For"@ + spec_sdl_pascal(
                spec_join(source, '_'),
            ),
            "create"@,
            "For"@,
        ) == Some((spec_join(target, '_'), spec_join(source, '_'))),
        !spec_contains(spec_sdl_pascal(spec_join(target, '_')), "To"@) && !spec_contains(
            spec_sdl_pascal(spec_join(source, '_')),
            "To"@,
        ) ==> spec_relation_types(
            "link"@ + spec_sdl_pascal(spec_join(target, '_')) + "To"@ + spec_sdl_pascal(
                spec_join(source, '_'),
            ),
            "link"@,
            "To"@,
        ) == Some((spec_join(target, '_'), spec_join(source, '_'))),
        !spec_contains(spec_sdl_pascal(spec_join(target, '_')), "From"@) && !spec_contains(
            spec_sdl_pascal(spec_join(source, '_')),
            "From"@,
        ) ==> spec_relation_types(
            "unlink"@ + spec_sdl_pascal(spec_join(target, '_')) + "From"@ + spec_sdl_pascal(
                spec_join(source, '_'),
            ),
            "unlink"@,
            "From"@,
        ) == Some((spec_join(target, '_'), spec_join(source, '_'))),
{
    let t = spec_sdl_pascal(spec_join(target, '_'));
    let s = spec_sdl_pascal(spec_join(source, '_'));
    law_mutation_names_resolve_to_entity_type(target, Seq::empty());
    law_mutation_names_resolve_to_entity_type(source, Seq::empty());
    reveal_strlit("For");
    reveal_strlit("To");
    reveal_strlit("From");
    if !spec_contains(t, "For"@) && !spec_contains(s, "For"@) {
        lemma_relation_name_resolves("create"@, t, "For"@, s);
    }
    if !spec_contains(t, "To"@) && !spec_contains(s, "To"@) {
        lemma_relation_name_resolves("link"@, t, "To"@, s);
    }
    if !spec_contains(t, "From"@) && !spec_contains(s, "From"@) {
        lemma_relation_name_resolves("unlink"@, t, "From"@, s);
    }
}

/// The list query the schema generator writes for an entity type (named
/// by its configured plural) is the one the executor resolves to that type
/// when the configured plural is the simple plural of the type and no
/// entity type before it has the same simple plural.
pub proof fn law_list_query_resolves_to_entity_type(
    types: Seq<String>,
    entities: Seq<EntityConfig>,
    i: int,
)
    requires
        0 <= i < types.len(),
        spec_plural(entities, types[i]@) == spec_pluralize(types[i]@),
        forall|j: int| 0 <= j < i ==> spec_pluralize(#[trigger] types[j]@) != spec_pluralize(types[i]@),
    ensures
        is_first_type(types, i, |t: Seq<char>| spec_pluralize(t) == spec_plural(entities, types[i]@)),
{
}

proof fn lemma_typed_links_append(a: Seq<LinkDefinition>, b: Seq<LinkDefinition>)
    ensures
        spec_typed_links(a + b) == spec_typed_links(a) + spec_typed_links(b),
    decreases b.len(),
{
    if b.len() == 0 {
        assert(a + b =~= a);
        assert(spec_typed_links(a) + Seq::<char>::empty() =~= spec_typed_links(a));
    } else {
        lemma_typed_links_append(a, b.drop_last());
        assert((a + b).drop_last() =~= a + b.drop_last());
        assert((a + b).last() == b.last());
    }
}

/// For every link definition from S to T, the typed link mutations hold
/// its three mutations, named after T then S, each declaring what it
/// gives back: `create<T>For<S>` returns the created entity, of the target
/// type T; `link<T>To<S>` returns the `Link`; `unlink<T>From<S>` returns a
/// `Boolean`. The mutations of the other definitions stand before and
/// after them.
pub proof fn law_typed_link_mutations_declare_their_results(links: Seq<LinkDefinition>, i: int)
    requires
        0 <= i < links.len(),
    ensures
        exists|before: Seq<char>, after: Seq<char>|
            spec_typed_links(links) == before + "  create"@ + spec_sdl_pascal(links[i].target_type@)
                + "For"@ + spec_sdl_pascal(links[i].source_type@)
                + "(parentId: ID!, data: JSON!, linkType: String): "@ + spec_sdl_pascal(
                links[i].target_type@,
            ) + "!\n  link"@ + spec_sdl_pascal(links[i].target_type@) + "To"@ + spec_sdl_pascal(
                links[i].source_type@,
            ) + "(sourceId: ID!, targetId: ID!, linkType: String, metadata: JSON): Link!\n  unlink"@
                + spec_sdl_pascal(links[i].target_type@) + "From"@ + spec_sdl_pascal(
                links[i].source_type@,
            ) + "(sourceId: ID!, targetId: ID!, linkType: String): Boolean!\n"@ + after,
{
    let pre = links.take(i);
    let post = links.skip(i + 1);
    assert(links =~= pre + seq![links[i]] + post);
    lemma_typed_links_append(pre + seq![links[i]], post);
    lemma_typed_links_append(pre, seq![links[i]]);
    assert(seq![links[i]].drop_last() =~= Seq::<LinkDefinition>::empty());
    assert(seq![links[i]].last() == links[i]);
    assert(spec_typed_links(Seq::<LinkDefinition>::empty()) == Seq::<char>::empty());
    assert(Seq::<char>::empty() + spec_typed_link_lines(links[i]) =~= spec_typed_link_lines(links[i]));
    assert(spec_typed_links(seq![links[i]]) =~= spec_typed_link_lines(links[i]));
    let before = spec_typed_links(pre);
    let after = spec_typed_links(post);
    let t = spec_sdl_pascal(links[i].target_type@);
    let s = spec_sdl_pascal(links[i].source_type@);
    assert(spec_typed_links(links) =~= before + "  create"@ + t + "For"@ + s
        + "(parentId: ID!, data: JSON!, linkType: String): "@ + t + "!\n  link"@ + t + "To"@ + s
        + "(sourceId: ID!, targetId: ID!, linkType: String, metadata: JSON): Link!\n  unlink"@ + t
        + "From"@ + s + "(sourceId: ID!, targetId: ID!, linkType: String): Boolean!\n"@ + after);
}

proof fn lemma_cruds_append(a: Seq<Seq<char>>, b: Seq<Seq<char>>)
    ensures
        spec_cruds(a + b) == spec_cruds(a) + spec_cruds(b),
    decreases b.len(),
{
    if b.len() == 0 {
        assert(a + b =~= a);
        assert(spec_cruds(a) + Seq::<char>::empty() =~= spec_cruds(a));
    } else {
        lemma_cruds_append(a, b.drop_last());
        assert((a + b).drop_last() =~= a + b.drop_last());
        assert((a + b).last() == b.last());
    }
}

/// For every entity type E, the CRUD mutations hold its three mutations,
/// named after its PascalCase form P: `create<P>` and `update<P>` return the
/// entity, of type P; `delete<P>` returns a `Boolean`. The mutations of the
/// other types stand before and after them.
pub proof fn law_crud_mutations_declare_their_results(ets: Seq<Seq<char>>, i: int)
    requires
        0 <= i < ets.len(),
    ensures
        exists|before: Seq<char>, after: Seq<char>|
            spec_cruds(ets) == before + "  create"@ + spec_sdl_pascal(ets[i]) + "(data: JSON!): "@
                + spec_sdl_pascal(ets[i]) + "!\n  update"@ + spec_sdl_pascal(ets[i])
                + "(id: ID!, data: JSON!): "@ + spec_sdl_pascal(ets[i]) + "!\n  delete"@
                + spec_sdl_pascal(ets[i]) + "(id: ID!): Boolean!\n"@ + after,
{
    let pre = ets.take(i);
    let post = ets.skip(i + 1);
    assert(ets =~= pre + seq![ets[i]] + post);
    lemma_cruds_append(pre + seq![ets[i]], post);
    lemma_cruds_append(pre, seq![ets[i]]);
    assert(seq![ets[i]].drop_last() =~= Seq::<Seq<char>>::empty());
    assert(seq![ets[i]].last() == ets[i]);
    assert(spec_cruds(Seq::<Seq<char>>::empty()) == Seq::<char>::empty());
    assert(Seq::<char>::empty() + spec_crud_lines(ets[i]) =~= spec_crud_lines(ets[i]));
    assert(spec_cruds(seq![ets[i]]) =~= spec_crud_lines(ets[i]));
    let before = spec_cruds(pre);
    let after = spec_cruds(post);
    let p = spec_sdl_pascal(ets[i]);
    assert(spec_cruds(ets) == before + spec_crud_lines(ets[i]) + after);
    assert(spec_cruds(ets) =~= before + "  create"@ + p + "(data: JSON!): "@ + p + "!\n  update"@ + p
        + "(id: ID!, data: JSON!): "@ + p + "!\n  delete"@ + p + "(id: ID!): Boolean!\n"@ + after);
}

proof fn lemma_queries_append(a: Seq<Seq<char>>, b: Seq<Seq<char>>, entities: Seq<EntityConfig>)
    ensures
        spec_queries(a + b, entities) == spec_queries(a, entities) + spec_queries(b, entities),
    decreases b.len(),
{
    if b.len() == 0 {
        assert(a + b =~= a);
        assert(spec_queries(a, entities) + Seq::<char>::empty() =~= spec_queries(a, entities));
    } else {
        lemma_queries_append(a, b.drop_last(), entities);
        assert((a + b).drop_last() =~= a + b.drop_last());
        assert((a + b).last() == b.last());
    }
}

/// For every entity type E, the queries hold its two queries: `E(id)`
/// returns one entity of E's PascalCase type P, and the list query, named
/// by E's plural, returns a list of P. The queries of the other types
/// stand before and after them.
pub proof fn law_queries_declare_their_results(ets: Seq<Seq<char>>, entities: Seq<EntityConfig>, i: int)
    requires
        0 <= i < ets.len(),
    ensures
        exists|before: Seq<char>, after: Seq<char>|
            spec_queries(ets, entities) == before + "  "@ + ets[i] + "(id: ID!): "@ + spec_sdl_pascal(ets[i])
                + "\n  "@ + spec_plural(entities, ets[i]) + "(limit: Int, offset: Int): ["@
                + spec_sdl_pascal(ets[i]) + "!]!\n"@ + after,
{
    let pre = ets.take(i);
    let post = ets.skip(i + 1);
    assert(ets =~= pre + seq![ets[i]] + post);
    lemma_queries_append(pre + seq![ets[i]], post, entities);
    lemma_queries_append(pre, seq![ets[i]], entities);
    assert(seq![ets[i]].drop_last() =~= Seq::<Seq<char>>::empty());
    assert(seq![ets[i]].last() == ets[i]);
    let q = spec_query_lines(ets[i], spec_plural(entities, ets[i]));
    assert(spec_queries(Seq::<Seq<char>>::empty(), entities) == Seq::<char>::empty());
    assert(Seq::<char>::empty() + q =~= q);
    assert(spec_queries(seq![ets[i]], entities) =~= q);
    let before = spec_queries(pre, entities);
    let after = spec_queries(post, entities);
    let p = spec_sdl_pascal(ets[i]);
    assert(spec_queries(ets, entities) =~= before + "  "@ + ets[i] + "(id: ID!): "@ + p + "\n  "@
        + spec_plural(entities, ets[i]) + "(limit: Int, offset: Int): ["@ + p + "!]!\n"@ + after);
}

} // verus!
