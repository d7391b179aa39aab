//! Generation of a typed `.proto` definition for the registered entity
//! types: one message family and one CRUD service per entity, then the
//! shared link messages and link service.

use vstd::prelude::*;
use crate::json::{JsonData, JsonNumber, JsonValue, json_view, json_members_view, lemma_members_view_index};
use crate::text::{
    owned, str_eq, split_char, spec_concat, spec_split_char, spec_upper_of, spec_lowercase,
    is_ascii_text,
    char_to_uppercase, str_to_lowercase, spec_decimal, decimal,
};

verus! {

// ---------------------------------------------------------------------------
// Names
// ---------------------------------------------------------------------------

/// One `_`-separated part with its first character upper-cased and the
/// rest lower-cased (empty parts stay empty); ASCII text is cased the
/// ASCII way.
pub open spec fn spec_capitalize(p: Seq<char>) -> Seq<char> {
    if p.len() == 0 {
        Seq::empty()
    } else {
        spec_upper_of(p[0]) + spec_lowercase(p.subrange(1, p.len() as int))
    }
}

/// The message name for an entity type: each `_`-separated part
/// capitalized, the parts joined without separator.
pub open spec fn spec_proto_pascal(s: Seq<char>) -> Seq<char> {
    spec_concat(spec_split_char(s, '_').map_values(|p: Seq<char>| spec_capitalize(p)))
}

fn capitalize(p: &str) -> (r: String)
    ensures
        r@ == spec_capitalize(p@),
{
    let n = p.unicode_len();
    if n == 0 {
        String::new()
    } else {
        let mut r = char_to_uppercase(p.get_char(0));
        let rest = str_to_lowercase(p.substring_char(1, n));
        r.append(rest.as_str());
        r
    }
}

/// Converts a snake_case entity type to the PascalCase message name.
pub fn to_pascal_case(s: &str) -> (r: String)
    ensures
        r@ == spec_proto_pascal(s@),
{
    let parts = split_char(s, '_');
    let ghost caps = spec_split_char(s@, '_').map_values(|p: Seq<char>| spec_capitalize(p));
    let mut out = String::new();
    let mut k: usize = 0;
    assert(caps.take(0) =~= Seq::<Seq<char>>::empty());
    while k < parts.len()
        invariant
            caps == spec_split_char(s@, '_').map_values(|p: Seq<char>| spec_capitalize(p)),
            parts.len() == caps.len(),
            forall|j: int| 0 <= j < parts.len() ==> #[trigger] parts[j]@ == spec_split_char(s@, '_')[j],
            k <= parts.len(),
            out@ == spec_concat(caps.take(k as int)),
        decreases parts.len() - k,
    {
        let c = capitalize(parts[k].as_str());
        assert(c@ == caps[k as int]);
        out.append(c.as_str());
        proof {
            lemma_concat_take_step(caps, k as int);
        }
        k = k + 1;
    }
    assert(caps.take(parts.len() as int) =~= caps);
    out
}

proof fn lemma_concat_take_step(caps: Seq<Seq<char>>, k: int)
    requires
        0 <= k < caps.len(),
    ensures
        spec_concat(caps.take(k + 1)) == spec_concat(caps.take(k)) + caps[k],
{
    assert(caps.take(k + 1).drop_last() =~= caps.take(k));
    assert(caps.take(k + 1).last() == caps[k]);
}

/// `t` is ASCII and holds no `c`.
pub open spec fn ascii_without(t: Seq<char>, c: char) -> bool {
    forall|i: int| 0 <= i < t.len() ==> (#[trigger] t[i] as u32) < 128 && t[i] != c
}

proof fn lemma_split_parts_ascii(s: Seq<char>)
    requires
        is_ascii_text(s),
    ensures
        forall|k: int|
            0 <= k < spec_split_char(s, '_').len() ==> ascii_without(#[trigger] spec_split_char(s, '_')[k], '_'),
    decreases s.len(),
{
    if s.len() > 0 {
        let init = s.drop_last();
        assert(is_ascii_text(init)) by {
            assert forall|i: int| 0 <= i < init.len() implies (#[trigger] init[i] as u32) < 128 by {
                assert(init[i] == s[i]);
            }
        }
        lemma_split_parts_ascii(init);
        crate::text::lemma_split_char_nonempty(init, '_');
        let parts = spec_split_char(init, '_');
        let c = s.last();
        assert((c as u32) < 128) by {
            assert(s[s.len() - 1] == c);
        }
        if c != '_' {
            let last = parts.last().push(c);
            assert(ascii_without(parts[parts.len() - 1], '_'));
            assert forall|i: int| 0 <= i < last.len() implies (#[trigger] last[i] as u32) < 128 && last[i] != '_' by {
                if i < parts.last().len() {
                    assert(last[i] == parts[parts.len() - 1][i]);
                }
            }
            let np = parts.update(parts.len() - 1, last);
            assert forall|k: int| 0 <= k < np.len() implies ascii_without(#[trigger] np[k], '_') by {
                if k < parts.len() - 1 {
                    assert(np[k] == parts[k]);
                }
            }
        } else {
            let np = parts.push(Seq::<char>::empty());
            assert forall|k: int| 0 <= k < np.len() implies ascii_without(#[trigger] np[k], '_') by {
                if k < parts.len() {
                    assert(np[k] == parts[k]);
                }
            }
        }
    }
}

proof fn lemma_capitalize_ascii(p: Seq<char>)
    requires
        ascii_without(p, '_'),
    ensures
        ascii_without(spec_capitalize(p), '_'),
{
    if p.len() > 0 {
        let tail = p.subrange(1, p.len() as int);
        assert(is_ascii_text(tail)) by {
            assert forall|i: int| 0 <= i < tail.len() implies (#[trigger] tail[i] as u32) < 128 by {
                assert(tail[i] == p[i + 1]);
            }
        }
        let c = p[0];
        let head = spec_upper_of(c);
        assert(head == seq![crate::text::spec_ascii_upper(c)]);
        let low = tail.map_values(|x: char| crate::text::spec_ascii_lower(x));
        let r = head + low;
        assert forall|i: int| 0 <= i < r.len() implies (#[trigger] r[i] as u32) < 128 && r[i] != '_' by {
            if i == 0 {
                assert(r[0] == crate::text::spec_ascii_upper(c));
            } else {
                assert(r[i] == low[i - 1]);
                assert(tail[i - 1] == p[i]);
            }
        }
    }
}

proof fn lemma_concat_ascii(parts: Seq<Seq<char>>)
    requires
        forall|k: int| 0 <= k < parts.len() ==> ascii_without(#[trigger] parts[k], '_'),
    ensures
        ascii_without(spec_concat(parts), '_'),
    decreases parts.len(),
{
    if parts.len() > 0 {
        let init = parts.drop_last();
        assert forall|k: int| 0 <= k < init.len() implies ascii_without(#[trigger] init[k], '_') by {
            assert(init[k] == parts[k]);
        }
        lemma_concat_ascii(init);
        let a = spec_concat(init);
        let b = parts.last();
        assert(ascii_without(parts[parts.len() - 1], '_'));
        assert forall|i: int| 0 <= i < (a + b).len() implies (#[trigger] (a + b)[i] as u32) < 128 && (a
            + b)[i] != '_' by {
            if i < a.len() {
                assert((a + b)[i] == a[i]);
            } else {
                assert((a + b)[i] == b[i - a.len()]);
            }
        }
    }
}

/// The message name of an ASCII entity type (`to_pascal_case`) is ASCII
/// and holds no underscore: each `_`-separated part is capitalized the
/// ASCII way and the parts are joined without separator.
pub proof fn law_proto_pascal_of_ascii(s: Seq<char>)
    requires
        is_ascii_text(s),
    ensures
        forall|i: int|
            0 <= i < spec_proto_pascal(s).len() ==> (#[trigger] spec_proto_pascal(s)[i] as u32) < 128
                && spec_proto_pascal(s)[i] != '_',
{
    lemma_split_parts_ascii(s);
    let parts = spec_split_char(s, '_');
    let caps = parts.map_values(|p: Seq<char>| spec_capitalize(p));
    assert forall|k: int| 0 <= k < caps.len() implies ascii_without(#[trigger] caps[k], '_') by {
        lemma_capitalize_ascii(parts[k]);
    }
    lemma_concat_ascii(caps);
}

// ---------------------------------------------------------------------------
// Fields
// ---------------------------------------------------------------------------

/// Fields generated by the server itself, left out of create and update
/// requests.
pub open spec fn spec_is_auto_field(name: Seq<char>) -> bool {
    ||| name == "id"@
    ||| name == "created_at"@
    ||| name == "updated_at"@
    ||| name == "deleted_at"@
    ||| name == "entity_type"@
    ||| name == "type"@
}

/// Whether a field is generated by the server.
pub fn is_auto_field(name: &str) -> (r: bool)
    ensures
        r == spec_is_auto_field(name@),
{
    str_eq(name, "id") || str_eq(name, "created_at") || str_eq(name, "updated_at") || str_eq(
        name,
        "deleted_at",
    ) || str_eq(name, "entity_type") || str_eq(name, "type")
}

/// The protobuf type used for a JSON value: floating-point numbers are
/// `double`, other numbers `int64`, arrays `repeated string`, and strings,
/// objects and `null` are carried as `string`.
pub open spec fn spec_proto_type(v: JsonData) -> Seq<char> {
    match v {
        JsonData::Bool(_) => "bool"@,
        JsonData::Number(JsonNumber::Float(_)) => "double"@,
        JsonData::Number(_) => "int64"@,
        JsonData::Array(_) => "repeated string"@,
        _ => "string"@,
    }
}

/// Maps a JSON value to its protobuf type.
pub fn json_type_to_proto(value: &JsonValue) -> (r: String)
    ensures
        r@ == spec_proto_type(value@),
{
    match value {
        JsonValue::Bool(_) => owned("bool"),
        JsonValue::Number(JsonNumber::Float(_)) => owned("double"),
        JsonValue::Number(_) => owned("int64"),
        JsonValue::Array(_) => owned("repeated string"),
        _ => owned("string"),
    }
}

/// Field names and protobuf types of a sample: one per member of an
/// object, in member order; none for any other value.
pub open spec fn spec_proto_fields(sample: JsonData) -> Seq<(Seq<char>, Seq<char>)> {
    match sample {
        JsonData::Object(m) => m.map_values(
            |e: (Seq<char>, JsonData)| (e.0, spec_proto_type(e.1)),
        ),
        _ => Seq::empty(),
    }
}

/// The text content of a list of `(name, type)` pairs.
pub open spec fn pairs_view(v: Seq<(String, String)>) -> Seq<(Seq<char>, Seq<char>)> {
    v.map_values(|e: (String, String)| (e.0@, e.1@))
}

/// Extracts the field names and protobuf types from a JSON sample.
pub fn extract_fields_from_json(json: &JsonValue) -> (r: Vec<(String, String)>)
    ensures
        pairs_view(r@) == spec_proto_fields(json@),
{
    let mut fields: Vec<(String, String)> = Vec::new();
    match json {
        JsonValue::Object(members) => {
            let ghost mv = json_members_view(members@);
            proof {
                lemma_members_view_index(members@);
            }
            let mut i: usize = 0;
            while i < members.len()
                invariant
                    *json == JsonValue::Object(*members),
                    mv == json_members_view(members@),
                    mv.len() == members@.len(),
                    forall|k: int|
                        0 <= k < members@.len() ==> #[trigger] mv[k] == (
                            members@[k].0@,
                            json_view(members@[k].1),
                        ),
                    i <= members.len(),
                    fields.len() == i,
                    forall|k: int|
                        0 <= k < i ==> #[trigger] fields@[k].0@ == mv[k].0 && fields@[k].1@
                            == spec_proto_type(mv[k].1),
                decreases members.len() - i,
            {
                let name = members[i].0.clone();
                let ty = json_type_to_proto(&members[i].1);
                assert(mv[i as int] == (members@[i as int].0@, json_view(members@[i as int].1)));
                fields.push((name, ty));
                i = i + 1;
            }
            assert(pairs_view(fields@) =~= spec_proto_fields(json@));
        },
        _ => {
            assert(pairs_view(fields@) =~= spec_proto_fields(json@));
        },
    }
    fields
}


// ---------------------------------------------------------------------------
// Text of the definition
// ---------------------------------------------------------------------------

/// Opening lines of every generated definition.
pub const PROTO_HEADER: &'static str = "syntax = \"proto3\";\n\npackage this_api;\n\n";

/// The messages of the link service, the same for every deployment.
pub const LINK_MESSAGES: &'static str = "// Link messages\nmessage Link {\n  string id = 1;\n  string link_type = 2;\n  string source_id = 3;\n  string target_id = 4;\n  string created_at = 5;\n  string updated_at = 6;\n}\n\nmessage CreateLinkRequest {\n  string link_type = 1;\n  string source_id = 2;\n  string target_id = 3;\n}\n\nmessage GetLinkRequest {\n  string id = 1;\n}\n\nmessage FindLinksRequest {\n  string entity_id = 1;\n  string link_type = 2;\n}\n\nmessage LinkListResponse {\n  repeated Link links = 1;\n}\n\nmessage DeleteLinkRequest {\n  string id = 1;\n}\n\nmessage DeleteLinkResponse {\n  bool success = 1;\n}\n\n";

/// The link service, the same for every deployment; it closes the file.
pub const LINK_SERVICE: &'static str = "service LinkService {\n  rpc CreateLink(CreateLinkRequest) returns (Link);\n  rpc GetLink(GetLinkRequest) returns (Link);\n  rpc FindLinksBySource(FindLinksRequest) returns (LinkListResponse);\n  rpc FindLinksByTarget(FindLinksRequest) returns (LinkListResponse);\n  rpc DeleteLink(DeleteLinkRequest) returns (DeleteLinkResponse);\n}\n";

/// One field declaration: `  <type> <name> = <number>;`.
pub open spec fn spec_field_line(name: Seq<char>, ty: Seq<char>, number: nat) -> Seq<char> {
    "  "@ + ty + " "@ + name + " = "@ + spec_decimal(number) + ";\n"@
}

/// Declarations of `fields` in order, the field at position `i` numbered
/// `first + i`; with `skip_auto`, server-generated fields are left out
/// (the others keep their numbers).
pub open spec fn spec_field_lines(
    fields: Seq<(Seq<char>, Seq<char>)>,
    first: nat,
    skip_auto: bool,
) -> Seq<char>
    decreases fields.len(),
{
    if fields.len() == 0 {
        Seq::empty()
    } else {
        let last = fields.last();
        let line = if skip_auto && spec_is_auto_field(last.0) {
            Seq::empty()
        } else {
            spec_field_line(last.0, last.1, (first + fields.len() - 1) as nat)
        };
        spec_field_lines(fields.drop_last(), first, skip_auto) + line
    }
}

fn field_lines(fields: &Vec<(String, String)>, first: u128, skip_auto: bool) -> (r: String)
    requires
        first <= 2,
    ensures
        r@ == spec_field_lines(pairs_view(fields@), first as nat, skip_auto),
{
    let ghost fv = pairs_view(fields@);
    let mut out = String::new();
    let mut i: usize = 0;
    assert(fv.take(0) =~= Seq::<(Seq<char>, Seq<char>)>::empty());
    while i < fields.len()
        invariant
            fv == pairs_view(fields@),
            fv.len() == fields.len(),
            first <= 2,
            i <= fields.len(),
            out@ == spec_field_lines(fv.take(i as int), first as nat, skip_auto),
        decreases fields.len() - i,
    {
        let name = &fields[i].0;
        let ty = &fields[i].1;
        assert(fv[i as int] == (name@, ty@));
        let ghost before = out@;
        assert(fv.take(i + 1).drop_last() =~= fv.take(i as int));
        assert(fv.take(i + 1).last() == fv[i as int]);
        if skip_auto && is_auto_field(name.as_str()) {
            assert(out@ =~= before + Seq::<char>::empty());
        } else {
            let mut line = owned("  ");
            line.append(ty.as_str());
            line.append(" ");
            line.append(name.as_str());
            line.append(" = ");
            let num = decimal((i as u128) + first);
            line.append(num.as_str());
            line.append(";\n");
            out.append(line.as_str());
        }
        i = i + 1;
    }
    assert(fv.take(fields.len() as int) =~= fv);
    out
}

/// The messages generated for one entity: the entity itself (every
/// field, numbered from 1), get and list requests, the list response,
/// create and update requests (server-generated fields left out; update
/// numbers from 2 after its `id`), and delete request and response.
pub open spec fn spec_entity_messages(p: Seq<char>, f: Seq<(Seq<char>, Seq<char>)>) -> Seq<char> {
    "// "@ + p + " entity\nmessage "@ + p + " {\n"@ + spec_field_lines(f, 1, false)
        + "}\n\nmessage Get"@ + p + "Request {\n  string id = 1;\n}\n\nmessage List"@ + p
        + "Request {\n  int32 limit = 1;\n  int32 offset = 2;\n}\n\nmessage List"@ + p
        + "Response {\n  repeated "@ + p + " items = 1;\n  int32 total = 2;\n}\n\nmessage Create"@
        + p + "Request {\n"@ + spec_field_lines(f, 1, true) + "}\n\nmessage Update"@ + p
        + "Request {\n  string id = 1;\n"@ + spec_field_lines(f, 2, true)
        + "}\n\nmessage Delete"@ + p + "Request {\n  string id = 1;\n}\n\nmessage Delete"@ + p
        + "Response {\n  bool success = 1;\n}\n\n"@
}

/// The CRUD service of one entity.
pub open spec fn spec_entity_service(p: Seq<char>) -> Seq<char> {
    "service "@ + p + "Service {\n  rpc Get"@ + p + "(Get"@ + p + "Request) returns ("@ + p
        + ");\n  rpc List"@ + p + "(List"@ + p + "Request) returns (List"@ + p
        + "Response);\n  rpc Create"@ + p + "(Create"@ + p + "Request) returns ("@ + p
        + ");\n  rpc Update"@ + p + "(Update"@ + p + "Request) returns ("@ + p
        + ");\n  rpc Delete"@ + p + "(Delete"@ + p + "Request) returns (Delete"@ + p
        + "Response);\n}\n\n"@
}

/// Fields discovered from an optional sample entity (none without one).
pub open spec fn spec_sample_fields(sample: Option<JsonData>) -> Seq<(Seq<char>, Seq<char>)> {
    match sample {
        Some(d) => spec_proto_fields(d),
        None => Seq::empty(),
    }
}

/// Content of an optional JSON value.
pub open spec fn opt_json_view(v: Option<&JsonValue>) -> Option<JsonData> {
    match v {
        Some(j) => Some(j@),
        None => None,
    }
}

fn entity_messages_text(p: &str, fields: &Vec<(String, String)>) -> (r: String)
    ensures
        r@ == spec_entity_messages(p@, pairs_view(fields@)),
{
    let all = field_lines(fields, 1, false);
    let create = field_lines(fields, 1, true);
    let update = field_lines(fields, 2, true);
    let mut out = owned("// ");
    out.append(p);
    out.append(" entity\nmessage ");
    out.append(p);
    out.append(" {\n");
    out.append(all.as_str());
    out.append("}\n\nmessage Get");
    out.append(p);
    out.append("Request {\n  string id = 1;\n}\n\nmessage List");
    out.append(p);
    out.append("Request {\n  int32 limit = 1;\n  int32 offset = 2;\n}\n\nmessage List");
    out.append(p);
    out.append("Response {\n  repeated ");
    out.append(p);
    out.append(" items = 1;\n  int32 total = 2;\n}\n\nmessage Create");
    out.append(p);
    out.append("Request {\n");
    out.append(create.as_str());
    out.append("}\n\nmessage Update");
    out.append(p);
    out.append("Request {\n  string id = 1;\n");
    out.append(update.as_str());
    out.append("}\n\nmessage Delete");
    out.append(p);
    out.append("Request {\n  string id = 1;\n}\n\nmessage Delete");
    out.append(p);
    out.append("Response {\n  bool success = 1;\n}\n\n");
    out
}

/// Appends the messages of one entity type, with the fields discovered
/// from its sample entity (none when no sample could be had).
pub fn generate_entity_messages(proto: &mut String, entity_type: &str, sample: Option<&JsonValue>)
    ensures
        final(proto)@ == old(proto)@ + spec_entity_messages(
            spec_proto_pascal(entity_type@),
            spec_sample_fields(opt_json_view(sample)),
        ),
{
    let pascal = to_pascal_case(entity_type);
    let fields = match sample {
        Some(s) => extract_fields_from_json(s),
        None => {
            let v: Vec<(String, String)> = Vec::new();
            assert(pairs_view(v@) =~= Seq::<(Seq<char>, Seq<char>)>::empty());
            v
        },
    };
    let text = entity_messages_text(pascal.as_str(), &fields);
    proto.append(text.as_str());
}

/// Appends the CRUD service of one entity type.
pub fn generate_entity_service(proto: &mut String, entity_type: &str)
    ensures
        final(proto)@ == old(proto)@ + spec_entity_service(spec_proto_pascal(entity_type@)),
{
    let pascal = to_pascal_case(entity_type);
    let p = pascal.as_str();
    let mut out = owned("service ");
    out.append(p);
    out.append("Service {\n  rpc Get");
    out.append(p);
    out.append("(Get");
    out.append(p);
    out.append("Request) returns (");
    out.append(p);
    out.append(");\n  rpc List");
    out.append(p);
    out.append("(List");
    out.append(p);
    out.append("Request) returns (List");
    out.append(p);
    out.append("Response);\n  rpc Create");
    out.append(p);
    out.append("(Create");
    out.append(p);
    out.append("Request) returns (");
    out.append(p);
    out.append(");\n  rpc Update");
    out.append(p);
    out.append("(Update");
    out.append(p);
    out.append("Request) returns (");
    out.append(p);
    out.append(");\n  rpc Delete");
    out.append(p);
    out.append("(Delete");
    out.append(p);
    out.append("Request) returns (Delete");
    out.append(p);
    out.append("Response);\n}\n\n");
    proto.append(out.as_str());
}

/// Appends the link messages.
pub fn generate_link_messages(proto: &mut String)
    ensures
        final(proto)@ == old(proto)@ + LINK_MESSAGES@,
{
    proto.append(LINK_MESSAGES);
}

/// Appends the link service.
pub fn generate_link_service(proto: &mut String)
    ensures
        final(proto)@ == old(proto)@ + LINK_SERVICE@,
{
    proto.append(LINK_SERVICE);
}

/// The content of the registered entities: each type's name and its
/// sample entity, if one could be fetched.
pub open spec fn entities_view(e: Seq<(String, Option<JsonValue>)>) -> Seq<(Seq<char>, Option<JsonData>)> {
    e.map_values(|x: (String, Option<JsonValue>)| (x.0@, match x.1 {
        Some(j) => Some(j@),
        None => None,
    }))
}

/// Messages and service of each entity in turn.
pub open spec fn spec_entity_sections(e: Seq<(Seq<char>, Option<JsonData>)>) -> Seq<char>
    decreases e.len(),
{
    if e.len() == 0 {
        Seq::empty()
    } else {
        let p = spec_proto_pascal(e.last().0);
        spec_entity_sections(e.drop_last()) + spec_entity_messages(p, spec_sample_fields(e.last().1))
            + spec_entity_service(p)
    }
}

/// The whole `.proto` definition for the given entities, in their order.
pub open spec fn spec_proto_file(e: Seq<(Seq<char>, Option<JsonData>)>) -> Seq<char> {
    PROTO_HEADER@ + spec_entity_sections(e) + LINK_MESSAGES@ + LINK_SERVICE@
}

proof fn lemma_sections_step(ev: Seq<(Seq<char>, Option<JsonData>)>, i: int)
    requires
        0 <= i < ev.len(),
    ensures
        spec_entity_sections(ev.take(i + 1)) == spec_entity_sections(ev.take(i))
            + spec_entity_messages(spec_proto_pascal(ev[i].0), spec_sample_fields(ev[i].1))
            + spec_entity_service(spec_proto_pascal(ev[i].0)),
{
    assert(ev.take(i + 1).drop_last() =~= ev.take(i));
    assert(ev.take(i + 1).last() == ev[i]);
}

proof fn lemma_append_assoc(a: Seq<char>, b: Seq<char>, c: Seq<char>, d: Seq<char>)
    ensures
        a + b + c + d == a + (b + c + d),
{
    assert(a + b + c + d =~= a + (b + c + d));
}

/// Generator of the typed `.proto` definition of a deployment: the entity
/// types registered on the server, each with a sample entity from which
/// its fields are discovered (`None` where none could be fetched).
pub struct ProtoGenerator {
    pub entities: Vec<(String, Option<JsonValue>)>,
}

impl ProtoGenerator {
    /// A generator for the given entity types and samples.
    pub fn new(entities: Vec<(String, Option<JsonValue>)>) -> (r: Self)
        ensures
            r.entities@ == entities@,
    {
        ProtoGenerator { entities }
    }

    /// The complete `.proto` definition: header, then messages and
    /// service of every entity type in registration order, then the link
    /// messages and the link service.
    pub fn generate_proto(&self) -> (r: String)
        ensures
            r@ == spec_proto_file(entities_view(self.entities@)),
    {
        let ghost ev = entities_view(self.entities@);
        let mut proto = owned(PROTO_HEADER);
        let mut i: usize = 0;
        assert(ev.take(0) =~= Seq::<(Seq<char>, Option<JsonData>)>::empty());
        while i < self.entities.len()
            invariant
                ev == entities_view(self.entities@),
                ev.len() == self.entities.len(),
                i <= self.entities.len(),
                proto@ == PROTO_HEADER@ + spec_entity_sections(ev.take(i as int)),
            decreases self.entities.len() - i,
        {
            let entity_type = self.entities[i].0.as_str();
            let sample = match &self.entities[i].1 {
                Some(j) => Some(j),
                None => None,
            };
            assert(ev[i as int].0 == entity_type@);
            assert(opt_json_view(sample) == ev[i as int].1);
            let ghost before = proto@;
            generate_entity_messages(&mut proto, entity_type, sample);
            generate_entity_service(&mut proto, entity_type);
            proof {
                let p = spec_proto_pascal(ev[i as int].0);
                let msgs = spec_entity_messages(p, spec_sample_fields(ev[i as int].1));
                let svc = spec_entity_service(p);
                lemma_sections_step(ev, i as int);
                lemma_append_assoc(PROTO_HEADER@, spec_entity_sections(ev.take(i as int)), msgs, svc);
            }
            i = i + 1;
        }
        assert(ev.take(self.entities.len() as int) =~= ev);
        generate_link_messages(&mut proto);
        generate_link_service(&mut proto);
        proto
    }
}

} // verus!
