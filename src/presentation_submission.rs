use vstd::prelude::*;

use crate::credential_format::{reads_designation, ClaimFormatDesignation};
use crate::json::{
    find_member, get_member, get_text_member, member, member_index, text_member, JsonObject,
    JsonValue,
};

verus! {

/// A JSONPath expression.
pub type JsonPath = String;

/// How the claims presented to a verifier answer the input descriptors of a
/// presentation definition.
#[derive(Debug)]
pub struct PresentationSubmission {
    id: u128,
    definition_id: String,
    descriptor_map: Vec<DescriptorMap>,
}

impl PresentationSubmission {
    pub closed spec fn spec_id(&self) -> u128 {
        self.id
    }

    pub closed spec fn spec_definition_id(&self) -> Seq<char> {
        self.definition_id@
    }

    pub closed spec fn spec_descriptor_map(&self) -> Seq<DescriptorMap> {
        self.descriptor_map@
    }

    /// A submission with the given id, answering the definition `definition_id`
    /// with the given descriptor maps. Cross-references are not checked here.
    pub fn new(id: u128, definition_id: String, descriptor_map: Vec<DescriptorMap>) -> (r:
        Self)
        ensures
            r.spec_id() == id,
            r.spec_definition_id() == definition_id@,
            r.spec_descriptor_map() == descriptor_map@,
    {
        Self { id, definition_id, descriptor_map }
    }

    /// The id of the submission.
    pub fn id(&self) -> (r: u128)
        ensures
            r == self.spec_id(),
    {
        self.id
    }

    /// The id of the presentation definition that the submission answers.
    pub fn definition_id(&self) -> (r: &String)
        ensures
            r@ == self.spec_definition_id(),
    {
        &self.definition_id
    }

    /// The descriptor maps, in order.
    pub fn descriptor_map(&self) -> (r: &Vec<DescriptorMap>)
        ensures
            r@ == self.spec_descriptor_map(),
    {
        &self.descriptor_map
    }

    /// The descriptor maps, to change in place.
    pub fn descriptor_map_mut(&mut self) -> (r: &mut Vec<DescriptorMap>)
        ensures
            r@ == old(self).spec_descriptor_map(),
            final(self).spec_descriptor_map() == final(r)@,
            final(self).spec_id() == old(self).spec_id(),
            final(self).spec_definition_id() == old(self).spec_definition_id(),
    {
        &mut self.descriptor_map
    }
}

/// Where a submitted claim answers one input descriptor: the descriptor's id,
/// the claim's format, its path, and an optional path within the claim.
#[derive(Debug)]
pub struct DescriptorMap {
    id: String,
    format: ClaimFormatDesignation,
    path: JsonPath,
    path_nested: Option<Box<DescriptorMap>>,
}

impl DescriptorMap {
    pub closed spec fn spec_id(&self) -> Seq<char> {
        self.id@
    }

    pub closed spec fn spec_format(&self) -> ClaimFormatDesignation {
        self.format
    }

    pub closed spec fn spec_path(&self) -> Seq<char> {
        self.path@
    }

    pub closed spec fn spec_path_nested(&self) -> Option<DescriptorMap> {
        match self.path_nested {
            Some(b) => Some(*b),
            None => None,
        }
    }

    /// A descriptor map for the input descriptor `id`, with no nested path.
    pub fn new(id: &str, format: ClaimFormatDesignation, path: JsonPath) -> (r: Self)
        ensures
            r.spec_id() == id@,
            r.spec_format() == format,
            r.spec_path() == path@,
            r.spec_path_nested() is None,
    {
        Self { id: id.to_owned(), format, path, path_nested: None }
    }

    /// The id of the input descriptor that the map answers.
    pub fn id(&self) -> (r: &String)
        ensures
            r@ == self.spec_id(),
    {
        &self.id
    }

    /// The format of the claim.
    pub fn format(&self) -> (r: &ClaimFormatDesignation)
        ensures
            *r == self.spec_format(),
    {
        &self.format
    }

    /// The path of the claim in the object that the submission is embedded in.
    pub fn path(&self) -> (r: &JsonPath)
        ensures
            r@ == self.spec_path(),
    {
        &self.path
    }

    /// The nested path, if one is set.
    pub fn path_nested(&self) -> (r: Option<&DescriptorMap>)
        ensures
            match self.spec_path_nested() {
                Some(n) => r matches Some(m) && *m == n,
                None => r is None,
            },
    {
        match &self.path_nested {
            Some(b) => Some(&**b),
            None => None,
        }
    }

    /// Sets the nested path. Every level of nesting answers the same input
    /// descriptor, so the nested map takes this map's id, whatever it had.
    pub fn set_path_nested(self, path_nested: DescriptorMap) -> (r: Self)
        ensures
            r.spec_id() == self.spec_id(),
            r.spec_format() == self.spec_format(),
            r.spec_path() == self.spec_path(),
            r.spec_path_nested() matches Some(n) && n.spec_id() == self.spec_id()
                && n.spec_format() == path_nested.spec_format() && n.spec_path()
                == path_nested.spec_path() && n.spec_path_nested() == path_nested.spec_path_nested(),
    {
        let mut nested = path_nested;
        nested.id = self.id.clone();
        let mut outer = self;
        outer.path_nested = Some(Box::new(nested));
        outer
    }
}

/// Whether the JSON `v` reads as a descriptor map: an object whose `id`, `format`
/// and `path` are strings, and whose `path_nested`, where present and not null,
/// reads as a descriptor map too.
pub open spec fn descriptor_map_readable(v: JsonValue) -> bool
    decreases v,
{
    match v {
        JsonValue::Object(m) => {
            &&& text_member(m@, "id"@) is Some
            &&& text_member(m@, "format"@) is Some
            &&& text_member(m@, "path"@) is Some
            &&& match member_index(m@, "path_nested"@) {
                None => true,
                Some(i) => 0 <= i < m@.len() && match m@[i].1 {
                    JsonValue::Null => true,
                    n => descriptor_map_readable(n),
                },
            }
        },
        _ => false,
    }
}

/// `d` is the descriptor map that the JSON `v` reads as.
pub open spec fn descriptor_map_from(v: JsonValue, d: DescriptorMap) -> bool
    decreases v,
{
    match v {
        JsonValue::Object(m) => {
            &&& text_member(m@, "id"@) == Some(d.spec_id())
            &&& (text_member(m@, "format"@) matches Some(f) && reads_designation(f, d.spec_format()))
            &&& text_member(m@, "path"@) == Some(d.spec_path())
            &&& match member_index(m@, "path_nested"@) {
                None => d.spec_path_nested() is None,
                Some(i) => 0 <= i < m@.len() && match m@[i].1 {
                    JsonValue::Null => d.spec_path_nested() is None,
                    n => (d.spec_path_nested() matches Some(dn) && descriptor_map_from(n, dn)),
                },
            }
        },
        _ => false,
    }
}

impl DescriptorMap {
    /// Reads a descriptor map from JSON; members other than `id`, `format`,
    /// `path` and `path_nested` are ignored.
    pub fn from_json(v: &JsonValue) -> (r: Option<DescriptorMap>)
        ensures
            r is Some <==> descriptor_map_readable(*v),
            r matches Some(d) ==> descriptor_map_from(*v, d),
        decreases v,
    {
        let m = match v {
            JsonValue::Object(m) => m,
            _ => return None,
        };
        let id = match get_text_member(m, "id") {
            Some(t) => t,
            None => return None,
        };
        let format = match get_text_member(m, "format") {
            Some(t) => ClaimFormatDesignation::from_wire(t.as_str()),
            None => return None,
        };
        let path = match get_text_member(m, "path") {
            Some(t) => t,
            None => return None,
        };
        let path_nested = match find_member(m, "path_nested") {
            None => None,
            Some(i) => match &m[i].1 {
                JsonValue::Null => None,
                n => {
                    proof {
                        vstd::std_specs::vec::axiom_vec_index_decreases(*m, i as int);
                    }
                    match DescriptorMap::from_json(n) {
                        Some(d) => Some(Box::new(d)),
                        None => return None,
                    }
                },
            },
        };
        Some(DescriptorMap { id, format, path, path_nested })
    }
}

/// The 128-bit value of the UUID that a text reads as, if it reads as one.
pub uninterp spec fn uuid_value(s: Seq<char>) -> Option<u128>;

/// Relies on `uuid::Uuid::parse_str`, read back with `as_u128`: the value of the
/// UUID that the text reads as.
#[verifier::external_body]
fn parse_uuid(s: &str) -> (r: Option<u128>)
    ensures
        r == uuid_value(s@),
{
    uuid::Uuid::parse_str(s).ok().map(|u| u.as_u128())
}

/// Relies on `uuid::Uuid::from_u128` and its `to_string`: the hyphenated text of
/// a UUID, which `uuid` reads back as the same value.
#[verifier::external_body]
fn uuid_text(v: u128) -> (r: String)
    ensures
        uuid_value(r@) == Some(v),
{
    uuid::Uuid::from_u128(v).to_string()
}

/// `v` is the JSON form of `d`: an object of `id`, `format` (its wire name),
/// `path` and `path_nested` (the nested map's form, or null), in that order.
pub open spec fn descriptor_map_json(v: JsonValue, d: DescriptorMap) -> bool
    decreases v,
{
    match v {
        JsonValue::Object(m) => {
            &&& m@.len() == 4
            &&& m@[0].0@ == "id"@ && (m@[0].1 matches JsonValue::String(t) && t@ == d.spec_id())
            &&& m@[1].0@ == "format"@ && (m@[1].1 matches JsonValue::String(f) && f@
                == d.spec_format().wire())
            &&& m@[2].0@ == "path"@ && (m@[2].1 matches JsonValue::String(t) && t@ == d.spec_path())
            &&& m@[3].0@ == "path_nested"@
            &&& match d.spec_path_nested() {
                None => m@[3].1 is Null,
                Some(n) => descriptor_map_json(m@[3].1, n),
            }
        },
        _ => false,
    }
}

impl DescriptorMap {
    /// The JSON form of the descriptor map.
    pub fn to_json(&self) -> (r: JsonValue)
        ensures
            descriptor_map_json(r, *self),
        decreases self,
    {
        let nested = match &self.path_nested {
            Some(n) => n.to_json(),
            None => JsonValue::Null,
        };
        let mut m: JsonObject = Vec::new();
        m.push(("id".to_owned(), JsonValue::String(self.id.clone())));
        m.push(("format".to_owned(), JsonValue::String(self.format.wire_name())));
        m.push(("path".to_owned(), JsonValue::String(self.path.clone())));
        m.push(("path_nested".to_owned(), nested));
        JsonValue::Object(m)
    }
}

/// Whether the JSON `v` reads as a presentation submission: an object whose `id`
/// is the text of a UUID, whose `definition_id` is a string, and whose
/// `descriptor_map` is an array of descriptor maps.
pub open spec fn submission_readable(v: JsonValue) -> bool {
    match v {
        JsonValue::Object(m) => {
            &&& (text_member(m@, "id"@) matches Some(t) && uuid_value(t) is Some)
            &&& text_member(m@, "definition_id"@) is Some
            &&& (member(m@, "descriptor_map"@) matches Some(JsonValue::Array(a)) && forall|i: int|
                0 <= i < a@.len() ==> descriptor_map_readable(#[trigger] a@[i]))
        },
        _ => false,
    }
}

/// `s` is the presentation submission that the JSON `v` reads as.
pub open spec fn submission_from(v: JsonValue, s: PresentationSubmission) -> bool {
    match v {
        JsonValue::Object(m) => {
            &&& (text_member(m@, "id"@) matches Some(t) && uuid_value(t) == Some(s.spec_id()))
            &&& text_member(m@, "definition_id"@) == Some(s.spec_definition_id())
            &&& (member(m@, "descriptor_map"@) matches Some(JsonValue::Array(a)) && a@.len()
                == s.spec_descriptor_map().len() && forall|i: int|
                0 <= i < a@.len() ==> descriptor_map_from(
                    #[trigger] a@[i],
                    s.spec_descriptor_map()[i],
                ))
        },
        _ => false,
    }
}

/// `v` is the JSON form of `s`: an object of `id` (a text of the UUID),
/// `definition_id` and `descriptor_map` (the maps' forms), in that order.
pub open spec fn submission_json(v: JsonValue, s: PresentationSubmission) -> bool {
    match v {
        JsonValue::Object(m) => {
            &&& m@.len() == 3
            &&& m@[0].0@ == "id"@ && (m@[0].1 matches JsonValue::String(t) && uuid_value(t@)
                == Some(s.spec_id()))
            &&& m@[1].0@ == "definition_id"@ && (m@[1].1 matches JsonValue::String(t) && t@
                == s.spec_definition_id())
            &&& m@[2].0@ == "descriptor_map"@ && (m@[2].1 matches JsonValue::Array(a) && a@.len()
                == s.spec_descriptor_map().len() && forall|i: int|
                0 <= i < a@.len() ==> descriptor_map_json(
                    #[trigger] a@[i],
                    s.spec_descriptor_map()[i],
                ))
        },
        _ => false,
    }
}

impl PresentationSubmission {
    /// Reads a presentation submission from JSON; other members are ignored.
    pub fn from_json(v: &JsonValue) -> (r: Option<PresentationSubmission>)
        ensures
            r is Some <==> submission_readable(*v),
            r matches Some(s) ==> submission_from(*v, s),
    {
        let m = match v {
            JsonValue::Object(m) => m,
            _ => return None,
        };
        let id = match get_text_member(m, "id") {
            Some(t) => match parse_uuid(t.as_str()) {
                Some(u) => u,
                None => return None,
            },
            None => return None,
        };
        let definition_id = match get_text_member(m, "definition_id") {
            Some(t) => t,
            None => return None,
        };
        let items = match get_member(m, "descriptor_map") {
            Some(JsonValue::Array(a)) => a,
            _ => return None,
        };
        let mut descriptor_map: Vec<DescriptorMap> = Vec::new();
        let mut i: usize = 0;
        while i < items.len()
            invariant
                i <= items@.len(),
                descriptor_map@.len() == i,
                forall|k: int| 0 <= k < i ==> descriptor_map_readable(#[trigger] items@[k]),
                forall|k: int|
                    0 <= k < i ==> descriptor_map_from(#[trigger] items@[k], descriptor_map@[k]),
                *v == JsonValue::Object(*m),
                member(m@, "descriptor_map"@) == Some(JsonValue::Array(*items)),
            decreases items@.len() - i,
        {
            match DescriptorMap::from_json(&items[i]) {
                Some(d) => descriptor_map.push(d),
                None => {
                    assert(!descriptor_map_readable(items@[i as int]));
                    assert(member(m@, "descriptor_map"@) matches Some(JsonValue::Array(a)) && a@ == items@);
                    assert(!submission_readable(*v));
                    return None;
                },
            }
            i = i + 1;
        }
        Some(PresentationSubmission { id, definition_id, descriptor_map })
    }

    /// The JSON form of the presentation submission.
    pub fn to_json(&self) -> (r: JsonValue)
        ensures
            submission_json(r, *self),
    {
        let mut maps: Vec<JsonValue> = Vec::new();
        let mut i: usize = 0;
        while i < self.descriptor_map.len()
            invariant
                i <= self.descriptor_map@.len(),
                maps@.len() == i,
                forall|k: int|
                    0 <= k < i ==> descriptor_map_json(#[trigger] maps@[k], self.descriptor_map@[k]),
            decreases self.descriptor_map@.len() - i,
        {
            maps.push(self.descriptor_map[i].to_json());
            i = i + 1;
        }
        let mut m: JsonObject = Vec::new();
        m.push(("id".to_owned(), JsonValue::String(uuid_text(self.id))));
        m.push(("definition_id".to_owned(), JsonValue::String(self.definition_id.clone())));
        m.push(("descriptor_map".to_owned(), JsonValue::Array(maps)));
        JsonValue::Object(m)
    }
}

/// The fields that every submission requirement may carry.
#[derive(Debug)]
pub struct SubmissionRequirementBaseBase {
    pub name: Option<String>,
    pub purpose: Option<String>,
    pub property_set: Option<JsonObject>,
}

/// The group that a submission requirement draws from: a named group of input
/// descriptors, or a list of nested requirements.
#[derive(Debug)]
pub enum SubmissionRequirementBase {
    From { from: String, submission_requirement_base: SubmissionRequirementBaseBase },
    FromNested {
        from_nested: Vec<SubmissionRequirement>,
        submission_requirement_base: SubmissionRequirementBaseBase,
    },
}

/// A rule over a group: all of it, or a number picked from it.
#[derive(Debug)]
pub enum SubmissionRequirement {
    All(SubmissionRequirementBase),
    Pick(SubmissionRequirementPick),
}

/// A requirement to pick from a group, bounded by `count`, `min` and `max`.
#[derive(Debug)]
pub struct SubmissionRequirementPick {
    pub submission_requirement: SubmissionRequirementBase,
    pub count: Option<u64>,
    pub min: Option<u64>,
    pub max: Option<u64>,
}

impl SubmissionRequirementPick {
    /// Whether `satisfied` members of the group meet the bounds: exactly `count`
    /// when it is given; else at least `min` and at most `max`, where given; at
    /// least one when no bound is given.
    pub open spec fn spec_admits(&self, satisfied: u64) -> bool {
        match self.count {
            Some(c) => satisfied == c,
            None => if self.min is None && self.max is None {
                satisfied >= 1
            } else {
                (self.min matches Some(lo) ==> lo <= satisfied) && (self.max matches Some(hi)
                    ==> satisfied <= hi)
            },
        }
    }

    /// Whether `satisfied` members of the group meet the bounds of the pick.
    pub fn admits(&self, satisfied: u64) -> (r: bool)
        ensures
            r == self.spec_admits(satisfied),
    {
        match self.count {
            Some(c) => satisfied == c,
            None => {
                if self.min.is_none() && self.max.is_none() {
                    return satisfied >= 1;
                }
                let above = match self.min {
                    Some(lo) => lo <= satisfied,
                    None => true,
                };
                let below = match self.max {
                    Some(hi) => satisfied <= hi,
                    None => true,
                };
                above && below
            },
        }
    }
}

} // verus!
