use vstd::prelude::*;

use crate::json::{get_member, member, JsonValue};
use crate::text::text_eq;

verus! {

/// The registered designation of a claim format, or any other name.
#[derive(Clone, Debug, PartialEq, Eq, Hash)]
pub enum ClaimFormatDesignation {
    Jwt,
    JwtVc,
    JwtVp,
    JwtVcJson,
    JwtVpJson,
    Ldp,
    LdpVc,
    LdpVp,
    AcVc,
    AcVp,
    MsoMDoc,
    SdJwtVc,
    /// A designation outside the registry, kept by its name.
    Other(String),
}

/// The registered designation whose wire name is `s`, if there is one.
pub open spec fn registered_designation(s: Seq<char>) -> Option<ClaimFormatDesignation> {
    if s == "jwt"@ {
        Some(ClaimFormatDesignation::Jwt)
    } else if s == "jwt_vc"@ {
        Some(ClaimFormatDesignation::JwtVc)
    } else if s == "jwt_vp"@ {
        Some(ClaimFormatDesignation::JwtVp)
    } else if s == "jwt_vc_json"@ {
        Some(ClaimFormatDesignation::JwtVcJson)
    } else if s == "jwt_vp_json"@ {
        Some(ClaimFormatDesignation::JwtVpJson)
    } else if s == "ldp"@ {
        Some(ClaimFormatDesignation::Ldp)
    } else if s == "ldp_vc"@ {
        Some(ClaimFormatDesignation::LdpVc)
    } else if s == "ldp_vp"@ {
        Some(ClaimFormatDesignation::LdpVp)
    } else if s == "ac_vc"@ {
        Some(ClaimFormatDesignation::AcVc)
    } else if s == "ac_vp"@ {
        Some(ClaimFormatDesignation::AcVp)
    } else if s == "mso_mdoc"@ {
        Some(ClaimFormatDesignation::MsoMDoc)
    } else if s == "sd_jwt_vc"@ {
        Some(ClaimFormatDesignation::SdJwtVc)
    } else {
        None
    }
}

impl ClaimFormatDesignation {
    /// The wire name of the designation.
    pub open spec fn wire(&self) -> Seq<char> {
        match self {
            ClaimFormatDesignation::Jwt => "jwt"@,
            ClaimFormatDesignation::JwtVc => "jwt_vc"@,
            ClaimFormatDesignation::JwtVp => "jwt_vp"@,
            ClaimFormatDesignation::JwtVcJson => "jwt_vc_json"@,
            ClaimFormatDesignation::JwtVpJson => "jwt_vp_json"@,
            ClaimFormatDesignation::Ldp => "ldp"@,
            ClaimFormatDesignation::LdpVc => "ldp_vc"@,
            ClaimFormatDesignation::LdpVp => "ldp_vp"@,
            ClaimFormatDesignation::AcVc => "ac_vc"@,
            ClaimFormatDesignation::AcVp => "ac_vp"@,
            ClaimFormatDesignation::MsoMDoc => "mso_mdoc"@,
            ClaimFormatDesignation::SdJwtVc => "sd_jwt_vc"@,
            ClaimFormatDesignation::Other(s) => s@,
        }
    }

    /// Reads a designation from its wire name; a name outside the registry is
    /// kept verbatim under `Other`.
    pub fn from_wire(s: &str) -> (r: Self)
        ensures
            reads_designation(s@, r),
    {
        if text_eq(s, "jwt") {
            ClaimFormatDesignation::Jwt
        } else if text_eq(s, "jwt_vc") {
            ClaimFormatDesignation::JwtVc
        } else if text_eq(s, "jwt_vp") {
            ClaimFormatDesignation::JwtVp
        } else if text_eq(s, "jwt_vc_json") {
            ClaimFormatDesignation::JwtVcJson
        } else if text_eq(s, "jwt_vp_json") {
            ClaimFormatDesignation::JwtVpJson
        } else if text_eq(s, "ldp") {
            ClaimFormatDesignation::Ldp
        } else if text_eq(s, "ldp_vc") {
            ClaimFormatDesignation::LdpVc
        } else if text_eq(s, "ldp_vp") {
            ClaimFormatDesignation::LdpVp
        } else if text_eq(s, "ac_vc") {
            ClaimFormatDesignation::AcVc
        } else if text_eq(s, "ac_vp") {
            ClaimFormatDesignation::AcVp
        } else if text_eq(s, "mso_mdoc") {
            ClaimFormatDesignation::MsoMDoc
        } else if text_eq(s, "sd_jwt_vc") {
            ClaimFormatDesignation::SdJwtVc
        } else {
            ClaimFormatDesignation::Other(s.to_owned())
        }
    }

    /// The wire name of the designation.
    pub fn wire_name(&self) -> (r: String)
        ensures
            r@ == self.wire(),
    {
        match self {
            ClaimFormatDesignation::Other(s) => s.clone(),
            ClaimFormatDesignation::AcVc => "ac_vc".to_owned(),
            ClaimFormatDesignation::AcVp => "ac_vp".to_owned(),
            ClaimFormatDesignation::Jwt => "jwt".to_owned(),
            ClaimFormatDesignation::JwtVc => "jwt_vc".to_owned(),
            ClaimFormatDesignation::JwtVp => "jwt_vp".to_owned(),
            ClaimFormatDesignation::JwtVcJson => "jwt_vc_json".to_owned(),
            ClaimFormatDesignation::JwtVpJson => "jwt_vp_json".to_owned(),
            ClaimFormatDesignation::Ldp => "ldp".to_owned(),
            ClaimFormatDesignation::LdpVc => "ldp_vc".to_owned(),
            ClaimFormatDesignation::LdpVp => "ldp_vp".to_owned(),
            ClaimFormatDesignation::MsoMDoc => "mso_mdoc".to_owned(),
            ClaimFormatDesignation::SdJwtVc => "sd_jwt_vc".to_owned(),
        }
    }

    /// The wire name of the designation.
    pub fn into_wire(self) -> (r: String)
        ensures
            r@ == self.wire(),
    {
        match self {
            ClaimFormatDesignation::AcVc => "ac_vc".to_owned(),
            ClaimFormatDesignation::AcVp => "ac_vp".to_owned(),
            ClaimFormatDesignation::Jwt => "jwt".to_owned(),
            ClaimFormatDesignation::JwtVc => "jwt_vc".to_owned(),
            ClaimFormatDesignation::JwtVp => "jwt_vp".to_owned(),
            ClaimFormatDesignation::JwtVcJson => "jwt_vc_json".to_owned(),
            ClaimFormatDesignation::JwtVpJson => "jwt_vp_json".to_owned(),
            ClaimFormatDesignation::Ldp => "ldp".to_owned(),
            ClaimFormatDesignation::LdpVc => "ldp_vc".to_owned(),
            ClaimFormatDesignation::LdpVp => "ldp_vp".to_owned(),
            ClaimFormatDesignation::MsoMDoc => "mso_mdoc".to_owned(),
            ClaimFormatDesignation::SdJwtVc => "sd_jwt_vc".to_owned(),
            ClaimFormatDesignation::Other(s) => s,
        }
    }
}

impl From<&str> for ClaimFormatDesignation {
    fn from(s: &str) -> (r: Self)
        ensures
            reads_designation(s@, r),
    {
        Self::from_wire(s)
    }
}

impl vstd::std_specs::convert::FromSpecImpl<&str> for ClaimFormatDesignation {
    open spec fn obeys_from_spec() -> bool {
        false
    }

    open spec fn from_spec(s: &str) -> Self {
        ClaimFormatDesignation::Jwt
    }
}

impl From<ClaimFormatDesignation> for String {
    fn from(d: ClaimFormatDesignation) -> (r: String)
        ensures
            r@ == d.wire(),
    {
        d.into_wire()
    }
}

impl vstd::std_specs::convert::FromSpecImpl<ClaimFormatDesignation> for String {
    open spec fn obeys_from_spec() -> bool {
        false
    }

    open spec fn from_spec(d: ClaimFormatDesignation) -> String {
        arbitrary()
    }
}

/// What a verifier or wallet supports for one claim format, by designation.
#[derive(Debug)]
pub enum ClaimFormat {
    Jwt { alg: Vec<String> },
    JwtVc { alg: Vec<String> },
    JwtVp { alg: Vec<String> },
    JwtVcJson { alg_values_supported: Vec<String> },
    JwtVpJson { alg_values_supported: Vec<String> },
    Ldp { proof_type: Vec<String> },
    LdpVc { proof_type: Vec<String> },
    LdpVp { proof_type: Vec<String> },
    AcVc { proof_type: Vec<String> },
    AcVp { proof_type: Vec<String> },
    MsoMDoc(JsonValue),
    SdJwtVc(JsonValue),
    /// A format outside the registry; its designation is the first key of the value.
    Other(JsonValue),
}

/// The name that an unregistered claim format is designated by: the first key of
/// its value when that value is an object with a member, else `other`.
pub open spec fn other_format_name(v: JsonValue) -> Seq<char> {
    match v {
        JsonValue::Object(m) => if m@.len() > 0 {
            m@[0].0@
        } else {
            "other"@
        },
        _ => "other"@,
    }
}

impl ClaimFormat {
    /// The designation of a registered format.
    pub open spec fn registered(&self) -> ClaimFormatDesignation {
        match self {
            ClaimFormat::Jwt { .. } => ClaimFormatDesignation::Jwt,
            ClaimFormat::JwtVc { .. } => ClaimFormatDesignation::JwtVc,
            ClaimFormat::JwtVp { .. } => ClaimFormatDesignation::JwtVp,
            ClaimFormat::JwtVcJson { .. } => ClaimFormatDesignation::JwtVcJson,
            ClaimFormat::JwtVpJson { .. } => ClaimFormatDesignation::JwtVpJson,
            ClaimFormat::Ldp { .. } => ClaimFormatDesignation::Ldp,
            ClaimFormat::LdpVc { .. } => ClaimFormatDesignation::LdpVc,
            ClaimFormat::LdpVp { .. } => ClaimFormatDesignation::LdpVp,
            ClaimFormat::AcVc { .. } => ClaimFormatDesignation::AcVc,
            ClaimFormat::AcVp { .. } => ClaimFormatDesignation::AcVp,
            ClaimFormat::MsoMDoc(_) => ClaimFormatDesignation::MsoMDoc,
            ClaimFormat::SdJwtVc(_) => ClaimFormatDesignation::SdJwtVc,
            ClaimFormat::Other(_) => ClaimFormatDesignation::Other(arbitrary()),
        }
    }

    /// The designation of the format: the variant's own for a registered one, the
    /// first key of the value for any other.
    pub fn designation(&self) -> (r: ClaimFormatDesignation)
        ensures
            match self {
                ClaimFormat::Other(v) => r matches ClaimFormatDesignation::Other(n) && n@
                    == other_format_name(*v),
                _ => r == self.registered(),
            },
    {
        match self {
            ClaimFormat::Jwt { .. } => ClaimFormatDesignation::Jwt,
            ClaimFormat::JwtVc { .. } => ClaimFormatDesignation::JwtVc,
            ClaimFormat::JwtVcJson { .. } => ClaimFormatDesignation::JwtVcJson,
            ClaimFormat::JwtVp { .. } => ClaimFormatDesignation::JwtVp,
            ClaimFormat::JwtVpJson { .. } => ClaimFormatDesignation::JwtVpJson,
            ClaimFormat::Ldp { .. } => ClaimFormatDesignation::Ldp,
            ClaimFormat::LdpVc { .. } => ClaimFormatDesignation::LdpVc,
            ClaimFormat::LdpVp { .. } => ClaimFormatDesignation::LdpVp,
            ClaimFormat::AcVc { .. } => ClaimFormatDesignation::AcVc,
            ClaimFormat::AcVp { .. } => ClaimFormatDesignation::AcVp,
            ClaimFormat::MsoMDoc(_) => ClaimFormatDesignation::MsoMDoc,
            ClaimFormat::SdJwtVc(_) => ClaimFormatDesignation::SdJwtVc,
            ClaimFormat::Other(value) => {
                let name = match value {
                    JsonValue::Object(m) => if m.len() > 0 {
                        m[0].0.clone()
                    } else {
                        "other".to_owned()
                    },
                    _ => "other".to_owned(),
                };
                ClaimFormatDesignation::Other(name)
            },
        }
    }
}

/// The texts of the member `name` of a JSON object, where that member is an array
/// of strings.
pub open spec fn list_field(v: JsonValue, name: Seq<char>) -> Option<Seq<Seq<char>>> {
    match v {
        JsonValue::Object(m) => match member(m@, name) {
            Some(x) => string_list(x),
            None => None,
        },
        _ => None,
    }
}

/// `f` is the claim format that the JSON `v` reads as, where `v` is an object of
/// the one member `name` with the value `inner` and `name` is the wire name of
/// the registered designation `d`.
pub open spec fn tagged_format_from(
    d: ClaimFormatDesignation,
    inner: JsonValue,
    v: JsonValue,
    f: ClaimFormat,
) -> bool {
    match d {
        ClaimFormatDesignation::Jwt => match list_field(inner, "alg"@) {
            Some(l) => f matches ClaimFormat::Jwt { alg } && texts(alg@) == l,
            None => f == ClaimFormat::Other(v),
        },
        ClaimFormatDesignation::JwtVc => match list_field(inner, "alg"@) {
            Some(l) => f matches ClaimFormat::JwtVc { alg } && texts(alg@) == l,
            None => f == ClaimFormat::Other(v),
        },
        ClaimFormatDesignation::JwtVp => match list_field(inner, "alg"@) {
            Some(l) => f matches ClaimFormat::JwtVp { alg } && texts(alg@) == l,
            None => f == ClaimFormat::Other(v),
        },
        ClaimFormatDesignation::JwtVcJson => match list_field(inner, "alg_values_supported"@) {
            Some(l) => f matches ClaimFormat::JwtVcJson { alg_values_supported } && texts(
                alg_values_supported@,
            ) == l,
            None => f == ClaimFormat::Other(v),
        },
        ClaimFormatDesignation::JwtVpJson => match list_field(inner, "alg_values_supported"@) {
            Some(l) => f matches ClaimFormat::JwtVpJson { alg_values_supported } && texts(
                alg_values_supported@,
            ) == l,
            None => f == ClaimFormat::Other(v),
        },
        ClaimFormatDesignation::Ldp => match list_field(inner, "proof_type"@) {
            Some(l) => f matches ClaimFormat::Ldp { proof_type } && texts(proof_type@) == l,
            None => f == ClaimFormat::Other(v),
        },
        ClaimFormatDesignation::LdpVc => match list_field(inner, "proof_type"@) {
            Some(l) => f matches ClaimFormat::LdpVc { proof_type } && texts(proof_type@) == l,
            None => f == ClaimFormat::Other(v),
        },
        ClaimFormatDesignation::LdpVp => match list_field(inner, "proof_type"@) {
            Some(l) => f matches ClaimFormat::LdpVp { proof_type } && texts(proof_type@) == l,
            None => f == ClaimFormat::Other(v),
        },
        ClaimFormatDesignation::AcVc => match list_field(inner, "proof_type"@) {
            Some(l) => f matches ClaimFormat::AcVc { proof_type } && texts(proof_type@) == l,
            None => f == ClaimFormat::Other(v),
        },
        ClaimFormatDesignation::AcVp => match list_field(inner, "proof_type"@) {
            Some(l) => f matches ClaimFormat::AcVp { proof_type } && texts(proof_type@) == l,
            None => f == ClaimFormat::Other(v),
        },
        ClaimFormatDesignation::MsoMDoc => f == ClaimFormat::MsoMDoc(inner),
        ClaimFormatDesignation::SdJwtVc => f == ClaimFormat::SdJwtVc(inner),
        ClaimFormatDesignation::Other(_) => f == ClaimFormat::Other(v),
    }
}

/// `f` is the claim format that the JSON `v` reads as: an object of one member
/// named after a registered designation, whose value has the list that the
/// designation calls for (any value, for `mso_mdoc` and `sd_jwt_vc`), reads as
/// that format; anything else is kept whole under `Other`.
pub open spec fn claim_format_from(v: JsonValue, f: ClaimFormat) -> bool {
    match v {
        JsonValue::Object(m) => if m@.len() == 1 {
            match registered_designation(m@[0].0@) {
                Some(d) => tagged_format_from(d, m@[0].1, v, f),
                None => f == ClaimFormat::Other(v),
            }
        } else {
            f == ClaimFormat::Other(v)
        },
        _ => f == ClaimFormat::Other(v),
    }
}

/// The texts of the member `name` of a JSON object, where that member is an array
/// of strings.
fn read_list_field(v: &JsonValue, name: &str) -> (r: Option<Vec<String>>)
    ensures
        match r {
            Some(w) => list_field(*v, name@) == Some(texts(w@)),
            None => list_field(*v, name@) is None,
        },
{
    match v {
        JsonValue::Object(m) => match get_member(m, name) {
            Some(JsonValue::Array(a)) => read_string_list(a),
            _ => None,
        },
        _ => None,
    }
}

impl ClaimFormat {
    /// Reads a claim format from JSON, as [`claim_format_from`] describes.
    pub fn from_json(v: JsonValue) -> (r: ClaimFormat)
        ensures
            claim_format_from(v, r),
    {
        let d = match &v {
            JsonValue::Object(m) => if m.len() == 1 {
                ClaimFormatDesignation::from_wire(m[0].0.as_str())
            } else {
                return ClaimFormat::Other(v);
            },
            _ => return ClaimFormat::Other(v),
        };
        let list = match &v {
            JsonValue::Object(m) => match &d {
                ClaimFormatDesignation::Jwt
                | ClaimFormatDesignation::JwtVc
                | ClaimFormatDesignation::JwtVp => read_list_field(&m[0].1, "alg"),
                ClaimFormatDesignation::JwtVcJson
                | ClaimFormatDesignation::JwtVpJson => read_list_field(&m[0].1, "alg_values_supported"),
                ClaimFormatDesignation::Ldp
                | ClaimFormatDesignation::LdpVc
                | ClaimFormatDesignation::LdpVp
                | ClaimFormatDesignation::AcVc
                | ClaimFormatDesignation::AcVp => read_list_field(&m[0].1, "proof_type"),
                _ => None,
            },
            _ => None,
        };
        match (d, list) {
            (ClaimFormatDesignation::Jwt, Some(alg)) => ClaimFormat::Jwt { alg },
            (ClaimFormatDesignation::JwtVc, Some(alg)) => ClaimFormat::JwtVc { alg },
            (ClaimFormatDesignation::JwtVp, Some(alg)) => ClaimFormat::JwtVp { alg },
            (ClaimFormatDesignation::JwtVcJson, Some(l)) => ClaimFormat::JwtVcJson {
                alg_values_supported: l,
            },
            (ClaimFormatDesignation::JwtVpJson, Some(l)) => ClaimFormat::JwtVpJson {
                alg_values_supported: l,
            },
            (ClaimFormatDesignation::Ldp, Some(l)) => ClaimFormat::Ldp { proof_type: l },
            (ClaimFormatDesignation::LdpVc, Some(l)) => ClaimFormat::LdpVc { proof_type: l },
            (ClaimFormatDesignation::LdpVp, Some(l)) => ClaimFormat::LdpVp { proof_type: l },
            (ClaimFormatDesignation::AcVc, Some(l)) => ClaimFormat::AcVc { proof_type: l },
            (ClaimFormatDesignation::AcVp, Some(l)) => ClaimFormat::AcVp { proof_type: l },
            (ClaimFormatDesignation::MsoMDoc, _) => match v {
                JsonValue::Object(mut m) => {
                    let (_, inner) = m.pop().unwrap();
                    ClaimFormat::MsoMDoc(inner)
                },
                other => ClaimFormat::Other(other),
            },
            (ClaimFormatDesignation::SdJwtVc, _) => match v {
                JsonValue::Object(mut m) => {
                    let (_, inner) = m.pop().unwrap();
                    ClaimFormat::SdJwtVc(inner)
                },
                other => ClaimFormat::Other(other),
            },
            _ => ClaimFormat::Other(v),
        }
    }
}

/// The payload of a claim format: a list of algorithms, of supported algorithm
/// values or of proof types, or any other JSON value.
#[derive(Debug)]
pub enum ClaimFormatPayload {
    Alg(Vec<String>),
    AlgValuesSupported(Vec<String>),
    ProofType(Vec<String>),
    Json(JsonValue),
}

impl ClaimFormatPayload {
    /// Appends `alg` to a list of algorithms; any other payload is left as it is.
    pub fn add_alg(&mut self, alg: String)
        ensures
            match *old(self) {
                ClaimFormatPayload::Alg(v) => *final(self) matches ClaimFormatPayload::Alg(w)
                    && w@ == v@.push(alg),
                ClaimFormatPayload::AlgValuesSupported(v) => *final(self) matches ClaimFormatPayload::AlgValuesSupported(w)
                    && w@ == v@.push(alg),
                _ => *final(self) == *old(self),
            },
    {
        match self {
            ClaimFormatPayload::Alg(algs) => algs.push(alg),
            ClaimFormatPayload::AlgValuesSupported(algs) => algs.push(alg),
            _ => {},
        }
    }

    /// Appends `proof_type` to a list of proof types; any other payload is left
    /// as it is.
    pub fn add_proof_type(&mut self, proof_type: String)
        ensures
            match *old(self) {
                ClaimFormatPayload::ProofType(v) => *final(self) matches ClaimFormatPayload::ProofType(w)
                    && w@ == v@.push(proof_type),
                _ => *final(self) == *old(self),
            },
    {
        match self {
            ClaimFormatPayload::ProofType(proof_types) => proof_types.push(proof_type),
            _ => {},
        }
    }
}

/// `d` is the designation that the wire name `f` reads as.
pub open spec fn reads_designation(f: Seq<char>, d: ClaimFormatDesignation) -> bool {
    match registered_designation(f) {
        Some(x) => d == x,
        None => d matches ClaimFormatDesignation::Other(n) && n@ == f,
    }
}

/// Two designations are the same: the same registered one, or both other with
/// the same name.
pub open spec fn same_designation(a: ClaimFormatDesignation, b: ClaimFormatDesignation) -> bool {
    match (a, b) {
        (ClaimFormatDesignation::Other(x), ClaimFormatDesignation::Other(y)) => x@ == y@,
        _ => a == b,
    }
}

impl ClaimFormatDesignation {
    /// Whether two designations are the same.
    pub fn same_as(&self, other: &ClaimFormatDesignation) -> (r: bool)
        ensures
            r == same_designation(*self, *other),
    {
        match (self, other) {
            (ClaimFormatDesignation::Other(x), ClaimFormatDesignation::Other(y)) => text_eq(
                x.as_str(),
                y.as_str(),
            ),
            (ClaimFormatDesignation::Other(_), _) => false,
            (_, ClaimFormatDesignation::Other(_)) => false,
            _ => self.registered_index() == other.registered_index(),
        }
    }

    /// The position of a registered designation in the registry.
    pub open spec fn spec_registered_index(&self) -> u8 {
        match self {
            ClaimFormatDesignation::Jwt => 0,
            ClaimFormatDesignation::JwtVc => 1,
            ClaimFormatDesignation::JwtVp => 2,
            ClaimFormatDesignation::JwtVcJson => 3,
            ClaimFormatDesignation::JwtVpJson => 4,
            ClaimFormatDesignation::Ldp => 5,
            ClaimFormatDesignation::LdpVc => 6,
            ClaimFormatDesignation::LdpVp => 7,
            ClaimFormatDesignation::AcVc => 8,
            ClaimFormatDesignation::AcVp => 9,
            ClaimFormatDesignation::MsoMDoc => 10,
            ClaimFormatDesignation::SdJwtVc => 11,
            ClaimFormatDesignation::Other(_) => 12,
        }
    }

    fn registered_index(&self) -> (r: u8)
        ensures
            r == self.spec_registered_index(),
    {
        match self {
            ClaimFormatDesignation::Jwt => 0,
            ClaimFormatDesignation::JwtVc => 1,
            ClaimFormatDesignation::JwtVp => 2,
            ClaimFormatDesignation::JwtVcJson => 3,
            ClaimFormatDesignation::JwtVpJson => 4,
            ClaimFormatDesignation::Ldp => 5,
            ClaimFormatDesignation::LdpVc => 6,
            ClaimFormatDesignation::LdpVp => 7,
            ClaimFormatDesignation::AcVc => 8,
            ClaimFormatDesignation::AcVp => 9,
            ClaimFormatDesignation::MsoMDoc => 10,
            ClaimFormatDesignation::SdJwtVc => 11,
            ClaimFormatDesignation::Other(_) => 12,
        }
    }
}

/// The texts of a JSON array whose members are all strings.
pub open spec fn string_list(v: JsonValue) -> Option<Seq<Seq<char>>> {
    match v {
        JsonValue::Array(a) => if forall|i: int| 0 <= i < a@.len() ==> (#[trigger] a@[i]) is String {
            Some(a@.map_values(|x: JsonValue| x->String_0@))
        } else {
            None
        },
        _ => None,
    }
}

/// The view of a list of strings.
pub open spec fn texts(v: Seq<String>) -> Seq<Seq<char>> {
    v.map_values(|s: String| s@)
}

/// `p` is the payload that the JSON `v` reads as: an object whose one member is
/// `alg`, `alg_values_supported` or `proof_type` with an array of strings reads as
/// that list; any other value is kept as JSON.
pub open spec fn payload_from(v: JsonValue, p: ClaimFormatPayload) -> bool {
    let tagged = match v {
        JsonValue::Object(m) => if m@.len() == 1 && string_list(m@[0].1) is Some {
            if m@[0].0@ == "alg"@ {
                Some((0u8, string_list(m@[0].1)->0))
            } else if m@[0].0@ == "alg_values_supported"@ {
                Some((1u8, string_list(m@[0].1)->0))
            } else if m@[0].0@ == "proof_type"@ {
                Some((2u8, string_list(m@[0].1)->0))
            } else {
                None
            }
        } else {
            None
        },
        _ => None,
    };
    match tagged {
        Some((0, l)) => p matches ClaimFormatPayload::Alg(w) && texts(w@) == l,
        Some((1, l)) => p matches ClaimFormatPayload::AlgValuesSupported(w) && texts(w@) == l,
        Some((_, l)) => p matches ClaimFormatPayload::ProofType(w) && texts(w@) == l,
        None => p == ClaimFormatPayload::Json(v),
    }
}

/// The texts of an array of strings, or `None` where it is not one.
fn read_string_list(a: &Vec<JsonValue>) -> (r: Option<Vec<String>>)
    ensures
        match r {
            Some(w) => string_list(JsonValue::Array(*a)) == Some(texts(w@)),
            None => string_list(JsonValue::Array(*a)) is None,
        },
{
    let mut out: Vec<String> = Vec::new();
    let mut i: usize = 0;
    while i < a.len()
        invariant
            i <= a@.len(),
            out@.len() == i,
            forall|k: int| 0 <= k < i ==> (#[trigger] a@[k]) is String && a@[k]->String_0@ == out@[k]@,
        decreases a@.len() - i,
    {
        match &a[i] {
            JsonValue::String(s) => out.push(s.clone()),
            _ => return None,
        }
        i = i + 1;
    }
    assert(texts(out@) =~= a@.map_values(|x: JsonValue| x->String_0@));
    Some(out)
}

impl ClaimFormatPayload {
    /// Reads a payload from JSON.
    pub fn from_json(v: JsonValue) -> (r: ClaimFormatPayload)
        ensures
            payload_from(v, r),
    {
        proof {
            reveal_strlit("alg");
            reveal_strlit("alg_values_supported");
            reveal_strlit("proof_type");
            assert("alg"@.len() != "alg_values_supported"@.len());
            assert("alg"@.len() != "proof_type"@.len());
            assert("alg_values_supported"@.len() != "proof_type"@.len());
        }
        let list = match &v {
            JsonValue::Object(m) => if m.len() == 1 {
                match &m[0].1 {
                    JsonValue::Array(a) => read_string_list(a),
                    _ => None,
                }
            } else {
                None
            },
            _ => None,
        };
        match list {
            Some(l) => {
                let tag = match &v {
                    JsonValue::Object(m) => if text_eq(m[0].0.as_str(), "alg") {
                        0u8
                    } else if text_eq(m[0].0.as_str(), "alg_values_supported") {
                        1u8
                    } else if text_eq(m[0].0.as_str(), "proof_type") {
                        2u8
                    } else {
                        3u8
                    },
                    _ => 3u8,
                };
                if tag == 0 {
                    ClaimFormatPayload::Alg(l)
                } else if tag == 1 {
                    ClaimFormatPayload::AlgValuesSupported(l)
                } else if tag == 2 {
                    ClaimFormatPayload::ProofType(l)
                } else {
                    ClaimFormatPayload::Json(v)
                }
            },
            None => ClaimFormatPayload::Json(v),
        }
    }
}

/// The JSON array of the given strings.
fn strings_to_json(v: Vec<String>) -> (r: JsonValue)
    ensures
        string_list(r) == Some(texts(v@)),
{
    let ghost orig = v@;
    let n = v.len();
    let mut rest = crate::response_parameters::reversed(v);
    let mut out: Vec<JsonValue> = Vec::new();
    let mut i: usize = 0;
    while i < n
        invariant
            orig.len() == n,
            i <= n,
            rest@.len() == n - i,
            forall|k: int| 0 <= k < n - i ==> rest@[k] == orig[n - 1 - k],
            out@.len() == i,
            forall|k: int| 0 <= k < i ==> (#[trigger] out@[k]) == JsonValue::String(orig[k]),
        decreases n - i,
    {
        let t = rest.pop().unwrap();
        out.push(JsonValue::String(t));
        i = i + 1;
    }
    assert(out@.map_values(|x: JsonValue| x->String_0@) =~= texts(orig));
    JsonValue::Array(out)
}

/// The JSON object of one member.
fn single_member(name: &str, value: JsonValue) -> (r: JsonValue)
    ensures
        r matches JsonValue::Object(m) && m@.len() == 1 && m@[0].0@ == name@ && m@[0].1 == value,
{
    let mut m: Vec<(String, JsonValue)> = Vec::new();
    m.push((name.to_owned(), value));
    JsonValue::Object(m)
}

/// The value of `j` where `j` is an object of the one member `name`.
pub open spec fn one_member(j: JsonValue, name: Seq<char>) -> Option<JsonValue> {
    match j {
        JsonValue::Object(m) => if m@.len() == 1 && m@[0].0@ == name {
            Some(m@[0].1)
        } else {
            None
        },
        _ => None,
    }
}

/// `j` is the JSON form of the payload `p`: a list as an object of its one
/// member (`alg`, `alg_values_supported` or `proof_type`) holding the strings;
/// any other value as itself.
pub open spec fn payload_json(p: ClaimFormatPayload, j: JsonValue) -> bool {
    match p {
        ClaimFormatPayload::Alg(w) => one_member(j, "alg"@) matches Some(x) && string_list(x)
            == Some(texts(w@)),
        ClaimFormatPayload::AlgValuesSupported(w) => one_member(j, "alg_values_supported"@) matches Some(
            x,
        ) && string_list(x) == Some(texts(w@)),
        ClaimFormatPayload::ProofType(w) => one_member(j, "proof_type"@) matches Some(x)
            && string_list(x) == Some(texts(w@)),
        ClaimFormatPayload::Json(v) => j == v,
    }
}

impl ClaimFormatPayload {
    /// The JSON form of the payload.
    pub fn into_json(self) -> (r: JsonValue)
        ensures
            payload_json(self, r),
    {
        match self {
            ClaimFormatPayload::Alg(w) => single_member("alg", strings_to_json(w)),
            ClaimFormatPayload::AlgValuesSupported(w) => single_member(
                "alg_values_supported",
                strings_to_json(w),
            ),
            ClaimFormatPayload::ProofType(w) => single_member("proof_type", strings_to_json(w)),
            ClaimFormatPayload::Json(v) => v,
        }
    }
}

/// `j` is the JSON form of the claim format `f`: an object of one member named
/// after the designation, holding an object of the designation's list (or the
/// value itself, for `mso_mdoc` and `sd_jwt_vc`); an unregistered format as its
/// value.
pub open spec fn claim_format_json(f: ClaimFormat, j: JsonValue) -> bool {
    match f {
        ClaimFormat::MsoMDoc(v) => one_member(j, "mso_mdoc"@) == Some(v),
        ClaimFormat::SdJwtVc(v) => one_member(j, "sd_jwt_vc"@) == Some(v),
        ClaimFormat::Other(v) => j == v,
        ClaimFormat::Jwt { alg } | ClaimFormat::JwtVc { alg } | ClaimFormat::JwtVp { alg } => one_member(
            j,
            f.registered().wire(),
        ) matches Some(x) && one_member(x, "alg"@) matches Some(l) && string_list(l) == Some(
            texts(alg@),
        ),
        ClaimFormat::JwtVcJson { alg_values_supported }
        | ClaimFormat::JwtVpJson { alg_values_supported } => one_member(j, f.registered().wire())
            matches Some(x) && one_member(x, "alg_values_supported"@) matches Some(l) && string_list(l)
            == Some(texts(alg_values_supported@)),
        ClaimFormat::Ldp { proof_type }
        | ClaimFormat::LdpVc { proof_type }
        | ClaimFormat::LdpVp { proof_type }
        | ClaimFormat::AcVc { proof_type }
        | ClaimFormat::AcVp { proof_type } => one_member(j, f.registered().wire()) matches Some(x)
            && one_member(x, "proof_type"@) matches Some(l) && string_list(l) == Some(
            texts(proof_type@),
        ),
    }
}

impl ClaimFormat {
    /// The JSON form of the claim format.
    pub fn into_json(self) -> (r: JsonValue)
        ensures
            claim_format_json(self, r),
    {
        match self {
            ClaimFormat::Jwt { alg } => single_member("jwt", single_member("alg", strings_to_json(alg))),
            ClaimFormat::JwtVc { alg } => single_member(
                "jwt_vc",
                single_member("alg", strings_to_json(alg)),
            ),
            ClaimFormat::JwtVp { alg } => single_member(
                "jwt_vp",
                single_member("alg", strings_to_json(alg)),
            ),
            ClaimFormat::JwtVcJson { alg_values_supported } => single_member(
                "jwt_vc_json",
                single_member("alg_values_supported", strings_to_json(alg_values_supported)),
            ),
            ClaimFormat::JwtVpJson { alg_values_supported } => single_member(
                "jwt_vp_json",
                single_member("alg_values_supported", strings_to_json(alg_values_supported)),
            ),
            ClaimFormat::Ldp { proof_type } => single_member(
                "ldp",
                single_member("proof_type", strings_to_json(proof_type)),
            ),
            ClaimFormat::LdpVc { proof_type } => single_member(
                "ldp_vc",
                single_member("proof_type", strings_to_json(proof_type)),
            ),
            ClaimFormat::LdpVp { proof_type } => single_member(
                "ldp_vp",
                single_member("proof_type", strings_to_json(proof_type)),
            ),
            ClaimFormat::AcVc { proof_type } => single_member(
                "ac_vc",
                single_member("proof_type", strings_to_json(proof_type)),
            ),
            ClaimFormat::AcVp { proof_type } => single_member(
                "ac_vp",
                single_member("proof_type", strings_to_json(proof_type)),
            ),
            ClaimFormat::MsoMDoc(v) => single_member("mso_mdoc", v),
            ClaimFormat::SdJwtVc(v) => single_member("sd_jwt_vc", v),
            ClaimFormat::Other(v) => v,
        }
    }
}

/// Claim formats by designation, each designation at most once.
#[derive(Debug)]
pub struct ClaimFormatMap {
    entries: Vec<(ClaimFormatDesignation, ClaimFormatPayload)>,
}

impl ClaimFormatMap {
    pub closed spec fn spec_entries(&self) -> Seq<(ClaimFormatDesignation, ClaimFormatPayload)> {
        self.entries@
    }

    /// No designation appears twice.
    pub open spec fn wf(&self) -> bool {
        forall|i: int, j: int|
            0 <= i < j < self.spec_entries().len() ==> !same_designation(
                #[trigger] self.spec_entries()[i].0,
                #[trigger] self.spec_entries()[j].0,
            )
    }

    /// Whether the map holds an entry for `d`.
    pub open spec fn spec_has(&self, d: ClaimFormatDesignation) -> bool {
        exists|i: int|
            0 <= i < self.spec_entries().len() && same_designation(
                #[trigger] self.spec_entries()[i].0,
                d,
            )
    }

    /// The empty map.
    pub fn new() -> (r: Self)
        ensures
            r.spec_entries().len() == 0,
            r.wf(),
    {
        ClaimFormatMap { entries: Vec::new() }
    }

    /// The number of entries.
    pub fn len(&self) -> (r: usize)
        ensures
            r == self.spec_entries().len(),
    {
        self.entries.len()
    }

    fn position(&self, d: &ClaimFormatDesignation) -> (r: Option<usize>)
        ensures
            match r {
                Some(i) => i < self.spec_entries().len() && same_designation(
                    self.spec_entries()[i as int].0,
                    *d,
                ),
                None => !self.spec_has(*d),
            },
    {
        let mut i: usize = 0;
        while i < self.entries.len()
            invariant
                i <= self.entries@.len(),
                forall|k: int| 0 <= k < i ==> !same_designation(#[trigger] self.entries@[k].0, *d),
            decreases self.entries@.len() - i,
        {
            if self.entries[i].0.same_as(d) {
                return Some(i);
            }
            i = i + 1;
        }
        None
    }

    /// Whether the map holds an entry for `d`.
    pub fn contains_key(&self, d: &ClaimFormatDesignation) -> (r: bool)
        ensures
            r == self.spec_has(*d),
    {
        self.position(d).is_some()
    }

    /// The payload of the entry for `d`.
    pub fn get(&self, d: &ClaimFormatDesignation) -> (r: Option<&ClaimFormatPayload>)
        ensures
            r is None <==> !self.spec_has(*d),
            r matches Some(p) ==> exists|i: int|
                0 <= i < self.spec_entries().len() && same_designation(
                    self.spec_entries()[i].0,
                    *d,
                ) && self.spec_entries()[i].1 == *p,
    {
        match self.position(d) {
            Some(i) => Some(&self.entries[i].1),
            None => None,
        }
    }

    /// The JSON form of the map: an object with a member per entry, in order,
    /// named by the designation's wire name and holding the payload's form.
    pub fn into_json(self) -> (r: JsonValue)
        ensures
            r matches JsonValue::Object(m) && m@.len() == self.spec_entries().len() && forall|i: int|
                0 <= i < m@.len() ==> (#[trigger] m@[i]).0@ == self.spec_entries()[i].0.wire()
                    && payload_json(self.spec_entries()[i].1, m@[i].1),
    {
        let ghost orig = self.entries@;
        let n = self.entries.len();
        let mut rest = crate::response_parameters::reversed(self.entries);
        let mut out: Vec<(String, JsonValue)> = Vec::new();
        let mut i: usize = 0;
        while i < n
            invariant
                orig.len() == n,
                i <= n,
                rest@.len() == n - i,
                forall|k: int| 0 <= k < n - i ==> rest@[k] == orig[n - 1 - k],
                out@.len() == i,
                forall|k: int|
                    0 <= k < i ==> (#[trigger] out@[k]).0@ == orig[k].0.wire() && payload_json(
                        orig[k].1,
                        out@[k].1,
                    ),
            decreases n - i,
        {
            let (d, p) = rest.pop().unwrap();
            let name = d.into_wire();
            out.push((name, p.into_json()));
            i = i + 1;
        }
        JsonValue::Object(out)
    }

    /// Sets the payload for `d`, in place of the one it had, if any.
    pub fn insert(&mut self, d: ClaimFormatDesignation, p: ClaimFormatPayload)
        requires
            old(self).wf(),
        ensures
            final(self).wf(),
            exists|i: int|
                0 <= i < final(self).spec_entries().len() && final(self).spec_entries()[i] == (d, p),
            forall|x: ClaimFormatDesignation|
                #[trigger] final(self).spec_has(x) <==> (old(self).spec_has(x) || same_designation(x, d)),
            forall|i: int|
                0 <= i < old(self).spec_entries().len() && !same_designation(
                    #[trigger] old(self).spec_entries()[i].0,
                    d,
                ) ==> final(self).spec_entries().contains(old(self).spec_entries()[i]),
            forall|i: int|
                0 <= i < final(self).spec_entries().len() ==> #[trigger] final(self).spec_entries()[i]
                    == (d, p) || old(self).spec_entries().contains(final(self).spec_entries()[i]),
    {
        match self.position(&d) {
            Some(i) => {
                self.entries.set(i, (d, p));
                assert(self.spec_entries()[i as int] == (d, p));
                assert forall|x: ClaimFormatDesignation|
                    #[trigger] self.spec_has(x) <==> (old(self).spec_has(x) || same_designation(x, d)) by {
                    if old(self).spec_has(x) {
                        let k = choose|k: int|
                            0 <= k < old(self).spec_entries().len() && same_designation(
                                #[trigger] old(self).spec_entries()[k].0,
                                x,
                            );
                        if k != i {
                            assert(self.spec_entries()[k] == old(self).spec_entries()[k]);
                        }
                    }
                    if self.spec_has(x) {
                        let k = choose|k: int|
                            0 <= k < self.spec_entries().len() && same_designation(
                                #[trigger] self.spec_entries()[k].0,
                                x,
                            );
                        if k != i {
                            assert(self.spec_entries()[k] == old(self).spec_entries()[k]);
                        }
                    }
                }
                assert forall|a: int| 0 <= a < old(self).spec_entries().len() && !same_designation(
                    #[trigger] old(self).spec_entries()[a].0,
                    d,
                ) implies self.spec_entries().contains(old(self).spec_entries()[a]) by {
                    assert(a != i);
                    assert(self.spec_entries()[a] == old(self).spec_entries()[a]);
                }
                assert forall|a: int| 0 <= a < self.spec_entries().len() implies #[trigger] self.spec_entries()[a]
                    == (d, p) || old(self).spec_entries().contains(self.spec_entries()[a]) by {
                    if a != i {
                        assert(self.spec_entries()[a] == old(self).spec_entries()[a]);
                    }
                }
            },
            None => {
                self.entries.push((d, p));
                let n = self.entries.len() - 1;
                assert(self.spec_entries()[n as int] == (d, p));
                assert forall|x: ClaimFormatDesignation|
                    #[trigger] self.spec_has(x) <==> (old(self).spec_has(x) || same_designation(x, d)) by {
                    if old(self).spec_has(x) {
                        let k = choose|k: int|
                            0 <= k < old(self).spec_entries().len() && same_designation(
                                #[trigger] old(self).spec_entries()[k].0,
                                x,
                            );
                        assert(self.spec_entries()[k] == old(self).spec_entries()[k]);
                    }
                    if same_designation(x, d) {
                        assert(same_designation(self.spec_entries()[n as int].0, x));
                    }
                }
                assert forall|a: int| 0 <= a < old(self).spec_entries().len() && !same_designation(
                    #[trigger] old(self).spec_entries()[a].0,
                    d,
                ) implies self.spec_entries().contains(old(self).spec_entries()[a]) by {
                    assert(self.spec_entries()[a] == old(self).spec_entries()[a]);
                }
                assert forall|a: int| 0 <= a < self.spec_entries().len() implies #[trigger] self.spec_entries()[a]
                    == (d, p) || old(self).spec_entries().contains(self.spec_entries()[a]) by {
                    if a != n {
                        assert(self.spec_entries()[a] == old(self).spec_entries()[a]);
                    }
                }
            },
        }
    }

    /// Every one of the first `n` members names a designation that the map holds.
    #[verifier::opaque]
    pub open spec fn covers(&self, members: Seq<(String, JsonValue)>, n: int) -> bool {
        forall|k: int|
            0 <= k < n ==> exists|j: int|
                0 <= j < self.spec_entries().len() && reads_designation(
                    (#[trigger] members[k]).0@,
                    self.spec_entries()[j].0,
                )
    }

    /// Every entry of the map is read from one of the first `n` members, the last
    /// of them with its name.
    #[verifier::opaque]
    pub open spec fn read_from(&self, members: Seq<(String, JsonValue)>, n: int) -> bool {
        forall|j: int|
            0 <= j < self.spec_entries().len() ==> exists|k: int|
                0 <= k < n && reads_designation(
                    members[k].0@,
                    (#[trigger] self.spec_entries()[j]).0,
                ) && payload_from(members[k].1, self.spec_entries()[j].1) && forall|k2: int|
                    k < k2 < n ==> members[k2].0@ != members[k].0@
    }

    /// Reads a map from a JSON object: each member's name reads as a designation
    /// and its value as that designation's payload; of two members with the same
    /// name the later one stands.
    pub fn from_json(v: JsonValue) -> (r: Result<ClaimFormatMap, crate::response_parameters::ParameterError>)
        ensures
            r is Ok <==> v is Object,
            r matches Ok(map) ==> {
                &&& map.wf()
                &&& map.covers(v->Object_0@, v->Object_0@.len() as int)
                &&& map.read_from(v->Object_0@, v->Object_0@.len() as int)
            },
    {
        let ghost entry = v;
        let members = match v {
            JsonValue::Object(m) => m,
            _ => return Err(crate::response_parameters::ParameterError::ExpectedObject),
        };
        let ghost orig = members@;
        let n = members.len();
        let mut rest = crate::response_parameters::reversed(members);
        let mut map = ClaimFormatMap::new();
        proof {
            reveal(ClaimFormatMap::covers);
            reveal(ClaimFormatMap::read_from);
        }
        let mut i: usize = 0;
        while i < n
            invariant
                orig.len() == n,
                entry is Object && entry->Object_0@ == orig,
                i <= n,
                rest@.len() == n - i,
                forall|k: int| 0 <= k < n - i ==> rest@[k] == orig[n - 1 - k],
                map.wf(),
                map.covers(orig, i as int),
                map.read_from(orig, i as int),
            decreases n - i,
        {
            let (name, value) = rest.pop().unwrap();
            assert((name, value) == orig[i as int]);
            let d = ClaimFormatDesignation::from_wire(name.as_str());
            let p = ClaimFormatPayload::from_json(value);
            let ghost before = map;
            map.insert(d, p);
            proof {
                lemma_insert_step(orig, i as int, before, map, d, p);
            }
            i = i + 1;
        }
        Ok(map)
    }
}

/// Inserting the designation and payload read from member `i` extends what the
/// map covers and keeps every entry read from the last member of its name.
proof fn lemma_insert_step(
    orig: Seq<(String, JsonValue)>,
    i: int,
    before: ClaimFormatMap,
    after: ClaimFormatMap,
    d: ClaimFormatDesignation,
    p: ClaimFormatPayload,
)
    requires
        0 <= i < orig.len(),
        reads_designation(orig[i].0@, d),
        payload_from(orig[i].1, p),
        exists|j: int| 0 <= j < after.spec_entries().len() && after.spec_entries()[j] == (d, p),
        forall|j: int|
            0 <= j < before.spec_entries().len() && !same_designation(
                #[trigger] before.spec_entries()[j].0,
                d,
            ) ==> after.spec_entries().contains(before.spec_entries()[j]),
        forall|j: int|
            0 <= j < after.spec_entries().len() ==> #[trigger] after.spec_entries()[j] == (d, p)
                || before.spec_entries().contains(after.spec_entries()[j]),
        after.wf(),
        before.covers(orig, i),
        before.read_from(orig, i),
    ensures
        after.covers(orig, i + 1),
        after.read_from(orig, i + 1),
{
    lemma_insert_covers(orig, i, before, after, d, p);
    lemma_insert_read_from(orig, i, before, after, d, p);
}

proof fn lemma_insert_covers(
    orig: Seq<(String, JsonValue)>,
    i: int,
    before: ClaimFormatMap,
    after: ClaimFormatMap,
    d: ClaimFormatDesignation,
    p: ClaimFormatPayload,
)
    requires
        0 <= i < orig.len(),
        reads_designation(orig[i].0@, d),
        payload_from(orig[i].1, p),
        exists|j: int| 0 <= j < after.spec_entries().len() && after.spec_entries()[j] == (d, p),
        forall|j: int|
            0 <= j < before.spec_entries().len() && !same_designation(
                #[trigger] before.spec_entries()[j].0,
                d,
            ) ==> after.spec_entries().contains(before.spec_entries()[j]),
        forall|j: int|
            0 <= j < after.spec_entries().len() ==> #[trigger] after.spec_entries()[j] == (d, p)
                || before.spec_entries().contains(after.spec_entries()[j]),
        after.wf(),
        before.covers(orig, i),
    ensures
        after.covers(orig, i + 1),
{
    reveal(ClaimFormatMap::covers);
    let jn = choose|j: int| 0 <= j < after.spec_entries().len() && after.spec_entries()[j] == (d, p);
    assert forall|k: int| 0 <= k < i + 1 implies exists|j: int|
        0 <= j < after.spec_entries().len() && reads_designation(
            (#[trigger] orig[k]).0@,
            after.spec_entries()[j].0,
        ) by {
        if k == i {
            assert(reads_designation(orig[k].0@, after.spec_entries()[jn].0));
        } else {
            let j = choose|j: int|
                0 <= j < before.spec_entries().len() && reads_designation(
                    orig[k].0@,
                    before.spec_entries()[j].0,
                );
            let e = before.spec_entries()[j];
            if same_designation(e.0, d) {
                lemma_reads_same(orig[k].0@, e.0, d);
                assert(reads_designation(orig[k].0@, after.spec_entries()[jn].0));
            } else {
                assert(after.spec_entries().contains(e));
                let j2 = choose|j2: int|
                    0 <= j2 < after.spec_entries().len() && after.spec_entries()[j2] == e;
                assert(reads_designation(orig[k].0@, after.spec_entries()[j2].0));
            }
        }
    }
}

/// Of two entries of a well-formed map, one that is the same as the other's
/// designation is that entry.
proof fn lemma_same_entry(m: ClaimFormatMap, j: int, jn: int)
    requires
        m.wf(),
        0 <= j < m.spec_entries().len(),
        0 <= jn < m.spec_entries().len(),
        same_designation(m.spec_entries()[j].0, m.spec_entries()[jn].0),
        same_designation(m.spec_entries()[jn].0, m.spec_entries()[j].0),
    ensures
        j == jn,
{
    if j < jn {
        assert(!same_designation(m.spec_entries()[j].0, m.spec_entries()[jn].0));
    } else if jn < j {
        assert(!same_designation(m.spec_entries()[jn].0, m.spec_entries()[j].0));
    }
}

proof fn lemma_insert_read_from(
    orig: Seq<(String, JsonValue)>,
    i: int,
    before: ClaimFormatMap,
    after: ClaimFormatMap,
    d: ClaimFormatDesignation,
    p: ClaimFormatPayload,
)
    requires
        0 <= i < orig.len(),
        reads_designation(orig[i].0@, d),
        payload_from(orig[i].1, p),
        exists|j: int| 0 <= j < after.spec_entries().len() && after.spec_entries()[j] == (d, p),
        forall|j: int|
            0 <= j < before.spec_entries().len() && !same_designation(
                #[trigger] before.spec_entries()[j].0,
                d,
            ) ==> after.spec_entries().contains(before.spec_entries()[j]),
        forall|j: int|
            0 <= j < after.spec_entries().len() ==> #[trigger] after.spec_entries()[j] == (d, p)
                || before.spec_entries().contains(after.spec_entries()[j]),
        after.wf(),
        before.read_from(orig, i),
    ensures
        after.read_from(orig, i + 1),
{
    reveal(ClaimFormatMap::read_from);
    let jn = choose|j: int| 0 <= j < after.spec_entries().len() && after.spec_entries()[j] == (d, p);
    assert forall|j: int| 0 <= j < after.spec_entries().len() implies exists|k: int|
        0 <= k < i + 1 && reads_designation(
            orig[k].0@,
            (#[trigger] after.spec_entries()[j]).0,
        ) && payload_from(orig[k].1, after.spec_entries()[j].1) && forall|k2: int|
            k < k2 < i + 1 ==> orig[k2].0@ != orig[k].0@ by {
        let e = after.spec_entries()[j];
        if e == (d, p) {
            assert(reads_designation(orig[i].0@, e.0));
        } else {
            assert(before.spec_entries().contains(e));
            let jb = choose|jb: int|
                0 <= jb < before.spec_entries().len() && before.spec_entries()[jb] == e;
            assert(before.spec_entries()[jb] == e);
            let k = choose|k: int|
                0 <= k < i && reads_designation(orig[k].0@, e.0) && payload_from(orig[k].1, e.1)
                    && forall|k2: int| k < k2 < i ==> orig[k2].0@ != orig[k].0@;
            if orig[i].0@ == orig[k].0@ {
                lemma_reads_functional(orig[i].0@, e.0, d);
                lemma_same_entry(after, j, jn);
            }
        }
    }
}

/// A wire name reads as one designation, up to sameness.
proof fn lemma_reads_functional(f: Seq<char>, a: ClaimFormatDesignation, b: ClaimFormatDesignation)
    requires
        reads_designation(f, a),
        reads_designation(f, b),
    ensures
        same_designation(a, b),
        same_designation(b, a),
{
}

/// A wire name reads as at most one designation, up to sameness.
pub proof fn lemma_reads_same(f: Seq<char>, a: ClaimFormatDesignation, b: ClaimFormatDesignation)
    requires
        reads_designation(f, a),
        same_designation(a, b),
    ensures
        reads_designation(f, b),
{
}

/// The wire name of every registered designation reads back as that designation.
proof fn lemma_registered_round_trip(d: ClaimFormatDesignation)
    requires
        !(d is Other),
    ensures
        registered_designation(d.wire()) == Some(d),
{
    reveal_strlit("jwt");
    reveal_strlit("jwt_vc");
    reveal_strlit("jwt_vp");
    reveal_strlit("jwt_vc_json");
    reveal_strlit("jwt_vp_json");
    reveal_strlit("ldp");
    reveal_strlit("ldp_vc");
    reveal_strlit("ldp_vp");
    reveal_strlit("ac_vc");
    reveal_strlit("ac_vp");
    reveal_strlit("mso_mdoc");
    reveal_strlit("sd_jwt_vc");
    // Distinct names differ in length or in some character.
    assert("jwt_vc"@.len() != "jwt"@.len());
    assert("jwt_vp"@.len() != "jwt"@.len());
    assert("jwt_vp"@[5] != "jwt_vc"@[5]);
    assert("jwt_vc_json"@.len() != "jwt"@.len());
    assert("jwt_vc_json"@.len() != "jwt_vc"@.len());
    assert("jwt_vc_json"@.len() != "jwt_vp"@.len());
    assert("jwt_vp_json"@.len() != "jwt"@.len());
    assert("jwt_vp_json"@.len() != "jwt_vc"@.len());
    assert("jwt_vp_json"@.len() != "jwt_vp"@.len());
    assert("jwt_vp_json"@[5] != "jwt_vc_json"@[5]);
    assert("ldp"@[0] != "jwt"@[0]);
    assert("ldp"@.len() != "jwt_vc"@.len());
    assert("ldp"@.len() != "jwt_vp"@.len());
    assert("ldp"@.len() != "jwt_vc_json"@.len());
    assert("ldp"@.len() != "jwt_vp_json"@.len());
    assert("ldp_vc"@.len() != "jwt"@.len());
    assert("ldp_vc"@[0] != "jwt_vc"@[0]);
    assert("ldp_vc"@[0] != "jwt_vp"@[0]);
    assert("ldp_vc"@.len() != "jwt_vc_json"@.len());
    assert("ldp_vc"@.len() != "jwt_vp_json"@.len());
    assert("ldp_vc"@.len() != "ldp"@.len());
    assert("ldp_vp"@.len() != "jwt"@.len());
    assert("ldp_vp"@[0] != "jwt_vc"@[0]);
    assert("ldp_vp"@[0] != "jwt_vp"@[0]);
    assert("ldp_vp"@.len() != "jwt_vc_json"@.len());
    assert("ldp_vp"@.len() != "jwt_vp_json"@.len());
    assert("ldp_vp"@.len() != "ldp"@.len());
    assert("ldp_vp"@[5] != "ldp_vc"@[5]);
    assert("ac_vc"@.len() != "jwt"@.len());
    assert("ac_vc"@.len() != "jwt_vc"@.len());
    assert("ac_vc"@.len() != "jwt_vp"@.len());
    assert("ac_vc"@.len() != "jwt_vc_json"@.len());
    assert("ac_vc"@.len() != "jwt_vp_json"@.len());
    assert("ac_vc"@.len() != "ldp"@.len());
    assert("ac_vc"@.len() != "ldp_vc"@.len());
    assert("ac_vc"@.len() != "ldp_vp"@.len());
    assert("ac_vp"@.len() != "jwt"@.len());
    assert("ac_vp"@.len() != "jwt_vc"@.len());
    assert("ac_vp"@.len() != "jwt_vp"@.len());
    assert("ac_vp"@.len() != "jwt_vc_json"@.len());
    assert("ac_vp"@.len() != "jwt_vp_json"@.len());
    assert("ac_vp"@.len() != "ldp"@.len());
    assert("ac_vp"@.len() != "ldp_vc"@.len());
    assert("ac_vp"@.len() != "ldp_vp"@.len());
    assert("ac_vp"@[4] != "ac_vc"@[4]);
    assert("mso_mdoc"@.len() != "jwt"@.len());
    assert("mso_mdoc"@.len() != "jwt_vc"@.len());
    assert("mso_mdoc"@.len() != "jwt_vp"@.len());
    assert("mso_mdoc"@.len() != "jwt_vc_json"@.len());
    assert("mso_mdoc"@.len() != "jwt_vp_json"@.len());
    assert("mso_mdoc"@.len() != "ldp"@.len());
    assert("mso_mdoc"@.len() != "ldp_vc"@.len());
    assert("mso_mdoc"@.len() != "ldp_vp"@.len());
    assert("mso_mdoc"@.len() != "ac_vc"@.len());
    assert("mso_mdoc"@.len() != "ac_vp"@.len());
    assert("sd_jwt_vc"@.len() != "jwt"@.len());
    assert("sd_jwt_vc"@.len() != "jwt_vc"@.len());
    assert("sd_jwt_vc"@.len() != "jwt_vp"@.len());
    assert("sd_jwt_vc"@.len() != "jwt_vc_json"@.len());
    assert("sd_jwt_vc"@.len() != "jwt_vp_json"@.len());
    assert("sd_jwt_vc"@.len() != "ldp"@.len());
    assert("sd_jwt_vc"@.len() != "ldp_vc"@.len());
    assert("sd_jwt_vc"@.len() != "ldp_vp"@.len());
    assert("sd_jwt_vc"@.len() != "ac_vc"@.len());
    assert("sd_jwt_vc"@.len() != "ac_vp"@.len());
    assert("sd_jwt_vc"@.len() != "mso_mdoc"@.len());
}

/// A designation read back from its wire name is the same designation: the
/// registered one itself, or, for a name outside the registry, one of that name.
pub proof fn lemma_designation_round_trip(d: ClaimFormatDesignation, e: ClaimFormatDesignation)
    requires
        !(d is Other) || registered_designation(d.wire()) is None,
        reads_designation(d.wire(), e),
    ensures
        same_designation(d, e),
{
    if !(d is Other) {
        lemma_registered_round_trip(d);
    }
}

} // verus!
