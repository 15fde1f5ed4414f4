use vstd::prelude::*;

use crate::encoding::{b64url_decode, b64url_decoded, b64url_encode, b64url_of};
use crate::json::{JsonObject, JsonValue};
use crate::presentation_submission::{
    submission_from, submission_json, submission_readable,
    PresentationSubmission as PresentationSubmissionParsed,
};

verus! {

/// The `id_token` response parameter.
#[derive(Debug, Clone)]
pub struct IdToken(pub String);

/// Why a response parameter could not be read from JSON.
#[derive(Debug, Clone, Copy, PartialEq, Eq)]
pub enum ParameterError {
    /// A string that should be unpadded base64url is not.
    InvalidBase64,
    /// A `vp_token` that is not a string, an object or an array of them.
    InvalidVpToken,
    /// A value that should be a string is not.
    ExpectedString,
    /// A value that should be an object is not.
    ExpectedObject,
    /// A `presentation_submission` that does not read as one.
    InvalidPresentationSubmission,
}

impl IdToken {
    /// Reads an `id_token` from JSON: it must be a string.
    pub fn from_json(value: JsonValue) -> (r: Result<IdToken, ParameterError>)
        ensures
            match value {
                JsonValue::String(s) => r matches Ok(t) && t.0 == s,
                _ => r == Err::<IdToken, ParameterError>(ParameterError::ExpectedString),
            },
    {
        match value {
            JsonValue::String(s) => Ok(IdToken(s)),
            _ => Err(ParameterError::ExpectedString),
        }
    }

    /// The `id_token` as JSON: a string.
    pub fn into_json(self) -> (r: JsonValue)
        ensures
            r == JsonValue::String(self.0),
    {
        JsonValue::String(self.0)
    }
}

/// The object held by a JSON value, or [`ParameterError::ExpectedObject`].
pub fn extract_object(json: JsonValue) -> (r: Result<JsonObject, ParameterError>)
    ensures
        match json {
            JsonValue::Object(m) => r == Ok::<JsonObject, ParameterError>(m),
            _ => r == Err::<JsonObject, ParameterError>(ParameterError::ExpectedObject),
        },
{
    match json {
        JsonValue::Object(m) => Ok(m),
        _ => Err(ParameterError::ExpectedObject),
    }
}

/// The `presentation_submission` response parameter: the JSON it was read from,
/// sent back as it is so that members outside the typed form survive, beside
/// the typed form.
#[derive(Debug)]
pub struct PresentationSubmission {
    raw: JsonValue,
    parsed: PresentationSubmissionParsed,
}

impl PresentationSubmission {
    pub closed spec fn spec_raw(&self) -> JsonValue {
        self.raw
    }

    pub closed spec fn spec_parsed(&self) -> PresentationSubmissionParsed {
        self.parsed
    }

    /// Reads the parameter from JSON, keeping that JSON as it is.
    pub fn from_json(raw: JsonValue) -> (r: Result<PresentationSubmission, ParameterError>)
        ensures
            r is Ok <==> submission_readable(raw),
            r matches Ok(p) ==> p.spec_raw() == raw && submission_from(raw, p.spec_parsed()),
            r matches Err(e) ==> e == ParameterError::InvalidPresentationSubmission,
    {
        match PresentationSubmissionParsed::from_json(&raw) {
            Some(parsed) => Ok(PresentationSubmission { raw, parsed }),
            None => Err(ParameterError::InvalidPresentationSubmission),
        }
    }

    /// The parameter for a typed submission, with its JSON form as the JSON.
    pub fn from_parsed(parsed: PresentationSubmissionParsed) -> (r: PresentationSubmission)
        ensures
            r.spec_parsed() == parsed,
            submission_json(r.spec_raw(), parsed),
    {
        let raw = parsed.to_json();
        PresentationSubmission { raw, parsed }
    }

    /// The typed submission.
    pub fn parsed(&self) -> (r: &PresentationSubmissionParsed)
        ensures
            *r == self.spec_parsed(),
    {
        &self.parsed
    }

    /// The typed submission.
    pub fn into_parsed(self) -> (r: PresentationSubmissionParsed)
        ensures
            r == self.spec_parsed(),
    {
        self.parsed
    }

    /// The JSON that the parameter was read from or built as.
    pub fn into_json(self) -> (r: JsonValue)
        ensures
            r == self.spec_raw(),
    {
        self.raw
    }
}

/// The `vp_token` response parameter: one presentation as bytes (sent as an
/// unpadded base64url string), one presentation as a JSON object, or a list of
/// tokens.
#[derive(Debug)]
pub enum VpToken {
    Single(Vec<u8>),
    SingleAsMap(JsonObject),
    Many(Vec<VpToken>),
}

/// `j` is the JSON form of `t`: bytes as their base64url text (which decodes back
/// to them), an object as itself, a list as the array of its members' forms.
pub open spec fn encodes(t: VpToken, j: JsonValue) -> bool
    decreases t,
{
    match t {
        VpToken::Single(b) => match j {
            JsonValue::String(s) => s@ == b64url_of(b@) && b64url_decoded(s@) == Some(b@),
            _ => false,
        },
        VpToken::SingleAsMap(m) => j == JsonValue::Object(m),
        VpToken::Many(v) => match j {
            JsonValue::Array(a) => a@.len() == v@.len() && forall|i: int|
                0 <= i < v@.len() ==> encodes(#[trigger] v@[i], a@[i]),
            _ => false,
        },
    }
}

/// `t` is read from the JSON `j`: a string as the bytes it decodes to (whose
/// encoding it is), an object as itself, an array as the list of its members'
/// tokens.
pub open spec fn decodes(j: JsonValue, t: VpToken) -> bool
    decreases j,
{
    match j {
        JsonValue::String(s) => match t {
            VpToken::Single(b) => b64url_decoded(s@) == Some(b@) && b64url_of(b@) == s@,
            _ => false,
        },
        JsonValue::Object(m) => t == VpToken::SingleAsMap(m),
        JsonValue::Array(a) => match t {
            VpToken::Many(v) => v@.len() == a@.len() && forall|i: int|
                0 <= i < a@.len() ==> decodes(#[trigger] a@[i], v@[i]),
            _ => false,
        },
        _ => false,
    }
}

/// Whether the JSON `j` reads as a `vp_token`.
pub open spec fn decodable(j: JsonValue) -> bool
    decreases j,
{
    match j {
        JsonValue::String(s) => b64url_decoded(s@) is Some,
        JsonValue::Object(_) => true,
        JsonValue::Array(a) => forall|i: int| 0 <= i < a@.len() ==> decodable(#[trigger] a@[i]),
        _ => false,
    }
}

/// Two tokens hold the same bytes, objects and lists.
pub open spec fn same_token(t: VpToken, u: VpToken) -> bool
    decreases t,
{
    match t {
        VpToken::Single(b) => match u {
            VpToken::Single(c) => b@ == c@,
            _ => false,
        },
        VpToken::SingleAsMap(m) => u == VpToken::SingleAsMap(m),
        VpToken::Many(v) => match u {
            VpToken::Many(w) => w@.len() == v@.len() && forall|i: int|
                0 <= i < v@.len() ==> same_token(#[trigger] v@[i], w@[i]),
            _ => false,
        },
    }
}

/// The elements of `v` in reverse order.
pub(crate) fn reversed<T>(v: Vec<T>) -> (r: Vec<T>)
    ensures
        r@.len() == v@.len(),
        forall|k: int| 0 <= k < v@.len() ==> r@[k] == v@[v@.len() - 1 - k],
{
    let ghost orig = v@;
    let mut v = v;
    let mut r: Vec<T> = Vec::new();
    while v.len() > 0
        invariant
            v@.len() + r@.len() == orig.len(),
            v@ == orig.subrange(0, v@.len() as int),
            forall|k: int| 0 <= k < r@.len() ==> r@[k] == orig[orig.len() - 1 - k],
        decreases v@.len(),
    {
        let x = v.pop().unwrap();
        r.push(x);
    }
    r
}

impl VpToken {
    /// The JSON form of the token: bytes as an unpadded base64url string, an
    /// object as itself, a list as an array.
    pub fn into_json(self) -> (r: JsonValue)
        ensures
            encodes(self, r),
        decreases self,
    {
        let ghost entry = self;
        match self {
            VpToken::Single(b) => JsonValue::String(b64url_encode(b.as_slice())),
            VpToken::SingleAsMap(m) => JsonValue::Object(m),
            VpToken::Many(tokens) => {
                let ghost orig = tokens@;
                proof {
                    assert forall|k: int| 0 <= k < orig.len() implies decreases_to!(entry => #[trigger] orig[k]) by {
                        vstd::std_specs::vec::axiom_vec_index_decreases(tokens, k);
                    }
                }
                let n = tokens.len();
                let mut rest = reversed(tokens);
                let mut out: Vec<JsonValue> = Vec::new();
                let mut i: usize = 0;
                while i < n
                    invariant
                        orig.len() == n,
                        i <= n,
                        rest@.len() == n - i,
                        forall|k: int| 0 <= k < n - i ==> rest@[k] == orig[n - 1 - k],
                        out@.len() == i,
                        forall|k: int| 0 <= k < i ==> encodes(#[trigger] orig[k], out@[k]),
                        forall|k: int| 0 <= k < n ==> decreases_to!(entry => #[trigger] orig[k]),
                        entry == self,
                    decreases n - i,
                {
                    let t = rest.pop().unwrap();
                    assert(t == orig[i as int]);
                    let j = t.into_json();
                    out.push(j);
                    i = i + 1;
                }
                JsonValue::Array(out)
            },
        }
    }

    /// Reads a token from JSON: a string as the bytes its unpadded base64url text
    /// decodes to, an object as itself, an array as the list of its members'
    /// tokens; anything else is refused.
    pub fn from_json(value: JsonValue) -> (r: Result<VpToken, ParameterError>)
        ensures
            r is Ok <==> decodable(value),
            r matches Ok(t) ==> decodes(value, t),
            r matches Err(e) ==> match value {
                JsonValue::String(_) => e == ParameterError::InvalidBase64,
                JsonValue::Array(_) => true,
                _ => e == ParameterError::InvalidVpToken,
            },
        decreases value,
    {
        let ghost entry = value;
        match value {
            JsonValue::String(s) => match b64url_decode(s.as_str()) {
                Some(b) => Ok(VpToken::Single(b)),
                None => Err(ParameterError::InvalidBase64),
            },
            JsonValue::Object(m) => Ok(VpToken::SingleAsMap(m)),
            JsonValue::Array(items) => {
                let ghost orig = items@;
                proof {
                    assert forall|k: int| 0 <= k < orig.len() implies decreases_to!(entry => #[trigger] orig[k]) by {
                        vstd::std_specs::vec::axiom_vec_index_decreases(items, k);
                    }
                }
                let n = items.len();
                let mut rest = reversed(items);
                let mut out: Vec<VpToken> = Vec::new();
                let mut i: usize = 0;
                while i < n
                    invariant
                        orig.len() == n,
                        i <= n,
                        rest@.len() == n - i,
                        forall|k: int| 0 <= k < n - i ==> rest@[k] == orig[n - 1 - k],
                        out@.len() == i,
                        forall|k: int| 0 <= k < i ==> decodes(#[trigger] orig[k], out@[k]),
                        forall|k: int| 0 <= k < i ==> decodable(#[trigger] orig[k]),
                        forall|k: int| 0 <= k < n ==> decreases_to!(entry => #[trigger] orig[k]),
                        entry == value,
                        entry is Array,
                        entry->Array_0@ == orig,
                    decreases n - i,
                {
                    let item = rest.pop().unwrap();
                    assert(item == orig[i as int]);
                    match VpToken::from_json(item) {
                        Ok(t) => out.push(t),
                        Err(e) => {
                            assert(!decodable(orig[i as int]));
                            return Err(e);
                        },
                    }
                    i = i + 1;
                }
                Ok(VpToken::Many(out))
            },
            _ => Err(ParameterError::InvalidVpToken),
        }
    }
}

/// Reading back the JSON form of a token gives the same token, at any depth of
/// nesting.
pub proof fn lemma_vp_token_round_trip(t: VpToken, j: JsonValue, u: VpToken)
    requires
        encodes(t, j),
    ensures
        decodable(j),
        decodes(j, u) ==> same_token(t, u),
    decreases t,
{
    match t {
        VpToken::Single(b) => {},
        VpToken::SingleAsMap(m) => {},
        VpToken::Many(v) => {
            let a = j->Array_0;
            assert forall|i: int| 0 <= i < a@.len() implies decodable(#[trigger] a@[i]) by {
                lemma_vp_token_round_trip(v@[i], a@[i], u);
            }
            if decodes(j, u) {
                let w = u->Many_0;
                assert forall|i: int| 0 <= i < v@.len() implies same_token(
                    #[trigger] v@[i],
                    w@[i],
                ) by {
                    lemma_vp_token_round_trip(v@[i], a@[i], w@[i]);
                }
            }
        },
    }
}

/// Two JSON values hold the same text in each string and the same objects, in
/// the same arrays.
pub open spec fn same_json(a: JsonValue, b: JsonValue) -> bool
    decreases a,
{
    match a {
        JsonValue::String(s) => b matches JsonValue::String(t) && s@ == t@,
        JsonValue::Array(x) => match b {
            JsonValue::Array(y) => y@.len() == x@.len() && forall|i: int|
                0 <= i < x@.len() ==> same_json(#[trigger] x@[i], y@[i]),
            _ => false,
        },
        _ => a == b,
    }
}

/// Writing back a token read from JSON gives the same JSON: each string the same
/// base64url text, each object and the order of each array unchanged.
pub proof fn lemma_vp_token_reencode(j: JsonValue, t: VpToken, k: JsonValue)
    requires
        decodes(j, t),
        encodes(t, k),
    ensures
        same_json(j, k),
    decreases j,
{
    match j {
        JsonValue::Array(a) => {
            let v = t->Many_0;
            let b = k->Array_0;
            assert forall|i: int| 0 <= i < a@.len() implies same_json(#[trigger] a@[i], b@[i]) by {
                lemma_vp_token_reencode(a@[i], v@[i], b@[i]);
            }
        },
        _ => {},
    }
}

} // verus!
