use vstd::prelude::*;

use crate::encoding::{b64url_decode, b64url_decoded};
use crate::json::{find_string_member, json_object_strings, parse_object_strings, string_member};
use crate::text::{contains_text, first_index_of, split_once_at, text_eq};

verus! {

#[verifier::external_type_specification]
#[verifier::external_body]
pub struct ExJwk(ssi_jwk::JWK);

/// Why a signed authorization request was refused, one variant per step.
#[derive(Debug, Clone, PartialEq, Eq)]
pub enum VerificationError {
    /// The token is not three dot-separated segments.
    MalformedToken,
    /// The header segment is not unpadded base64url.
    HeaderNotBase64,
    /// The header does not decode to a JSON object.
    HeaderNotJson,
    /// The header has no `alg`.
    MissingAlg,
    /// The header's `alg` is not a string.
    AlgNotString,
    /// The `alg` is not one that the wallet supports.
    UnsupportedAlgorithm,
    /// The header has no `kid`.
    MissingKid,
    /// The header's `kid` is not a string.
    KidNotString,
    /// The `kid` is not a DID followed by `#` and a fragment.
    KidNotDidUrl,
    /// The DID of the `kid` is not the request's `client_id`.
    ClientIdMismatch,
    /// The DID is not in the list of trusted DIDs.
    UntrustedDid,
    /// The DID of the `kid` is not a valid DID.
    InvalidDid,
    /// The DID could not be resolved; the resolver's message.
    Resolution(String),
    /// The DID document holds no usable verification key.
    KeyNotFound,
    /// The verification key is not a valid JWK.
    InvalidJwk,
    /// The token's signature does not verify against the key.
    BadSignature,
}

/// The stage of verification at which an error arises.
#[derive(Debug, Clone, Copy, PartialEq, Eq)]
pub enum ErrorStage {
    /// The token or one of its header fields is malformed.
    Parse,
    /// A header field breaks the wallet's policy.
    Policy,
    /// Resolving the DID or finding its key failed.
    Resolution,
    /// The signature does not verify.
    Signature,
}

impl VerificationError {
    pub open spec fn spec_stage(&self) -> ErrorStage {
        match self {
            VerificationError::MalformedToken
            | VerificationError::HeaderNotBase64
            | VerificationError::HeaderNotJson
            | VerificationError::MissingAlg
            | VerificationError::AlgNotString
            | VerificationError::MissingKid
            | VerificationError::KidNotString
            | VerificationError::KidNotDidUrl
            | VerificationError::InvalidDid
            | VerificationError::InvalidJwk => ErrorStage::Parse,
            VerificationError::UnsupportedAlgorithm
            | VerificationError::ClientIdMismatch
            | VerificationError::UntrustedDid => ErrorStage::Policy,
            VerificationError::Resolution(_) | VerificationError::KeyNotFound => ErrorStage::Resolution,
            VerificationError::BadSignature => ErrorStage::Signature,
        }
    }

    /// The stage at which the error arises.
    pub fn stage(&self) -> (r: ErrorStage)
        ensures
            r == self.spec_stage(),
    {
        match self {
            VerificationError::MalformedToken
            | VerificationError::HeaderNotBase64
            | VerificationError::HeaderNotJson
            | VerificationError::MissingAlg
            | VerificationError::AlgNotString
            | VerificationError::MissingKid
            | VerificationError::KidNotString
            | VerificationError::KidNotDidUrl
            | VerificationError::InvalidDid
            | VerificationError::InvalidJwk => ErrorStage::Parse,
            VerificationError::UnsupportedAlgorithm
            | VerificationError::ClientIdMismatch
            | VerificationError::UntrustedDid => ErrorStage::Policy,
            VerificationError::Resolution(_) | VerificationError::KeyNotFound => ErrorStage::Resolution,
            VerificationError::BadSignature => ErrorStage::Signature,
        }
    }
}

/// The three segments of a compact token: the text before the first dot, the
/// text between the first and the second dot, and the rest.
pub open spec fn jws_segments(s: Seq<char>) -> Option<(Seq<char>, Seq<char>, Seq<char>)> {
    match first_index_of(s, '.') {
        None => None,
        Some(i) => {
            let rest = s.subrange(i + 1, s.len() as int);
            match first_index_of(rest, '.') {
                None => None,
                Some(j) => Some(
                    (s.subrange(0, i), rest.subrange(0, j), rest.subrange(j + 1, rest.len() as int)),
                ),
            }
        },
    }
}

/// Whether a text is a syntactically valid DID.
pub uninterp spec fn did_syntax_valid(s: Seq<char>) -> bool;

/// Relies on `ssi_jws::split_jws`: splits a compact token at its first two dots.
#[verifier::external_body]
fn split_token(jwt: &str) -> (r: Option<(String, String, String)>)
    ensures
        match r {
            Some((h, p, s)) => jws_segments(jwt@) == Some((h@, p@, s@)),
            None => jws_segments(jwt@) is None,
        },
{
    ssi_jws::split_jws(jwt).ok().map(|(h, p, s)| (h.to_owned(), p.to_owned(), s.to_owned()))
}

/// Relies on `ssi_dids_core::DID::new`: whether the text is a valid DID.
#[verifier::external_body]
fn is_did(s: &str) -> (r: bool)
    ensures
        r == did_syntax_valid(s@),
{
    ssi_dids_core::DID::new(s).is_ok()
}

/// Whether a text is the JSON of a JWK.
pub uninterp spec fn jwk_text_valid(s: Seq<char>) -> bool;

/// Whether a compact token's signature verifies against the JWK whose JSON text
/// is `key`.
pub uninterp spec fn jws_verifies(jwt: Seq<char>, key: Seq<char>) -> bool;

/// Relies on `serde_json::from_str` into `ssi_jwk::JWK`: reads a JWK from its JSON
/// text.
#[verifier::external_body]
pub(crate) fn parse_jwk(text: &str) -> (r: Option<ssi_jwk::JWK>)
    ensures
        r is Some <==> jwk_text_valid(text@),
{
    serde_json::from_str::<ssi_jwk::JWK>(text).ok()
}

/// Relies on `ssi_jws::decode_verify`, with the key read by `serde_json::from_str`
/// into `ssi_jwk::JWK`: whether the token's signature verifies against the key.
#[verifier::external_body]
fn signature_verifies(jwt: &str, key_text: &str) -> (r: bool)
    requires
        jwk_text_valid(key_text@),
    ensures
        r == jws_verifies(jwt@, key_text@),
{
    let key = serde_json::from_str::<ssi_jwk::JWK>(key_text).unwrap();
    ssi_jws::decode_verify(jwt, &key).is_ok()
}

/// Whether `s` is an entry of `list`.
pub open spec fn listed(list: Seq<String>, s: Seq<char>) -> bool {
    exists|i: int| 0 <= i < list.len() && list[i]@ == s
}

/// The outcome of the checks on a `kid`: the DID before its `#`, which must be the
/// `client_id`, be trusted where a list of trusted DIDs is given, and be valid.
pub open spec fn kid_outcome(
    kid: Seq<char>,
    client_id: Seq<char>,
    trusted_dids: Option<Seq<String>>,
) -> Result<Seq<char>, VerificationError> {
    match first_index_of(kid, '#') {
        None => Err(VerificationError::KidNotDidUrl),
        Some(k) => {
            let did = kid.subrange(0, k);
            if did != client_id {
                Err(VerificationError::ClientIdMismatch)
            } else if trusted_dids matches Some(t) && !listed(t, did) {
                Err(VerificationError::UntrustedDid)
            } else if !did_syntax_valid(did) {
                Err(VerificationError::InvalidDid)
            } else {
                Ok(did)
            }
        },
    }
}

/// The outcome of the checks on a request token that come before resolution: the
/// DID to resolve, or the first check that fails.
pub open spec fn header_outcome(
    jwt: Seq<char>,
    supported_algs: Seq<String>,
    client_id: Seq<char>,
    trusted_dids: Option<Seq<String>>,
) -> Result<Seq<char>, VerificationError> {
    match jws_segments(jwt) {
        None => Err(VerificationError::MalformedToken),
        Some((h, _, _)) => match b64url_decoded(h) {
            None => Err(VerificationError::HeaderNotBase64),
            Some(bytes) => match json_object_strings(bytes) {
                None => Err(VerificationError::HeaderNotJson),
                Some(members) => match string_member(members, "alg"@) {
                    None => Err(VerificationError::MissingAlg),
                    Some(None) => Err(VerificationError::AlgNotString),
                    Some(Some(alg)) => if !listed(supported_algs, alg) {
                        Err(VerificationError::UnsupportedAlgorithm)
                    } else {
                        match string_member(members, "kid"@) {
                            None => Err(VerificationError::MissingKid),
                            Some(None) => Err(VerificationError::KidNotString),
                            Some(Some(kid)) => kid_outcome(kid, client_id, trusted_dids),
                        }
                    },
                },
            },
        },
    }
}

/// Runs the checks on a request token that come before resolution, in order:
/// token shape, header encoding, `alg` against the supported algorithms, `kid`
/// against the `client_id`, and the list of trusted DIDs. Returns the DID to
/// resolve.
pub fn check_request_header(
    request_jwt: &str,
    supported_algs: &Vec<String>,
    client_id: &str,
    trusted_dids: Option<&Vec<String>>,
) -> (r: Result<String, VerificationError>)
    ensures
        match header_outcome(
            request_jwt@,
            supported_algs@,
            client_id@,
            match trusted_dids {
                Some(t) => Some(t@),
                None => None,
            },
        ) {
            Ok(did) => r matches Ok(d) && d@ == did,
            Err(e) => r == Err::<String, VerificationError>(e),
        },
{
    let (header_b64, _payload, _signature) = match split_token(request_jwt) {
        Some(parts) => parts,
        None => return Err(VerificationError::MalformedToken),
    };
    let header_bytes = match b64url_decode(header_b64.as_str()) {
        Some(b) => b,
        None => return Err(VerificationError::HeaderNotBase64),
    };
    let members = match parse_object_strings(header_bytes.as_slice()) {
        Some(m) => m,
        None => return Err(VerificationError::HeaderNotJson),
    };
    let alg = match find_string_member(&members, "alg") {
        None => return Err(VerificationError::MissingAlg),
        Some(None) => return Err(VerificationError::AlgNotString),
        Some(Some(a)) => a,
    };
    if !contains_text(supported_algs, alg.as_str()) {
        return Err(VerificationError::UnsupportedAlgorithm);
    }
    let kid = match find_string_member(&members, "kid") {
        None => return Err(VerificationError::MissingKid),
        Some(None) => return Err(VerificationError::KidNotString),
        Some(Some(k)) => k,
    };
    let did = match split_once_at(kid.as_str(), '#') {
        None => return Err(VerificationError::KidNotDidUrl),
        Some((did, _fragment)) => did,
    };
    if !text_eq(did.as_str(), client_id) {
        return Err(VerificationError::ClientIdMismatch);
    }
    if let Some(trusted) = trusted_dids {
        if !contains_text(trusted, did.as_str()) {
            return Err(VerificationError::UntrustedDid);
        }
    }
    if !is_did(did.as_str()) {
        return Err(VerificationError::InvalidDid);
    }
    Ok(did)
}

/// A verification method of a resolved DID document: its `type` and its other
/// properties, each with the JSON text of its value.
#[derive(Debug, Clone)]
pub struct VerificationMethod {
    pub method_type: String,
    pub properties: Vec<(String, String)>,
}

/// The verification-method type whose `publicKeyJwk` signs requests.
pub open spec fn jws_2020() -> Seq<char> {
    "JsonWebSignature2020"@
}

/// The JSON text of the first property of `props` named `name`.
pub open spec fn property_text(props: Seq<(String, String)>, name: Seq<char>) -> Option<Seq<char>> {
    if exists|i: int| 0 <= i < props.len() && props[i].0@ == name {
        let i = choose|i: int|
            0 <= i < props.len() && props[i].0@ == name && forall|j: int|
                0 <= j < i ==> props[j].0@ != name;
        Some(props[i].1@)
    } else {
        None
    }
}

/// The JSON text of the `publicKeyJwk` of the first method of type
/// `JsonWebSignature2020`, if that method has one.
pub open spec fn selected_key(methods: Seq<VerificationMethod>) -> Option<Seq<char>> {
    if exists|i: int| 0 <= i < methods.len() && methods[i].method_type@ == jws_2020() {
        let i = choose|i: int|
            0 <= i < methods.len() && methods[i].method_type@ == jws_2020() && forall|j: int|
                0 <= j < i ==> methods[j].method_type@ != jws_2020();
        property_text(methods[i].properties@, "publicKeyJwk"@)
    } else {
        None
    }
}

fn find_property(props: &Vec<(String, String)>, name: &str) -> (r: Option<String>)
    ensures
        match r {
            Some(t) => property_text(props@, name@) == Some(t@),
            None => property_text(props@, name@) is None,
        },
{
    let mut i: usize = 0;
    while i < props.len()
        invariant
            i <= props@.len(),
            forall|j: int| 0 <= j < i ==> props@[j].0@ != name@,
        decreases props@.len() - i,
    {
        if text_eq(props[i].0.as_str(), name) {
            proof {
                let x = choose|x: int|
                    0 <= x < props@.len() && props@[x].0@ == name@ && forall|j: int|
                        0 <= j < x ==> props@[j].0@ != name@;
                assert(props@[i as int].0@ == name@);
                assert(x == i) by {
                    if x < i {
                    } else if x > i {
                    }
                };
            }
            return Some(props[i].1.clone());
        }
        i = i + 1;
    }
    None
}

/// Finds the key that signs requests: the `publicKeyJwk` of the first method of
/// type `JsonWebSignature2020`.
pub fn select_key(methods: &Vec<VerificationMethod>) -> (r: Option<String>)
    ensures
        match r {
            Some(t) => selected_key(methods@) == Some(t@),
            None => selected_key(methods@) is None,
        },
{
    let mut i: usize = 0;
    while i < methods.len()
        invariant
            i <= methods@.len(),
            forall|j: int| 0 <= j < i ==> methods@[j].method_type@ != jws_2020(),
        decreases methods@.len() - i,
    {
        if text_eq(methods[i].method_type.as_str(), "JsonWebSignature2020") {
            proof {
                let x = choose|x: int|
                    0 <= x < methods@.len() && methods@[x].method_type@ == jws_2020() && forall|
                        j: int,
                    | 0 <= j < x ==> methods@[j].method_type@ != jws_2020();
                assert(methods@[i as int].method_type@ == jws_2020());
                assert(x == i) by {
                    if x < i {
                    } else if x > i {
                    }
                };
            }
            return find_property(&methods[i].properties, "publicKeyJwk");
        }
        i = i + 1;
    }
    None
}

/// The outcome of a verification once the DID has been resolved: the resolver's
/// error; no key; a key that is not a JWK; or whether the signature verifies.
pub open spec fn key_outcome(
    jwt: Seq<char>,
    resolved: Result<Vec<VerificationMethod>, String>,
) -> Result<(), VerificationError> {
    match resolved {
        Err(e) => Err(VerificationError::Resolution(e)),
        Ok(methods) => match selected_key(methods@) {
            None => Err(VerificationError::KeyNotFound),
            Some(t) => if !jwk_text_valid(t) {
                Err(VerificationError::InvalidJwk)
            } else if jws_verifies(jwt, t) {
                Ok(())
            } else {
                Err(VerificationError::BadSignature)
            },
        },
    }
}

/// Completes a verification once the DID has been resolved: finds the key in
/// the document and checks the token's signature with it.
pub fn check_resolved_key(
    request_jwt: &str,
    resolved: Result<Vec<VerificationMethod>, String>,
) -> (r: Result<(), VerificationError>)
    ensures
        r == key_outcome(request_jwt@, resolved),
{
    let methods = match resolved {
        Ok(m) => m,
        Err(e) => return Err(VerificationError::Resolution(e)),
    };
    let key_text = match select_key(&methods) {
        Some(t) => t,
        None => return Err(VerificationError::KeyNotFound),
    };
    if parse_jwk(key_text.as_str()).is_none() {
        return Err(VerificationError::InvalidJwk);
    }
    if signature_verifies(request_jwt, key_text.as_str()) {
        Ok(())
    } else {
        Err(VerificationError::BadSignature)
    }
}

/// Resolves a DID to the verification methods of its document.
pub trait DidResolver {
    /// The verification methods of the document of `did`, or why it could not be
    /// resolved.
    fn resolve(&self, did: &str) -> Result<Vec<VerificationMethod>, String>;
}

/// Verifies a signed authorization request whose `client_id` is the DID
/// `client_id`: the header checks, then resolution of the DID, then the
/// signature. The resolver is asked only once every header check has passed.
pub fn verify_with_resolver<R: DidResolver>(
    supported_algs: &Vec<String>,
    client_id: &str,
    request_jwt: &str,
    trusted_dids: Option<&Vec<String>>,
    resolver: &R,
) -> (r: Result<(), VerificationError>)
    ensures
        match header_outcome(
            request_jwt@,
            supported_algs@,
            client_id@,
            match trusted_dids {
                Some(t) => Some(t@),
                None => None,
            },
        ) {
            Err(e) => r == Err::<(), VerificationError>(e),
            Ok(_) => exists|resolved: Result<Vec<VerificationMethod>, String>|
                r == key_outcome(request_jwt@, resolved),
        },
{
    let did = check_request_header(request_jwt, supported_algs, client_id, trusted_dids)?;
    let resolved = resolver.resolve(did.as_str());
    let ghost answer = resolved;
    let r = check_resolved_key(request_jwt, resolved);
    assert(r == key_outcome(request_jwt@, answer));
    r
}

/// A request whose header carries a supported `alg` but no `kid` fails with a
/// parse-stage error, before its DID is resolved.
pub proof fn lemma_missing_kid_fails_in_parsing(
    jwt: Seq<char>,
    supported_algs: Seq<String>,
    client_id: Seq<char>,
    trusted_dids: Option<Seq<String>>,
    segments: (Seq<char>, Seq<char>, Seq<char>),
    header: Seq<u8>,
    members: Seq<(Seq<char>, Option<Seq<char>>)>,
    alg: Seq<char>,
)
    requires
        jws_segments(jwt) == Some(segments),
        b64url_decoded(segments.0) == Some(header),
        json_object_strings(header) == Some(members),
        string_member(members, "alg"@) == Some(Some(alg)),
        listed(supported_algs, alg),
        string_member(members, "kid"@) is None,
    ensures
        header_outcome(jwt, supported_algs, client_id, trusted_dids) == Err::<
            Seq<char>,
            VerificationError,
        >(VerificationError::MissingKid),
        VerificationError::MissingKid.spec_stage() == ErrorStage::Parse,
{
}

/// A request whose `kid` names another DID than its `client_id` fails with a
/// mismatch error, whatever that DID resolves to.
#[verifier::rlimit(40)]
pub proof fn lemma_client_id_mismatch(
    jwt: Seq<char>,
    supported_algs: Seq<String>,
    client_id: Seq<char>,
    trusted_dids: Option<Seq<String>>,
    segments: (Seq<char>, Seq<char>, Seq<char>),
    header: Seq<u8>,
    members: Seq<(Seq<char>, Option<Seq<char>>)>,
    alg: Seq<char>,
    kid: Seq<char>,
    k: int,
)
    requires
        jws_segments(jwt) == Some(segments),
        b64url_decoded(segments.0) == Some(header),
        json_object_strings(header) == Some(members),
        string_member(members, "alg"@) == Some(Some(alg)),
        listed(supported_algs, alg),
        string_member(members, "kid"@) == Some(Some(kid)),
        first_index_of(kid, '#') == Some(k),
        kid.subrange(0, k) != client_id,
    ensures
        header_outcome(jwt, supported_algs, client_id, trusted_dids) == Err::<
            Seq<char>,
            VerificationError,
        >(VerificationError::ClientIdMismatch),
        VerificationError::ClientIdMismatch.spec_stage() == ErrorStage::Policy,
{
    assert(kid_outcome(kid, client_id, trusted_dids) == Err::<Seq<char>, VerificationError>(
        VerificationError::ClientIdMismatch,
    )) by {
        assert(first_index_of(kid, '#') == Some(k));
    }
    assert(header_outcome(jwt, supported_algs, client_id, trusted_dids) == kid_outcome(
        kid,
        client_id,
        trusted_dids,
    ));
}

/// A request signed with an algorithm that the wallet does not support fails
/// before its DID is resolved.
pub proof fn lemma_unsupported_alg_fails_first(
    jwt: Seq<char>,
    supported_algs: Seq<String>,
    client_id: Seq<char>,
    trusted_dids: Option<Seq<String>>,
    segments: (Seq<char>, Seq<char>, Seq<char>),
    header: Seq<u8>,
    members: Seq<(Seq<char>, Option<Seq<char>>)>,
    alg: Seq<char>,
)
    requires
        jws_segments(jwt) == Some(segments),
        b64url_decoded(segments.0) == Some(header),
        json_object_strings(header) == Some(members),
        string_member(members, "alg"@) == Some(Some(alg)),
        !listed(supported_algs, alg),
    ensures
        header_outcome(jwt, supported_algs, client_id, trusted_dids) == Err::<
            Seq<char>,
            VerificationError,
        >(VerificationError::UnsupportedAlgorithm),
{
}

/// A list of trusted DIDs that holds the `client_id` changes no outcome: without
/// a list every DID is trusted once it resolves.
pub proof fn lemma_trusted_list_holding_client_id(
    jwt: Seq<char>,
    supported_algs: Seq<String>,
    client_id: Seq<char>,
    trusted_dids: Seq<String>,
)
    requires
        listed(trusted_dids, client_id),
    ensures
        header_outcome(jwt, supported_algs, client_id, Some(trusted_dids)) == header_outcome(
            jwt,
            supported_algs,
            client_id,
            None,
        ),
{
    assert forall|kid: Seq<char>|
        kid_outcome(kid, client_id, Some(trusted_dids)) == #[trigger] kid_outcome(
            kid,
            client_id,
            None,
        ) by {}
}

} // verus!
