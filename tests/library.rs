use std::cell::Cell;

use base64::Engine;
use oid4vp::credential_format::{ClaimFormat, ClaimFormatDesignation, ClaimFormatPayload};
use oid4vp::did_verification::{
    check_request_header, check_resolved_key, select_key, verify_with_resolver, DidResolver,
    ErrorStage, VerificationError, VerificationMethod,
};
use oid4vp::json::JsonValue;
use oid4vp::presentation_submission::{
    DescriptorMap, PresentationSubmission, SubmissionRequirementBase,
    SubmissionRequirementBaseBase, SubmissionRequirementPick,
};
use oid4vp::response_parameters::{extract_object, IdToken, ParameterError, VpToken};
use oid4vp::utils::{EmptyVecError, NonEmptyVec};
use oid4vp::wallet::{
    flatten_for_form, form_for_mode, read_post_outcome, read_reply, submit_handled_response, submit_authorization_response, submit_response,
    AuthorizationRequestObject, AuthorizationResponse, FormPoster, FormValue, PresentationHandler,
    ResponseMode, SubmitError,
};
use p256::ecdsa::{signature::Signer, Signature, SigningKey};

fn b64(bytes: &[u8]) -> String {
    base64::prelude::BASE64_URL_SAFE_NO_PAD.encode(bytes)
}

fn text(s: &str) -> JsonValue {
    JsonValue::String(s.to_string())
}

fn algs(list: &[&str]) -> Vec<String> {
    list.iter().map(|s| s.to_string()).collect()
}

fn token_with_header(header: &str) -> String {
    format!("{}.{}.{}", b64(header.as_bytes()), b64(b"{}"), b64(b"sig"))
}

struct CountingResolver {
    calls: Cell<u32>,
    answer: Result<Vec<VerificationMethod>, String>,
}

impl CountingResolver {
    fn new(answer: Result<Vec<VerificationMethod>, String>) -> Self {
        CountingResolver { calls: Cell::new(0), answer }
    }
}

impl DidResolver for CountingResolver {
    fn resolve(&self, _did: &str) -> Result<Vec<VerificationMethod>, String> {
        self.calls.set(self.calls.get() + 1);
        self.answer.clone()
    }
}

fn signing_key() -> SigningKey {
    SigningKey::from_slice(&[7u8; 32]).expect("valid scalar")
}

fn jwk_text(key: &SigningKey) -> String {
    let pk: p256::PublicKey = key.verifying_key().into();
    pk.to_jwk_string()
}

fn signed_request(key: &SigningKey, kid: &str) -> String {
    let header = format!("{{\"alg\":\"ES256\",\"kid\":\"{}\"}}", kid);
    let signing_input = format!("{}.{}", b64(header.as_bytes()), b64(b"{\"iss\":\"x\"}"));
    let sig: Signature = key.sign(signing_input.as_bytes());
    format!("{}.{}", signing_input, b64(&sig.to_bytes()))
}

fn jws_method(jwk: &str) -> VerificationMethod {
    VerificationMethod {
        method_type: "JsonWebSignature2020".to_string(),
        properties: vec![("publicKeyJwk".to_string(), jwk.to_string())],
    }
}

#[test]
fn non_empty_vec_from_non_empty_holds_its_elements() {
    let n = NonEmptyVec::maybe_new(vec![1, 2, 3]).expect("not empty");
    assert_eq!(n.as_slice(), &[1, 2, 3]);
    assert_eq!(n.len(), 3);
    assert_eq!(n.into_inner(), vec![1, 2, 3]);
}

#[test]
fn non_empty_vec_from_empty_fails() {
    assert!(NonEmptyVec::<u8>::maybe_new(vec![]).is_none());
    assert_eq!(NonEmptyVec::<u8>::try_from(Vec::new()).err(), Some(EmptyVecError));
    assert_eq!(NonEmptyVec::<u8>::try_new(Vec::new()).err(), Some(EmptyVecError));
}

#[test]
fn non_empty_vec_push_and_convert() {
    let mut n = NonEmptyVec::new("a".to_string());
    n.push("b".to_string());
    let v: Vec<String> = n.into();
    assert_eq!(v, vec!["a".to_string(), "b".to_string()]);
    let t = NonEmptyVec::try_from(vec![5u8]).expect("one element");
    assert_eq!(t.into_inner(), vec![5u8]);
}

#[test]
fn designation_round_trips_through_wire_names() {
    let all = vec![
        ClaimFormatDesignation::Jwt,
        ClaimFormatDesignation::JwtVc,
        ClaimFormatDesignation::JwtVp,
        ClaimFormatDesignation::JwtVcJson,
        ClaimFormatDesignation::JwtVpJson,
        ClaimFormatDesignation::Ldp,
        ClaimFormatDesignation::LdpVc,
        ClaimFormatDesignation::LdpVp,
        ClaimFormatDesignation::AcVc,
        ClaimFormatDesignation::AcVp,
        ClaimFormatDesignation::MsoMDoc,
        ClaimFormatDesignation::SdJwtVc,
    ];
    for d in all {
        let wire: String = d.clone().into();
        assert_eq!(ClaimFormatDesignation::from(wire.as_str()), d);
    }
}

#[test]
fn designation_wire_names_are_exact() {
    assert_eq!(String::from(ClaimFormatDesignation::JwtVcJson), "jwt_vc_json");
    assert_eq!(String::from(ClaimFormatDesignation::MsoMDoc), "mso_mdoc");
    assert_eq!(ClaimFormatDesignation::from("ldp_vp"), ClaimFormatDesignation::LdpVp);
}

#[test]
fn custom_designation_keeps_its_name() {
    let d = ClaimFormatDesignation::from("com.example.custom_vc");
    assert_eq!(d, ClaimFormatDesignation::Other("com.example.custom_vc".to_string()));
    assert_eq!(String::from(d), "com.example.custom_vc");
    assert_eq!(
        ClaimFormatDesignation::from("JWT"),
        ClaimFormatDesignation::Other("JWT".to_string())
    );
}

#[test]
fn claim_format_designation_of_registered_formats() {
    let f = ClaimFormat::JwtVc { alg: vec!["ES256".to_string()] };
    assert_eq!(f.designation(), ClaimFormatDesignation::JwtVc);
    let f = ClaimFormat::LdpVp { proof_type: vec![] };
    assert_eq!(f.designation(), ClaimFormatDesignation::LdpVp);
    let f = ClaimFormat::SdJwtVc(JsonValue::Null);
    assert_eq!(f.designation(), ClaimFormatDesignation::SdJwtVc);
}

#[test]
fn claim_format_designation_of_other_takes_first_key() {
    let value = JsonValue::Object(vec![
        ("com.example.custom_vc".to_string(), JsonValue::Object(vec![])),
        ("second".to_string(), JsonValue::Null),
    ]);
    assert_eq!(
        ClaimFormat::Other(value).designation(),
        ClaimFormatDesignation::Other("com.example.custom_vc".to_string())
    );
    assert_eq!(
        ClaimFormat::Other(JsonValue::Object(vec![])).designation(),
        ClaimFormatDesignation::Other("other".to_string())
    );
    assert_eq!(
        ClaimFormat::Other(JsonValue::Bool(true)).designation(),
        ClaimFormatDesignation::Other("other".to_string())
    );
}

#[test]
fn payload_add_alg_appends_or_ignores() {
    let mut p = ClaimFormatPayload::Alg(vec!["ES256".to_string()]);
    p.add_alg("EdDSA".to_string());
    assert!(matches!(&p, ClaimFormatPayload::Alg(v) if v == &algs(&["ES256", "EdDSA"])));
    let mut p = ClaimFormatPayload::AlgValuesSupported(vec![]);
    p.add_alg("ES384".to_string());
    assert!(matches!(&p, ClaimFormatPayload::AlgValuesSupported(v) if v == &algs(&["ES384"])));
    let mut p = ClaimFormatPayload::ProofType(vec![]);
    p.add_alg("ES256".to_string());
    assert!(matches!(&p, ClaimFormatPayload::ProofType(v) if v.is_empty()));
}

#[test]
fn payload_add_proof_type_appends_or_ignores() {
    let mut p = ClaimFormatPayload::ProofType(vec![]);
    p.add_proof_type("Ed25519Signature2018".to_string());
    assert!(matches!(&p, ClaimFormatPayload::ProofType(v) if v == &algs(&["Ed25519Signature2018"])));
    let mut p = ClaimFormatPayload::Alg(vec![]);
    p.add_proof_type("JsonWebSignature2020".to_string());
    assert!(matches!(&p, ClaimFormatPayload::Alg(v) if v.is_empty()));
    let mut p = ClaimFormatPayload::Json(JsonValue::Null);
    p.add_proof_type("x".to_string());
    assert!(matches!(&p, ClaimFormatPayload::Json(JsonValue::Null)));
}

#[test]
fn nested_descriptor_map_takes_parent_id() {
    let parent = DescriptorMap::new("A", ClaimFormatDesignation::JwtVp, "$".to_string());
    let nested = DescriptorMap::new("B", ClaimFormatDesignation::JwtVc, "$.vp.vc[0]".to_string());
    let joined = parent.set_path_nested(nested);
    assert_eq!(joined.id(), "A");
    assert_eq!(joined.format(), &ClaimFormatDesignation::JwtVp);
    assert_eq!(joined.path(), "$");
    let inner = joined.path_nested().expect("nested map set");
    assert_eq!(inner.id(), "A");
    assert_eq!(inner.format(), &ClaimFormatDesignation::JwtVc);
    assert_eq!(inner.path(), "$.vp.vc[0]");
    assert!(inner.path_nested().is_none());
}

#[test]
fn presentation_submission_keeps_its_parts() {
    let id = uuid::Uuid::parse_str("67e55044-10b1-426f-9247-bb680e5fe0c8").unwrap();
    let map = DescriptorMap::new("d1", ClaimFormatDesignation::LdpVp, "$".to_string());
    let mut s = PresentationSubmission::new(id.as_u128(), "def-1".to_string(), vec![map]);
    assert_eq!(s.id(), id.as_u128());
    assert_eq!(s.definition_id(), "def-1");
    assert_eq!(s.descriptor_map().len(), 1);
    s.descriptor_map_mut().push(DescriptorMap::new("d2", ClaimFormatDesignation::Jwt, "$[1]".to_string()));
    assert_eq!(s.descriptor_map()[1].id(), "d2");
}

#[test]
fn pick_bounds() {
    let base = || SubmissionRequirementBase::From {
        from: "A".to_string(),
        submission_requirement_base: SubmissionRequirementBaseBase {
            name: None,
            purpose: None,
            property_set: None,
        },
    };
    let pick = |count, min, max| SubmissionRequirementPick {
        submission_requirement: base(),
        count,
        min,
        max,
    };
    let both = pick(None, Some(1), Some(3));
    assert!(!both.admits(0));
    assert!(both.admits(1));
    assert!(both.admits(3));
    assert!(!both.admits(4));
    let exact = pick(Some(2), None, None);
    assert!(exact.admits(2));
    assert!(!exact.admits(1));
    assert!(!exact.admits(3));
    let none = pick(None, None, None);
    assert!(!none.admits(0));
    assert!(none.admits(1));
    assert!(none.admits(9));
}

#[test]
fn vp_token_single_round_trip() {
    let json = VpToken::Single(b"hello".to_vec()).into_json();
    assert!(matches!(&json, JsonValue::String(s) if s == "aGVsbG8"));
    let back = VpToken::from_json(json).expect("decodes");
    assert!(matches!(back, VpToken::Single(b) if b == b"hello".to_vec()));
}

#[test]
fn vp_token_map_round_trip() {
    let obj = vec![("type".to_string(), text("VerifiablePresentation"))];
    let json = VpToken::SingleAsMap(obj).into_json();
    let back = VpToken::from_json(json).expect("decodes");
    match back {
        VpToken::SingleAsMap(m) => {
            assert_eq!(m.len(), 1);
            assert_eq!(m[0].0, "type");
            assert!(matches!(&m[0].1, JsonValue::String(s) if s == "VerifiablePresentation"));
        }
        other => panic!("unexpected token {:?}", other),
    }
}

#[test]
fn vp_token_nested_many_round_trip() {
    let token = VpToken::Many(vec![
        VpToken::Single(vec![0, 1, 2, 255]),
        VpToken::Many(vec![VpToken::Single(vec![9]), VpToken::SingleAsMap(vec![])]),
    ]);
    let json = token.into_json();
    match &json {
        JsonValue::Array(items) => {
            assert_eq!(items.len(), 2);
            assert!(matches!(&items[0], JsonValue::String(s) if s == "AAEC_w"));
            assert!(matches!(&items[1], JsonValue::Array(inner) if inner.len() == 2));
        }
        other => panic!("unexpected json {:?}", other),
    }
    let back = VpToken::from_json(json).expect("decodes");
    match back {
        VpToken::Many(v) => {
            assert_eq!(v.len(), 2);
            assert!(matches!(&v[0], VpToken::Single(b) if b == &vec![0, 1, 2, 255]));
            match &v[1] {
                VpToken::Many(w) => {
                    assert_eq!(w.len(), 2);
                    assert!(matches!(&w[0], VpToken::Single(b) if b == &vec![9]));
                    assert!(matches!(&w[1], VpToken::SingleAsMap(m) if m.is_empty()));
                }
                other => panic!("unexpected token {:?}", other),
            }
        }
        other => panic!("unexpected token {:?}", other),
    }
}

#[test]
fn vp_token_rejects_other_json() {
    assert_eq!(
        VpToken::from_json(JsonValue::Number("3".to_string())).err(),
        Some(ParameterError::InvalidVpToken)
    );
    assert_eq!(VpToken::from_json(JsonValue::Null).err(), Some(ParameterError::InvalidVpToken));
    assert_eq!(VpToken::from_json(text("a=b")).err(), Some(ParameterError::InvalidBase64));
    assert_eq!(
        VpToken::from_json(JsonValue::Array(vec![text("AA"), JsonValue::Bool(false)])).err(),
        Some(ParameterError::InvalidVpToken)
    );
}

#[test]
fn id_token_reads_strings_only() {
    let t = IdToken::from_json(text("eyJ.x.y")).expect("string");
    assert_eq!(t.0, "eyJ.x.y");
    assert!(matches!(t.into_json(), JsonValue::String(s) if s == "eyJ.x.y"));
    assert_eq!(IdToken::from_json(JsonValue::Null).err(), Some(ParameterError::ExpectedString));
}

#[test]
fn extract_object_takes_objects_only() {
    let m = extract_object(JsonValue::Object(vec![("a".to_string(), JsonValue::Null)])).unwrap();
    assert_eq!(m.len(), 1);
    assert_eq!(extract_object(JsonValue::Array(vec![])).err(), Some(ParameterError::ExpectedObject));
}

#[test]
fn request_without_kid_fails_in_parsing_before_resolution() {
    let jwt = token_with_header("{\"alg\":\"ES256\"}");
    let resolver = CountingResolver::new(Ok(vec![]));
    let r = verify_with_resolver(&algs(&["ES256"]), "did:example:123", &jwt, None, &resolver);
    assert_eq!(r, Err(VerificationError::MissingKid));
    assert_eq!(VerificationError::MissingKid.stage(), ErrorStage::Parse);
    assert_eq!(resolver.calls.get(), 0);
}

#[test]
fn request_kid_did_must_match_client_id() {
    let key = signing_key();
    let jwt = signed_request(&key, "did:example:123#key-1");
    let resolver = CountingResolver::new(Ok(vec![jws_method(&jwk_text(&key))]));
    let r = verify_with_resolver(&algs(&["ES256"]), "did:example:999", &jwt, None, &resolver);
    assert_eq!(r, Err(VerificationError::ClientIdMismatch));
    assert_eq!(VerificationError::ClientIdMismatch.stage(), ErrorStage::Policy);
    assert_eq!(resolver.calls.get(), 0);
}

#[test]
fn request_with_unsupported_alg_skips_resolution() {
    let jwt = token_with_header("{\"alg\":\"HS256\",\"kid\":\"did:example:123#k\"}");
    let resolver = CountingResolver::new(Ok(vec![]));
    let r = verify_with_resolver(&algs(&["ES256", "EdDSA"]), "did:example:123", &jwt, None, &resolver);
    assert_eq!(r, Err(VerificationError::UnsupportedAlgorithm));
    assert_eq!(resolver.calls.get(), 0);
}

#[test]
fn request_with_valid_signature_verifies() {
    let key = signing_key();
    let jwt = signed_request(&key, "did:example:123#key-1");
    let resolver = CountingResolver::new(Ok(vec![
        VerificationMethod { method_type: "Multikey".to_string(), properties: vec![] },
        jws_method(&jwk_text(&key)),
    ]));
    let trusted = algs(&["did:example:123"]);
    let r = verify_with_resolver(&algs(&["ES256"]), "did:example:123", &jwt, Some(&trusted), &resolver);
    assert_eq!(r, Ok(()));
    assert_eq!(resolver.calls.get(), 1);
}

#[test]
fn request_signed_by_another_key_fails() {
    let key = signing_key();
    let other = SigningKey::from_slice(&[9u8; 32]).unwrap();
    let jwt = signed_request(&key, "did:example:123#key-1");
    let resolver = CountingResolver::new(Ok(vec![jws_method(&jwk_text(&other))]));
    let r = verify_with_resolver(&algs(&["ES256"]), "did:example:123", &jwt, None, &resolver);
    assert_eq!(r, Err(VerificationError::BadSignature));
    assert_eq!(VerificationError::BadSignature.stage(), ErrorStage::Signature);
}

#[test]
fn request_header_errors_in_order() {
    let supported = algs(&["ES256"]);
    let check = |jwt: &str, trusted: Option<&Vec<String>>| {
        check_request_header(jwt, &supported, "did:example:123", trusted)
    };
    assert_eq!(check("no-dots-here", None), Err(VerificationError::MalformedToken));
    assert_eq!(check("one.dot", None), Err(VerificationError::MalformedToken));
    assert_eq!(check("a=b.c.d", None), Err(VerificationError::HeaderNotBase64));
    assert_eq!(check(&token_with_header("[1,2]"), None), Err(VerificationError::HeaderNotJson));
    assert_eq!(check(&token_with_header("{\"kid\":\"x\"}"), None), Err(VerificationError::MissingAlg));
    assert_eq!(check(&token_with_header("{\"alg\":5}"), None), Err(VerificationError::AlgNotString));
    assert_eq!(
        check(&token_with_header("{\"alg\":\"ES256\",\"kid\":7}"), None),
        Err(VerificationError::KidNotString)
    );
    assert_eq!(
        check(&token_with_header("{\"alg\":\"ES256\",\"kid\":\"did:example:123\"}"), None),
        Err(VerificationError::KidNotDidUrl)
    );
    let trusted = algs(&["did:example:456"]);
    assert_eq!(
        check(&token_with_header("{\"alg\":\"ES256\",\"kid\":\"did:example:123#k\"}"), Some(&trusted)),
        Err(VerificationError::UntrustedDid)
    );
    assert_eq!(
        check(&token_with_header("{\"alg\":\"ES256\",\"kid\":\"did:example:123#k\"}"), None),
        Ok("did:example:123".to_string())
    );
    assert_eq!(
        check_request_header(
            &token_with_header("{\"alg\":\"ES256\",\"kid\":\"not a did#k\"}"),
            &supported,
            "not a did",
            None
        ),
        Err(VerificationError::InvalidDid)
    );
}

#[test]
fn resolved_document_errors() {
    let key = signing_key();
    let jwt = signed_request(&key, "did:example:123#key-1");
    assert_eq!(
        check_resolved_key(&jwt, Err("not found".to_string())),
        Err(VerificationError::Resolution("not found".to_string()))
    );
    assert_eq!(check_resolved_key(&jwt, Ok(vec![])), Err(VerificationError::KeyNotFound));
    let no_jwk = VerificationMethod {
        method_type: "JsonWebSignature2020".to_string(),
        properties: vec![("publicKeyMultibase".to_string(), "\"z6Mk\"".to_string())],
    };
    assert_eq!(check_resolved_key(&jwt, Ok(vec![no_jwk])), Err(VerificationError::KeyNotFound));
    assert_eq!(
        check_resolved_key(&jwt, Ok(vec![jws_method("{\"kty\":\"nonsense\"}")])),
        Err(VerificationError::InvalidJwk)
    );
}

#[test]
fn key_selection_takes_first_matching_method() {
    let methods = vec![
        VerificationMethod {
            method_type: "Ed25519VerificationKey2018".to_string(),
            properties: vec![("publicKeyJwk".to_string(), "{\"a\":1}".to_string())],
        },
        jws_method("{\"b\":2}"),
        jws_method("{\"c\":3}"),
    ];
    assert_eq!(select_key(&methods), Some("{\"b\":2}".to_string()));
}

struct FakeVerifier {
    reply: Result<(u16, String), String>,
    posted: Cell<usize>,
}

impl FormPoster for FakeVerifier {
    fn post_form(&self, _uri: &str, fields: Vec<(String, FormValue)>) -> Result<(u16, String), String> {
        self.posted.set(fields.len());
        self.reply.clone()
    }
}

fn plain_response() -> AuthorizationResponse {
    AuthorizationResponse::Unencoded(vec![
        ("vp_token".to_string(), JsonValue::Array(vec![text("AA")])),
        ("state".to_string(), text("xyz")),
    ])
}

#[test]
fn direct_post_with_302_and_empty_body_has_no_redirect() {
    let verifier = FakeVerifier { reply: Ok((302, String::new())), posted: Cell::new(0) };
    let r = submit_authorization_response(&verifier, &ResponseMode::DirectPost, "https://v/cb", plain_response());
    assert_eq!(r, Ok(None));
    assert_eq!(verifier.posted.get(), 2);
}

#[test]
fn direct_post_with_200_redirect_returns_it() {
    let verifier = FakeVerifier {
        reply: Ok((200, "{\"redirect_uri\":\"https://x\"}".to_string())),
        posted: Cell::new(0),
    };
    let r = submit_authorization_response(&verifier, &ResponseMode::DirectPost, "https://v/cb", plain_response());
    let got = r.expect("accepted").expect("redirect given");
    assert_eq!(url::Url::parse(&got).unwrap(), url::Url::parse("https://x").unwrap());
}

#[test]
fn direct_post_with_500_fails_with_body() {
    let verifier = FakeVerifier { reply: Ok((500, "boom".to_string())), posted: Cell::new(0) };
    let r = submit_authorization_response(&verifier, &ResponseMode::DirectPost, "https://v/cb", plain_response());
    assert_eq!(r, Err(SubmitError::Status(500, "boom".to_string())));
}

#[test]
fn submission_mode_and_format_must_agree() {
    let verifier = FakeVerifier { reply: Ok((200, String::new())), posted: Cell::new(0) };
    let r = submit_authorization_response(
        &verifier,
        &ResponseMode::DirectPost,
        "https://v/cb",
        AuthorizationResponse::Jwt("a.b.c".to_string()),
    );
    assert_eq!(r, Err(SubmitError::UnexpectedResponseFormat));
    let r = submit_authorization_response(&verifier, &ResponseMode::DirectPostJwt, "https://v/cb", plain_response());
    assert_eq!(r, Err(SubmitError::UnexpectedResponseFormat));
    let r = submit_authorization_response(
        &verifier,
        &ResponseMode::Unsupported("fragment".to_string()),
        "https://v/cb",
        plain_response(),
    );
    assert_eq!(r, Err(SubmitError::UnsupportedResponseMode("fragment".to_string())));
    assert_eq!(verifier.posted.get(), 0);
    let failing = FakeVerifier { reply: Err("refused".to_string()), posted: Cell::new(0) };
    let r = submit_authorization_response(&failing, &ResponseMode::DirectPost, "https://v/cb", plain_response());
    assert_eq!(r, Err(SubmitError::Network("refused".to_string())));
}

#[test]
fn jwt_response_is_one_field() {
    let fields = form_for_mode(&ResponseMode::DirectPostJwt, AuthorizationResponse::Jwt("a.b.c".to_string()))
        .expect("jwt mode");
    assert_eq!(fields.len(), 1);
    assert_eq!(fields[0].0, "response");
    assert!(matches!(&fields[0].1, FormValue::Text(t) if t == "a.b.c"));
}

#[test]
fn flattened_form_keeps_strings_as_text() {
    let fields = flatten_for_form(vec![
        ("state".to_string(), text("xyz")),
        ("vp_token".to_string(), JsonValue::Array(vec![])),
    ]);
    assert_eq!(fields.len(), 2);
    assert_eq!(fields[0].0, "state");
    assert!(matches!(&fields[0].1, FormValue::Text(t) if t == "xyz"));
    assert_eq!(fields[1].0, "vp_token");
    assert!(matches!(&fields[1].1, FormValue::Json(JsonValue::Array(a)) if a.is_empty()));
}

#[test]
fn reply_bodies_without_redirect() {
    assert_eq!(read_reply(200, "{}".to_string()), Ok(None));
    assert_eq!(read_reply(200, "not json".to_string()), Ok(None));
    assert_eq!(read_reply(200, "{\"redirect_uri\":5}".to_string()), Ok(None));
    assert_eq!(read_reply(200, "{\"redirect_uri\":\"no scheme\"}".to_string()), Ok(None));
    assert_eq!(
        read_reply(404, "missing".to_string()),
        Err(SubmitError::Status(404, "missing".to_string()))
    );
}

struct Handler {
    request: AuthorizationRequestObject,
    response: Result<AuthorizationResponse, String>,
}

impl PresentationHandler for Handler {
    fn request(&self) -> &AuthorizationRequestObject {
        &self.request
    }

    fn to_response(self) -> Result<AuthorizationResponse, String> {
        self.response
    }
}

fn request_in(mode: ResponseMode) -> AuthorizationRequestObject {
    AuthorizationRequestObject {
        client_id: "did:example:123".to_string(),
        response_mode: mode,
        return_uri: "https://v/cb".to_string(),
    }
}

#[test]
fn handler_response_is_submitted_in_request_mode() {
    let verifier = FakeVerifier {
        reply: Ok((200, "{\"redirect_uri\":\"https://x/done\"}".to_string())),
        posted: Cell::new(0),
    };
    let handler = Handler {
        request: request_in(ResponseMode::DirectPostJwt),
        response: Ok(AuthorizationResponse::Jwt("a.b.c".to_string())),
    };
    assert_eq!(submit_response(&verifier, handler), Ok(Some("https://x/done".to_string())));
    assert_eq!(verifier.posted.get(), 1);
    let handler = Handler {
        request: request_in(ResponseMode::DirectPost),
        response: Err("no credential".to_string()),
    };
    assert_eq!(
        submit_response(&verifier, handler),
        Err(SubmitError::Handler("no credential".to_string()))
    );
}

#[test]
fn non_empty_vec_clone_keeps_elements() {
    let n = NonEmptyVec::try_from(vec![3u8, 4u8]).unwrap();
    let c = n.clone();
    assert_eq!(c.into_inner(), vec![3u8, 4u8]);
    assert_eq!(n.len(), 2);
}

#[test]
fn trust_list_holding_the_did_changes_nothing() {
    let key = signing_key();
    let jwt = signed_request(&key, "did:example:123#key-1");
    let trusted = algs(&["did:example:123"]);
    let with_list = CountingResolver::new(Ok(vec![jws_method(&jwk_text(&key))]));
    let without = CountingResolver::new(Ok(vec![jws_method(&jwk_text(&key))]));
    let a = verify_with_resolver(&algs(&["ES256"]), "did:example:123", &jwt, Some(&trusted), &with_list);
    let b = verify_with_resolver(&algs(&["ES256"]), "did:example:123", &jwt, None, &without);
    assert_eq!(a, b);
    assert_eq!(a, Ok(()));
    assert_eq!(with_list.calls.get(), without.calls.get());
}

#[test]
fn vp_token_reencodes_to_same_text() {
    let json = JsonValue::Array(vec![text("AAEC_w"), JsonValue::Array(vec![text("CQ")])]);
    let back = VpToken::from_json(json).unwrap().into_json();
    match back {
        JsonValue::Array(a) => {
            assert!(matches!(&a[0], JsonValue::String(s) if s == "AAEC_w"));
            assert!(matches!(&a[1], JsonValue::Array(b) if matches!(&b[0], JsonValue::String(s) if s == "CQ")));
        }
        other => panic!("unexpected json {:?}", other),
    }
    assert_eq!(VpToken::from_json(text("AAEC_x")).err(), Some(ParameterError::InvalidBase64));
}

#[test]
fn post_outcome_maps_transport_failure_and_reply() {
    assert_eq!(
        read_post_outcome(Err("timeout".to_string())),
        Err(SubmitError::Network("timeout".to_string()))
    );
    assert_eq!(read_post_outcome(Ok((204, String::new()))), Ok(None));
    assert_eq!(
        read_post_outcome(Ok((503, "busy".to_string()))),
        Err(SubmitError::Status(503, "busy".to_string()))
    );
}

#[test]
fn handler_failure_is_reported_without_posting() {
    let verifier = FakeVerifier { reply: Ok((200, String::new())), posted: Cell::new(99) };
    let r = submit_handled_response(&verifier, &ResponseMode::DirectPost, "https://v/cb", Err("no vp".to_string()));
    assert_eq!(r, Err(SubmitError::Handler("no vp".to_string())));
    assert_eq!(verifier.posted.get(), 99);
    let r = submit_handled_response(&verifier, &ResponseMode::DirectPost, "https://v/cb", Ok(plain_response()));
    assert_eq!(r, Ok(None));
    assert_eq!(verifier.posted.get(), 2);
}
