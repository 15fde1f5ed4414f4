use p256::ecdsa::signature::Verifier;

use oid4vp::credential_format::{ClaimFormat, ClaimFormatDesignation, ClaimFormatMap, ClaimFormatPayload};
use oid4vp::json::JsonValue;
use oid4vp::presentation_submission::{DescriptorMap, PresentationSubmission as Submission};
use oid4vp::request_signer::{P256Signer, SignerError};
use oid4vp::response_parameters::{ParameterError, PresentationSubmission};

fn s(t: &str) -> JsonValue {
    JsonValue::String(t.to_string())
}

fn strings(list: &[&str]) -> JsonValue {
    JsonValue::Array(list.iter().map(|t| s(t)).collect())
}

fn obj(members: Vec<(&str, JsonValue)>) -> JsonValue {
    JsonValue::Object(members.into_iter().map(|(k, v)| (k.to_string(), v)).collect())
}

#[test]
fn test_credential_format_serialization() {
    let value = obj(vec![(
        "claim_formats_supported",
        obj(vec![
            (
                "jwt_vc",
                obj(vec![
                    ("alg", strings(&["ES256", "EdDSA"])),
                    ("proof_type", strings(&["JsonWebSignature2020"])),
                ]),
            ),
            (
                "ldp_vc",
                obj(vec![(
                    "proof_type",
                    strings(&["Ed25519Signature2018", "EcdsaSecp256k1Signature2019"]),
                )]),
            ),
            (
                "sd_jwt_vc",
                obj(vec![("alg", strings(&["ES256", "ES384"])), ("kb_jwt_alg", strings(&["ES256"]))]),
            ),
            (
                "com.example.custom_vc",
                obj(vec![
                    ("version", s("1.0")),
                    ("encryption", strings(&["AES-GCM"])),
                    ("signature", strings(&["ED25519"])),
                ]),
            ),
        ]),
    )]);
    let supported = match value {
        JsonValue::Object(mut m) => m.remove(0).1,
        _ => unreachable!(),
    };
    let claim_format_map = ClaimFormatMap::from_json(supported).expect("Failed to parse claim format map");

    assert!(claim_format_map.contains_key(&ClaimFormatDesignation::JwtVc));
    assert!(claim_format_map.contains_key(&ClaimFormatDesignation::LdpVc));
    assert!(claim_format_map.contains_key(&ClaimFormatDesignation::SdJwtVc));
    assert!(claim_format_map.contains_key(&ClaimFormatDesignation::Other(
        "com.example.custom_vc".to_string()
    )));
}

#[test]
fn claim_format_payloads_read_by_shape() {
    let map = ClaimFormatMap::from_json(obj(vec![
        ("ldp_vc", obj(vec![("proof_type", strings(&["Ed25519Signature2018"]))])),
        ("jwt_vc_json", obj(vec![("alg_values_supported", strings(&["ES256"]))])),
        ("jwt_vc", obj(vec![("alg", strings(&["ES256"])), ("proof_type", strings(&[]))])),
        ("mso_mdoc", obj(vec![("alg", JsonValue::Array(vec![JsonValue::Null]))])),
    ]))
    .unwrap();
    assert_eq!(map.len(), 4);
    assert!(matches!(
        map.get(&ClaimFormatDesignation::LdpVc),
        Some(ClaimFormatPayload::ProofType(v)) if v == &vec!["Ed25519Signature2018".to_string()]
    ));
    assert!(matches!(
        map.get(&ClaimFormatDesignation::JwtVcJson),
        Some(ClaimFormatPayload::AlgValuesSupported(v)) if v == &vec!["ES256".to_string()]
    ));
    assert!(matches!(map.get(&ClaimFormatDesignation::JwtVc), Some(ClaimFormatPayload::Json(_))));
    assert!(matches!(map.get(&ClaimFormatDesignation::MsoMDoc), Some(ClaimFormatPayload::Json(_))));
    assert!(map.get(&ClaimFormatDesignation::Jwt).is_none());
    assert_eq!(ClaimFormatMap::from_json(JsonValue::Null).err(), Some(ParameterError::ExpectedObject));
}

#[test]
fn claim_format_map_later_entry_stands() {
    let mut map = ClaimFormatMap::new();
    map.insert(ClaimFormatDesignation::Jwt, ClaimFormatPayload::Alg(vec![]));
    map.insert(ClaimFormatDesignation::Jwt, ClaimFormatPayload::ProofType(vec![]));
    map.insert(ClaimFormatDesignation::Other("x".to_string()), ClaimFormatPayload::Json(JsonValue::Null));
    assert_eq!(map.len(), 2);
    assert!(matches!(map.get(&ClaimFormatDesignation::Jwt), Some(ClaimFormatPayload::ProofType(_))));
    assert!(map.contains_key(&ClaimFormatDesignation::Other("x".to_string())));
    assert!(!map.contains_key(&ClaimFormatDesignation::Other("y".to_string())));
}

fn submission_json(nested: Option<JsonValue>) -> JsonValue {
    let mut map = vec![
        ("id", s("d1")),
        ("format", s("jwt_vp")),
        ("path", s("$")),
        ("vendor", s("kept")),
    ];
    if let Some(n) = nested {
        map.push(("path_nested", n));
    }
    obj(vec![
        ("id", s("67e55044-10b1-426f-9247-bb680e5fe0c8")),
        ("definition_id", s("def-1")),
        ("descriptor_map", JsonValue::Array(vec![obj(map)])),
        ("x-extension", JsonValue::Bool(true)),
    ])
}

#[test]
fn presentation_submission_reads_typed_and_keeps_raw() {
    let nested = obj(vec![("id", s("other")), ("format", s("jwt_vc")), ("path", s("$.vp.vc[0]"))]);
    let raw = submission_json(Some(nested));
    let wire = PresentationSubmission::from_json(raw).expect("reads");
    let parsed = wire.parsed();
    assert_eq!(parsed.definition_id(), "def-1");
    assert_eq!(uuid::Uuid::from_u128(parsed.id()).to_string(), "67e55044-10b1-426f-9247-bb680e5fe0c8");
    let d = &parsed.descriptor_map()[0];
    assert_eq!(d.id(), "d1");
    assert_eq!(d.format(), &ClaimFormatDesignation::JwtVp);
    let n = d.path_nested().expect("nested");
    assert_eq!(n.id(), "other");
    assert_eq!(n.path(), "$.vp.vc[0]");
    match wire.into_json() {
        JsonValue::Object(m) => {
            assert_eq!(m.len(), 4);
            assert_eq!(m[3].0, "x-extension");
        }
        other => panic!("unexpected {:?}", other),
    }
}

#[test]
fn presentation_submission_rejects_bad_shapes() {
    let bad_id = obj(vec![
        ("id", s("not-a-uuid")),
        ("definition_id", s("def-1")),
        ("descriptor_map", JsonValue::Array(vec![])),
    ]);
    assert_eq!(
        PresentationSubmission::from_json(bad_id).err(),
        Some(ParameterError::InvalidPresentationSubmission)
    );
    let bad_nested = submission_json(Some(s("not an object")));
    assert!(PresentationSubmission::from_json(bad_nested).is_err());
    let null_nested = submission_json(Some(JsonValue::Null));
    let wire = PresentationSubmission::from_json(null_nested).expect("null means none");
    assert!(wire.into_parsed().descriptor_map()[0].path_nested().is_none());
}

#[test]
fn presentation_submission_from_parsed_writes_json() {
    let id = uuid::Uuid::parse_str("67e55044-10b1-426f-9247-bb680e5fe0c8").unwrap();
    let map = DescriptorMap::new("A", ClaimFormatDesignation::LdpVp, "$".to_string())
        .set_path_nested(DescriptorMap::new("B", ClaimFormatDesignation::LdpVc, "$.x".to_string()));
    let wire = PresentationSubmission::from_parsed(Submission::new(id.as_u128(), "def".to_string(), vec![map]));
    let raw = wire.into_json();
    let back = PresentationSubmission::from_json(raw).expect("reads back");
    let parsed = back.into_parsed();
    assert_eq!(parsed.id(), id.as_u128());
    assert_eq!(parsed.definition_id(), "def");
    let d = &parsed.descriptor_map()[0];
    assert_eq!(d.format(), &ClaimFormatDesignation::LdpVp);
    assert_eq!(d.path_nested().unwrap().id(), "A");
    assert_eq!(d.path_nested().unwrap().format(), &ClaimFormatDesignation::LdpVc);
}

#[test]
fn p256_signer_signs_verifiably() {
    let signer = P256Signer::new(vec![7u8; 32]).expect("valid key");
    assert_eq!(signer.alg(), "ES256");
    let sig = signer.sign(b"payload");
    assert_eq!(sig.len(), 64);
    let key = p256::ecdsa::SigningKey::from_slice(&[7u8; 32]).unwrap();
    let signature = p256::ecdsa::Signature::from_slice(&sig).unwrap();
    assert!(key.verifying_key().verify(b"payload", &signature).is_ok());
    assert_eq!(signer.sign(b"payload"), sig);
    assert_ne!(signer.sign(b"other"), sig);
    let jwk = serde_json::to_value(signer.jwk()).unwrap();
    assert_eq!(jwk["crv"], "P-256");
}

#[test]
fn p256_signer_rejects_bad_secret() {
    assert_eq!(P256Signer::new(vec![0u8; 32]).err(), Some(SignerError::InvalidKey));
    assert_eq!(P256Signer::new(vec![1u8; 5]).err(), Some(SignerError::InvalidKey));
}

#[test]
fn claim_format_reads_registered_and_other_shapes() {
    let f = ClaimFormat::from_json(obj(vec![("jwt_vp", obj(vec![("alg", strings(&["ES256"]))]))]));
    assert!(matches!(&f, ClaimFormat::JwtVp { alg } if alg == &vec!["ES256".to_string()]));
    assert_eq!(f.designation(), ClaimFormatDesignation::JwtVp);
    let f = ClaimFormat::from_json(obj(vec![(
        "ldp_vc",
        obj(vec![("proof_type", strings(&["Ed25519Signature2018"])), ("extra", JsonValue::Null)]),
    )]));
    assert!(matches!(&f, ClaimFormat::LdpVc { proof_type } if proof_type.len() == 1));
    let f = ClaimFormat::from_json(obj(vec![("mso_mdoc", obj(vec![("alg", strings(&["ES256"]))]))]));
    assert!(matches!(&f, ClaimFormat::MsoMDoc(JsonValue::Object(m)) if m.len() == 1));
    let f = ClaimFormat::from_json(obj(vec![("jwt", obj(vec![("proof_type", strings(&[]))]))]));
    assert!(matches!(&f, ClaimFormat::Other(_)));
    assert_eq!(f.designation(), ClaimFormatDesignation::Other("jwt".to_string()));
    let f = ClaimFormat::from_json(obj(vec![("vendor_vc", obj(vec![])), ("second", JsonValue::Null)]));
    assert_eq!(f.designation(), ClaimFormatDesignation::Other("vendor_vc".to_string()));
}

#[test]
fn claim_format_map_later_duplicate_stands() {
    let map = ClaimFormatMap::from_json(obj(vec![
        ("jwt", obj(vec![("alg", strings(&["ES256"]))])),
        ("jwt", obj(vec![("alg", strings(&["EdDSA"]))])),
    ]))
    .unwrap();
    assert_eq!(map.len(), 1);
    assert!(matches!(
        map.get(&ClaimFormatDesignation::Jwt),
        Some(ClaimFormatPayload::Alg(v)) if v == &vec!["EdDSA".to_string()]
    ));
}

#[test]
fn claim_format_writes_and_reads_back() {
    let json = ClaimFormat::LdpVp { proof_type: vec!["Ed25519Signature2018".to_string()] }.into_json();
    match &json {
        JsonValue::Object(m) => {
            assert_eq!(m.len(), 1);
            assert_eq!(m[0].0, "ldp_vp");
        }
        other => panic!("unexpected {:?}", other),
    }
    let back = ClaimFormat::from_json(json);
    assert!(matches!(&back, ClaimFormat::LdpVp { proof_type } if proof_type == &vec!["Ed25519Signature2018".to_string()]));
    let other = ClaimFormat::Other(obj(vec![("x", JsonValue::Null)])).into_json();
    assert!(matches!(&other, JsonValue::Object(m) if m[0].0 == "x"));
}

#[test]
fn claim_format_map_writes_entries_in_order() {
    let mut map = ClaimFormatMap::new();
    map.insert(ClaimFormatDesignation::JwtVc, ClaimFormatPayload::Alg(vec!["ES256".to_string()]));
    map.insert(ClaimFormatDesignation::Other("vendor".to_string()), ClaimFormatPayload::Json(JsonValue::Bool(true)));
    match map.into_json() {
        JsonValue::Object(m) => {
            assert_eq!(m.len(), 2);
            assert_eq!(m[0].0, "jwt_vc");
            assert!(matches!(&m[0].1, JsonValue::Object(inner) if inner[0].0 == "alg"));
            assert_eq!(m[1].0, "vendor");
            assert!(matches!(&m[1].1, JsonValue::Bool(true)));
        }
        other => panic!("unexpected {:?}", other),
    }
    let payload = ClaimFormatPayload::AlgValuesSupported(vec!["ES384".to_string()]).into_json();
    assert!(matches!(ClaimFormatPayload::from_json(payload), ClaimFormatPayload::AlgValuesSupported(v) if v == vec!["ES384".to_string()]));
}

#[test]
fn designation_from_test_keys() {
    assert_eq!(ClaimFormatDesignation::from("jwt_vc"), ClaimFormatDesignation::JwtVc);
    assert_eq!(ClaimFormatDesignation::from("ldp_vc"), ClaimFormatDesignation::LdpVc);
    assert_eq!(ClaimFormatDesignation::from("sd_jwt_vc"), ClaimFormatDesignation::SdJwtVc);
    assert_eq!(
        ClaimFormatDesignation::from("com.example.custom_vc"),
        ClaimFormatDesignation::Other("com.example.custom_vc".to_string())
    );
    assert_eq!(String::from(ClaimFormat::AcVp { proof_type: vec![] }.designation()), "ac_vp");
}
