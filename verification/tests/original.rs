use sprout_routes::agent_tools::commitment;
use sprout_routes::agents::{source_columns, validate_identity_handle, InformationSource, SensitiveToken};
use sprout_routes::assignments::decode;

#[test]
fn runner_tokens_are_redacted_from_debug_output() {
    let token = SensitiveToken::new("secret-bootstrap-token".into());
    assert!(!token.debug_text().contains("secret-bootstrap-token"));
}

#[test]
fn agent_handles_are_canonical_and_bounded() {
    assert!(validate_identity_handle("agent-alpha").is_ok());
    assert!(validate_identity_handle("Agent Alpha").is_err());
    assert!(validate_identity_handle("a").is_err());
}

#[test]
fn source_columns_do_not_confuse_resource_and_record_ids() {
    let resource_id = uuid::Uuid::new_v4().as_u128();
    let document_id = uuid::Uuid::new_v4().as_u128();
    assert_eq!(
        source_columns(&InformationSource::InfoDocument {
            resource_id,
            document_id,
        }),
        ("info_document", Some(resource_id), Some(document_id))
    );
}

#[test]
fn commitment_is_exactly_sha256_sized() {
    assert!(commitment(&"00".repeat(32)).is_ok());
    assert!(commitment(&"00".repeat(31)).is_err());
}

#[test]
fn assignment_payloads_remain_opaque() {
    assert_eq!(decode("AQI=").unwrap(), vec![1, 2]);
    assert!(decode("not base64!").is_err());
}
