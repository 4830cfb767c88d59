use sha2::Digest;
use sprout_routes::agent_tools::commitment;
use sprout_routes::codec::{bytes_equal, derive_id, push_be_bytes, sha256_digest};
use sprout_routes::device_keys::transparency_entry_hash;
use sprout_routes::domain::{
    create_metadata_entity, create_resource, create_task, decode, encode, CreateMetadataEntity,
    CreateResource, CreateTask, MetadataKind, NodeKind,
};
use sprout_routes::error::{AppError, BadRequestReason};

#[test]
fn hex_decoding_accepts_both_cases_and_refuses_odd_or_foreign_text() {
    assert_eq!(commitment(&"0aFf".repeat(16)).unwrap(), [0x0a, 0xff].repeat(16));
    assert_eq!(
        commitment(&format!("{}a", "00".repeat(32))).unwrap_err(),
        AppError::BadRequest(BadRequestReason::InvalidCommitment)
    );
    assert_eq!(
        commitment(&format!("zz{}", "00".repeat(31))).unwrap_err(),
        AppError::BadRequest(BadRequestReason::InvalidCommitment)
    );
    assert_eq!(
        commitment("").unwrap_err(),
        AppError::BadRequest(BadRequestReason::InvalidCommitment)
    );
}

#[test]
fn sha256_hashes_the_whole_message() {
    let digest = transparency_entry_hash(1, 2, 1, 0, "registered", &[0; 32], None);
    assert_eq!(digest.len(), 32);
    let mut message = b"sprout-device-key-transparency-v1".to_vec();
    message.extend_from_slice(&1u128.to_be_bytes());
    message.extend_from_slice(&2u128.to_be_bytes());
    message.extend_from_slice(&1i32.to_be_bytes());
    message.extend_from_slice(&0i64.to_be_bytes());
    message.extend_from_slice(b"registered");
    message.extend_from_slice(&[0; 32]);
    assert_eq!(digest, sha2::Sha256::digest(&message).to_vec());
    assert_ne!(digest, message[..32].to_vec());
}

#[test]
fn big_endian_bytes_of_identifiers() {
    let mut out = vec![9u8];
    push_be_bytes(&mut out, 0x0102_0304, 4);
    assert_eq!(out, vec![9, 1, 2, 3, 4]);
    let mut id = Vec::new();
    let uuid = uuid::Uuid::from_u128(0x00112233_4455_6677_8899_aabbccddeeff);
    push_be_bytes(&mut id, uuid.as_u128(), 16);
    assert_eq!(id.as_slice(), uuid.as_bytes());
}

#[test]
fn byte_equality() {
    assert!(bytes_equal(&[1, 2], &[1, 2]));
    assert!(!bytes_equal(&[1, 2], &[1, 3]));
    assert!(!bytes_equal(&[1], &[1, 1]));
}

#[test]
fn derived_ids_hash_domain_context_and_parts() {
    let id = derive_id(b"dom", b"ctx", &[1u128, 2u128]);
    let mut hasher = sha2::Sha256::new();
    hasher.update(b"dom");
    hasher.update(b"ctx");
    hasher.update(uuid::Uuid::from_u128(1).as_bytes());
    hasher.update(uuid::Uuid::from_u128(2).as_bytes());
    let hash: [u8; 32] = hasher.finalize().into();
    let mut expected = [0u8; 16];
    expected.copy_from_slice(&hash[..16]);
    expected[6] = (expected[6] & 0x0f) | 0x80;
    expected[8] = (expected[8] & 0x3f) | 0x80;
    assert_eq!(id, expected.to_vec());
    assert_eq!(id[6] >> 4, 8);
    assert_eq!(id[8] >> 6, 2);
}

#[test]
fn node_kinds_have_their_stored_names() {
    assert_eq!(NodeKind::Topic.as_str(), "topic");
    assert_eq!(NodeKind::TaskList.as_str(), "task_list");
    assert_eq!(NodeKind::Task.as_str(), "task");
    assert_eq!(NodeKind::File.as_str(), "file");
    assert_eq!(NodeKind::Other.as_str(), "other");
}

#[test]
fn metadata_entities_start_in_their_kind_state() {
    assert_eq!(MetadataKind::Preset.initial_state(), "active");
    assert_eq!(MetadataKind::Questionnaire.initial_state(), "draft");
}

#[test]
fn domain_payloads_decode_and_encode_base64() {
    assert_eq!(decode("AQI=").unwrap(), vec![1, 2]);
    assert_eq!(
        decode("***"),
        Err(AppError::BadRequest(BadRequestReason::InvalidBase64Payload))
    );
    assert_eq!(encode(vec![1, 2]), "AQI=");
    assert_eq!(BadRequestReason::InvalidBase64Payload.message(), "invalid base64 payload");
}

#[test]
fn resource_creation_needs_nonempty_metadata() {
    let ok = create_resource(&CreateResource {
        id: 7,
        parent_id: 8,
        kind: NodeKind::File,
        encrypted_metadata_b64: "AQI=".into(),
    })
    .unwrap();
    assert_eq!((ok.id, ok.parent_id, ok.node_kind), (7, 8, "file"));
    assert_eq!(ok.encrypted_metadata, vec![1, 2]);
    let empty = create_resource(&CreateResource {
        id: 7,
        parent_id: 8,
        kind: NodeKind::File,
        encrypted_metadata_b64: "".into(),
    });
    assert_eq!(
        empty.err(),
        Some(AppError::BadRequest(BadRequestReason::EmptyResourceMetadata))
    );
    assert_eq!(
        BadRequestReason::EmptyResourceMetadata.message(),
        "encrypted resource metadata is empty"
    );
}

#[test]
fn task_and_metadata_creation_need_nonempty_payloads() {
    let task = CreateTask {
        id: 1,
        task_list_id: 2,
        resource_node_id: 3,
        encrypted_payload_b64: "".into(),
    };
    assert_eq!(
        create_task(&task),
        Err(AppError::BadRequest(BadRequestReason::EmptyTaskPayload))
    );
    let entity = CreateMetadataEntity {
        id: 1,
        encrypted_metadata_b64: "AQ==".into(),
    };
    assert_eq!(
        create_metadata_entity(&entity, MetadataKind::Questionnaire),
        Ok((vec![1], "draft"))
    );
    let bad = CreateMetadataEntity {
        id: 1,
        encrypted_metadata_b64: "not base64!".into(),
    };
    assert_eq!(
        create_metadata_entity(&bad, MetadataKind::Preset),
        Err(AppError::BadRequest(BadRequestReason::InvalidBase64Payload))
    );
    let empty = CreateMetadataEntity {
        id: 1,
        encrypted_metadata_b64: "".into(),
    };
    assert_eq!(
        create_metadata_entity(&empty, MetadataKind::Preset),
        Err(AppError::BadRequest(BadRequestReason::EmptyMetadata))
    );
}

#[test]
fn sha256_digest_of_known_text() {
    assert_eq!(
        hex::encode(sha256_digest(b"abc")),
        "ba7816bf8f01cfea414140de5dae2223b00361a396177a9cb410ff61f20015ad"
    );
    assert_eq!(sha256_digest(b"").len(), 32);
}
