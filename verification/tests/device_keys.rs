use base64::Engine;
use sha2::Digest;
use sprout_routes::device_keys::{
    check_package, decode, package_digest, decode_required, encode, key, package_generation, plan_registration,
    require_own_device, require_revocable, revocation_post_quantum_key, revocation_signatures,
    revocation_signing_bytes, rotated_key_version, transparency_entry_hash, ActivePackage,
    KeyAlgorithm, PublicKeyDescriptor, RegisterDeviceKeyPackage, RegistrationPlan,
    RevokeDeviceKeyPackage, REVOCATION_CONTEXT, TRANSPARENCY_CONTEXT,
};
use sprout_routes::error::{AppError, BadRequestReason};

fn b64(bytes: &[u8]) -> String {
    base64::engine::general_purpose::STANDARD.encode(bytes)
}

fn descriptor(algorithm: KeyAlgorithm, byte: u8) -> PublicKeyDescriptor {
    PublicKeyDescriptor {
        algorithm,
        key_id: format!("key-{byte}"),
        public_key: vec![byte; 4],
    }
}

fn request(classical: Option<&str>, post_quantum: Option<&str>) -> RegisterDeviceKeyPackage {
    RegisterDeviceKeyPackage {
        package_b64: b64(b"{}"),
        previous_classical_signature_b64: classical.map(String::from),
        previous_post_quantum_signature_b64: post_quantum.map(String::from),
    }
}

fn active(generation: i64, hash: Vec<u8>, post_quantum: Option<Vec<u8>>) -> ActivePackage {
    ActivePackage {
        key_version: 3,
        generation,
        package_hash: hash,
        ed25519_public_key: vec![7; 32],
        ml_dsa_65_public_key: post_quantum,
    }
}

#[test]
fn key_material_is_standard_padded_base64() {
    assert_eq!(decode("AQID").unwrap(), vec![1, 2, 3]);
    assert_eq!(encode(&[1, 2]), "AQI=");
    assert_eq!(decode(&encode(&[9, 8, 7, 6])).unwrap(), vec![9, 8, 7, 6]);
    assert_eq!(
        decode("AQI").unwrap_err(),
        AppError::BadRequest(BadRequestReason::InvalidBase64KeyMaterial)
    );
    assert_eq!(
        decode("***").unwrap_err(),
        AppError::BadRequest(BadRequestReason::InvalidBase64KeyMaterial)
    );
}

#[test]
fn required_fields_report_their_own_reason_when_absent() {
    assert_eq!(
        decode_required(None, BadRequestReason::RotationRequiresBothSignatures).unwrap_err(),
        AppError::BadRequest(BadRequestReason::RotationRequiresBothSignatures)
    );
    assert_eq!(
        decode_required(Some("AA=="), BadRequestReason::RotationRequiresBothSignatures).unwrap(),
        vec![0]
    );
    assert_eq!(
        decode_required(Some("!"), BadRequestReason::RotationRequiresBothSignatures).unwrap_err(),
        AppError::BadRequest(BadRequestReason::InvalidBase64KeyMaterial)
    );
}

#[test]
fn each_algorithm_must_appear_exactly_once() {
    let keys = vec![
        descriptor(KeyAlgorithm::X25519, 1),
        descriptor(KeyAlgorithm::Ed25519, 2),
        descriptor(KeyAlgorithm::X25519, 3),
    ];
    assert_eq!(key(&keys, KeyAlgorithm::Ed25519).unwrap(), 1);
    assert_eq!(
        key(&keys, KeyAlgorithm::X25519).unwrap_err(),
        AppError::BadRequest(BadRequestReason::DevicePackageKeyDuplicated)
    );
    assert_eq!(
        key(&keys, KeyAlgorithm::MlDsa65Experimental).unwrap_err(),
        AppError::BadRequest(BadRequestReason::DevicePackageKeyMissing)
    );
    assert_eq!(
        key(&[], KeyAlgorithm::MlKem768Experimental).unwrap_err(),
        AppError::BadRequest(BadRequestReason::DevicePackageKeyMissing)
    );
}

#[test]
fn revocation_bytes_are_context_device_version_and_hash() {
    let device = 0x00112233_4455_6677_8899_aabbccddeeffu128;
    let hash = vec![0xab; 32];
    let message = revocation_signing_bytes(device, 2, &hash);
    let mut expected = REVOCATION_CONTEXT.as_bytes().to_vec();
    expected.extend_from_slice(&device.to_be_bytes());
    expected.extend_from_slice(&2i32.to_be_bytes());
    expected.extend_from_slice(&hash);
    assert_eq!(message, expected);
    assert_ne!(message, revocation_signing_bytes(device, 3, &hash));
    assert_ne!(message, revocation_signing_bytes(device + 1, 2, &hash));
}

#[test]
fn transparency_hash_chains_to_the_previous_entry() {
    let identity = 5u128;
    let device = 6u128;
    let package_hash = [3u8; 32];
    let first = transparency_entry_hash(identity, device, 1, 0, "registered", &package_hash, None);
    let mut message = TRANSPARENCY_CONTEXT.as_bytes().to_vec();
    message.extend_from_slice(&identity.to_be_bytes());
    message.extend_from_slice(&device.to_be_bytes());
    message.extend_from_slice(&1i32.to_be_bytes());
    message.extend_from_slice(&0i64.to_be_bytes());
    message.extend_from_slice(b"registered");
    message.extend_from_slice(&package_hash);
    assert_eq!(first, sha2::Sha256::digest(&message).to_vec());

    let second =
        transparency_entry_hash(identity, device, 2, 1, "rotated", &package_hash, Some(&first));
    let mut message = TRANSPARENCY_CONTEXT.as_bytes().to_vec();
    message.extend_from_slice(&identity.to_be_bytes());
    message.extend_from_slice(&device.to_be_bytes());
    message.extend_from_slice(&2i32.to_be_bytes());
    message.extend_from_slice(&1i64.to_be_bytes());
    message.extend_from_slice(b"rotated");
    message.extend_from_slice(&package_hash);
    message.extend_from_slice(&first);
    assert_eq!(second, sha2::Sha256::digest(&message).to_vec());
}

#[test]
fn a_first_package_starts_the_history() {
    let plan = plan_registration(0, &[0; 32], None, &request(None, None)).unwrap();
    assert!(matches!(plan, RegistrationPlan::Initial));
}

#[test]
fn a_first_package_refuses_rotation_signatures() {
    assert_eq!(
        plan_registration(0, &[0; 32], None, &request(Some("AA=="), None)).unwrap_err(),
        AppError::BadRequest(BadRequestReason::InitialPackageHasRotationSignatures)
    );
    assert_eq!(
        plan_registration(0, &[0; 32], None, &request(None, Some("AA=="))).unwrap_err(),
        AppError::BadRequest(BadRequestReason::InitialPackageHasRotationSignatures)
    );
}

#[test]
fn a_first_package_must_be_generation_zero_with_a_zero_hash() {
    assert_eq!(
        plan_registration(1, &[0; 32], None, &request(None, None)).unwrap_err(),
        AppError::Conflict
    );
    let mut hash = [0u8; 32];
    hash[31] = 1;
    assert_eq!(
        plan_registration(0, &hash, None, &request(None, None)).unwrap_err(),
        AppError::Conflict
    );
}

#[test]
fn a_rotation_extends_the_current_package() {
    let current = active(4, vec![9; 32], Some(vec![1, 2, 3]));
    let plan = plan_registration(5, &[9; 32], Some(&current), &request(Some("AQ=="), Some("Ag==")))
        .unwrap();
    match plan {
        RegistrationPlan::Rotation {
            classical_signature,
            post_quantum_signature,
            previous_classical_key,
            previous_post_quantum_key,
            previous_key_version,
        } => {
            assert_eq!(previous_classical_key, vec![7; 32]);
            assert_eq!(classical_signature, vec![1]);
            assert_eq!(post_quantum_signature, vec![2]);
            assert_eq!(previous_post_quantum_key, vec![1, 2, 3]);
            assert_eq!(previous_key_version, 3);
        }
        RegistrationPlan::Initial => panic!("a rotation was expected"),
    }
}

#[test]
fn a_rotation_out_of_sequence_is_a_conflict() {
    let current = active(4, vec![9; 32], Some(vec![1]));
    let signed = request(Some("AQ=="), Some("Ag=="));
    assert_eq!(
        plan_registration(6, &[9; 32], Some(&current), &signed).unwrap_err(),
        AppError::Conflict
    );
    assert_eq!(
        plan_registration(5, &[8; 32], Some(&current), &signed).unwrap_err(),
        AppError::Conflict
    );
    assert_eq!(
        plan_registration(0, &[0; 32], Some(&current), &signed).unwrap_err(),
        AppError::Conflict
    );
}

#[test]
fn a_rotation_needs_both_signatures_and_a_post_quantum_key() {
    let current = active(0, vec![9; 32], Some(vec![1]));
    assert_eq!(
        plan_registration(1, &[9; 32], Some(&current), &request(Some("AQ=="), None)).unwrap_err(),
        AppError::BadRequest(BadRequestReason::RotationRequiresBothSignatures)
    );
    assert_eq!(
        plan_registration(1, &[9; 32], Some(&current), &request(None, Some("AQ=="))).unwrap_err(),
        AppError::BadRequest(BadRequestReason::RotationRequiresBothSignatures)
    );
    assert_eq!(
        plan_registration(1, &[9; 32], Some(&current), &request(Some("%"), Some("AQ=="))).unwrap_err(),
        AppError::BadRequest(BadRequestReason::InvalidBase64KeyMaterial)
    );
    let legacy = active(0, vec![9; 32], None);
    assert_eq!(
        plan_registration(1, &[9; 32], Some(&legacy), &request(Some("AQ=="), Some("AQ=="))).unwrap_err(),
        AppError::BadRequest(BadRequestReason::LegacyKeysCannotRotate)
    );
    let corrupt = active(-1, vec![9; 32], Some(vec![1]));
    assert_eq!(
        plan_registration(0, &[9; 32], Some(&corrupt), &request(Some("AQ=="), Some("AQ=="))).unwrap_err(),
        AppError::Internal
    );
}

#[test]
fn key_versions_and_generations_stay_in_range() {
    assert_eq!(rotated_key_version(1).unwrap(), 2);
    assert_eq!(
        rotated_key_version(i32::MAX).unwrap_err(),
        AppError::BadRequest(BadRequestReason::DeviceKeyVersionExhausted)
    );
    assert_eq!(package_generation(7).unwrap(), 7);
    assert_eq!(package_generation(i64::MAX as u64).unwrap(), i64::MAX);
    assert_eq!(
        package_generation(i64::MAX as u64 + 1).unwrap_err(),
        AppError::BadRequest(BadRequestReason::GenerationTooLarge)
    );
}

#[test]
fn packages_must_name_the_device_and_be_canonical() {
    assert!(check_package(1, 1, true, true).is_ok());
    for (a, b, c, d) in [(2, 1, true, true), (1, 1, false, true), (1, 1, true, false)] {
        assert_eq!(
            check_package(a, b, c, d).unwrap_err(),
            AppError::BadRequest(BadRequestReason::InvalidDeviceKeyPackage)
        );
    }
}

#[test]
fn devices_manage_only_their_own_keys() {
    assert!(require_own_device(4, 4).is_ok());
    assert_eq!(require_own_device(4, 5).unwrap_err(), AppError::Forbidden);
    assert!(require_revocable(4, 4, 1).is_ok());
    assert_eq!(require_revocable(4, 4, 0).unwrap_err(), AppError::Forbidden);
    assert_eq!(require_revocable(4, 5, 1).unwrap_err(), AppError::Forbidden);
}

#[test]
fn revocation_requests_decode_both_signatures_in_order() {
    let good = RevokeDeviceKeyPackage {
        classical_signature_b64: b64(&[1, 2]),
        post_quantum_signature_b64: b64(&[3]),
    };
    assert_eq!(revocation_signatures(&good).unwrap(), (vec![1, 2], vec![3]));
    let bad = RevokeDeviceKeyPackage {
        classical_signature_b64: "AQI=".into(),
        post_quantum_signature_b64: "?".into(),
    };
    assert_eq!(
        revocation_signatures(&bad).unwrap_err(),
        AppError::BadRequest(BadRequestReason::InvalidBase64KeyMaterial)
    );
}

#[test]
fn legacy_packages_cannot_be_revoked_by_signature() {
    let modern = active(0, vec![1; 32], Some(vec![4, 5]));
    assert_eq!(revocation_post_quantum_key(&modern).unwrap(), &vec![4, 5]);
    let legacy = active(0, vec![1; 32], None);
    assert_eq!(revocation_post_quantum_key(&legacy).unwrap_err(), AppError::Forbidden);
}

#[test]
fn transparency_entries_commit_to_what_they_record() {
    let base = transparency_entry_hash(1, 2, 3, 4, "rotated", &[5; 32], Some(&[6; 32]));
    assert_ne!(base, transparency_entry_hash(9, 2, 3, 4, "rotated", &[5; 32], Some(&[6; 32])));
    assert_ne!(base, transparency_entry_hash(1, 9, 3, 4, "rotated", &[5; 32], Some(&[6; 32])));
    assert_ne!(base, transparency_entry_hash(1, 2, 9, 4, "rotated", &[5; 32], Some(&[6; 32])));
    assert_ne!(base, transparency_entry_hash(1, 2, 3, 9, "rotated", &[5; 32], Some(&[6; 32])));
    assert_ne!(base, transparency_entry_hash(1, 2, 3, 4, "rotated", &[9; 32], Some(&[6; 32])));
    assert_ne!(base, transparency_entry_hash(1, 2, 3, 4, "rotated", &[5; 32], Some(&[9; 32])));
    assert_ne!(base, transparency_entry_hash(1, 2, 3, 4, "rotated", &[5; 32], None));
    assert_eq!(base, transparency_entry_hash(1, 2, 3, 4, "rotated", &[5; 32], Some(&[6; 32])));
}

#[test]
fn registered_packages_are_hashed_as_decoded() {
    let package = br#"{"device_id":"x"}"#;
    let (bytes, hash) = package_digest(&b64(package)).unwrap();
    assert_eq!(bytes, package.to_vec());
    assert_eq!(hash, sha2::Sha256::digest(package).to_vec());
    assert_eq!(
        package_digest("not base64").unwrap_err(),
        AppError::BadRequest(BadRequestReason::InvalidBase64KeyMaterial)
    );
}
