//! Device key packages: registration and rotation, revocation, and the
//! per-device transparency log.
use vstd::prelude::*;
use vstd::string::StringSliceAdditionalSpecFns;
use crate::codec::{
    base64_decode, base64_encode, base64_decoding, base64_encoding, be_bytes,
    push_all, push_be_bytes, sha256, sha256_of, uuid_bytes, lemma_be_bytes_len, bytes_equal, all_zero, i32_bits, i64_bits, lemma_pow256_values,
};
use crate::error::{AppError, BadRequestReason, bytes_of};

verus! {

/// Domain separation of the signatures that authorize a key rotation.
pub const ROTATION_CONTEXT: &'static str = "sprout-device-key-rotation-v1";

/// Domain separation of the signatures that authorize a revocation.
pub const REVOCATION_CONTEXT: &'static str = "sprout-device-key-revocation-v1";

/// Domain separation of transparency-log entry hashes.
pub const TRANSPARENCY_CONTEXT: &'static str = "sprout-device-key-transparency-v1";

/// The suite status reported with every package of the experimental suite.
pub const SUITE_STATUS: &'static str = "experimental_not_production_approved";

/// What `decode` answers for a text.
pub open spec fn decode_result(value: Seq<char>) -> Result<Seq<u8>, AppError> {
    match base64_decoding(value) {
        Some(bytes) => Ok(bytes),
        None => Err(AppError::BadRequest(BadRequestReason::InvalidBase64KeyMaterial)),
    }
}

/// Decodes base64 key material; anything else is a bad request.
pub fn decode(value: &str) -> (r: Result<Vec<u8>, AppError>)
    ensures
        bytes_of(r) == decode_result(value@),
{
    match base64_decode(value) {
        Some(v) => Ok(v),
        None => Err(AppError::BadRequest(BadRequestReason::InvalidBase64KeyMaterial)),
    }
}

/// What `decode_required` answers.
pub open spec fn decode_required_result(value: Option<Seq<char>>, missing: BadRequestReason) -> Result<Seq<u8>, AppError> {
    match value {
        Some(text) => decode_result(text),
        None => Err(AppError::BadRequest(missing)),
    }
}

/// Decodes a field that must be present: an absent field is the bad request
/// `missing`, a present one is decoded.
pub fn decode_required(value: Option<&str>, missing: BadRequestReason) -> (r: Result<Vec<u8>, AppError>)
    ensures
        bytes_of(r) == decode_required_result(
            match value { Some(t) => Some(t@), None => None }, missing),
{
    match value {
        Some(text) => decode(text),
        None => Err(AppError::BadRequest(missing)),
    }
}

/// Encodes key material as padded standard base64; what it encodes,
/// `decode` gives back.
pub fn encode(value: &[u8]) -> (s: String)
    requires
        (value@.len() / 3) * 4 + 4 <= usize::MAX,
    ensures
        s@ == base64_encoding(value@),
        decode_result(s@) == Ok::<Seq<u8>, AppError>(value@),
{
    proof {
        crate::codec::lemma_base64_decoding_of_encoding(value@);
    }
    base64_encode(value)
}

/// Decodes a registered package and computes its hash: the package bytes and
/// their SHA-256, which the key history and the transparency log record;
/// malformed base64 is refused as by `decode`.
pub fn package_digest(package_b64: &str) -> (r: Result<(Vec<u8>, Vec<u8>), AppError>)
    ensures
        match r {
            Ok((bytes, hash)) => decode_result(package_b64@) == Ok::<Seq<u8>, AppError>(bytes@)
                && hash@ == sha256_of(bytes@) && hash@.len() == 32,
            Err(e) => decode_result(package_b64@) == Err::<Seq<u8>, AppError>(e),
        },
{
    let bytes = decode(package_b64)?;
    let hash = sha256(bytes.as_slice());
    Ok((bytes, hash))
}

/// The algorithm of a public key in a device package.
#[derive(Clone, Copy, Debug, PartialEq, Eq, Structural)]
pub enum KeyAlgorithm {
    X25519,
    MlKem768Experimental,
    Ed25519,
    MlDsa65Experimental,
}

/// A public key of a device package.
pub struct PublicKeyDescriptor {
    pub algorithm: KeyAlgorithm,
    pub key_id: String,
    pub public_key: Vec<u8>,
}

/// The positions of the keys of an algorithm.
pub open spec fn matching_keys(keys: Seq<PublicKeyDescriptor>, algorithm: KeyAlgorithm) -> Set<int> {
    Set::new(|i: int| 0 <= i < keys.len() && keys[i].algorithm == algorithm)
}

/// Finds the one key of `algorithm`: a package without such a key, or with two,
/// is a bad request. Answers the key's position.
pub fn key(keys: &[PublicKeyDescriptor], algorithm: KeyAlgorithm) -> (r: Result<usize, AppError>)
    ensures
        match r {
            Ok(i) => {
                &&& i < keys@.len()
                &&& keys@[i as int].algorithm == algorithm
                &&& forall|j: int| 0 <= j < keys@.len() && j != i ==> keys@[j].algorithm != algorithm
            },
            Err(e) => {
                ||| e == AppError::BadRequest(BadRequestReason::DevicePackageKeyMissing)
                    && forall|j: int| 0 <= j < keys@.len() ==> keys@[j].algorithm != algorithm
                ||| e == AppError::BadRequest(BadRequestReason::DevicePackageKeyDuplicated)
                    && exists|j: int, k: int| 0 <= j < k < keys@.len()
                        && keys@[j].algorithm == algorithm && keys@[k].algorithm == algorithm
            },
        },
{
    let mut found: Option<usize> = None;
    let n = keys.len();
    for i in 0..n
        invariant
            n == keys@.len(),
            match found {
                Some(f) => f < i && keys@[f as int].algorithm == algorithm
                    && forall|j: int| 0 <= j < i && j != f ==> keys@[j].algorithm != algorithm,
                None => forall|j: int| 0 <= j < i ==> keys@[j].algorithm != algorithm,
            },
    {
        if keys[i].algorithm == algorithm {
            match found {
                Some(f) => {
                    assert(keys@[f as int].algorithm == algorithm && keys@[i as int].algorithm == algorithm);
                    return Err(AppError::BadRequest(BadRequestReason::DevicePackageKeyDuplicated));
                },
                None => {
                    found = Some(i);
                },
            }
        }
    }
    match found {
        Some(f) => Ok(f),
        None => Err(AppError::BadRequest(BadRequestReason::DevicePackageKeyMissing)),
    }
}

/// The bytes that a device signs to revoke one of its key versions.
pub open spec fn revocation_message(device_id: u128, key_version: i32, package_hash: Seq<u8>) -> Seq<u8> {
    REVOCATION_CONTEXT.spec_bytes() + uuid_bytes(device_id) + be_bytes(i32_bits(key_version) as nat, 4)
        + package_hash
}

/// The bytes that a device signs to revoke one of its key versions: the
/// revocation context, the device id, the key version (big-endian) and the
/// package hash.
pub fn revocation_signing_bytes(device_id: u128, key_version: i32, package_hash: &[u8]) -> (message: Vec<u8>)
    ensures
        message@ == revocation_message(device_id, key_version, package_hash@),
{
    let mut message: Vec<u8> = Vec::new();
    push_all(&mut message, REVOCATION_CONTEXT.as_bytes());
    push_be_bytes(&mut message, device_id, 16);
    push_be_bytes(&mut message, key_version as u32 as u128, 4);
    push_all(&mut message, package_hash);
    assert(message@ =~= revocation_message(device_id, key_version, package_hash@));
    message
}

/// A revocation message determines the device, the key version and the package
/// hash that it revokes.
pub proof fn revocation_messages_are_unambiguous(
    device_a: u128, version_a: i32, hash_a: Seq<u8>,
    device_b: u128, version_b: i32, hash_b: Seq<u8>,
)
    requires
        revocation_message(device_a, version_a, hash_a) == revocation_message(device_b, version_b, hash_b),
    ensures
        device_a == device_b,
        version_a == version_b,
        hash_a == hash_b,
{
    let p = REVOCATION_CONTEXT.spec_bytes();
    lemma_be_bytes_len(device_a as nat, 16);
    lemma_be_bytes_len(device_b as nat, 16);
    lemma_be_bytes_len(i32_bits(version_a) as nat, 4);
    lemma_be_bytes_len(i32_bits(version_b) as nat, 4);
    let ma = revocation_message(device_a, version_a, hash_a);
    let mb = revocation_message(device_b, version_b, hash_b);
    let l = p.len() as int;
    assert(ma.subrange(l, l + 16) =~= uuid_bytes(device_a));
    assert(mb.subrange(l, l + 16) =~= uuid_bytes(device_b));
    assert(ma.subrange(l + 16, l + 20) =~= be_bytes(i32_bits(version_a) as nat, 4));
    assert(mb.subrange(l + 16, l + 20) =~= be_bytes(i32_bits(version_b) as nat, 4));
    assert(ma.subrange(l + 20, ma.len() as int) =~= hash_a);
    assert(mb.subrange(l + 20, mb.len() as int) =~= hash_b);
    lemma_pow256_values();
    crate::codec::lemma_be_bytes_injective(device_a as nat, device_b as nat, 16);
    crate::codec::lemma_be_bytes_injective(i32_bits(version_a) as nat, i32_bits(version_b) as nat, 4);
    assert(version_a == version_b) by (bit_vector)
        requires #[verifier::truncate] (version_a as u32) == #[verifier::truncate] (version_b as u32);
}

/// The bytes whose SHA-256 is a transparency-log entry's hash: the context,
/// the identity and device, the key version and generation (big-endian), the
/// event kind, the package hash and, after the first entry, the hash of the
/// device's previous entry.
pub open spec fn transparency_message(
    identity_id: u128,
    device_id: u128,
    key_version: i32,
    generation: i64,
    event_kind: Seq<u8>,
    package_hash: Seq<u8>,
    previous: Option<Seq<u8>>,
) -> Seq<u8> {
    TRANSPARENCY_CONTEXT.spec_bytes() + uuid_bytes(identity_id) + uuid_bytes(device_id)
        + be_bytes(i32_bits(key_version) as nat, 4) + be_bytes(i64_bits(generation) as nat, 8)
        + event_kind + package_hash + match previous { Some(p) => p, None => Seq::empty() }
}

/// What a transparency entry hashes determines what it records: for one
/// event kind, with package hashes and previous-entry hashes of 32 bytes, two
/// entries whose hashed bytes agree record the same identity, device, key
/// version, generation, package hash and previous entry.
pub proof fn transparency_messages_are_unambiguous(
    identity_a: u128, device_a: u128, version_a: i32, generation_a: i64, hash_a: Seq<u8>, previous_a: Option<Seq<u8>>,
    identity_b: u128, device_b: u128, version_b: i32, generation_b: i64, hash_b: Seq<u8>, previous_b: Option<Seq<u8>>,
    event_kind: Seq<u8>,
)
    requires
        hash_a.len() == 32,
        hash_b.len() == 32,
        previous_a matches Some(p) ==> p.len() == 32,
        previous_b matches Some(p) ==> p.len() == 32,
        transparency_message(identity_a, device_a, version_a, generation_a, event_kind, hash_a, previous_a)
            == transparency_message(identity_b, device_b, version_b, generation_b, event_kind, hash_b, previous_b),
    ensures
        identity_a == identity_b,
        device_a == device_b,
        version_a == version_b,
        generation_a == generation_b,
        hash_a == hash_b,
        previous_a == previous_b,
{
    let c = TRANSPARENCY_CONTEXT.spec_bytes();
    let l = c.len() as int;
    let k = event_kind.len() as int;
    lemma_be_bytes_len(identity_a as nat, 16);
    lemma_be_bytes_len(identity_b as nat, 16);
    lemma_be_bytes_len(device_a as nat, 16);
    lemma_be_bytes_len(device_b as nat, 16);
    lemma_be_bytes_len(i32_bits(version_a) as nat, 4);
    lemma_be_bytes_len(i32_bits(version_b) as nat, 4);
    lemma_be_bytes_len(i64_bits(generation_a) as nat, 8);
    lemma_be_bytes_len(i64_bits(generation_b) as nat, 8);
    let pa = match previous_a { Some(p) => p, None => Seq::<u8>::empty() };
    let pb = match previous_b { Some(p) => p, None => Seq::<u8>::empty() };
    let ma = transparency_message(identity_a, device_a, version_a, generation_a, event_kind, hash_a, previous_a);
    let mb = transparency_message(identity_b, device_b, version_b, generation_b, event_kind, hash_b, previous_b);
    assert(ma =~= c + uuid_bytes(identity_a) + uuid_bytes(device_a) + be_bytes(i32_bits(version_a) as nat, 4)
        + be_bytes(i64_bits(generation_a) as nat, 8) + event_kind + hash_a + pa);
    assert(mb =~= c + uuid_bytes(identity_b) + uuid_bytes(device_b) + be_bytes(i32_bits(version_b) as nat, 4)
        + be_bytes(i64_bits(generation_b) as nat, 8) + event_kind + hash_b + pb);
    assert(ma.subrange(l, l + 16) =~= uuid_bytes(identity_a));
    assert(mb.subrange(l, l + 16) =~= uuid_bytes(identity_b));
    assert(ma.subrange(l + 16, l + 32) =~= uuid_bytes(device_a));
    assert(mb.subrange(l + 16, l + 32) =~= uuid_bytes(device_b));
    assert(ma.subrange(l + 32, l + 36) =~= be_bytes(i32_bits(version_a) as nat, 4));
    assert(mb.subrange(l + 32, l + 36) =~= be_bytes(i32_bits(version_b) as nat, 4));
    assert(ma.subrange(l + 36, l + 44) =~= be_bytes(i64_bits(generation_a) as nat, 8));
    assert(mb.subrange(l + 36, l + 44) =~= be_bytes(i64_bits(generation_b) as nat, 8));
    assert(ma.subrange(l + 44 + k, l + 76 + k) =~= hash_a);
    assert(mb.subrange(l + 44 + k, l + 76 + k) =~= hash_b);
    assert(ma.subrange(l + 76 + k, ma.len() as int) =~= pa);
    assert(mb.subrange(l + 76 + k, mb.len() as int) =~= pb);
    lemma_pow256_values();
    crate::codec::lemma_be_bytes_injective(identity_a as nat, identity_b as nat, 16);
    crate::codec::lemma_be_bytes_injective(device_a as nat, device_b as nat, 16);
    crate::codec::lemma_be_bytes_injective(i32_bits(version_a) as nat, i32_bits(version_b) as nat, 4);
    crate::codec::lemma_be_bytes_injective(i64_bits(generation_a) as nat, i64_bits(generation_b) as nat, 8);
    assert(version_a == version_b) by (bit_vector)
        requires #[verifier::truncate] (version_a as u32) == #[verifier::truncate] (version_b as u32);
    assert(generation_a == generation_b) by (bit_vector)
        requires #[verifier::truncate] (generation_a as u64) == #[verifier::truncate] (generation_b as u64);
    assert(pa =~= pb);
}

/// The hash of a new transparency-log entry, chained to the device's previous
/// entry.
pub fn transparency_entry_hash(
    identity_id: u128,
    device_id: u128,
    key_version: i32,
    generation: i64,
    event_kind: &str,
    package_hash: &[u8],
    previous: Option<&[u8]>,
) -> (hash: Vec<u8>)
    ensures
        hash@ == sha256_of(transparency_message(identity_id, device_id, key_version, generation,
            event_kind.spec_bytes(), package_hash@, match previous { Some(p) => Some(p@), None => None })),
        hash@.len() == 32,
{
    let mut message: Vec<u8> = Vec::new();
    push_all(&mut message, TRANSPARENCY_CONTEXT.as_bytes());
    push_be_bytes(&mut message, identity_id, 16);
    push_be_bytes(&mut message, device_id, 16);
    push_be_bytes(&mut message, key_version as u32 as u128, 4);
    push_be_bytes(&mut message, generation as u64 as u128, 8);
    push_all(&mut message, event_kind.as_bytes());
    push_all(&mut message, package_hash);
    match previous {
        Some(p) => push_all(&mut message, p),
        None => {},
    }
    assert(message@ =~= transparency_message(identity_id, device_id, key_version, generation,
        event_kind.spec_bytes(), package_hash@, match previous { Some(p) => Some(p@), None => None }));
    sha256(message.as_slice())
}

/// The device's current key package, as the registration route reads it.
pub struct ActivePackage {
    pub key_version: i32,
    pub generation: i64,
    pub package_hash: Vec<u8>,
    pub ed25519_public_key: Vec<u8>,
    pub ml_dsa_65_public_key: Option<Vec<u8>>,
}

/// How a registered package enters the key history.
#[derive(Debug)]
pub enum RegistrationPlan {
    /// The device's first package: key version 1, event `registered`.
    Initial,
    /// A rotation, to be authorized by both signatures of the previous keys
    /// over the new package, and then recorded as the next key version.
    Rotation {
        classical_signature: Vec<u8>,
        post_quantum_signature: Vec<u8>,
        previous_classical_key: Vec<u8>,
        previous_post_quantum_key: Vec<u8>,
        previous_key_version: i32,
    },
}

/// The decision of the registration route, before signatures are verified.
pub enum RegistrationDecision {
    Initial,
    Rotation {
        classical_signature: Seq<u8>,
        post_quantum_signature: Seq<u8>,
        previous_classical_key: Seq<u8>,
        previous_post_quantum_key: Seq<u8>,
        previous_key_version: i32,
    },
}

/// What registering a package with `generation` and `previous_hash` decides,
/// given the device's current package (if any) and the rotation signatures
/// that came with the request.
pub open spec fn registration_decision(
    generation: u64,
    previous_hash: Seq<u8>,
    previous: Option<(i64, Seq<u8>, Seq<u8>, Option<Seq<u8>>, i32)>,
    classical_b64: Option<Seq<char>>,
    post_quantum_b64: Option<Seq<char>>,
) -> Result<RegistrationDecision, AppError> {
    match previous {
        None => {
            if generation == 0 && forall|j: int| 0 <= j < previous_hash.len() ==> previous_hash[j] == 0 {
                if classical_b64 is Some || post_quantum_b64 is Some {
                    Err(AppError::BadRequest(BadRequestReason::InitialPackageHasRotationSignatures))
                } else {
                    Ok(RegistrationDecision::Initial)
                }
            } else {
                Err(AppError::Conflict)
            }
        },
        Some((prev_generation, prev_hash, prev_classical_key, prev_post_quantum_key, prev_key_version)) => {
            if prev_generation < 0 {
                Err(AppError::Internal)
            } else if generation == prev_generation + 1 && previous_hash == prev_hash {
                match decode_required_result(classical_b64, BadRequestReason::RotationRequiresBothSignatures) {
                    Err(e) => Err(e),
                    Ok(classical) => match decode_required_result(post_quantum_b64,
                        BadRequestReason::RotationRequiresBothSignatures) {
                        Err(e) => Err(e),
                        Ok(post_quantum) => match prev_post_quantum_key {
                            None => Err(AppError::BadRequest(BadRequestReason::LegacyKeysCannotRotate)),
                            Some(key) => Ok(RegistrationDecision::Rotation {
                                classical_signature: classical,
                                post_quantum_signature: post_quantum,
                                previous_classical_key: prev_classical_key,
                                previous_post_quantum_key: key,
                                previous_key_version: prev_key_version,
                            }),
                        },
                    },
                }
            } else {
                Err(AppError::Conflict)
            }
        },
    }
}

/// The current package as the decision reads it.
pub open spec fn active_package_view(p: ActivePackage) -> (i64, Seq<u8>, Seq<u8>, Option<Seq<u8>>, i32) {
    (p.generation, p.package_hash@, p.ed25519_public_key@,
        match p.ml_dsa_65_public_key { Some(k) => Some(k@), None => None }, p.key_version)
}

/// A plan taken as a decision.
pub open spec fn plan_view(p: RegistrationPlan) -> RegistrationDecision {
    match p {
        RegistrationPlan::Initial => RegistrationDecision::Initial,
        RegistrationPlan::Rotation { classical_signature, post_quantum_signature, previous_classical_key,
            previous_post_quantum_key, previous_key_version } =>
            RegistrationDecision::Rotation {
                classical_signature: classical_signature@,
                post_quantum_signature: post_quantum_signature@,
                previous_classical_key: previous_classical_key@,
                previous_post_quantum_key: previous_post_quantum_key@,
                previous_key_version,
            },
    }
}

/// A request to register a device key package: the package, and for a
/// rotation the signatures of the previous keys over it, all in base64.
pub struct RegisterDeviceKeyPackage {
    pub package_b64: String,
    pub previous_classical_signature_b64: Option<String>,
    pub previous_post_quantum_signature_b64: Option<String>,
}

/// An optional text taken as characters.
pub open spec fn opt_chars(o: Option<String>) -> Option<Seq<char>> {
    match o {
        Some(t) => Some(t@),
        None => None,
    }
}

fn opt_str(o: &Option<String>) -> (r: Option<&str>)
    ensures
        match r { Some(t) => Some(t@), None => None } == opt_chars(*o),
{
    match o {
        Some(t) => Some(t.as_str()),
        None => None,
    }
}

/// Decides how a new package of the requesting device enters its key history:
/// as the first package (generation 0, an all-zero previous hash, no rotation
/// signatures in the request), as the rotation of the current package (the
/// next generation, chained to the current package's hash, with both
/// signatures and a post-quantum previous key), or not at all (`Conflict`).
pub fn plan_registration(
    generation: u64,
    previous_hash: &[u8],
    previous: Option<&ActivePackage>,
    request: &RegisterDeviceKeyPackage,
) -> (r: Result<RegistrationPlan, AppError>)
    ensures
        match r {
            Ok(plan) => registration_decision(generation, previous_hash@,
                match previous { Some(p) => Some(active_package_view(*p)), None => None },
                opt_chars(request.previous_classical_signature_b64),
                opt_chars(request.previous_post_quantum_signature_b64)) == Ok::<RegistrationDecision, AppError>(plan_view(plan)),
            Err(e) => registration_decision(generation, previous_hash@,
                match previous { Some(p) => Some(active_package_view(*p)), None => None },
                opt_chars(request.previous_classical_signature_b64),
                opt_chars(request.previous_post_quantum_signature_b64)) == Err::<RegistrationDecision, AppError>(e),
        },
{
    let classical_b64 = opt_str(&request.previous_classical_signature_b64);
    let post_quantum_b64 = opt_str(&request.previous_post_quantum_signature_b64);
    match previous {
        None => {
            if generation == 0 && all_zero(previous_hash) {
                if classical_b64.is_some() || post_quantum_b64.is_some() {
                    Err(AppError::BadRequest(BadRequestReason::InitialPackageHasRotationSignatures))
                } else {
                    Ok(RegistrationPlan::Initial)
                }
            } else {
                Err(AppError::Conflict)
            }
        },
        Some(p) => {
            if p.generation < 0 {
                return Err(AppError::Internal);
            }
            let prev_generation = p.generation as u64;
            if generation == prev_generation + 1 && bytes_equal(previous_hash, p.package_hash.as_slice()) {
                let classical = decode_required(classical_b64, BadRequestReason::RotationRequiresBothSignatures)?;
                let post_quantum = decode_required(post_quantum_b64, BadRequestReason::RotationRequiresBothSignatures)?;
                match &p.ml_dsa_65_public_key {
                    None => Err(AppError::BadRequest(BadRequestReason::LegacyKeysCannotRotate)),
                    Some(key) => Ok(RegistrationPlan::Rotation {
                        classical_signature: classical,
                        post_quantum_signature: post_quantum,
                        previous_classical_key: p.ed25519_public_key.clone(),
                        previous_post_quantum_key: key.clone(),
                        previous_key_version: p.key_version,
                    }),
                }
            } else {
                Err(AppError::Conflict)
            }
        },
    }
}

/// Every accepted rotation extends the current package by exactly one
/// generation and is chained to its hash; every accepted first package is
/// generation 0 with an all-zero previous hash and comes without rotation
/// signatures.
pub proof fn accepted_registrations_extend_the_key_history(
    generation: u64,
    previous_hash: Seq<u8>,
    previous: Option<(i64, Seq<u8>, Seq<u8>, Option<Seq<u8>>, i32)>,
    classical_b64: Option<Seq<char>>,
    post_quantum_b64: Option<Seq<char>>,
)
    ensures
        registration_decision(generation, previous_hash, previous, classical_b64, post_quantum_b64)
            matches Ok(RegistrationDecision::Initial) ==> {
                &&& previous is None
                &&& generation == 0
                &&& forall|j: int| 0 <= j < previous_hash.len() ==> previous_hash[j] == 0
                &&& classical_b64 is None && post_quantum_b64 is None
            },
        registration_decision(generation, previous_hash, previous, classical_b64, post_quantum_b64)
            matches Ok(RegistrationDecision::Rotation { previous_classical_key, previous_key_version, .. }) ==> {
                &&& previous matches Some((g, h, c, k, v)) && generation == g + 1 && previous_hash == h
                    && previous_classical_key == c && previous_key_version == v && k is Some
                &&& classical_b64 is Some && post_quantum_b64 is Some
            },
{
}

/// The key version that a rotation records: the previous one plus one; a
/// device whose key version cannot grow any further cannot rotate.
pub fn rotated_key_version(previous_key_version: i32) -> (r: Result<i32, AppError>)
    ensures
        match r {
            Ok(v) => v == previous_key_version + 1,
            Err(e) => previous_key_version == i32::MAX
                && e == AppError::BadRequest(BadRequestReason::DeviceKeyVersionExhausted),
        },
{
    match previous_key_version.checked_add(1) {
        Some(v) => Ok(v),
        None => Err(AppError::BadRequest(BadRequestReason::DeviceKeyVersionExhausted)),
    }
}

/// The stored generation of a package; one beyond `i64::MAX` is refused.
pub fn package_generation(generation: u64) -> (r: Result<i64, AppError>)
    ensures
        match r {
            Ok(g) => g == generation,
            Err(e) => generation > i64::MAX
                && e == AppError::BadRequest(BadRequestReason::GenerationTooLarge),
        },
{
    if generation <= i64::MAX as u64 {
        Ok(generation as i64)
    } else {
        Err(AppError::BadRequest(BadRequestReason::GenerationTooLarge))
    }
}

/// Whether a parsed package may be registered for `device_id`: it names that
/// device, is of the experimental independent-keys suite, and its bytes are its
/// canonical JSON; otherwise the package is a bad request.
pub fn check_package(
    package_device_id: u128,
    device_id: u128,
    suite_is_independent_keys_v1: bool,
    bytes_are_canonical: bool,
) -> (r: Result<(), AppError>)
    ensures
        r is Ok <==> (package_device_id == device_id && suite_is_independent_keys_v1 && bytes_are_canonical),
        r matches Err(e) ==> e == AppError::BadRequest(BadRequestReason::InvalidDeviceKeyPackage),
{
    if package_device_id != device_id || !suite_is_independent_keys_v1 || !bytes_are_canonical {
        Err(AppError::BadRequest(BadRequestReason::InvalidDeviceKeyPackage))
    } else {
        Ok(())
    }
}

/// A device may only manage its own key packages (registration, listing, the
/// transparency log): any other device is forbidden.
pub fn require_own_device(path_device_id: u128, session_device_id: u128) -> (r: Result<(), AppError>)
    ensures
        r is Ok <==> path_device_id == session_device_id,
        r matches Err(e) ==> e == AppError::Forbidden,
{
    if path_device_id != session_device_id { Err(AppError::Forbidden) } else { Ok(()) }
}

/// A revocation names the session's own device and a positive key version;
/// anything else is forbidden.
pub fn require_revocable(path_device_id: u128, session_device_id: u128, key_version: i32) -> (r: Result<(), AppError>)
    ensures
        r is Ok <==> (path_device_id == session_device_id && key_version > 0),
        r matches Err(e) ==> e == AppError::Forbidden,
{
    if path_device_id != session_device_id || key_version <= 0 { Err(AppError::Forbidden) } else { Ok(()) }
}

/// A request to revoke a key version: both signatures of that version's keys
/// over the revocation message, in base64.
pub struct RevokeDeviceKeyPackage {
    pub classical_signature_b64: String,
    pub post_quantum_signature_b64: String,
}

/// The two signatures of a revocation request, decoded in order: the
/// classical one first, so that its error is the one reported when both are
/// malformed.
pub fn revocation_signatures(request: &RevokeDeviceKeyPackage) -> (r: Result<(Vec<u8>, Vec<u8>), AppError>)
    ensures
        match r {
            Ok((classical, post_quantum)) => decode_result(request.classical_signature_b64@) == Ok::<Seq<u8>, AppError>(classical@)
                && decode_result(request.post_quantum_signature_b64@) == Ok::<Seq<u8>, AppError>(post_quantum@),
            Err(e) => match decode_result(request.classical_signature_b64@) {
                Err(first) => e == first,
                Ok(_) => decode_result(request.post_quantum_signature_b64@) == Err::<Seq<u8>, AppError>(e),
            },
        },
{
    let classical = decode(request.classical_signature_b64.as_str())?;
    let post_quantum = decode(request.post_quantum_signature_b64.as_str())?;
    Ok((classical, post_quantum))
}

/// The post-quantum key that must co-sign a revocation; a legacy package
/// without one cannot be revoked this way (`Forbidden`).
pub fn revocation_post_quantum_key(package: &ActivePackage) -> (r: Result<&Vec<u8>, AppError>)
    ensures
        match r {
            Ok(k) => package.ml_dsa_65_public_key == Some(*k),
            Err(e) => package.ml_dsa_65_public_key is None && e == AppError::Forbidden,
        },
{
    match &package.ml_dsa_65_public_key {
        Some(k) => Ok(k),
        None => Err(AppError::Forbidden),
    }
}

/// Key material decodes to exactly the bytes whose padded standard base64
/// it is, and any other text is an invalid-key-material bad request.
pub proof fn key_material_decodes_to_what_encodes_it(value: Seq<char>, bytes: Seq<u8>)
    ensures
        decode_result(value) == Ok::<Seq<u8>, AppError>(bytes) <==> crate::codec::base64_encoding(bytes) == value,
        decode_result(value) is Err <==> forall|b: Seq<u8>| crate::codec::base64_encoding(b) != value,
        decode_result(value) matches Err(e) ==> e == AppError::BadRequest(BadRequestReason::InvalidBase64KeyMaterial),
{
    if crate::codec::base64_encoding(bytes) == value {
        crate::codec::lemma_base64_decoding_of_encoding(bytes);
    }
    if decode_result(value) is Ok {
        let b = decode_result(value)->Ok_0;
        assert(crate::codec::base64_encoding(b) == value);
    }
}

} // verus!
