//! Project resource nodes, tasks, presets and questionnaires.
use vstd::prelude::*;
use crate::codec::{base64_decode, base64_encode, base64_decoding, base64_encoding};
use crate::error::{AppError, BadRequestReason, bytes_of};

verus! {

/// The kind of a resource node.
#[derive(Clone, Copy, Debug, PartialEq, Eq, Structural)]
pub enum NodeKind {
    Topic,
    TaskList,
    Task,
    File,
    Other,
}

/// The name under which a node kind is stored.
pub open spec fn node_kind_name(kind: NodeKind) -> Seq<char> {
    match kind {
        NodeKind::Topic => "topic"@,
        NodeKind::TaskList => "task_list"@,
        NodeKind::Task => "task"@,
        NodeKind::File => "file"@,
        NodeKind::Other => "other"@,
    }
}

impl NodeKind {
    pub fn as_str(self) -> (name: &'static str)
        ensures
            name@ == node_kind_name(self),
    {
        match self {
            NodeKind::Topic => "topic",
            NodeKind::TaskList => "task_list",
            NodeKind::Task => "task",
            NodeKind::File => "file",
            NodeKind::Other => "other",
        }
    }
}

/// Distinct node kinds are stored under distinct names.
pub proof fn node_kind_names_are_distinct(a: NodeKind, b: NodeKind)
    ensures
        node_kind_name(a) == node_kind_name(b) <==> a == b,
{
    reveal_strlit("topic");
    reveal_strlit("task_list");
    reveal_strlit("task");
    reveal_strlit("file");
    reveal_strlit("other");
    if node_kind_name(a) == node_kind_name(b) && a != b {
        let (x, y) = (node_kind_name(a), node_kind_name(b));
        assert(x.len() != y.len() || x[0] != y[0] || x[1] != y[1] || x[4] != y[4]);
    }
}

/// A project metadata entity kind.
#[derive(Clone, Copy, Debug, PartialEq, Eq, Structural)]
pub enum MetadataKind {
    Preset,
    Questionnaire,
}

/// The state in which a new entity of a kind is stored.
pub open spec fn metadata_initial_state(kind: MetadataKind) -> Seq<char> {
    match kind {
        MetadataKind::Preset => "active"@,
        MetadataKind::Questionnaire => "draft"@,
    }
}

impl MetadataKind {
    /// The state in which a new entity of this kind is created: a preset is
    /// active at once, a questionnaire starts as a draft.
    pub fn initial_state(self) -> (state: &'static str)
        ensures
            state@ == metadata_initial_state(self),
    {
        match self {
            MetadataKind::Preset => "active",
            MetadataKind::Questionnaire => "draft",
        }
    }
}

/// What `decode` answers for a text.
pub open spec fn decode_result(value: Seq<char>) -> Result<Seq<u8>, AppError> {
    match base64_decoding(value) {
        Some(bytes) => Ok(bytes),
        None => Err(AppError::BadRequest(BadRequestReason::InvalidBase64Payload)),
    }
}

/// Decodes a base64 payload; a text that is not padded standard base64 is a
/// bad request.
pub fn decode(value: &str) -> (r: Result<Vec<u8>, AppError>)
    ensures
        bytes_of(r) == decode_result(value@),
{
    match base64_decode(value) {
        Some(v) => Ok(v),
        None => Err(AppError::BadRequest(BadRequestReason::InvalidBase64Payload)),
    }
}

/// Encodes stored ciphertext as padded standard base64; what it encodes,
/// `decode` gives back.
pub fn encode(value: Vec<u8>) -> (s: String)
    requires
        (value@.len() / 3) * 4 + 4 <= usize::MAX,
    ensures
        s@ == base64_encoding(value@),
        decode_result(s@) == Ok::<Seq<u8>, AppError>(value@),
{
    proof {
        crate::codec::lemma_base64_decoding_of_encoding(value@);
    }
    base64_encode(value.as_slice())
}

/// What a route answers for an encrypted payload that must decode to at least
/// one byte: the bytes, or the decoding error, or `empty` when it is empty.
pub open spec fn nonempty_payload_result(value: Seq<char>, empty: BadRequestReason) -> Result<Seq<u8>, AppError> {
    match decode_result(value) {
        Ok(bytes) => if bytes.len() == 0 { Err(AppError::BadRequest(empty)) } else { Ok(bytes) },
        Err(e) => Err(e),
    }
}

fn decode_nonempty(value: &str, empty: BadRequestReason) -> (r: Result<Vec<u8>, AppError>)
    ensures
        bytes_of(r) == nonempty_payload_result(value@, empty),
{
    let bytes = decode(value)?;
    if bytes.len() == 0 {
        return Err(AppError::BadRequest(empty));
    }
    Ok(bytes)
}

/// A request to create a resource node below a parent.
pub struct CreateResource {
    pub id: u128,
    pub parent_id: u128,
    pub kind: NodeKind,
    pub encrypted_metadata_b64: String,
}

/// The row that creating a resource node inserts (besides the project and the
/// creator, which come from the route).
pub struct ResourceInsert {
    pub id: u128,
    pub parent_id: u128,
    pub node_kind: &'static str,
    pub encrypted_metadata: Vec<u8>,
}

/// Validates a resource creation (after write access to the parent was
/// granted): the metadata must be base64 of at least one byte.
pub fn create_resource(request: &CreateResource) -> (r: Result<ResourceInsert, AppError>)
    ensures
        match r {
            Ok(row) => {
                &&& row.id == request.id
                &&& row.parent_id == request.parent_id
                &&& row.node_kind@ == node_kind_name(request.kind)
                &&& nonempty_payload_result(request.encrypted_metadata_b64@,
                        BadRequestReason::EmptyResourceMetadata) == Ok::<Seq<u8>, AppError>(row.encrypted_metadata@)
            },
            Err(e) => nonempty_payload_result(request.encrypted_metadata_b64@,
                BadRequestReason::EmptyResourceMetadata) == Err::<Seq<u8>, AppError>(e),
        },
{
    let encrypted_metadata = decode_nonempty(
        request.encrypted_metadata_b64.as_str(),
        BadRequestReason::EmptyResourceMetadata,
    )?;
    Ok(ResourceInsert {
        id: request.id,
        parent_id: request.parent_id,
        node_kind: request.kind.as_str(),
        encrypted_metadata,
    })
}

/// A request to create a task in a task list.
pub struct CreateTask {
    pub id: u128,
    pub task_list_id: u128,
    pub resource_node_id: u128,
    pub encrypted_payload_b64: String,
}

/// Validates a task creation (after write access to the list's node was
/// granted): the payload must be base64 of at least one byte, which is stored
/// both as the task node's metadata and as the task's payload.
pub fn create_task(request: &CreateTask) -> (r: Result<Vec<u8>, AppError>)
    ensures
        bytes_of(r) == nonempty_payload_result(request.encrypted_payload_b64@,
            BadRequestReason::EmptyTaskPayload),
{
    decode_nonempty(request.encrypted_payload_b64.as_str(), BadRequestReason::EmptyTaskPayload)
}

/// A request to create a preset or a questionnaire.
pub struct CreateMetadataEntity {
    pub id: u128,
    pub encrypted_metadata_b64: String,
}

/// Validates the creation of a preset or questionnaire (after project
/// membership was checked): the metadata must be base64 of at least one byte;
/// the entity starts in its kind's initial state.
pub fn create_metadata_entity(request: &CreateMetadataEntity, kind: MetadataKind) -> (r: Result<(Vec<u8>, &'static str), AppError>)
    ensures
        match r {
            Ok((bytes, state)) => {
                &&& nonempty_payload_result(request.encrypted_metadata_b64@, BadRequestReason::EmptyMetadata)
                    == Ok::<Seq<u8>, AppError>(bytes@)
                &&& state@ == metadata_initial_state(kind)
            },
            Err(e) => nonempty_payload_result(request.encrypted_metadata_b64@,
                BadRequestReason::EmptyMetadata) == Err::<Seq<u8>, AppError>(e),
        },
{
    let bytes = decode_nonempty(request.encrypted_metadata_b64.as_str(), BadRequestReason::EmptyMetadata)?;
    Ok((bytes, kind.initial_state()))
}

/// A payload decodes to exactly the bytes whose padded standard base64 it
/// is, and any other text is an invalid-base64 bad request.
pub proof fn payloads_decode_to_what_encodes_them(value: Seq<char>, bytes: Seq<u8>)
    ensures
        decode_result(value) == Ok::<Seq<u8>, AppError>(bytes) <==> crate::codec::base64_encoding(bytes) == value,
        decode_result(value) is Err <==> forall|b: Seq<u8>| crate::codec::base64_encoding(b) != value,
        decode_result(value) matches Err(e) ==> e == AppError::BadRequest(BadRequestReason::InvalidBase64Payload),
{
    if crate::codec::base64_encoding(bytes) == value {
        crate::codec::lemma_base64_decoding_of_encoding(bytes);
    }
    if decode_result(value) is Ok {
        let b = decode_result(value)->Ok_0;
        assert(crate::codec::base64_encoding(b) == value);
    }
}

/// A required encrypted payload is accepted exactly when it is the base64 of
/// at least one byte; the empty payload is refused with its own reason.
pub proof fn nonempty_payloads_are_the_encodings_of_bytes(value: Seq<char>, empty: BadRequestReason)
    ensures
        nonempty_payload_result(value, empty) matches Ok(b) ==> b.len() > 0 && crate::codec::base64_encoding(b) == value,
        nonempty_payload_result(value, empty) is Ok <==> exists|b: Seq<u8>| b.len() > 0 && crate::codec::base64_encoding(b) == value,
        crate::codec::base64_encoding(Seq::empty()) == value ==> nonempty_payload_result(value, empty)
            == Err::<Seq<u8>, AppError>(AppError::BadRequest(empty)),
{
    if exists|b: Seq<u8>| b.len() > 0 && crate::codec::base64_encoding(b) == value {
        let b = choose|b: Seq<u8>| b.len() > 0 && crate::codec::base64_encoding(b) == value;
        crate::codec::lemma_base64_decoding_of_encoding(b);
    }
    if crate::codec::base64_encoding(Seq::empty()) == value {
        crate::codec::lemma_base64_decoding_of_encoding(Seq::empty());
    }
    if nonempty_payload_result(value, empty) is Ok {
        let b = nonempty_payload_result(value, empty)->Ok_0;
        assert(crate::codec::base64_encoding(b) == value);
    }
}

} // verus!
