use vstd::prelude::*;

verus! {

/// Why a request was refused as malformed; each reason carries the exact
/// message that the server answers with.
#[derive(Clone, Copy, Debug, PartialEq, Eq, Structural)]
pub enum BadRequestReason {
    // resources, tasks and metadata entities
    InvalidBase64Payload,
    EmptyResourceMetadata,
    EmptyTaskPayload,
    EmptyMetadata,
    // assignments
    InvalidBase64EncryptedPayload,
    EmptyAssignmentPayload,
    RecipientNotActiveMember,
    // comments
    InvalidBase64Ciphertext,
    IncompleteEncryptedPayload,
    InvalidEncryptedPayload,
    InvalidKeyEpoch,
    // development login
    EmailOrHandleRequired,
    NoMatchingDevelopmentAccount,
    // device keys
    InvalidBase64KeyMaterial,
    InvalidDeviceKeyPackage,
    InitialPackageHasRotationSignatures,
    RotationRequiresBothSignatures,
    LegacyKeysCannotRotate,
    RotationSignatureFailed,
    DeviceKeyVersionExhausted,
    GenerationTooLarge,
    DevicePackageKeyMissing,
    DevicePackageKeyDuplicated,
    RevocationSignatureFailed,
    // collaborative runs
    NumericValueOutOfRange,
    FailedWorkClaimsOutcome,
    // agents
    NumericValueTooLarge,
    InvalidAgentIdentityHandle,
    DuplicateEffectProposalId,
    InvalidCommitment,
    AgentGovernanceInvariantFailed,
    UnsupportedMaterializer,
    MaterializationRequiresEditInfo,
    MaterializationRequired,
    ProxyToolFootprintUnclassified,
    ProxyEffectUnclassified,
    // external tools
    InvalidRuntimeCapabilityLifetime,
    InvalidToolVersion,
    InvalidSignerKeyVersion,
    TerminalToolObservationMismatch,
    InvalidToolOutputEnvelopeMetadata,
    InvalidSenderKeyVersion,
    InvalidTimeout,
    // agent governance and invocations
    CrossOwnerSameController,
    AutomaticRouteWithReviewTask,
    ReviewRouteWithoutReviewTask,
    ReviewTaskNotAuthoritative,
    RejectedRouteWithReviewTask,
    SurfaceRequiresObservation,
    SurfaceFailureRequiresObservation,
    InterrogationIsAnswerOnly,
    CompilerBuildNotPinned,
    InvalidInvocationGoalReference,
    ToolsRequireSecurityAdapter,
    ContextMissingSystemPrompt,
    GenericInvocationHasSurfaceReference,
    InvalidProxyLanguageTaskBinding,
    ProxyInvocationRequiresRequest,
    InvalidInterrogationLanguageTaskBinding,
    InterrogationRequiresSession,
    InvalidGovernanceSummaryBinding,
    InitialLocalGoalMismatch,
    InitialAuthorizationUnavailable,
    CreationApprovalNotApplicable,
    InterrogationRequiresAnswerArtifact,
    CompilerArtifactCommitmentMismatch,
    LocalGoalAuthorizationUnavailable,
    FirstRevisionSupersedes,
    MaterializationResourceMismatch,
}

/// The message that the server answers for a reason.
pub open spec fn reason_message(reason: BadRequestReason) -> Seq<char> {
    match reason {
        BadRequestReason::InvalidBase64Payload => "invalid base64 payload"@,
        BadRequestReason::EmptyResourceMetadata => "encrypted resource metadata is empty"@,
        BadRequestReason::EmptyTaskPayload => "encrypted task payload is empty"@,
        BadRequestReason::EmptyMetadata => "encrypted metadata is empty"@,
        BadRequestReason::InvalidBase64EncryptedPayload => "invalid base64 encrypted payload"@,
        BadRequestReason::EmptyAssignmentPayload => "encrypted assignment payload is empty"@,
        BadRequestReason::RecipientNotActiveMember =>
            "assignment recipient is not an active project member"@,
        BadRequestReason::InvalidBase64Ciphertext => "invalid base64 ciphertext"@,
        BadRequestReason::IncompleteEncryptedPayload => "encrypted payload is incomplete"@,
        BadRequestReason::InvalidEncryptedPayload => "invalid encrypted payload"@,
        BadRequestReason::InvalidKeyEpoch => "invalid key epoch"@,
        BadRequestReason::EmailOrHandleRequired => "email or identity_handle is required"@,
        BadRequestReason::NoMatchingDevelopmentAccount => "no matching development account"@,
        BadRequestReason::InvalidBase64KeyMaterial => "invalid base64 key material"@,
        BadRequestReason::InvalidDeviceKeyPackage => "invalid device key package"@,
        BadRequestReason::InitialPackageHasRotationSignatures =>
            "initial package must not contain rotation signatures"@,
        BadRequestReason::RotationRequiresBothSignatures => "rotation requires both signatures"@,
        BadRequestReason::LegacyKeysCannotRotate => "legacy keys cannot authorize rotation"@,
        BadRequestReason::RotationSignatureFailed => "device key rotation signature failed"@,
        BadRequestReason::DeviceKeyVersionExhausted => "device key version exhausted"@,
        BadRequestReason::GenerationTooLarge => "generation too large"@,
        BadRequestReason::DevicePackageKeyMissing => "device package key is missing"@,
        BadRequestReason::DevicePackageKeyDuplicated => "device package key is duplicated"@,
        BadRequestReason::RevocationSignatureFailed => "device key revocation signature failed"@,
        BadRequestReason::NumericValueOutOfRange => "numeric value is out of range"@,
        BadRequestReason::FailedWorkClaimsOutcome => "failed work cannot claim a successful product outcome"@,
        BadRequestReason::NumericValueTooLarge => "numeric value is too large"@,
        BadRequestReason::InvalidAgentIdentityHandle => "invalid agent identity handle"@,
        BadRequestReason::DuplicateEffectProposalId => "duplicate effect proposal id"@,
        BadRequestReason::InvalidCommitment => "invalid commitment"@,
        BadRequestReason::AgentGovernanceInvariantFailed => "agent governance invariant failed"@,
        BadRequestReason::UnsupportedMaterializer =>
            "effect requires a supported deterministic materializer"@,
        BadRequestReason::MaterializationRequiresEditInfo =>
            "info-document materialization requires edit_info authority"@,
        BadRequestReason::MaterializationRequired => "effect materialization is required"@,
        BadRequestReason::ProxyToolFootprintUnclassified =>
            "proxy tool footprint has no registered deterministic responsibility classifier"@,
        BadRequestReason::ProxyEffectUnclassified =>
            "proxy effect has no registered deterministic responsibility classifier"@,
        BadRequestReason::InvalidRuntimeCapabilityLifetime =>
            "invalid runtime capability lifetime"@,
        BadRequestReason::InvalidToolVersion => "invalid tool version"@,
        BadRequestReason::InvalidSignerKeyVersion => "invalid signer key version"@,
        BadRequestReason::TerminalToolObservationMismatch => "terminal tool observation mismatch"@,
        BadRequestReason::InvalidToolOutputEnvelopeMetadata =>
            "invalid tool output envelope metadata"@,
        BadRequestReason::InvalidSenderKeyVersion => "invalid sender key version"@,
        BadRequestReason::InvalidTimeout => "invalid timeout"@,
        BadRequestReason::CrossOwnerSameController => "cross-owner routing requires a different target controller"@,
        BadRequestReason::AutomaticRouteWithReviewTask => "automatic route cannot carry a controller review task"@,
        BadRequestReason::ReviewRouteWithoutReviewTask => "controller review route requires an existing assigned review task"@,
        BadRequestReason::ReviewTaskNotAuthoritative => "controller review task is not an authoritative open assignment"@,
        BadRequestReason::RejectedRouteWithReviewTask => "rejected route cannot carry a review task"@,
        BadRequestReason::SurfaceRequiresObservation => "language surface requires a signed endpoint observation"@,
        BadRequestReason::SurfaceFailureRequiresObservation => "language surface failure requires a signed endpoint observation"@,
        BadRequestReason::InterrogationIsAnswerOnly => "interrogation language invocation is answer-only"@,
        BadRequestReason::CompilerBuildNotPinned => "compiler build is not pinned"@,
        BadRequestReason::InvalidInvocationGoalReference => "invalid invocation goal reference"@,
        BadRequestReason::ToolsRequireSecurityAdapter => "tools require a registered deterministic security adapter"@,
        BadRequestReason::ContextMissingSystemPrompt => "invocation context must include the current agent system prompt resource"@,
        BadRequestReason::GenericInvocationHasSurfaceReference => "generic invocation has surface reference"@,
        BadRequestReason::InvalidProxyLanguageTaskBinding => "invalid proxy language task binding"@,
        BadRequestReason::ProxyInvocationRequiresRequest => "proxy invocation requires exact request"@,
        BadRequestReason::InvalidInterrogationLanguageTaskBinding => "invalid interrogation language task binding"@,
        BadRequestReason::InterrogationRequiresSession => "interrogation invocation requires exact session"@,
        BadRequestReason::InvalidGovernanceSummaryBinding => "invalid governance summary binding"@,
        BadRequestReason::InitialLocalGoalMismatch => "initial LocalGoal does not match the proposed agent"@,
        BadRequestReason::InitialAuthorizationUnavailable => "initial-agent authorization adapter is not available"@,
        BadRequestReason::CreationApprovalNotApplicable => "administrator creation approval is not applicable"@,
        BadRequestReason::InterrogationRequiresAnswerArtifact => "interrogation requires an answer artifact"@,
        BadRequestReason::CompilerArtifactCommitmentMismatch => "compiler artifact commitment mismatch"@,
        BadRequestReason::LocalGoalAuthorizationUnavailable => "local-goal authorization adapter is not available"@,
        BadRequestReason::FirstRevisionSupersedes => "first local-goal revision cannot supersede another revision"@,
        BadRequestReason::MaterializationResourceMismatch => "effect materialization does not match its resource"@,
    }
}

impl BadRequestReason {
    /// The message that the server answers with.
    pub fn message(self) -> (m: &'static str)
        ensures
            m@ == reason_message(self),
    {
        match self {
            BadRequestReason::InvalidBase64Payload => "invalid base64 payload",
            BadRequestReason::EmptyResourceMetadata => "encrypted resource metadata is empty",
            BadRequestReason::EmptyTaskPayload => "encrypted task payload is empty",
            BadRequestReason::EmptyMetadata => "encrypted metadata is empty",
            BadRequestReason::InvalidBase64EncryptedPayload => "invalid base64 encrypted payload",
            BadRequestReason::EmptyAssignmentPayload => "encrypted assignment payload is empty",
            BadRequestReason::RecipientNotActiveMember =>
                "assignment recipient is not an active project member",
            BadRequestReason::InvalidBase64Ciphertext => "invalid base64 ciphertext",
            BadRequestReason::IncompleteEncryptedPayload => "encrypted payload is incomplete",
            BadRequestReason::InvalidEncryptedPayload => "invalid encrypted payload",
            BadRequestReason::InvalidKeyEpoch => "invalid key epoch",
            BadRequestReason::EmailOrHandleRequired => "email or identity_handle is required",
            BadRequestReason::NoMatchingDevelopmentAccount => "no matching development account",
            BadRequestReason::InvalidBase64KeyMaterial => "invalid base64 key material",
            BadRequestReason::InvalidDeviceKeyPackage => "invalid device key package",
            BadRequestReason::InitialPackageHasRotationSignatures =>
                "initial package must not contain rotation signatures",
            BadRequestReason::RotationRequiresBothSignatures => "rotation requires both signatures",
            BadRequestReason::LegacyKeysCannotRotate => "legacy keys cannot authorize rotation",
            BadRequestReason::RotationSignatureFailed => "device key rotation signature failed",
            BadRequestReason::DeviceKeyVersionExhausted => "device key version exhausted",
            BadRequestReason::GenerationTooLarge => "generation too large",
            BadRequestReason::DevicePackageKeyMissing => "device package key is missing",
            BadRequestReason::DevicePackageKeyDuplicated => "device package key is duplicated",
            BadRequestReason::RevocationSignatureFailed => "device key revocation signature failed",
            BadRequestReason::NumericValueOutOfRange => "numeric value is out of range",
            BadRequestReason::FailedWorkClaimsOutcome => "failed work cannot claim a successful product outcome",
            BadRequestReason::NumericValueTooLarge => "numeric value is too large",
            BadRequestReason::InvalidAgentIdentityHandle => "invalid agent identity handle",
            BadRequestReason::DuplicateEffectProposalId => "duplicate effect proposal id",
            BadRequestReason::InvalidCommitment => "invalid commitment",
            BadRequestReason::AgentGovernanceInvariantFailed => "agent governance invariant failed",
            BadRequestReason::UnsupportedMaterializer =>
                "effect requires a supported deterministic materializer",
            BadRequestReason::MaterializationRequiresEditInfo =>
                "info-document materialization requires edit_info authority",
            BadRequestReason::MaterializationRequired => "effect materialization is required",
            BadRequestReason::ProxyToolFootprintUnclassified =>
                "proxy tool footprint has no registered deterministic responsibility classifier",
            BadRequestReason::ProxyEffectUnclassified =>
                "proxy effect has no registered deterministic responsibility classifier",
            BadRequestReason::InvalidRuntimeCapabilityLifetime =>
                "invalid runtime capability lifetime",
            BadRequestReason::InvalidToolVersion => "invalid tool version",
            BadRequestReason::InvalidSignerKeyVersion => "invalid signer key version",
            BadRequestReason::TerminalToolObservationMismatch => "terminal tool observation mismatch",
            BadRequestReason::InvalidToolOutputEnvelopeMetadata =>
                "invalid tool output envelope metadata",
            BadRequestReason::InvalidSenderKeyVersion => "invalid sender key version",
            BadRequestReason::InvalidTimeout => "invalid timeout",
            BadRequestReason::CrossOwnerSameController => "cross-owner routing requires a different target controller",
            BadRequestReason::AutomaticRouteWithReviewTask => "automatic route cannot carry a controller review task",
            BadRequestReason::ReviewRouteWithoutReviewTask => "controller review route requires an existing assigned review task",
            BadRequestReason::ReviewTaskNotAuthoritative => "controller review task is not an authoritative open assignment",
            BadRequestReason::RejectedRouteWithReviewTask => "rejected route cannot carry a review task",
            BadRequestReason::SurfaceRequiresObservation => "language surface requires a signed endpoint observation",
            BadRequestReason::SurfaceFailureRequiresObservation => "language surface failure requires a signed endpoint observation",
            BadRequestReason::InterrogationIsAnswerOnly => "interrogation language invocation is answer-only",
            BadRequestReason::CompilerBuildNotPinned => "compiler build is not pinned",
            BadRequestReason::InvalidInvocationGoalReference => "invalid invocation goal reference",
            BadRequestReason::ToolsRequireSecurityAdapter => "tools require a registered deterministic security adapter",
            BadRequestReason::ContextMissingSystemPrompt => "invocation context must include the current agent system prompt resource",
            BadRequestReason::GenericInvocationHasSurfaceReference => "generic invocation has surface reference",
            BadRequestReason::InvalidProxyLanguageTaskBinding => "invalid proxy language task binding",
            BadRequestReason::ProxyInvocationRequiresRequest => "proxy invocation requires exact request",
            BadRequestReason::InvalidInterrogationLanguageTaskBinding => "invalid interrogation language task binding",
            BadRequestReason::InterrogationRequiresSession => "interrogation invocation requires exact session",
            BadRequestReason::InvalidGovernanceSummaryBinding => "invalid governance summary binding",
            BadRequestReason::InitialLocalGoalMismatch => "initial LocalGoal does not match the proposed agent",
            BadRequestReason::InitialAuthorizationUnavailable => "initial-agent authorization adapter is not available",
            BadRequestReason::CreationApprovalNotApplicable => "administrator creation approval is not applicable",
            BadRequestReason::InterrogationRequiresAnswerArtifact => "interrogation requires an answer artifact",
            BadRequestReason::CompilerArtifactCommitmentMismatch => "compiler artifact commitment mismatch",
            BadRequestReason::LocalGoalAuthorizationUnavailable => "local-goal authorization adapter is not available",
            BadRequestReason::FirstRevisionSupersedes => "first local-goal revision cannot supersede another revision",
            BadRequestReason::MaterializationResourceMismatch => "effect materialization does not match its resource",
        }
    }
}

/// The error answers of the routes.
#[derive(Clone, Copy, Debug, PartialEq, Eq, Structural)]
pub enum AppError {
    BadRequest(BadRequestReason),
    Forbidden,
    NotFound,
    Conflict,
    PayloadTooLarge,
    Internal,
}

/// A byte result taken by its contents.
pub open spec fn bytes_of(r: Result<Vec<u8>, AppError>) -> Result<Seq<u8>, AppError> {
    match r {
        Ok(v) => Ok(v@),
        Err(e) => Err(e),
    }
}

} // verus!
