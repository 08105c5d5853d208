use vstd::prelude::*;

verus! {

/// Where a request stands in the fixed registration/authentication sequence.
#[derive(Clone, Copy, Debug, PartialEq, Eq, Structural)]
pub enum Stage {
    Start,
    CredentialsLoaded,
    SessionCreated,
    SignerCreated,
    Registered,
    Authenticated,
    NodeReady,
    OfferSubmitted,
}

/// The outside work owed at a stage; the caller performs it and reports the
/// outcome back.
#[derive(Clone, Copy, Debug, PartialEq, Eq, Structural)]
pub enum HandshakeAction {
    LoadCredentials,
    CreateSession,
    CreateSigner,
    RegisterNode,
    Authenticate,
    ObtainNode,
    SubmitOffer,
}

/// Why the sequence aborted: one kind per step, terminal for the request.
#[derive(Clone, Copy, Debug, PartialEq, Eq, Structural)]
pub enum OrchestratorError {
    CredentialMissing,
    SchedulerUnreachable,
    SignerConstructionFailed,
    RegistrationFailed,
    AuthenticationFailed,
    NodeHandleUnavailable,
    OfferSubmissionFailed,
}

/// The action owed at each stage; `None` once the offer is submitted.
pub open spec fn spec_action(s: Stage) -> Option<HandshakeAction> {
    match s {
        Stage::Start => Some(HandshakeAction::LoadCredentials),
        Stage::CredentialsLoaded => Some(HandshakeAction::CreateSession),
        Stage::SessionCreated => Some(HandshakeAction::CreateSigner),
        Stage::SignerCreated => Some(HandshakeAction::RegisterNode),
        Stage::Registered => Some(HandshakeAction::Authenticate),
        Stage::Authenticated => Some(HandshakeAction::ObtainNode),
        Stage::NodeReady => Some(HandshakeAction::SubmitOffer),
        Stage::OfferSubmitted => None,
    }
}

/// The stage reached when the owed action succeeds: the sequence is linear.
pub open spec fn spec_next(s: Stage) -> Stage {
    match s {
        Stage::Start => Stage::CredentialsLoaded,
        Stage::CredentialsLoaded => Stage::SessionCreated,
        Stage::SessionCreated => Stage::SignerCreated,
        Stage::SignerCreated => Stage::Registered,
        Stage::Registered => Stage::Authenticated,
        Stage::Authenticated => Stage::NodeReady,
        Stage::NodeReady => Stage::OfferSubmitted,
        Stage::OfferSubmitted => Stage::OfferSubmitted,
    }
}

/// The error kind when the owed action fails: one kind per step.
pub open spec fn spec_failure(s: Stage) -> OrchestratorError {
    match s {
        Stage::Start => OrchestratorError::CredentialMissing,
        Stage::CredentialsLoaded => OrchestratorError::SchedulerUnreachable,
        Stage::SessionCreated => OrchestratorError::SignerConstructionFailed,
        Stage::SignerCreated => OrchestratorError::RegistrationFailed,
        Stage::Registered => OrchestratorError::AuthenticationFailed,
        Stage::Authenticated => OrchestratorError::NodeHandleUnavailable,
        Stage::NodeReady => OrchestratorError::OfferSubmissionFailed,
        Stage::OfferSubmitted => OrchestratorError::OfferSubmissionFailed,
    }
}

/// The action owed at the given stage, `None` once the sequence is done.
pub fn next_action(s: Stage) -> (r: Option<HandshakeAction>)
    ensures
        r == spec_action(s),
{
    match s {
        Stage::Start => Some(HandshakeAction::LoadCredentials),
        Stage::CredentialsLoaded => Some(HandshakeAction::CreateSession),
        Stage::SessionCreated => Some(HandshakeAction::CreateSigner),
        Stage::SignerCreated => Some(HandshakeAction::RegisterNode),
        Stage::Registered => Some(HandshakeAction::Authenticate),
        Stage::Authenticated => Some(HandshakeAction::ObtainNode),
        Stage::NodeReady => Some(HandshakeAction::SubmitOffer),
        Stage::OfferSubmitted => None,
    }
}

/// Advance the sequence by the outcome of the owed action: on success the
/// next stage, on failure the one error kind of that step. The first failure
/// is terminal; nothing is retried.
pub fn apply_outcome(s: Stage, succeeded: bool) -> (r: Result<Stage, OrchestratorError>)
    requires
        spec_action(s) is Some,
    ensures
        succeeded ==> r == Ok::<Stage, OrchestratorError>(spec_next(s)),
        !succeeded ==> r == Err::<Stage, OrchestratorError>(spec_failure(s)),
{
    if succeeded {
        Ok(
            match s {
                Stage::Start => Stage::CredentialsLoaded,
                Stage::CredentialsLoaded => Stage::SessionCreated,
                Stage::SessionCreated => Stage::SignerCreated,
                Stage::SignerCreated => Stage::Registered,
                Stage::Registered => Stage::Authenticated,
                Stage::Authenticated => Stage::NodeReady,
                Stage::NodeReady => Stage::OfferSubmitted,
                Stage::OfferSubmitted => Stage::OfferSubmitted,
            },
        )
    } else {
        Err(
            match s {
                Stage::Start => OrchestratorError::CredentialMissing,
                Stage::CredentialsLoaded => OrchestratorError::SchedulerUnreachable,
                Stage::SessionCreated => OrchestratorError::SignerConstructionFailed,
                Stage::SignerCreated => OrchestratorError::RegistrationFailed,
                Stage::Registered => OrchestratorError::AuthenticationFailed,
                Stage::Authenticated => OrchestratorError::NodeHandleUnavailable,
                Stage::NodeReady => OrchestratorError::OfferSubmissionFailed,
                Stage::OfferSubmitted => OrchestratorError::OfferSubmissionFailed,
            },
        )
    }
}

/// How many successful steps still separate a stage from submission.
pub open spec fn steps_left(s: Stage) -> nat {
    match s {
        Stage::Start => 7,
        Stage::CredentialsLoaded => 6,
        Stage::SessionCreated => 5,
        Stage::SignerCreated => 4,
        Stage::Registered => 3,
        Stage::Authenticated => 2,
        Stage::NodeReady => 1,
        Stage::OfferSubmitted => 0,
    }
}

/// The sequence is linear and terminates: while an action is owed, each
/// success brings submission exactly one step closer, and an action is owed
/// exactly until submission.
pub proof fn lemma_sequence_is_linear(s: Stage)
    ensures
        spec_action(s) is Some <==> s != Stage::OfferSubmitted,
        s != Stage::OfferSubmitted ==> steps_left(spec_next(s)) == steps_left(s) - 1,
{
}

/// The message prefix each error kind is reported under; the step's own
/// detail follows it.
pub open spec fn message_prefix(e: OrchestratorError) -> Seq<char> {
    match e {
        OrchestratorError::CredentialMissing => ""@,
        OrchestratorError::SchedulerUnreachable => "Failed to create scheduler: "@,
        OrchestratorError::SignerConstructionFailed => "Failed to create signer: "@,
        OrchestratorError::RegistrationFailed => "Failed to register node: "@,
        OrchestratorError::AuthenticationFailed => "Failed to authenticate: "@,
        OrchestratorError::NodeHandleUnavailable => "Failed to get node: "@,
        OrchestratorError::OfferSubmissionFailed => "Failed to create offer: "@,
    }
}

/// The human-readable message for a failure: the kind's prefix, then the
/// detail the failing step reported.
pub fn error_message(e: OrchestratorError, detail: &str) -> (r: String)
    ensures
        r@ == message_prefix(e) + detail@,
{
    let mut out = match e {
        OrchestratorError::CredentialMissing => String::from_str(""),
        OrchestratorError::SchedulerUnreachable => String::from_str("Failed to create scheduler: "),
        OrchestratorError::SignerConstructionFailed => String::from_str(
            "Failed to create signer: ",
        ),
        OrchestratorError::RegistrationFailed => String::from_str("Failed to register node: "),
        OrchestratorError::AuthenticationFailed => String::from_str("Failed to authenticate: "),
        OrchestratorError::NodeHandleUnavailable => String::from_str("Failed to get node: "),
        OrchestratorError::OfferSubmissionFailed => String::from_str("Failed to create offer: "),
    };
    out.append(detail);
    out
}

} // verus!
