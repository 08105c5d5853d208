use greenlight_backend::handshake::apply_outcome;
use greenlight_backend::handshake::error_message;
use greenlight_backend::handshake::next_action;
use greenlight_backend::handshake::HandshakeAction;
use greenlight_backend::handshake::OrchestratorError;
use greenlight_backend::handshake::Stage;

#[test]
fn successful_run_performs_the_seven_steps_in_order() {
    let mut stage = Stage::Start;
    let mut actions = Vec::new();
    while let Some(a) = next_action(stage) {
        actions.push(a);
        stage = apply_outcome(stage, true).expect("a success advances");
    }
    assert_eq!(stage, Stage::OfferSubmitted);
    assert_eq!(
        actions,
        vec![
            HandshakeAction::LoadCredentials,
            HandshakeAction::CreateSession,
            HandshakeAction::CreateSigner,
            HandshakeAction::RegisterNode,
            HandshakeAction::Authenticate,
            HandshakeAction::ObtainNode,
            HandshakeAction::SubmitOffer,
        ]
    );
}

#[test]
fn nothing_is_owed_after_submission() {
    assert_eq!(next_action(Stage::OfferSubmitted), None);
}

#[test]
fn each_step_fails_with_its_own_error_kind() {
    assert_eq!(
        apply_outcome(Stage::Start, false),
        Err(OrchestratorError::CredentialMissing)
    );
    assert_eq!(
        apply_outcome(Stage::CredentialsLoaded, false),
        Err(OrchestratorError::SchedulerUnreachable)
    );
    assert_eq!(
        apply_outcome(Stage::SessionCreated, false),
        Err(OrchestratorError::SignerConstructionFailed)
    );
    assert_eq!(
        apply_outcome(Stage::SignerCreated, false),
        Err(OrchestratorError::RegistrationFailed)
    );
    assert_eq!(
        apply_outcome(Stage::Registered, false),
        Err(OrchestratorError::AuthenticationFailed)
    );
    assert_eq!(
        apply_outcome(Stage::Authenticated, false),
        Err(OrchestratorError::NodeHandleUnavailable)
    );
    assert_eq!(
        apply_outcome(Stage::NodeReady, false),
        Err(OrchestratorError::OfferSubmissionFailed)
    );
}

#[test]
fn error_messages_carry_the_step_detail() {
    assert_eq!(
        error_message(OrchestratorError::CredentialMissing, "no cert"),
        "no cert"
    );
    assert_eq!(
        error_message(OrchestratorError::SchedulerUnreachable, "boom"),
        "Failed to create scheduler: boom"
    );
    assert_eq!(
        error_message(OrchestratorError::SignerConstructionFailed, "boom"),
        "Failed to create signer: boom"
    );
    assert_eq!(
        error_message(OrchestratorError::RegistrationFailed, "boom"),
        "Failed to register node: boom"
    );
    assert_eq!(
        error_message(OrchestratorError::AuthenticationFailed, "boom"),
        "Failed to authenticate: boom"
    );
    assert_eq!(
        error_message(OrchestratorError::NodeHandleUnavailable, "boom"),
        "Failed to get node: boom"
    );
    assert_eq!(
        error_message(OrchestratorError::OfferSubmissionFailed, "boom"),
        "Failed to create offer: boom"
    );
}
