//! The privilege broker: who may open a block device for writing.
//!
//! Each platform answers the question differently. One defers consent
//! to a privileged brokering service that prompts when the device is
//! actually opened; one prompts up front through the native
//! authorization framework and mints a short-lived credential; one
//! cannot obtain rights at all and only reports whether the process
//! already runs elevated. The decisions are here; showing the native
//! prompt is the application's.

use vstd::prelude::*;

use crate::errors::EngineError;
use crate::system::Platform;

verus! {

/// What the native consent prompt came back with.
#[derive(Clone, Copy, Debug, PartialEq, Eq, Structural)]
pub enum PromptOutcome {
    /// The operator approved the request.
    Approved,
    /// The operator declined the request.
    Denied,
    /// The consent mechanism itself failed.
    Unavailable,
}

/// The phases of one authorization request.
#[derive(Clone, Copy, Debug, PartialEq, Eq, Structural)]
pub enum AuthPhase {
    Idle,
    Prompting,
    Approved,
    Denied,
    Failed,
}

/// An observation that advances the authorization flow.
#[derive(Clone, Copy, Debug, PartialEq, Eq, Structural)]
pub enum AuthEvent {
    PromptShown,
    OperatorApproved,
    OperatorDeclined,
    MechanismFailed,
}

/// Request authorization to write a device on the deferred-consent
/// platform: consent is obtained transactionally by the privileged
/// brokering service when the device is opened later, so the request
/// itself always succeeds.
pub fn request_authorization(device_path: &str) -> (r: Result<bool, String>)
    ensures
        r == Ok::<bool, String>(true),
{
    let _ = device_path;
    Ok(true)
}

/// Classify the broker's answer for each platform: the
/// deferred-consent platform always proceeds; the explicit platform
/// passes the operator's answer through, and a broken consent
/// mechanism is an error rather than a refusal; the
/// elevation-required platform can only report whether elevation is
/// already in effect.
pub fn authorization_outcome(platform: Platform, prompt: PromptOutcome, elevated: bool) -> (r:
    Result<bool, EngineError>)
    ensures
        match platform {
            Platform::Linux => r == Ok::<bool, EngineError>(true),
            Platform::MacOs => r == match prompt {
                PromptOutcome::Approved => Ok::<bool, EngineError>(true),
                PromptOutcome::Denied => Ok::<bool, EngineError>(false),
                PromptOutcome::Unavailable => Err::<bool, EngineError>(
                    EngineError::AuthorizationUnavailable,
                ),
            },
            Platform::Windows => r == Ok::<bool, EngineError>(elevated),
        },
{
    match platform {
        Platform::Linux => Ok(true),
        Platform::MacOs => match prompt {
            PromptOutcome::Approved => Ok(true),
            PromptOutcome::Denied => Ok(false),
            PromptOutcome::Unavailable => Err(EngineError::AuthorizationUnavailable),
        },
        Platform::Windows => Ok(elevated),
    }
}

/// One transition of the authorization flow: the prompt moves an idle
/// request to prompting, the operator's answer or a mechanism failure
/// resolves it, and the resolved phases absorb every further event.
pub fn auth_step(phase: AuthPhase, event: AuthEvent) -> (r: AuthPhase)
    ensures
        r == match phase {
            AuthPhase::Idle => match event {
                AuthEvent::PromptShown => AuthPhase::Prompting,
                _ => AuthPhase::Idle,
            },
            AuthPhase::Prompting => match event {
                AuthEvent::OperatorApproved => AuthPhase::Approved,
                AuthEvent::OperatorDeclined => AuthPhase::Denied,
                AuthEvent::MechanismFailed => AuthPhase::Failed,
                AuthEvent::PromptShown => AuthPhase::Prompting,
            },
            _ => phase,
        },
{
    match phase {
        AuthPhase::Idle => match event {
            AuthEvent::PromptShown => AuthPhase::Prompting,
            _ => AuthPhase::Idle,
        },
        AuthPhase::Prompting => match event {
            AuthEvent::OperatorApproved => AuthPhase::Approved,
            AuthEvent::OperatorDeclined => AuthPhase::Denied,
            AuthEvent::MechanismFailed => AuthPhase::Failed,
            AuthEvent::PromptShown => AuthPhase::Prompting,
        },
        AuthPhase::Approved => AuthPhase::Approved,
        AuthPhase::Denied => AuthPhase::Denied,
        AuthPhase::Failed => AuthPhase::Failed,
    }
}

} // verus!
