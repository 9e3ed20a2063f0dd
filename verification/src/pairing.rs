//! The pairing state machine: discover a bridge, then retry registration —
//! user-paced, waiting for the link button — until a credential is issued
//! or a fatal error ends pairing. The surrounding program performs the
//! network calls and the wait; each decision is taken here.

use vstd::prelude::*;
use crate::settings::Settings;

verus! {

/// How many seconds the surrounding program waits between registration
/// attempts while the link button has not been pressed.
pub const RETRY_WAIT_SECS: u64 = 5;

/// Why pairing failed.
#[derive(Debug)]
pub enum PairingError {
    /// Discovery returned no bridge.
    DiscoveryFailure,
    /// Registration failed with something other than the link button.
    RegistrationFailure(String),
}

/// The states of the pairing machine.
pub enum PairingState {
    /// Looking for a bridge on the network.
    Discovering,
    /// A bridge was found; registration awaits the link button press.
    AwaitingLinkPress { bridge_ip: String },
    /// Registration succeeded and produced a session.
    Registered { settings: Settings },
    /// Pairing failed; no session was produced.
    Failed { error: PairingError },
}

/// What the bridge answered to a registration attempt.
pub enum RegistrationOutcome {
    /// A credential was issued.
    Success { username: String },
    /// The link button has not been pressed yet.
    LinkButtonNotPressed,
    /// Any other error, described.
    OtherError { message: String },
}

/// What the surrounding program must do after a registration transition.
#[derive(Debug, Clone, Copy, PartialEq, Eq)]
pub enum PairingAction {
    /// Prompt the user to press the link button, wait `RETRY_WAIT_SECS`
    /// seconds, then try registration again. Retries are unbounded.
    Wait,
    /// Nothing: the machine reached `Registered` or `Failed`.
    Finish,
}

/// The fixed client identifier under which registration is requested.
pub fn device_type() -> (r: &'static str)
    ensures
        r@ == "my_hue_app#homepc"@,
{
    "my_hue_app#homepc"
}

/// Discovery step: zero bridges found is a hard failure; otherwise the
/// first bridge found is taken and pairing awaits the link press.
pub fn on_discovery(addresses: Vec<String>) -> (r: PairingState)
    ensures
        addresses@.len() == 0 ==> r == (PairingState::Failed {
            error: PairingError::DiscoveryFailure,
        }),
        addresses@.len() > 0 ==> (r matches PairingState::AwaitingLinkPress { bridge_ip }
            && bridge_ip == addresses@[0]),
{
    let mut addresses = addresses;
    if addresses.len() == 0 {
        PairingState::Failed { error: PairingError::DiscoveryFailure }
    } else {
        let bridge_ip = addresses.remove(0);
        PairingState::AwaitingLinkPress { bridge_ip }
    }
}

/// Registration step, taken from `AwaitingLinkPress`: success produces the
/// session from the issued credential and the discovered address; the
/// link-button answer keeps waiting and asks for a retry after the wait;
/// any other error is fatal and ends pairing.
pub fn on_registration(bridge_ip: String, outcome: RegistrationOutcome) -> (r: (
    PairingState,
    PairingAction,
))
    ensures
        (match outcome {
            RegistrationOutcome::Success { username } => r.0 matches PairingState::Registered {
                settings,
            } && settings@.username == username@ && settings@.bridge_ip == bridge_ip@ && r.1
                == PairingAction::Finish,
            RegistrationOutcome::LinkButtonNotPressed => r.0 == (PairingState::AwaitingLinkPress {
                bridge_ip,
            }) && r.1 == PairingAction::Wait,
            RegistrationOutcome::OtherError { message } => r.0 == (PairingState::Failed {
                error: PairingError::RegistrationFailure(message),
            }) && r.1 == PairingAction::Finish,
        }),
{
    match outcome {
        RegistrationOutcome::Success { username } => (
            PairingState::Registered { settings: Settings::new(username, bridge_ip) },
            PairingAction::Finish,
        ),
        RegistrationOutcome::LinkButtonNotPressed => (
            PairingState::AwaitingLinkPress { bridge_ip },
            PairingAction::Wait,
        ),
        RegistrationOutcome::OtherError { message } => (
            PairingState::Failed { error: PairingError::RegistrationFailure(message) },
            PairingAction::Finish,
        ),
    }
}

} // verus!
