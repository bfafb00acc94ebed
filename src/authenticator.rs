//! The operations an authenticator offers, over the typed requests and
//! responses.

use vstd::prelude::*;
use crate::{client_pin, config, device, get, make, management, reset};

verus! {

/// The CTAP 2.2 authenticator operations, implemented by each backend (a
/// device, a virtual authenticator, a test double).
pub trait Ctap2_2Authenticator {
    /// Generates a new credential.
    fn make_credential(&mut self, request: make::Request) -> Result<make::Response, make::Error>;

    /// Produces an assertion with an existing credential.
    fn get_assertion(&mut self, request: get::Request) -> Result<get::Response, get::Error>;

    /// Reports the authenticator's capabilities.
    fn get_info(&self) -> device::Info;

    /// Runs a ClientPIN sub-command.
    fn client_pin(&mut self, request: client_pin::Request) -> Result<client_pin::Response, client_pin::Error>;

    /// Resets the authenticator to its factory state.
    fn reset(&mut self) -> Result<(), reset::Error>;

    /// Runs a credential management sub-command.
    fn credential_management(&mut self, request: management::Request) -> Result<management::Response, management::Error>;

    /// Runs an authenticatorConfig sub-command.
    fn authenticator_config(&mut self, request: config::Request) -> Result<(), config::Error>;
}

} // verus!
