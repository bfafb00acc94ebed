//! Protocol core of a FIDO2 / CTAP2 authenticator stack: the command registry,
//! the typed request and response model with its integer-tagged wire form, the
//! PIN/UV auth protocol engine, the authenticator-data binary layout and the
//! capability model.

pub mod cbor;
pub mod command;

pub mod attestation;
pub mod authenticator_data;
pub mod entities;
pub mod extensions;
pub mod key_agreement;
pub mod permission;
pub mod registry;

pub mod auth_protocol;
pub mod client_pin;
pub mod config;
pub mod device;
pub mod get;
pub mod make;
pub mod management;
pub mod reset;

pub mod authenticator;
pub mod borrowed;
pub mod client_data;
pub mod create_options;
pub mod credential_management;
pub mod request_options;
pub mod webauthn;
