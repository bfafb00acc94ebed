//! The command registry: the one-byte opcode of each CTAP2 command.

use vstd::prelude::*;

verus! {

/// The CTAP2 commands, each identified on the wire by a one-byte opcode.
#[derive(Debug, Clone, Copy, PartialEq, Eq, Structural)]
pub enum Command {
    AuthenticatorMakeCredential,
    AuthenticatorGetAssertion,
    AuthenticatorGetNextAssertion,
    AuthenticatorGetInfo,
    AuthenticatorClientPin,
    AuthenticatorReset,
    AuthenticatorBioEnrollment,
    AuthenticatorCredentialManagement,
    AuthenticatorSelection,
    AuthenticatorLargeBlobs,
    AuthenticatorConfig,
    PrototypeAuthenticatorBioEnrollment,
    PrototypeAuthenticatorCredentialmanagement,
}

/// The error returned for an opcode that names no known command.
#[derive(Debug, Clone, Copy, PartialEq, Eq, Structural)]
pub struct UnsupportedCommand {
    pub opcode: u8,
}

/// The opcode of each command.
pub open spec fn opcode_of(c: Command) -> u8 {
    match c {
        Command::AuthenticatorMakeCredential => 0x01,
        Command::AuthenticatorGetAssertion => 0x02,
        Command::AuthenticatorGetNextAssertion => 0x08,
        Command::AuthenticatorGetInfo => 0x04,
        Command::AuthenticatorClientPin => 0x06,
        Command::AuthenticatorReset => 0x07,
        Command::AuthenticatorBioEnrollment => 0x09,
        Command::AuthenticatorCredentialManagement => 0x0A,
        Command::AuthenticatorSelection => 0x0B,
        Command::AuthenticatorLargeBlobs => 0x0C,
        Command::AuthenticatorConfig => 0x0D,
        Command::PrototypeAuthenticatorBioEnrollment => 0x40,
        Command::PrototypeAuthenticatorCredentialmanagement => 0x41,
    }
}

/// Whether some command carries the opcode `b`.
pub open spec fn is_known_opcode(b: u8) -> bool {
    exists|c: Command| opcode_of(c) == b
}

impl Command {
    /// The one-byte opcode of this command.
    pub fn opcode(&self) -> (r: u8)
        ensures
            r == opcode_of(*self),
    {
        match self {
            Command::AuthenticatorMakeCredential => 0x01,
            Command::AuthenticatorGetAssertion => 0x02,
            Command::AuthenticatorGetNextAssertion => 0x08,
            Command::AuthenticatorGetInfo => 0x04,
            Command::AuthenticatorClientPin => 0x06,
            Command::AuthenticatorReset => 0x07,
            Command::AuthenticatorBioEnrollment => 0x09,
            Command::AuthenticatorCredentialManagement => 0x0A,
            Command::AuthenticatorSelection => 0x0B,
            Command::AuthenticatorLargeBlobs => 0x0C,
            Command::AuthenticatorConfig => 0x0D,
            Command::PrototypeAuthenticatorBioEnrollment => 0x40,
            Command::PrototypeAuthenticatorCredentialmanagement => 0x41,
        }
    }

    /// Looks up the command that an opcode names.
    pub fn resolve(opcode: u8) -> (r: Result<Command, UnsupportedCommand>)
        ensures
            r matches Ok(c) ==> opcode_of(c) == opcode,
            r is Err <==> !is_known_opcode(opcode),
            r matches Err(e) ==> e.opcode == opcode,
    {
        match opcode {
            0x01 => Ok(Command::AuthenticatorMakeCredential),
            0x02 => Ok(Command::AuthenticatorGetAssertion),
            0x08 => Ok(Command::AuthenticatorGetNextAssertion),
            0x04 => Ok(Command::AuthenticatorGetInfo),
            0x06 => Ok(Command::AuthenticatorClientPin),
            0x07 => Ok(Command::AuthenticatorReset),
            0x09 => Ok(Command::AuthenticatorBioEnrollment),
            0x0A => Ok(Command::AuthenticatorCredentialManagement),
            0x0B => Ok(Command::AuthenticatorSelection),
            0x0C => Ok(Command::AuthenticatorLargeBlobs),
            0x0D => Ok(Command::AuthenticatorConfig),
            0x40 => Ok(Command::PrototypeAuthenticatorBioEnrollment),
            0x41 => Ok(Command::PrototypeAuthenticatorCredentialmanagement),
            _ => Err(UnsupportedCommand { opcode }),
        }
    }
}

/// Distinct commands carry distinct opcodes, so looking up a command's opcode
/// gives that command back.
pub proof fn lemma_opcode_round_trip(c: Command, d: Command)
    ensures
        opcode_of(c) == opcode_of(d) ==> c == d,
{
}

} // verus!
