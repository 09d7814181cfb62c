//! What can go wrong between a participant, its configuration and the ledger.

use crate::wire::WireError;
use vstd::prelude::*;

verus! {

/// `yaml_rust::ScanError`, the complaint of the YAML scanner, carried
/// through as it comes.
#[verifier::external_type_specification]
#[verifier::external_body]
pub struct ExScanError(yaml_rust::ScanError);

/// Why no address was derived.
#[derive(Debug, Clone, Copy, PartialEq, Eq, Structural)]
pub enum DerivationError {
    /// The seed is longer than the ledger takes.
    MaxSeedLengthExceeded,
    /// The seeds give no valid address.
    InvalidSeeds,
    /// The owner's address ends in the marker of program-derived addresses.
    IllegalOwner,
}

/// The failures of a participant.
#[derive(Debug)]
pub enum Error {
    /// The configuration file could not be read; the text says why.
    ConfigReadError(String),
    /// The configuration file is no YAML.
    ConfigParseError(yaml_rust::ScanError),
    /// The configuration does not say what it should.
    InvalidConfig(String),
    /// The wallet's key file is missing or unreadable.
    InvalidKeypairFile(String),
    /// Bytes that should hold a record or a deck hold none.
    SerializationError(WireError),
    /// The ledger refused a request or could not be reached.
    ClientError(String),
    /// No address could be derived for the game record.
    KeyDerivationError(DerivationError),
    /// The ledger gave no recent block hash.
    LatestBlockHashError(String),
    /// The ledger gave no fee for a block hash.
    FeeCaluclatorError(String),
    /// Any other failure.
    Error(String),
}

} // verus!
