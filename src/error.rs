use vstd::prelude::*;

verus! {

/// What can go wrong in the adapter's own logic.
#[derive(Debug, Clone, Copy, PartialEq, Eq, Structural)]
pub enum MiningError {
    /// The secret key is not an even-length string of hex digits.
    KeyEncoding,
    /// The secret key does not decode to a 32-byte seed.
    KeyLength,
    /// The search-algorithm name is not one of the known ones.
    UnknownAlgorithm,
    /// An inbound call did not carry an object id and a string payload.
    MalformedCall,
    /// The pool's answer lacks one of the five parameter fields.
    MissingField,
    /// A field of the pool's answer does not decode.
    InvalidField,
    /// Encrypting a proposal failed.
    Encryption,
}

} // verus!
