use vstd::prelude::*;

pub mod chains;
pub mod text;
pub mod utils;

verus! {

/// Which side of an instruction an entry belongs to.
#[derive(Clone, Copy, Debug, PartialEq, Eq, Structural)]
pub enum Role {
    Recipient,
    Sender,
}

/// Everything that can stop a disbursement.
#[derive(Debug)]
pub enum Error {
    /// The instruction document does not decode into the expected shape.
    MalformedInput(String),
    /// Recipient and sender totals (in billionths of a coin) differ by more than the tolerance.
    AmountMismatch { recipients_total: u128, senders_total: u128 },
    /// The entry at `index` of the `role` list holds an address that the chain cannot parse.
    InvalidAddress { address: String, role: Role, index: usize },
    /// A sender holds less than it is asked to send, both in the chain's base units.
    InsufficientBalance { address: String, required: u64, available: u64 },
    /// A balance lookup or another read failed on the network.
    NetworkError(String),
    /// Chunk `chunk_index` was rejected; every chunk before it is already confirmed.
    SubmissionError { chunk_index: usize, cause: String },
    /// A configuration value could not be used.
    InvalidConfig(String),
}

} // verus!
