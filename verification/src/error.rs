//! The failure taxonomy of the client.

use vstd::prelude::*;

verus! {

use crate::tx::TxPhaseResult;

/// Every way an operation can fail, each with the minimal diagnostic
/// payload: the raw phase result, the missing event or attribute name,
/// or the unparseable field.
#[derive(Clone, Debug, PartialEq)]
pub enum ClientError {
    /// The chain has no record of the signer's address.
    AccountNotFound { address: String },
    /// The dry run was rejected or returned no gas-usage metadata,
    /// or the adjusted gas values do not fit in 64 bits.
    SimulationFailed,
    /// The cryptographic signing primitive itself failed.
    SigningFailed { detail: String },
    /// Mempool admission failed: the transaction never entered a block.
    BroadcastRejected { check: TxPhaseResult },
    /// The transaction was included but its messages failed on-chain.
    ExecutionFailed { deliver: TxPhaseResult },
    /// A required event was absent from the block-inclusion result.
    EventNotFound { kind: String },
    /// A matched event lacks the expected attribute.
    AttributeNotFound { key: String },
    /// An extracted field could not be parsed.
    MalformedResponse { value: String },
    /// The chain-side query failed.
    QueryFailed { code: u32, log: String },
    /// A network- or codec-level failure.
    TransportError { detail: String },
    /// A malformed configuration value.
    ConfigError { detail: String },
}

} // verus!
