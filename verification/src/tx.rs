//! Plain-value data model of a transaction's inputs and outcome.

use vstd::prelude::*;

verus! {

/// A resolved on-chain account: number and current sequence, fetched
/// fresh before every signing step.
#[derive(Clone, Copy, Debug, PartialEq, Eq, Structural)]
pub struct Account {
    pub account_number: u64,
    pub sequence: u64,
}

/// An amount of a single denomination, attached to a message as funds.
#[derive(Clone, Debug, PartialEq)]
pub struct Coin {
    pub denom: String,
    pub amount: u64,
}

/// The one message a transaction carries: a contract-lifecycle
/// operation described entirely by plain values.  The caller turns it
/// into the chain's message encoding when it assembles the signed
/// transaction.
#[derive(Clone, Debug, PartialEq)]
pub enum TxMsg {
    Store { wasm_byte_code: Vec<u8> },
    Instantiate {
        code_id: u64,
        msg: Vec<u8>,
        label: String,
        admin: Option<String>,
        funds: Vec<Coin>,
    },
    Execute { contract: String, msg: Vec<u8>, funds: Vec<Coin> },
}

/// One key/value attribute of an emitted event.
#[derive(Clone, Debug, PartialEq)]
pub struct EventAttribute {
    pub key: String,
    pub value: String,
}

/// A named event emitted by an on-chain module, with its attributes in
/// emission order.
#[derive(Clone, Debug, PartialEq)]
pub struct ContractEvent {
    pub kind: String,
    pub attributes: Vec<EventAttribute>,
}

/// The outcome of one phase of a broadcast transaction (mempool
/// admission or block inclusion): a status code, the raw payload, and
/// the emitted events.
#[derive(Clone, Debug, PartialEq)]
pub struct TxPhaseResult {
    pub code: u32,
    pub log: String,
    pub data: Vec<u8>,
    pub events: Vec<ContractEvent>,
}

/// The outcome of broadcast-and-wait: the mempool-admission phase and
/// the block-inclusion phase.
#[derive(Clone, Debug, PartialEq)]
pub struct CommitResult {
    pub check: TxPhaseResult,
    pub deliver: TxPhaseResult,
}

/// The caller-visible outcome of a store operation: the extracted code
/// id plus the block-inclusion phase for auditability.
#[derive(Clone, Debug, PartialEq)]
pub struct StoreCodeResponse {
    pub code_id: u64,
    pub data: TxPhaseResult,
}

/// The caller-visible outcome of an instantiate operation: the
/// extracted contract address plus the block-inclusion phase.
#[derive(Clone, Debug, PartialEq)]
pub struct InstantiateResponse {
    pub address: String,
    pub data: TxPhaseResult,
}

/// The caller-visible outcome of an execute operation: the raw
/// block-inclusion phase, opaque to this client by design.
#[derive(Clone, Debug, PartialEq)]
pub struct ExecResponse {
    pub data: TxPhaseResult,
}

/// The decoded payload a smart-contract query returned.
#[derive(Clone, Debug, PartialEq)]
pub struct QueryResponse {
    pub data: Vec<u8>,
}

/// A phase succeeded exactly when its status code is zero.
pub open spec fn phase_ok(p: TxPhaseResult) -> bool {
    p.code == 0
}

/// A commit counts as success only when both phases report an OK code.
pub open spec fn commit_ok(c: CommitResult) -> bool {
    phase_ok(c.check) && phase_ok(c.deliver)
}

} // verus!
