//! Protobuf wire codecs, reached through trusted declarations.
//!
//! Every encoder and decoder here is a pure function of its input, so
//! the result of each outside call is given a name; the verified
//! pipeline's contracts compose those names.  The read-only query path
//! also lives here: it sends exactly one request and performs no
//! account resolution, no gas simulation and no signing.

use cosmos_sdk_proto::cosmos::auth::v1beta1::{BaseAccount, QueryAccountRequest, QueryAccountResponse};
use cosmos_sdk_proto::cosmos::tx::v1beta1::{SimulateRequest, SimulateResponse};
use cosmos_sdk_proto::cosmwasm::wasm::v1::{
    QuerySmartContractStateRequest, QuerySmartContractStateResponse,
};
use cosmos_sdk_proto::prost::Message;
use vstd::prelude::*;

verus! {

use crate::error::ClientError;
use crate::tx::QueryResponse;

/// The wire encoding of an account query for an address.
pub uninterp spec fn account_query_wire(address: Seq<char>) -> Seq<u8>;

/// What decoding an account-query response yields: `None` when the
/// bytes are not a valid response, `Some(None)` when the response
/// carries no account record, and `Some(Some(b))` with the embedded
/// account record bytes otherwise.
pub uninterp spec fn account_envelope_of(bytes: Seq<u8>) -> Option<Option<Seq<u8>>>;

/// What decoding an embedded account record yields: the account number
/// and the sequence, or `None` when the bytes are not a valid record.
pub uninterp spec fn base_account_of(bytes: Seq<u8>) -> Option<(u64, u64)>;

/// The wire encoding of a dry-run request for signed transaction bytes.
pub uninterp spec fn simulate_wire(tx_bytes: Seq<u8>) -> Seq<u8>;

/// What decoding a dry-run response yields: the simulated gas used, or
/// `None` when the bytes are invalid or carry no gas-usage metadata.
pub uninterp spec fn simulated_gas_of(bytes: Seq<u8>) -> Option<u64>;

/// The wire encoding of a smart-contract state query.
pub uninterp spec fn smart_query_wire(address: Seq<char>, payload: Seq<u8>) -> Seq<u8>;

/// What decoding a smart-contract query response yields: the payload
/// the contract returned, or `None` when the bytes are not a valid
/// response.
pub uninterp spec fn smart_query_payload_of(bytes: Seq<u8>) -> Option<Seq<u8>>;

/// Relies on prost's generated encoding of
/// `cosmos.auth.v1beta1.QueryAccountRequest`: the result is a function
/// of the address alone.
#[verifier::external_body]
pub(crate) fn encode_account_query(address: &String) -> (res: Vec<u8>)
    ensures
        res@ == account_query_wire(address@),
{
    let req = QueryAccountRequest { address: address.clone() };
    req.encode_to_vec()
}

/// Relies on prost's generated decoding of
/// `cosmos.auth.v1beta1.QueryAccountResponse`: the result is a
/// function of the bytes alone, and the `account` field is optional.
#[verifier::external_body]
pub(crate) fn decode_account_envelope(bytes: &Vec<u8>) -> (res: Option<Option<Vec<u8>>>)
    ensures
        match res {
            None => account_envelope_of(bytes@) is None,
            Some(None) => account_envelope_of(bytes@) == Some(Option::<Seq<u8>>::None),
            Some(Some(b)) => account_envelope_of(bytes@) == Some(Some(b@)),
        },
{
    match QueryAccountResponse::decode(bytes.as_slice()) {
        Err(_) => None,
        Ok(resp) => match resp.account {
            None => Some(None),
            Some(any) => Some(Some(any.value)),
        },
    }
}

/// Relies on prost's generated decoding of
/// `cosmos.auth.v1beta1.BaseAccount`: the result is a function of the
/// bytes alone.
#[verifier::external_body]
pub(crate) fn decode_base_account(bytes: &Vec<u8>) -> (res: Option<(u64, u64)>)
    ensures
        match res {
            Some(p) => base_account_of(bytes@) == Some(p),
            None => base_account_of(bytes@) is None,
        },
{
    match BaseAccount::decode(bytes.as_slice()) {
        Err(_) => None,
        Ok(acct) => Some((acct.account_number, acct.sequence)),
    }
}

/// Relies on prost's generated encoding of
/// `cosmos.tx.v1beta1.SimulateRequest`: the result is a function of
/// the transaction bytes alone.
#[verifier::external_body]
pub(crate) fn encode_simulate_request(tx_bytes: &Vec<u8>) -> (res: Vec<u8>)
    ensures
        res@ == simulate_wire(tx_bytes@),
{
    let mut req = SimulateRequest::default();
    req.tx_bytes = tx_bytes.clone();
    req.encode_to_vec()
}

/// Relies on prost's generated decoding of
/// `cosmos.tx.v1beta1.SimulateResponse`: the result is a function of
/// the bytes alone, and `gas_info` is an optional field.
#[verifier::external_body]
pub(crate) fn decode_simulated_gas(bytes: &Vec<u8>) -> (res: Option<u64>)
    ensures
        res == simulated_gas_of(bytes@),
{
    match SimulateResponse::decode(bytes.as_slice()) {
        Err(_) => None,
        Ok(resp) => resp.gas_info.map(|g| g.gas_used),
    }
}

/// Relies on prost's generated encoding of
/// `cosmwasm.wasm.v1.QuerySmartContractStateRequest`: the result is a
/// function of the address and the payload alone.
#[verifier::external_body]
pub(crate) fn encode_smart_query(address: &String, payload: &Vec<u8>) -> (res: Vec<u8>)
    ensures
        res@ == smart_query_wire(address@, payload@),
{
    let req = QuerySmartContractStateRequest {
        address: address.clone(),
        query_data: payload.clone(),
    };
    req.encode_to_vec()
}

/// Relies on prost's generated decoding of
/// `cosmwasm.wasm.v1.QuerySmartContractStateResponse`: the result is a
/// function of the bytes alone.
#[verifier::external_body]
pub(crate) fn decode_smart_query_response(bytes: &Vec<u8>) -> (res: Option<Vec<u8>>)
    ensures
        match res {
            Some(d) => smart_query_payload_of(bytes@) == Some(d@),
            None => smart_query_payload_of(bytes@) is None,
        },
{
    match QuerySmartContractStateResponse::decode(bytes.as_slice()) {
        Err(_) => None,
        Ok(resp) => Some(resp.data),
    }
}

/// Builds the one wire request of the read-only query path.
pub fn smart_query_request(address: &String, payload: &Vec<u8>) -> (res: Vec<u8>)
    ensures
        res@ == smart_query_wire(address@, payload@),
{
    encode_smart_query(address, payload)
}

/// Interprets the transport's answer to a smart-contract query: a
/// non-zero chain-side code fails the query with the raw code and log;
/// an OK code has its payload decoded and returned verbatim.
pub fn complete_query(code: u32, log: String, value: &Vec<u8>) -> (res: Result<
    QueryResponse,
    ClientError,
>)
    ensures
        code != 0 ==> res == Err::<QueryResponse, ClientError>(
            ClientError::QueryFailed { code, log },
        ),
        code == 0 ==> match smart_query_payload_of(value@) {
            Some(d) => res matches Ok(q) && q.data@ == d,
            None => res matches Err(e) && e matches ClientError::TransportError { .. },
        },
{
    if code != 0 {
        return Err(ClientError::QueryFailed { code, log });
    }
    match decode_smart_query_response(value) {
        Some(data) => Ok(QueryResponse { data }),
        None => Err(
            ClientError::TransportError {
                detail: "smart query response was undecodable".to_owned(),
            },
        ),
    }
}

} // verus!
