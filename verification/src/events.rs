//! Locating contract-lifecycle events and extracting their fields.
//!
//! Lookup is a linear scan with first-match semantics, both over the
//! event list and over a matched event's attributes; a missing event
//! or attribute is a reported error, never a zero-valued field.

use vstd::prelude::*;

verus! {

use crate::error::ClientError;
use crate::parse::{all_dec_digits, dec_value, parse_u64};
use crate::tx::{
    CommitResult, ContractEvent, EventAttribute, ExecResponse, InstantiateResponse,
    StoreCodeResponse,
};

/// `i` indexes the first event of kind `kind` in emission order.
pub open spec fn is_first_kind(evs: Seq<ContractEvent>, i: int, kind: Seq<char>) -> bool {
    &&& 0 <= i < evs.len()
    &&& evs[i].kind@ == kind
    &&& forall|j: int| 0 <= j < i ==> (#[trigger] evs[j].kind)@ != kind
}

/// No event of kind `kind` occurs.
pub open spec fn no_kind(evs: Seq<ContractEvent>, kind: Seq<char>) -> bool {
    forall|j: int| 0 <= j < evs.len() ==> (#[trigger] evs[j].kind)@ != kind
}

/// `k` indexes the first attribute with key `key`.
pub open spec fn is_first_key(attrs: Seq<EventAttribute>, k: int, key: Seq<char>) -> bool {
    &&& 0 <= k < attrs.len()
    &&& attrs[k].key@ == key
    &&& forall|j: int| 0 <= j < k ==> (#[trigger] attrs[j].key)@ != key
}

/// No attribute with key `key` occurs.
pub open spec fn no_key(attrs: Seq<EventAttribute>, key: Seq<char>) -> bool {
    forall|j: int| 0 <= j < attrs.len() ==> (#[trigger] attrs[j].key)@ != key
}

/// Scans the event list in emission order and returns the index of the
/// first event whose kind matches, or `None` when no event does.
pub fn find_event(events: &Vec<ContractEvent>, kind: &String) -> (res: Option<usize>)
    ensures
        match res {
            Some(i) => is_first_kind(events@, i as int, kind@),
            None => no_kind(events@, kind@),
        },
{
    let n: usize = events.len();
    let mut i: usize = 0;
    while i < n
        invariant
            n == events@.len(),
            i <= n,
            forall|j: int| 0 <= j < i ==> (#[trigger] events@[j].kind)@ != kind@,
        decreases n - i,
    {
        let ev: &ContractEvent = &events[i];
        if ev.kind == *kind {
            return Some(i);
        }
        i = i + 1;
    }
    None
}

/// Scans a matched event's attributes and returns the index of the
/// first attribute whose key matches, or `None` when none does.
pub fn find_attribute(attrs: &Vec<EventAttribute>, key: &String) -> (res: Option<usize>)
    ensures
        match res {
            Some(k) => is_first_key(attrs@, k as int, key@),
            None => no_key(attrs@, key@),
        },
{
    let n: usize = attrs.len();
    let mut i: usize = 0;
    while i < n
        invariant
            n == attrs@.len(),
            i <= n,
            forall|j: int| 0 <= j < i ==> (#[trigger] attrs@[j].key)@ != key@,
        decreases n - i,
    {
        let attr: &EventAttribute = &attrs[i];
        if attr.key == *key {
            return Some(i);
        }
        i = i + 1;
    }
    None
}

/// Extracts the `code_id` attribute of the first `store_code` event of
/// the block-inclusion phase, parsed as an unsigned integer.
pub fn extract_store_code(commit: CommitResult) -> (res: Result<StoreCodeResponse, ClientError>)
    ensures
        ({
            let evs = commit.deliver.events@;
            match res {
                Ok(r) => {
                    &&& exists|i: int, k: int|
                        {
                            &&& #[trigger] is_first_kind(evs, i, "store_code"@)
                            &&& #[trigger] is_first_key(evs[i].attributes@, k, "code_id"@)
                            &&& evs[i].attributes@[k].value@.len() > 0
                            &&& all_dec_digits(evs[i].attributes@[k].value@)
                            &&& r.code_id == dec_value(evs[i].attributes@[k].value@)
                        }
                    &&& r.data == commit.deliver
                },
                Err(e) => match e {
                    ClientError::EventNotFound { kind } => {
                        &&& kind@ == "store_code"@
                        &&& no_kind(evs, "store_code"@)
                    },
                    ClientError::AttributeNotFound { key } => {
                        &&& key@ == "code_id"@
                        &&& exists|i: int|
                            #[trigger] is_first_kind(evs, i, "store_code"@) && no_key(
                                evs[i].attributes@,
                                "code_id"@,
                            )
                    },
                    ClientError::MalformedResponse { value } => exists|i: int, k: int|
                        {
                            &&& #[trigger] is_first_kind(evs, i, "store_code"@)
                            &&& #[trigger] is_first_key(evs[i].attributes@, k, "code_id"@)
                            &&& value@ == evs[i].attributes@[k].value@
                            &&& (value@.len() == 0 || !all_dec_digits(value@) || dec_value(value@)
                                > u64::MAX)
                        },
                    _ => false,
                },
            }
        }),
{
    let kind: String = "store_code".to_owned();
    let key: String = "code_id".to_owned();
    match find_event(&commit.deliver.events, &kind) {
        None => Err(ClientError::EventNotFound { kind }),
        Some(i) => {
            let attrs: &Vec<EventAttribute> = &commit.deliver.events[i].attributes;
            match find_attribute(attrs, &key) {
                None => Err(ClientError::AttributeNotFound { key }),
                Some(k) => {
                    let value: &String = &attrs[k].value;
                    match parse_u64(value.as_str()) {
                        None => Err(ClientError::MalformedResponse { value: value.clone() }),
                        Some(code_id) => Ok(StoreCodeResponse { code_id, data: commit.deliver }),
                    }
                },
            }
        },
    }
}

/// Extracts the `_contract_address` attribute of the first
/// `instantiate` event of the block-inclusion phase, verbatim.
pub fn extract_instantiate(commit: CommitResult) -> (res: Result<
    InstantiateResponse,
    ClientError,
>)
    ensures
        ({
            let evs = commit.deliver.events@;
            match res {
                Ok(r) => {
                    &&& exists|i: int, k: int|
                        {
                            &&& #[trigger] is_first_kind(evs, i, "instantiate"@)
                            &&& #[trigger] is_first_key(
                                evs[i].attributes@,
                                k,
                                "_contract_address"@,
                            )
                            &&& r.address@ == evs[i].attributes@[k].value@
                        }
                    &&& r.data == commit.deliver
                },
                Err(e) => match e {
                    ClientError::EventNotFound { kind } => {
                        &&& kind@ == "instantiate"@
                        &&& no_kind(evs, "instantiate"@)
                    },
                    ClientError::AttributeNotFound { key } => {
                        &&& key@ == "_contract_address"@
                        &&& exists|i: int|
                            #[trigger] is_first_kind(evs, i, "instantiate"@) && no_key(
                                evs[i].attributes@,
                                "_contract_address"@,
                            )
                    },
                    _ => false,
                },
            }
        }),
{
    let kind: String = "instantiate".to_owned();
    let key: String = "_contract_address".to_owned();
    match find_event(&commit.deliver.events, &kind) {
        None => Err(ClientError::EventNotFound { kind }),
        Some(i) => {
            let attrs: &Vec<EventAttribute> = &commit.deliver.events[i].attributes;
            match find_attribute(attrs, &key) {
                None => Err(ClientError::AttributeNotFound { key }),
                Some(k) => {
                    let address: String = attrs[k].value.clone();
                    Ok(InstantiateResponse { address, data: commit.deliver })
                },
            }
        },
    }
}

/// Encode/decode round trip at the event level: when the first
/// `store_code` event's first `code_id` attribute carries the decimal
/// encoding of `n`, the attribute parses back to exactly `n`, and none
/// of the extraction failures (missing event, missing attribute,
/// unparseable value) can apply.  Together with the contract of
/// [`extract_store_code`], the extracted code id is `n`.
pub proof fn lemma_store_code_round_trip(
    evs: Seq<ContractEvent>,
    i: int,
    k: int,
    n: u64,
)
    requires
        is_first_kind(evs, i, "store_code"@),
        is_first_key(evs[i].attributes@, k, "code_id"@),
        evs[i].attributes@[k].value@ == crate::parse::dec_repr(n as int),
    ensures
        evs[i].attributes@[k].value@.len() > 0,
        all_dec_digits(evs[i].attributes@[k].value@),
        dec_value(evs[i].attributes@[k].value@) == n,
        !no_kind(evs, "store_code"@),
        !no_key(evs[i].attributes@, "code_id"@),
{
    crate::parse::lemma_dec_round_trip(n as int);
}

/// Wraps an execute outcome: no event extraction is required, the raw
/// block-inclusion phase is the result.
pub fn exec_response(commit: CommitResult) -> (res: ExecResponse)
    ensures
        res.data == commit.deliver,
{
    ExecResponse { data: commit.deliver }
}

} // verus!
