use cosm_client::error::ClientError;
use cosm_client::events::{extract_instantiate, extract_store_code, exec_response, find_attribute, find_event};
use cosm_client::tx::{CommitResult, ContractEvent, EventAttribute, TxPhaseResult};

fn phase_with(events: Vec<ContractEvent>) -> TxPhaseResult {
    TxPhaseResult {
        code: 0,
        log: String::new(),
        data: Vec::new(),
        events,
    }
}

fn commit_with(events: Vec<ContractEvent>) -> CommitResult {
    CommitResult {
        check: phase_with(Vec::new()),
        deliver: phase_with(events),
    }
}

fn event(kind: &str, pairs: &[(&str, &str)]) -> ContractEvent {
    ContractEvent {
        kind: kind.to_string(),
        attributes: pairs
            .iter()
            .map(|(k, v)| EventAttribute {
                key: k.to_string(),
                value: v.to_string(),
            })
            .collect(),
    }
}

#[test]
fn store_code_id_round_trips_through_the_event() {
    let id: u64 = 1742;
    let ev = event("store_code", &[("code_id", &format!("{}", id))]);
    let res = extract_store_code(commit_with(vec![ev])).unwrap();
    assert_eq!(res.code_id, id);
}

#[test]
fn store_code_id_round_trips_at_the_largest_value() {
    let ev = event("store_code", &[("code_id", "18446744073709551615")]);
    let res = extract_store_code(commit_with(vec![ev])).unwrap();
    assert_eq!(res.code_id, u64::MAX);
}

#[test]
fn missing_event_is_event_not_found_not_a_zero_field() {
    let ev = event("wasm", &[("code_id", "5")]);
    let err = extract_store_code(commit_with(vec![ev])).unwrap_err();
    assert_eq!(
        err,
        ClientError::EventNotFound {
            kind: "store_code".to_string()
        }
    );
}

#[test]
fn missing_attribute_is_attribute_not_found() {
    let ev = event("store_code", &[("sender", "juno1signer")]);
    let err = extract_store_code(commit_with(vec![ev])).unwrap_err();
    assert_eq!(
        err,
        ClientError::AttributeNotFound {
            key: "code_id".to_string()
        }
    );
}

#[test]
fn unparseable_code_id_is_malformed_response() {
    let ev = event("store_code", &[("code_id", "12x")]);
    let err = extract_store_code(commit_with(vec![ev])).unwrap_err();
    assert_eq!(
        err,
        ClientError::MalformedResponse {
            value: "12x".to_string()
        }
    );
}

#[test]
fn empty_code_id_is_malformed_response() {
    let ev = event("store_code", &[("code_id", "")]);
    let err = extract_store_code(commit_with(vec![ev])).unwrap_err();
    assert_eq!(
        err,
        ClientError::MalformedResponse {
            value: String::new()
        }
    );
}

#[test]
fn overflowing_code_id_is_malformed_response() {
    // One past u64::MAX.
    let ev = event("store_code", &[("code_id", "18446744073709551616")]);
    let err = extract_store_code(commit_with(vec![ev])).unwrap_err();
    assert!(matches!(err, ClientError::MalformedResponse { .. }));
}

#[test]
fn instantiate_address_is_extracted_verbatim() {
    let addr = "juno1MiXeDcAsE--  spaced  ";
    let ev = event("instantiate", &[("_contract_address", addr)]);
    let res = extract_instantiate(commit_with(vec![ev])).unwrap();
    assert_eq!(res.address, addr);
}

#[test]
fn missing_instantiate_event_is_event_not_found() {
    let err = extract_instantiate(commit_with(Vec::new())).unwrap_err();
    assert_eq!(
        err,
        ClientError::EventNotFound {
            kind: "instantiate".to_string()
        }
    );
}

#[test]
fn first_matching_event_wins() {
    let first = event("store_code", &[("code_id", "1")]);
    let second = event("store_code", &[("code_id", "2")]);
    let res = extract_store_code(commit_with(vec![first, second])).unwrap();
    assert_eq!(res.code_id, 1);
}

#[test]
fn first_matching_attribute_wins() {
    let ev = event(
        "store_code",
        &[("sender", "juno1signer"), ("code_id", "8"), ("code_id", "9")],
    );
    let res = extract_store_code(commit_with(vec![ev])).unwrap();
    assert_eq!(res.code_id, 8);
}

#[test]
fn find_event_scans_in_emission_order() {
    let events = vec![
        event("message", &[]),
        event("instantiate", &[("_contract_address", "juno1abc")]),
    ];
    assert_eq!(find_event(&events, &"instantiate".to_string()), Some(1));
    assert_eq!(find_event(&events, &"store_code".to_string()), None);
}

#[test]
fn find_attribute_scans_by_key() {
    let ev = event("instantiate", &[("_contract_address", "juno1abc")]);
    assert_eq!(
        find_attribute(&ev.attributes, &"_contract_address".to_string()),
        Some(0)
    );
    assert_eq!(find_attribute(&ev.attributes, &"code_id".to_string()), None);
}

#[test]
fn execute_keeps_the_raw_deliver_phase() {
    let deliver_events = vec![event("wasm", &[("action", "transfer")])];
    let commit = commit_with(deliver_events.clone());
    let res = exec_response(commit);
    assert_eq!(res.data.events, deliver_events);
}
