use cosm_client::error::ClientError;
use cosm_client::fee::{scale_up, Ratio};
use cosm_client::wire::{complete_query, smart_query_request};

use cosmos_sdk_proto::cosmwasm::wasm::v1::{
    QuerySmartContractStateRequest, QuerySmartContractStateResponse,
};
use cosmos_sdk_proto::prost::Message;

#[test]
fn scale_up_matches_the_worked_example() {
    // simulated_gas_used = 100000, gas_adjustment = 1.3,
    // gas_price = 0.025: gas_limit 130000 and fee 3250.
    let adjustment = Ratio { num: 13, den: 10 };
    let price = Ratio { num: 25, den: 1000 };
    let gas_limit = scale_up(100000, adjustment).unwrap();
    assert_eq!(gas_limit, 130000);
    assert_eq!(scale_up(gas_limit, price).unwrap(), 3250);
}

#[test]
fn scale_up_rounds_fractions_up() {
    assert_eq!(scale_up(1, Ratio { num: 13, den: 10 }).unwrap(), 2);
    assert_eq!(scale_up(3, Ratio { num: 1, den: 2 }).unwrap(), 2);
    assert_eq!(scale_up(4, Ratio { num: 1, den: 2 }).unwrap(), 2);
}

#[test]
fn scale_up_reports_values_that_do_not_fit() {
    assert_eq!(scale_up(u64::MAX, Ratio { num: 2, den: 1 }), None);
    assert_eq!(scale_up(u64::MAX, Ratio { num: 1, den: 1 }), Some(u64::MAX));
}

#[test]
fn query_request_encodes_address_and_payload() {
    let address = "juno1contract".to_string();
    let payload = vec![123, 125];
    let wire = smart_query_request(&address, &payload);
    let decoded = QuerySmartContractStateRequest::decode(wire.as_slice()).unwrap();
    assert_eq!(decoded.address, "juno1contract");
    assert_eq!(decoded.query_data, payload);
}

#[test]
fn query_payload_is_decoded_verbatim() {
    let resp = QuerySmartContractStateResponse {
        data: vec![1, 2, 3, 4],
    };
    let out = complete_query(0, String::new(), &resp.encode_to_vec()).unwrap();
    assert_eq!(out.data, vec![1, 2, 3, 4]);
}

#[test]
fn chain_side_failure_is_query_failed() {
    let err = complete_query(5, "contract: query unsupported".to_string(), &Vec::new())
        .unwrap_err();
    assert_eq!(
        err,
        ClientError::QueryFailed {
            code: 5,
            log: "contract: query unsupported".to_string()
        }
    );
}

#[test]
fn zero_denominator_is_a_config_error() {
    let cfg = cosm_client::config::ChainConfig {
        rpc_endpoint: "http://localhost:26657".to_string(),
        chain_id: "testing".to_string(),
        prefix: "juno".to_string(),
        denom: "ujunox".to_string(),
        gas_price: Ratio { num: 25, den: 1000 },
        gas_adjustment: Ratio { num: 13, den: 0 },
        memo: String::new(),
        timeout_height: 0,
    };
    let err = cfg.validate().unwrap_err();
    assert!(matches!(err, ClientError::ConfigError { .. }));

    let mut good = cfg;
    good.gas_adjustment = Ratio { num: 13, den: 10 };
    assert!(good.validate().is_ok());
}

#[test]
fn undecodable_query_payload_is_a_transport_error() {
    let err = complete_query(0, String::new(), &vec![0xff, 0xff]).unwrap_err();
    assert!(matches!(err, ClientError::TransportError { .. }));
}
