use collect_fee::collect_fees::{call_data, rpc_url_variable};
use collect_fee::rpc_methods::TOO_MANY_REQUESTS;

#[test]
fn own_collect_fees_is_called_by_selector_alone() {
    let digest = alloy::primitives::keccak256("collectFees()".as_bytes());
    assert_eq!(call_data(None), digest[..4].to_vec());
    assert_eq!(call_data(None).len(), 4);
}

#[test]
fn factory_call_names_the_campaign() {
    let campaign = [0xc1u8; 20];
    let digest = alloy::primitives::keccak256("collectFees(address)".as_bytes());
    let mut expected = digest[..4].to_vec();
    expected.extend_from_slice(&[0u8; 12]);
    expected.extend_from_slice(&campaign);
    assert_eq!(call_data(Some(campaign)), expected);
    assert_eq!(call_data(Some(campaign)).len(), 36);
    assert_ne!(call_data(Some(campaign))[..4], call_data(None)[..]);
}

#[test]
fn rate_limit_status_is_too_many_requests() {
    assert_eq!(TOO_MANY_REQUESTS, http::StatusCode::TOO_MANY_REQUESTS.as_u16());
}

#[test]
fn endpoint_variable_is_the_upper_case_chain_name() {
    assert_eq!(rpc_url_variable("sepolia"), "SEPOLIA_RPC_URL");
    assert_eq!(rpc_url_variable("base_sepolia"), "BASE_SEPOLIA_RPC_URL");
    assert_eq!(rpc_url_variable(""), "_RPC_URL");
}
