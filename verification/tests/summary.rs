use staking::amount::Wei;
use staking::registry::{default_registry, find_service, ServiceContract};
use staking::summary::{
    disconnected_summary, get_pending_rewards, get_staking_info, pending_reward_positions,
    summarize, AutoClaimPreference, ServiceReading,
};
use staking::wallet::{StakingError, WalletContext};

const RPC: &str = "http://localhost:8545";

fn prefs() -> AutoClaimPreference {
    AutoClaimPreference {
        auto_claim: true,
        auto_claim_threshold_wei: "500".to_string(),
        auto_claim_interval_hours: 6,
    }
}

fn connected() -> WalletContext {
    WalletContext {
        connected: true,
        address: Some("0x00000000000000000000000000000000000000aa".to_string()),
        signer_ready: true,
    }
}

fn disconnected() -> WalletContext {
    WalletContext { connected: false, address: None, signer_ready: false }
}

fn row(id: &str, name: &str, address: &str, min: u64) -> ServiceContract {
    ServiceContract {
        service_id: id.to_string(),
        service_name: name.to_string(),
        contract_address: address.to_string(),
        stake_token: "ETH".to_string(),
        min_stake_wei: Wei::from_u64(min),
    }
}

fn two_rows() -> Vec<ServiceContract> {
    vec![
        row("compute", "Compute Provider", "0x0000000000000000000000000000000000000001", 100),
        row("storage", "Storage Provider", "0x0000000000000000000000000000000000000002", 200),
    ]
}

fn reading(stake: Option<u64>, rewards: Option<u64>) -> ServiceReading {
    ServiceReading { stake: stake.map(Wei::from_u64), pending_rewards: rewards.map(Wei::from_u64) }
}

#[test]
fn default_registry_holds_the_compute_contract() {
    let registry = default_registry();
    assert_eq!(registry.len(), 1);
    assert_eq!(registry[0].service_id, "compute");
    assert_eq!(registry[0].service_name, "Compute Provider");
    assert_eq!(registry[0].contract_address, "0x0000000000000000000000000000000000000001");
    assert_eq!(registry[0].stake_token, "ETH");
    assert_eq!(registry[0].min_stake_wei.to_decimal(), "100000000000000000");
}

#[test]
fn find_service_gives_the_first_match() {
    let mut registry = two_rows();
    registry.push(row("storage", "Second Storage", "0x0000000000000000000000000000000000000003", 1));
    assert_eq!(find_service(&registry, &"compute".to_string()), Some(0));
    assert_eq!(find_service(&registry, &"storage".to_string()), Some(1));
    assert_eq!(find_service(&registry, &"network".to_string()), None);
    assert_eq!(find_service(&Vec::new(), &"compute".to_string()), None);
}

#[test]
fn disconnected_wallet_gets_the_empty_summary() {
    let info = get_staking_info(&disconnected(), RPC, &two_rows(), &Vec::new(), &prefs())
        .expect("no error");
    assert_eq!(info.total_staked_wei.to_decimal(), "0");
    assert_eq!(info.pending_rewards_wei.to_decimal(), "0");
    assert!(info.staked_by_service.is_empty());
    assert!(!info.can_unstake);
    assert_eq!(info.unstake_cooldown_seconds, 0);
    assert!(info.auto_claim_enabled);
    assert_eq!(info.auto_claim_threshold_wei, "500");
    assert_eq!(info.auto_claim_interval_hours, 6);
    assert_eq!(info.next_auto_claim_timestamp, None);
}

#[test]
fn disconnected_wallet_ignores_readings() {
    let readings = vec![reading(Some(5), Some(7)), reading(Some(1), None)];
    let info = get_staking_info(&disconnected(), RPC, &two_rows(), &readings, &prefs())
        .expect("no error");
    assert!(info.staked_by_service.is_empty());
    assert!(info.total_staked_wei.is_zero());
    assert!(info.pending_rewards_wei.is_zero());
    assert!(!info.can_unstake);
}

#[test]
fn disconnected_summary_reflects_the_stored_flag() {
    let mut p = prefs();
    p.auto_claim = false;
    let info = disconnected_summary(&p);
    assert!(!info.auto_claim_enabled);
    assert!(info.staked_by_service.is_empty());
}

#[test]
fn totals_are_the_sums_over_the_positions() {
    let readings = vec![reading(Some(1_000), Some(30)), reading(Some(2_500), Some(12))];
    let info = get_staking_info(&connected(), RPC, &two_rows(), &readings, &prefs())
        .expect("no error");
    assert_eq!(info.staked_by_service.len(), 2);
    assert_eq!(info.staked_by_service[0].service_id, "compute");
    assert_eq!(info.staked_by_service[0].service_name, "Compute Provider");
    assert_eq!(info.staked_by_service[0].staked_wei.to_decimal(), "1000");
    assert_eq!(info.staked_by_service[0].pending_rewards_wei.to_decimal(), "30");
    assert_eq!(info.staked_by_service[0].stake_token, "ETH");
    assert_eq!(info.staked_by_service[0].min_stake_wei.to_decimal(), "100");
    assert_eq!(info.staked_by_service[1].service_id, "storage");
    assert_eq!(info.staked_by_service[1].staked_wei.to_decimal(), "2500");
    assert_eq!(info.staked_by_service[1].pending_rewards_wei.to_decimal(), "12");
    assert_eq!(info.staked_by_service[1].min_stake_wei.to_decimal(), "200");
    assert_eq!(info.total_staked_wei.to_decimal(), "3500");
    assert_eq!(info.pending_rewards_wei.to_decimal(), "42");
    assert!(info.can_unstake);
    assert_eq!(info.unstake_cooldown_seconds, 0);
    assert_eq!(info.next_auto_claim_timestamp, None);
}

#[test]
fn totals_do_not_wrap_at_256_bits() {
    let max = Wei { limbs: [u64::MAX; 4] };
    let readings = vec![
        ServiceReading { stake: Some(max), pending_rewards: Some(max) },
        ServiceReading { stake: Some(max), pending_rewards: None },
    ];
    let info = summarize(&two_rows(), &readings, &prefs());
    assert_eq!(
        info.total_staked_wei.to_decimal(),
        "231584178474632390847141970017375815706539969331281128078915168015826259279870"
    );
    assert_eq!(
        info.pending_rewards_wei.to_decimal(),
        "115792089237316195423570985008687907853269984665640564039457584007913129639935"
    );
}

#[test]
fn failed_stake_query_leaves_only_that_service_out() {
    let readings = vec![reading(None, Some(9)), reading(Some(40), Some(2))];
    let info = summarize(&two_rows(), &readings, &prefs());
    assert_eq!(info.staked_by_service.len(), 1);
    assert_eq!(info.staked_by_service[0].service_id, "storage");
    assert_eq!(info.total_staked_wei.to_decimal(), "40");
    assert_eq!(info.pending_rewards_wei.to_decimal(), "2");
    assert!(info.can_unstake);
}

#[test]
fn failed_rewards_query_counts_as_zero() {
    let readings = vec![reading(Some(40), None), reading(None, None)];
    let info = summarize(&two_rows(), &readings, &prefs());
    assert_eq!(info.staked_by_service.len(), 1);
    assert_eq!(info.staked_by_service[0].service_id, "compute");
    assert_eq!(info.staked_by_service[0].pending_rewards_wei.to_decimal(), "0");
    assert_eq!(info.total_staked_wei.to_decimal(), "40");
    assert_eq!(info.pending_rewards_wei.to_decimal(), "0");
}

#[test]
fn empty_position_is_left_out() {
    let readings = vec![reading(Some(0), Some(0)), reading(Some(0), None)];
    let info = summarize(&two_rows(), &readings, &prefs());
    assert!(info.staked_by_service.is_empty());
    assert!(info.total_staked_wei.is_zero());
    assert!(!info.can_unstake);
}

#[test]
fn rewards_without_stake_cannot_be_unstaked() {
    let readings = vec![reading(Some(0), Some(15)), reading(Some(0), Some(0))];
    let info = summarize(&two_rows(), &readings, &prefs());
    assert_eq!(info.staked_by_service.len(), 1);
    assert_eq!(info.staked_by_service[0].staked_wei.to_decimal(), "0");
    assert_eq!(info.pending_rewards_wei.to_decimal(), "15");
    assert!(info.total_staked_wei.is_zero());
    assert!(!info.can_unstake);
}

#[test]
fn row_without_a_reading_counts_as_failed() {
    let readings = vec![reading(Some(3), Some(4))];
    let info = summarize(&two_rows(), &readings, &prefs());
    assert_eq!(info.staked_by_service.len(), 1);
    assert_eq!(info.total_staked_wei.to_decimal(), "3");
    let more = vec![reading(Some(3), Some(4)), reading(Some(1), None), reading(Some(9), Some(9))];
    let info = summarize(&two_rows(), &more, &prefs());
    assert_eq!(info.staked_by_service.len(), 2);
    assert_eq!(info.total_staked_wei.to_decimal(), "4");
    assert_eq!(info.pending_rewards_wei.to_decimal(), "4");
}

#[test]
fn summary_is_the_same_when_read_again() {
    let readings = vec![reading(Some(1_000), Some(30)), reading(None, Some(12))];
    let first = summarize(&two_rows(), &readings, &prefs());
    let second = summarize(&two_rows(), &readings, &prefs());
    assert_eq!(first.total_staked_wei.limbs, second.total_staked_wei.limbs);
    assert_eq!(first.pending_rewards_wei.limbs, second.pending_rewards_wei.limbs);
    assert_eq!(first.staked_by_service.len(), second.staked_by_service.len());
    assert_eq!(first.staked_by_service[0].service_id, second.staked_by_service[0].service_id);
    assert_eq!(first.can_unstake, second.can_unstake);
}

#[test]
fn summary_needs_a_wallet_address() {
    let mut w = connected();
    w.address = None;
    let r = get_staking_info(&w, RPC, &two_rows(), &Vec::new(), &prefs());
    assert_eq!(r.err(), Some(StakingError::AddressUnavailable));
    w.address = Some("zz".to_string());
    let r = get_staking_info(&w, RPC, &two_rows(), &Vec::new(), &prefs());
    assert_eq!(r.err(), Some(StakingError::InvalidAddress));
    let r = get_pending_rewards(&w, RPC, &two_rows(), &Vec::new());
    assert_eq!(r.err(), Some(StakingError::InvalidAddress));
}

#[test]
fn pending_rewards_lists_positive_rewards_only() {
    let readings = vec![reading(Some(1_000), Some(30)), reading(Some(2_500), Some(0))];
    let positions = get_pending_rewards(&connected(), RPC, &two_rows(), &readings).expect("no error");
    assert_eq!(positions.len(), 1);
    assert_eq!(positions[0].service_id, "compute");
    assert_eq!(positions[0].service_name, "Compute Provider");
    assert_eq!(positions[0].staked_wei.to_decimal(), "0");
    assert_eq!(positions[0].pending_rewards_wei.to_decimal(), "30");
    assert_eq!(positions[0].stake_token, "ETH");
    assert_eq!(positions[0].min_stake_wei.to_decimal(), "100");
}

#[test]
fn pending_rewards_do_not_need_the_stake_query() {
    let readings = vec![reading(None, Some(8)), reading(Some(5), None)];
    let positions = pending_reward_positions(&two_rows(), &readings);
    assert_eq!(positions.len(), 1);
    assert_eq!(positions[0].service_id, "compute");
    assert_eq!(positions[0].pending_rewards_wei.to_decimal(), "8");
}

#[test]
fn pending_rewards_of_a_disconnected_wallet_are_empty() {
    let readings = vec![reading(Some(1), Some(8))];
    let positions = get_pending_rewards(&disconnected(), RPC, &two_rows(), &readings).expect("no error");
    assert!(positions.is_empty());
}

#[test]
fn summary_needs_a_valid_endpoint() {
    let readings = vec![reading(Some(1), Some(8))];
    let r = get_staking_info(&connected(), "::", &two_rows(), &readings, &prefs());
    assert_eq!(r.err(), Some(StakingError::InvalidRpcUrl));
    let r = get_pending_rewards(&connected(), "::", &two_rows(), &readings);
    assert_eq!(r.err(), Some(StakingError::InvalidRpcUrl));
    let info = get_staking_info(&disconnected(), "::", &two_rows(), &readings, &prefs())
        .expect("no error");
    assert!(info.staked_by_service.is_empty());
}
