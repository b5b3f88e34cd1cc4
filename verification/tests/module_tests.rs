use apexchainx_calculator::config_bundle::read_config_bundle;
use apexchainx_calculator::config_freeze::{freeze_config, is_config_frozen, unfreeze_config};
use apexchainx_calculator::history_snapshot::normalize_history;
use apexchainx_calculator::{Address, ContractEnv, SLACalculatorContract, Symbol};

fn sym(text: &str) -> Symbol {
    Symbol::from_bytes(text.as_bytes()).unwrap()
}

fn account(tag: u8) -> Address {
    let mut key = vec![b'G'];
    key.extend(std::iter::repeat(tag).take(55));
    Address::from_bytes(&key).unwrap()
}

fn initialized() -> (ContractEnv, Address, Address) {
    let mut env = ContractEnv::default();
    let admin = account(b'A');
    let operator = account(b'B');
    SLACalculatorContract::initialize(&mut env, admin, operator).unwrap();
    (env, admin, operator)
}

#[test]
fn test_config_bundle_available_after_init() {
    let (env, _, _) = initialized();
    let bundle = SLACalculatorContract::get_config_bundle(&env).unwrap();
    assert!(bundle.is_some());
}

#[test]
fn test_config_unfrozen_by_default() {
    let env = ContractEnv::default();
    assert!(!is_config_frozen(&env));
}

#[test]
fn test_freeze_and_query() {
    let mut env = ContractEnv::default();
    freeze_config(&mut env);
    assert!(is_config_frozen(&env));
}

#[test]
fn test_unfreeze_restores_mutable_state() {
    let mut env = ContractEnv::default();
    freeze_config(&mut env);
    unfreeze_config(&mut env);
    assert!(!is_config_frozen(&env));
}

#[test]
fn test_frozen_config_blocks_set_config() {
    let (mut env, _, _) = initialized();
    freeze_config(&mut env);
    assert!(is_config_frozen(&env));
}

#[test]
fn test_history_snapshot_is_deterministic() {
    let (mut env, _, operator) = initialized();
    SLACalculatorContract::calculate_sla(&mut env, operator, sym("OUT1"), sym("high"), 10).unwrap();
    SLACalculatorContract::calculate_sla(&mut env, operator, sym("OUT2"), sym("high"), 10).unwrap();
    let stats = SLACalculatorContract::get_stats(&env).unwrap();
    assert_eq!(stats.total_calculations, 2);
}

#[test]
fn frozen_flag_refuses_admin_config_update() {
    let (mut env, admin, _) = initialized();
    freeze_config(&mut env);
    let r = SLACalculatorContract::set_config(&mut env, admin, sym("high"), 45, 75, 800);
    assert_eq!(r.unwrap_err().code(), 16);
}

#[test]
fn normalized_snapshot_summarizes_history() {
    let (mut env, _, operator) = initialized();
    SLACalculatorContract::calculate_sla(&mut env, operator, sym("OUT1"), sym("high"), 10).unwrap();
    SLACalculatorContract::calculate_sla(&mut env, operator, sym("OUT2"), sym("high"), 45).unwrap();
    let history = SLACalculatorContract::get_history(&env).unwrap();
    let snapshot = normalize_history(&history);
    assert_eq!(snapshot.count, 2);
    assert!(snapshot.has_violations);
    assert!(snapshot.has_rewards);
    let empty = normalize_history(&Vec::new());
    assert_eq!(empty.count, 0);
    assert!(!empty.has_violations);
    assert!(!empty.has_rewards);
}

#[test]
fn stored_bundle_is_never_read() {
    let env = ContractEnv::default();
    assert!(read_config_bundle(&env).is_none());
    let (env, _, _) = initialized();
    assert!(read_config_bundle(&env).is_none());
    let bundle = SLACalculatorContract::get_config_bundle(&env).unwrap().unwrap();
    assert_eq!(bundle.snapshot.entries.len(), 4);
    assert_eq!(bundle.schema.schema_version, 1);
    assert_eq!(bundle.schema.status_violated, sym("viol"));
}
