use apexchainx_calculator::calculation::{compute_result, count_lane, set_count_lane};
use apexchainx_calculator::ordered_map::OrderedConfigMap;
use apexchainx_calculator::SymbolMap;
use apexchainx_calculator::{
    Address, ContractEnv, EventContext, EventData, SLACalculatorContract, SLAConfig, SLAError, SLAResult,
    SLAStats, Symbol,
};

fn sym(text: &str) -> Symbol {
    Symbol::from_bytes(text.as_bytes()).unwrap()
}

fn account(tag: u8) -> Address {
    let mut key = vec![b'G'];
    key.extend(std::iter::repeat(tag).take(55));
    Address::from_bytes(&key).unwrap()
}

fn setup() -> (ContractEnv, Address, Address) {
    let mut env = ContractEnv::new(1_000, 7);
    let admin = account(b'A');
    let operator = account(b'B');
    SLACalculatorContract::initialize(&mut env, admin, operator).unwrap();
    (env, admin, operator)
}

fn view(env: &ContractEnv, severity: &str, mttr: u32) -> SLAResult {
    SLACalculatorContract::calculate_sla_view(env, sym("OUT"), sym(severity), mttr).unwrap()
}

fn code<T: std::fmt::Debug>(r: Result<T, SLAError>) -> u32 {
    r.unwrap_err().code()
}

// ---------------------------------------------------------------------
// Formulas
// ---------------------------------------------------------------------

#[test]
fn high_severity_reward_tiers() {
    let (env, _, _) = setup();
    let top = view(&env, "high", 10);
    assert_eq!(top.amount, 1500);
    assert_eq!(top.rating, sym("top"));
    assert_eq!(top.status, sym("met"));
    assert_eq!(top.payment_type, sym("rew"));
    assert_eq!(top.threshold_minutes, 30);
    let excel = view(&env, "high", 20);
    assert_eq!(excel.amount, 1125);
    assert_eq!(excel.rating, sym("excel"));
    let good = view(&env, "high", 30);
    assert_eq!(good.amount, 750);
    assert_eq!(good.rating, sym("good"));
}

#[test]
fn high_severity_penalty() {
    let (env, _, _) = setup();
    let r = view(&env, "high", 40);
    assert_eq!(r.amount, -500);
    assert_eq!(r.status, sym("viol"));
    assert_eq!(r.payment_type, sym("pen"));
    assert_eq!(r.rating, sym("poor"));
    assert_eq!(r.mttr_minutes, 40);
    assert_eq!(r.recorded_at, 1_000);
}

#[test]
fn low_severity_tier_boundaries() {
    let (env, _, _) = setup();
    assert_eq!(view(&env, "low", 59).amount, 1200);
    assert_eq!(view(&env, "low", 60).amount, 900);
    assert_eq!(view(&env, "low", 89).amount, 900);
    assert_eq!(view(&env, "low", 90).amount, 600);
    assert_eq!(view(&env, "low", 120).amount, 600);
    assert_eq!(view(&env, "low", 121).amount, -10);
    assert_eq!(view(&env, "critical", 16).amount, -100);
    assert_eq!(view(&env, "medium", 0).amount, 1500);
}

#[test]
fn compute_result_edge_cases() {
    let id = sym("X");
    let zero_threshold = SLAConfig { threshold_minutes: 0, penalty_per_minute: 5, reward_base: 100 };
    let r = compute_result(id, 0, &zero_threshold, 9, 3).unwrap();
    assert_eq!(r.amount, 200);
    assert_eq!(r.rating, sym("top"));
    assert_eq!(r.config_version_hash, 9);
    assert_eq!(r.recorded_at, 3);
    let no_penalty = SLAConfig { threshold_minutes: 5, penalty_per_minute: 0, reward_base: 100 };
    assert_eq!(compute_result(id, 10, &no_penalty, 0, 0), Err(SLAError::InvalidPenaltyAmount));
    let huge_penalty = SLAConfig { threshold_minutes: 0, penalty_per_minute: i128::MAX, reward_base: 100 };
    assert_eq!(compute_result(id, 10, &huge_penalty, 0, 0), Err(SLAError::InvalidPenaltyAmount));
    let no_reward = SLAConfig { threshold_minutes: 5, penalty_per_minute: 1, reward_base: 0 };
    assert_eq!(compute_result(id, 1, &no_reward, 0, 0), Err(SLAError::InvalidRewardAmount));
    let tiny_reward = SLAConfig { threshold_minutes: 5, penalty_per_minute: 1, reward_base: 1 };
    assert_eq!(compute_result(id, 5, &tiny_reward, 0, 0), Ok(SLAResult {
        outage_id: id,
        status: sym("met"),
        mttr_minutes: 5,
        threshold_minutes: 5,
        amount: 1,
        payment_type: sym("rew"),
        rating: sym("good"),
        config_version_hash: 0,
        recorded_at: 0,
    }));
    let huge_reward = SLAConfig { threshold_minutes: 5, penalty_per_minute: 1, reward_base: i128::MAX };
    assert_eq!(compute_result(id, 1, &huge_reward, 0, 0), Err(SLAError::InvalidRewardAmount));
}

#[test]
fn counter_lanes_round_trip() {
    let packed = set_count_lane(0, 2, 7);
    assert_eq!(count_lane(packed, 2), 7);
    assert_eq!(count_lane(packed, 0), 0);
    assert_eq!(count_lane(packed, 3), 0);
    assert_eq!(packed, 7u128 << 64);
    assert_eq!(count_lane(u128::MAX, 3), u32::MAX);
    let packed = set_count_lane(u128::MAX, 1, 0);
    assert_eq!(count_lane(packed, 1), 0);
    assert_eq!(count_lane(packed, 0), u32::MAX);
    assert_eq!(SLACalculatorContract::count_lane(packed, 2), u32::MAX);
    assert_eq!(SLACalculatorContract::set_count_lane(0, 3, 1), 1u128 << 96);
}

// ---------------------------------------------------------------------
// Errors, one input per variant
// ---------------------------------------------------------------------

#[test]
fn error_codes_are_stable() {
    assert_eq!(SLAError::AlreadyInitialized.code(), 1);
    assert_eq!(SLAError::SeverityNotInSet.code(), 18);
    assert_eq!(SLAError::DuplicateOutageInput.code(), 13);
}

#[test]
fn already_initialized() {
    let (mut env, admin, operator) = setup();
    assert_eq!(code(SLACalculatorContract::initialize(&mut env, admin, operator)), 1);
}

#[test]
fn not_initialized() {
    let mut env = ContractEnv::default();
    assert_eq!(code(SLACalculatorContract::get_stats(&env)), 2);
    let op = account(b'B');
    assert_eq!(code(SLACalculatorContract::calculate_sla(&mut env, op, sym("O"), sym("high"), 1)), 2);
    assert_eq!(code(SLACalculatorContract::get_storage_version(&env)), 2);
}

#[test]
fn unauthorized_caller() {
    let (mut env, admin, _) = setup();
    let r = SLACalculatorContract::calculate_sla(&mut env, admin, sym("O"), sym("high"), 1);
    assert_eq!(code(r), 3);
    let stranger = account(b'Z');
    assert_eq!(code(SLACalculatorContract::set_config(&mut env, stranger, sym("high"), 45, 75, 800)), 3);
    assert_eq!(*env.auths.last().unwrap(), stranger);
}

#[test]
fn config_not_found() {
    let (env, _, _) = setup();
    let r = SLACalculatorContract::calculate_sla_view(&env, sym("O"), sym("urgent"), 1);
    assert_eq!(code(r), 4);
}

#[test]
fn version_mismatch() {
    let (mut env, admin, _) = setup();
    env.storage.storage_version = Some(2);
    assert_eq!(code(SLACalculatorContract::get_stats(&env)), 5);
    assert_eq!(code(SLACalculatorContract::migrate(&mut env, admin)), 5);
    let state = SLACalculatorContract::get_migration_state(&env).unwrap();
    assert!(state.needs_migration);
    assert_eq!(state.stored_version, 2);
}

#[test]
fn paused_refuses_calculation() {
    let (mut env, admin, operator) = setup();
    SLACalculatorContract::pause(&mut env, admin, b"maintenance".to_vec()).unwrap();
    let r = SLACalculatorContract::calculate_sla(&mut env, operator, sym("O"), sym("high"), 10);
    assert_eq!(code(r), 6);
    assert_eq!(view(&env, "high", 10).amount, 1500);
    let info = SLACalculatorContract::get_pause_info(&env).unwrap().unwrap();
    assert_eq!(info.reason, b"maintenance".to_vec());
    assert_eq!(info.paused_at, 1_000);
    assert_eq!(info.paused_by, admin);
    assert!(SLACalculatorContract::is_paused(&env).unwrap());
    SLACalculatorContract::unpause(&mut env, admin).unwrap();
    assert!(!SLACalculatorContract::is_paused(&env).unwrap());
    assert!(SLACalculatorContract::get_pause_info(&env).unwrap().is_none());
    assert!(SLACalculatorContract::calculate_sla(&mut env, operator, sym("O"), sym("high"), 10).is_ok());
}

#[test]
fn no_pending_transfer() {
    let (mut env, admin, _) = setup();
    assert_eq!(code(SLACalculatorContract::accept_admin(&mut env, admin)), 7);
    assert_eq!(code(SLACalculatorContract::cancel_operator_proposal(&mut env, admin)), 7);
}

#[test]
fn documented_invalid_configurations() {
    let (mut env, admin, _) = setup();
    let mut set = |s: &str, t: u32, p: i128, r: i128| {
        SLACalculatorContract::set_config(&mut env, admin, sym(s), t, p, r)
    };
    assert_eq!(code(set("critical", 120, 100, 750)), 8);
    assert_eq!(code(set("high", 30, 10, 750)), 9);
    assert_eq!(code(set("medium", 60, 25, -100)), 10);
    assert_eq!(code(set("urgent", 15, 100, 750)), 11);
    assert_eq!(code(set("low", 120, 101, 600)), 9);
    assert_eq!(code(set("low", 1441, 10, 600)), 8);
    assert!(set("critical", 30, 150, 1000).is_ok());
    assert!(set("high", 45, 75, 800).is_ok());
    assert!(set("medium", 90, 30, 600).is_ok());
    assert!(set("low", 180, 15, 500).is_ok());
}

#[test]
fn validation_functions() {
    assert_eq!(SLACalculatorContract::validate_general_bounds(0, 1, 1), Err(SLAError::InvalidThreshold));
    assert_eq!(SLACalculatorContract::validate_general_bounds(1, 10001, 1), Err(SLAError::InvalidPenalty));
    assert_eq!(SLACalculatorContract::validate_general_bounds(1, 1, 100001), Err(SLAError::InvalidReward));
    assert_eq!(SLACalculatorContract::validate_general_bounds(1440, 10000, 100000), Ok(()));
    assert_eq!(SLACalculatorContract::validate_config(&sym("critical"), 60, 49, 1), Err(SLAError::InvalidPenalty));
    assert_eq!(SLACalculatorContract::validate_config(&sym("medium"), 241, 10, 1), Err(SLAError::InvalidThreshold));
    assert_eq!(SLACalculatorContract::validate_config(&sym("medium"), 240, 10, 11), Ok(()));
    assert_eq!(SLACalculatorContract::validate_config(&sym("medium"), 240, 10, 10), Err(SLAError::InvalidPenalty));
    assert_eq!(SLACalculatorContract::validate_config(&sym("critical"), 30, 5000, 1000), Err(SLAError::InvalidPenalty));
    assert_eq!(SLACalculatorContract::validate_config(&sym("critical"), 61, 5000, 1000), Err(SLAError::InvalidThreshold));
}

#[test]
fn retention_limit_out_of_range() {
    let (mut env, admin, _) = setup();
    assert_eq!(code(SLACalculatorContract::set_retention_limit(&mut env, admin, 0)), 12);
    assert_eq!(code(SLACalculatorContract::set_retention_limit(&mut env, admin, 1001)), 12);
    assert_eq!(SLACalculatorContract::get_retention_limit(&env), Ok(1000));
    SLACalculatorContract::set_retention_limit(&mut env, admin, 1000).unwrap();
}

#[test]
fn duplicate_outage_input() {
    let (mut env, _, operator) = setup();
    SLACalculatorContract::calculate_sla(&mut env, operator, sym("OUT1"), sym("high"), 10).unwrap();
    let r = SLACalculatorContract::calculate_sla(&mut env, operator, sym("OUT1"), sym("high"), 20);
    assert_eq!(code(r), 13);
}

#[test]
fn invalid_input_reason_too_long() {
    let (mut env, admin, _) = setup();
    assert_eq!(code(SLACalculatorContract::pause(&mut env, admin, vec![b'x'; 257])), 17);
    assert!(SLACalculatorContract::pause(&mut env, admin, vec![b'x'; 256]).is_ok());
}

#[test]
fn config_frozen_and_severity_not_in_set() {
    let (mut env, admin, _) = setup();
    assert_eq!(code(SLACalculatorContract::remove_custom_severity(&mut env, admin, sym("urgent"))), 18);
    assert!(!SLACalculatorContract::is_config_frozen(&env).unwrap());
    SLACalculatorContract::freeze_config(&mut env, admin).unwrap();
    assert!(SLACalculatorContract::is_config_frozen(&env).unwrap());
    assert_eq!(code(SLACalculatorContract::set_config(&mut env, admin, sym("high"), 45, 75, 800)), 16);
    assert_eq!(code(SLACalculatorContract::set_custom_severity(&mut env, admin, sym("urgent"), 5, 5, 5)), 16);
    SLACalculatorContract::unfreeze_config(&mut env, admin).unwrap();
    assert!(SLACalculatorContract::set_config(&mut env, admin, sym("high"), 45, 75, 800).is_ok());
}

// ---------------------------------------------------------------------
// Laws on concrete values
// ---------------------------------------------------------------------

#[test]
fn resubmission_is_idempotent() {
    let (mut env, _, operator) = setup();
    let first = SLACalculatorContract::calculate_sla(&mut env, operator, sym("OUT1"), sym("high"), 40).unwrap();
    let events = env.events.len();
    let telemetry = SLACalculatorContract::get_severity_telemetry(&env).unwrap();
    let second = SLACalculatorContract::calculate_sla(&mut env, operator, sym("OUT1"), sym("high"), 40).unwrap();
    assert_eq!(first, second);
    assert_eq!(env.events.len(), events);
    assert_eq!(SLACalculatorContract::get_severity_telemetry(&env).unwrap(), telemetry);
    assert_eq!(telemetry[1].calculations, 1);
    assert_eq!(SLACalculatorContract::get_history(&env).unwrap().len(), 1);
    let stats = SLACalculatorContract::get_stats(&env).unwrap();
    assert_eq!(stats, SLAStats { total_calculations: 1, total_violations: 1, total_rewards: 0, total_penalties: 500 });
}

#[test]
fn calculation_matches_view_and_replay() {
    let (mut env, _, operator) = setup();
    let v = view(&env, "medium", 70);
    let replay = SLACalculatorContract::replay_calculate_sla(&env, sym("OUT"), sym("medium"), 70, 1_000).unwrap();
    assert_eq!(replay, (v, v.config_version_hash));
    let r = SLACalculatorContract::calculate_sla(&mut env, operator, sym("OUT"), sym("medium"), 70).unwrap();
    assert_eq!(r, v);
    assert_eq!(r.amount, -250);
    let later = SLACalculatorContract::replay_calculate_sla(&env, sym("OUT"), sym("medium"), 70, 5).unwrap();
    assert_eq!(later.0.recorded_at, 5);
}

#[test]
fn set_config_reads_back_and_is_idempotent() {
    let (mut env, admin, _) = setup();
    let hash0 = SLACalculatorContract::get_config_version_hash(&env).unwrap();
    SLACalculatorContract::set_config(&mut env, admin, sym("high"), 45, 75, 800).unwrap();
    let hash1 = SLACalculatorContract::get_config_version_hash(&env).unwrap();
    assert_ne!(hash0, hash1);
    let cfg = SLACalculatorContract::get_config(&env, sym("high")).unwrap();
    assert_eq!(cfg, SLAConfig { threshold_minutes: 45, penalty_per_minute: 75, reward_base: 800 });
    assert_eq!(
        SLACalculatorContract::get_config(&env, sym("low")).unwrap(),
        SLAConfig { threshold_minutes: 120, penalty_per_minute: 10, reward_base: 600 }
    );
    SLACalculatorContract::set_config(&mut env, admin, sym("high"), 45, 75, 800).unwrap();
    assert_eq!(SLACalculatorContract::get_config_version_hash(&env).unwrap(), hash1);
    assert_eq!(SLACalculatorContract::get_config_count(&env), Ok(4));
    assert_eq!(SLACalculatorContract::get_last_config_update(&env).unwrap().unwrap().sequence, 7);
    let last = env.events.last().unwrap();
    assert_eq!(last.topic, sym("cfg_upd"));
    assert_eq!(last.context, EventContext::Name(sym("high")));
    assert_eq!(last.data, EventData::ConfigUpdated { threshold_minutes: 45, penalty_per_minute: 75, reward_base: 800 });
}

#[test]
fn failed_config_change_changes_nothing() {
    let (mut env, admin, _) = setup();
    let events = env.events.len();
    let hash = SLACalculatorContract::get_config_version_hash(&env).unwrap();
    assert!(SLACalculatorContract::set_config(&mut env, admin, sym("critical"), 120, 100, 750).is_err());
    assert_eq!(env.events.len(), events);
    assert_eq!(SLACalculatorContract::get_config_version_hash(&env).unwrap(), hash);
    assert!(SLACalculatorContract::get_last_config_update(&env).unwrap().is_none());
}

#[test]
fn snapshot_in_canonical_order_with_defaults() {
    let (env, _, _) = setup();
    let snapshot = SLACalculatorContract::get_config_snapshot(&env).unwrap();
    assert_eq!(snapshot.version, sym("v1"));
    let severities: Vec<Symbol> = snapshot.entries.iter().map(|e| e.severity).collect();
    assert_eq!(severities, vec![sym("critical"), sym("high"), sym("medium"), sym("low")]);
    assert_eq!(snapshot.entries[0].config, SLAConfig { threshold_minutes: 15, penalty_per_minute: 100, reward_base: 750 });
    assert_eq!(snapshot.entries[2].config, SLAConfig { threshold_minutes: 60, penalty_per_minute: 25, reward_base: 750 });
    let listed = SLACalculatorContract::list_configs(&env).unwrap();
    let keys: Vec<Symbol> = listed.entries().iter().map(|e| e.severity).collect();
    assert_eq!(keys, vec![sym("critical"), sym("high"), sym("low"), sym("medium")]);
}

#[test]
fn custom_severities() {
    let (mut env, admin, operator) = setup();
    let hash = SLACalculatorContract::get_config_version_hash(&env).unwrap();
    assert_eq!(code(SLACalculatorContract::set_custom_severity(&mut env, admin, sym("high"), 5, 5, 5)), 11);
    assert_eq!(code(SLACalculatorContract::set_custom_severity(&mut env, admin, sym("urgent"), 0, 5, 5)), 8);
    SLACalculatorContract::set_custom_severity(&mut env, admin, sym("urgent"), 10, 20, 300).unwrap();
    assert_eq!(SLACalculatorContract::get_config_version_hash(&env).unwrap(), hash);
    let cfg = SLACalculatorContract::get_custom_severity(&env, sym("urgent")).unwrap();
    assert_eq!(cfg, SLAConfig { threshold_minutes: 10, penalty_per_minute: 20, reward_base: 300 });
    let r = SLACalculatorContract::calculate_sla(&mut env, operator, sym("O9"), sym("urgent"), 12).unwrap();
    assert_eq!(r.amount, -40);
    let custom = SLACalculatorContract::get_custom_config_snapshot(&env).unwrap();
    assert_eq!(custom.entries.len(), 1);
    SLACalculatorContract::remove_custom_severity(&mut env, admin, sym("urgent")).unwrap();
    assert_eq!(code(SLACalculatorContract::get_custom_severity(&env, sym("urgent"))), 18);
    assert_eq!(code(SLACalculatorContract::get_config(&env, sym("urgent"))), 4);
    assert_eq!(code(SLACalculatorContract::remove_custom_severity(&mut env, admin, sym("urgent"))), 18);
}

#[test]
fn admin_transfer_and_operator_handoff() {
    let (mut env, admin, _) = setup();
    let next = account(b'C');
    let other = account(b'D');
    SLACalculatorContract::propose_admin(&mut env, admin, next).unwrap();
    assert_eq!(SLACalculatorContract::get_pending_admin(&env), Ok(Some(next)));
    assert_eq!(code(SLACalculatorContract::accept_admin(&mut env, other)), 3);
    SLACalculatorContract::accept_admin(&mut env, next).unwrap();
    assert_eq!(SLACalculatorContract::get_admin(&env), Ok(next));
    assert_eq!(SLACalculatorContract::get_pending_admin(&env), Ok(None));
    assert_eq!(code(SLACalculatorContract::propose_operator(&mut env, admin, other)), 3);
    SLACalculatorContract::propose_operator(&mut env, next, other).unwrap();
    SLACalculatorContract::accept_operator(&mut env, other).unwrap();
    assert_eq!(SLACalculatorContract::get_operator(&env), Ok(other));
    SLACalculatorContract::set_operator(&mut env, next, admin).unwrap();
    assert_eq!(SLACalculatorContract::get_operator(&env), Ok(admin));
}

#[test]
fn cancelled_proposal_cannot_be_accepted() {
    let (mut env, admin, _) = setup();
    let next = account(b'C');
    SLACalculatorContract::propose_admin(&mut env, admin, next).unwrap();
    SLACalculatorContract::cancel_admin_proposal(&mut env, admin).unwrap();
    assert_eq!(code(SLACalculatorContract::accept_admin(&mut env, next)), 7);
    SLACalculatorContract::propose_operator(&mut env, admin, next).unwrap();
    assert_eq!(SLACalculatorContract::get_pending_operator(&env), Ok(Some(next)));
    SLACalculatorContract::cancel_operator_proposal(&mut env, admin).unwrap();
    assert_eq!(code(SLACalculatorContract::accept_operator(&mut env, next)), 7);
}

#[test]
fn renounced_admin_locks_admin_operations() {
    let (mut env, admin, _) = setup();
    SLACalculatorContract::renounce_admin(&mut env, admin).unwrap();
    assert_eq!(code(SLACalculatorContract::get_admin(&env)), 2);
    assert_eq!(code(SLACalculatorContract::set_config(&mut env, admin, sym("high"), 45, 75, 800)), 2);
    assert_eq!(code(SLACalculatorContract::pause(&mut env, admin, Vec::new())), 2);
    let hash = SLACalculatorContract::get_config_version_hash(&env).unwrap();
    let newcomer = account(b'N');
    assert_eq!(code(SLACalculatorContract::initialize(&mut env, newcomer, newcomer)), 1);
    assert_eq!(code(SLACalculatorContract::get_admin(&env)), 2);
    assert_eq!(SLACalculatorContract::get_config_version_hash(&env).unwrap(), hash);
}

#[test]
fn pruning_keeps_latest() {
    let (mut env, admin, operator) = setup();
    for (i, id) in ["OUT1", "OUT2", "OUT3"].iter().enumerate() {
        env.timestamp = 100 * (i as u64 + 1);
        SLACalculatorContract::calculate_sla(&mut env, operator, sym(id), sym("high"), 10).unwrap();
    }
    let page = SLACalculatorContract::get_history_page(&env, 1, 5).unwrap();
    assert_eq!(page.len(), 2);
    assert_eq!(page[0].outage_id, sym("OUT2"));
    assert!(SLACalculatorContract::get_history_page(&env, 3, 5).unwrap().is_empty());
    assert_eq!(SLACalculatorContract::get_history_by_outage(&env, sym("OUT3")).unwrap().len(), 1);
    assert_eq!(SLACalculatorContract::get_latest_by_outage(&env, sym("OUT1")).unwrap().unwrap().recorded_at, 100);
    assert!(SLACalculatorContract::get_latest_by_outage(&env, sym("NONE")).unwrap().is_none());
    env.timestamp = 300;
    SLACalculatorContract::prune_history_by_age(&mut env, admin, 150).unwrap();
    let h = SLACalculatorContract::get_history(&env).unwrap();
    assert_eq!(h.len(), 2);
    assert_eq!(h[0].outage_id, sym("OUT2"));
    SLACalculatorContract::prune_history(&mut env, admin, 1).unwrap();
    let h = SLACalculatorContract::get_history(&env).unwrap();
    assert_eq!(h.len(), 1);
    assert_eq!(h[0].outage_id, sym("OUT3"));
    let last = env.events.last().unwrap();
    assert_eq!(last.data, EventData::Counts { removed: 1, kept: 1 });
}

#[test]
fn retention_limit_bounds_history() {
    let (mut env, admin, operator) = setup();
    SLACalculatorContract::set_retention_limit(&mut env, admin, 2).unwrap();
    for id in ["OUT1", "OUT2", "OUT3"] {
        SLACalculatorContract::calculate_sla(&mut env, operator, sym(id), sym("high"), 10).unwrap();
    }
    let h = SLACalculatorContract::get_history(&env).unwrap();
    assert_eq!(h.len(), 2);
    assert_eq!(h[0].outage_id, sym("OUT2"));
    assert_eq!(h[1].outage_id, sym("OUT3"));
    assert_eq!(SLACalculatorContract::get_stats(&env).unwrap().total_rewards, 4500);
}

#[test]
fn lowered_retention_limit_cuts_history_on_next_calculation() {
    let (mut env, admin, operator) = setup();
    for id in ["R1", "R2", "R3", "R4"] {
        SLACalculatorContract::calculate_sla(&mut env, operator, sym(id), sym("high"), 10).unwrap();
    }
    SLACalculatorContract::set_retention_limit(&mut env, admin, 2).unwrap();
    assert_eq!(SLACalculatorContract::get_history(&env).unwrap().len(), 4);
    SLACalculatorContract::calculate_sla(&mut env, operator, sym("R5"), sym("high"), 10).unwrap();
    let h = SLACalculatorContract::get_history(&env).unwrap();
    let ids: Vec<Symbol> = h.iter().map(|r| r.outage_id).collect();
    assert_eq!(ids, vec![sym("R4"), sym("R5")]);
}

#[test]
fn custom_snapshot_keeps_registration_order() {
    let (mut env, admin, _) = setup();
    SLACalculatorContract::set_custom_severity(&mut env, admin, sym("zulu"), 10, 5, 100).unwrap();
    SLACalculatorContract::set_custom_severity(&mut env, admin, sym("alfa"), 20, 6, 200).unwrap();
    SLACalculatorContract::set_custom_severity(&mut env, admin, sym("zulu"), 11, 5, 100).unwrap();
    let snapshot = SLACalculatorContract::get_custom_config_snapshot(&env).unwrap();
    assert_eq!(snapshot.version, sym("v1"));
    let keys: Vec<Symbol> = snapshot.entries.iter().map(|e| e.severity).collect();
    assert_eq!(keys, vec![sym("zulu"), sym("alfa")]);
    assert_eq!(snapshot.entries[0].config, SLAConfig { threshold_minutes: 11, penalty_per_minute: 5, reward_base: 100 });
    assert_eq!(snapshot.entries[1].config, SLAConfig { threshold_minutes: 20, penalty_per_minute: 6, reward_base: 200 });
    SLACalculatorContract::remove_custom_severity(&mut env, admin, sym("zulu")).unwrap();
    let snapshot = SLACalculatorContract::get_custom_config_snapshot(&env).unwrap();
    assert_eq!(snapshot.entries.len(), 1);
    assert_eq!(snapshot.entries[0].severity, sym("alfa"));
}

#[test]
fn telemetry_counts_and_rate() {
    let (mut env, _, operator) = setup();
    SLACalculatorContract::calculate_sla(&mut env, operator, sym("A1"), sym("high"), 40).unwrap();
    SLACalculatorContract::calculate_sla(&mut env, operator, sym("A2"), sym("high"), 10).unwrap();
    SLACalculatorContract::calculate_sla(&mut env, operator, sym("A3"), sym("high"), 10).unwrap();
    let t = SLACalculatorContract::get_severity_telemetry(&env).unwrap();
    assert_eq!(t.len(), 4);
    assert_eq!(t[1].severity, sym("high"));
    assert_eq!(t[1].calculations, 3);
    assert_eq!(t[1].violations, 1);
    assert_eq!(t[1].violation_rate, 33);
    assert_eq!(t[0].calculations, 0);
    assert_eq!(t[0].violation_rate, 0);
    env.timestamp += 604_800;
    SLACalculatorContract::calculate_sla(&mut env, operator, sym("A4"), sym("high"), 10).unwrap();
    let t = SLACalculatorContract::get_severity_telemetry(&env).unwrap();
    assert_eq!(t[1].calculations, 1);
    assert_eq!(t[1].violations, 0);
}

#[test]
fn calculation_events_and_authorization() {
    let (mut env, _, operator) = setup();
    let r = SLACalculatorContract::calculate_sla(&mut env, operator, sym("E1"), sym("critical"), 20).unwrap();
    assert_eq!(r.amount, -500);
    assert_eq!(*env.auths.last().unwrap(), operator);
    let n = env.events.len();
    assert_eq!(env.events[n - 2].topic, sym("sla_calc"));
    assert_eq!(env.events[n - 2].version, sym("v1"));
    assert_eq!(env.events[n - 1].topic, sym("set_int"));
    assert_eq!(
        env.events[n - 1].data,
        EventData::SettlementIntent {
            outage_id: sym("E1"),
            status: sym("viol"),
            payment_type: sym("pen"),
            amount: -500,
            config_version_hash: r.config_version_hash,
            recorded_at: 1_000,
        }
    );
}

#[test]
fn statistics_saturate() {
    let (mut env, _, operator) = setup();
    env.storage.stats = Some(SLAStats {
        total_calculations: u64::MAX,
        total_violations: 0,
        total_rewards: i128::MAX - 1,
        total_penalties: 0,
    });
    SLACalculatorContract::calculate_sla(&mut env, operator, sym("S1"), sym("high"), 10).unwrap();
    let stats = SLACalculatorContract::get_stats(&env).unwrap();
    assert_eq!(stats.total_calculations, u64::MAX);
    assert_eq!(stats.total_rewards, i128::MAX);
    let saturated = env.events.iter().filter(|e| e.topic == sym("stats_sat")).count();
    assert_eq!(saturated, 2);
}

#[test]
fn migration_fills_defaults_once() {
    let mut env = ContractEnv::default();
    let admin = account(b'A');
    env.storage.admin = Some(admin);
    SLACalculatorContract::migrate(&mut env, admin).unwrap();
    assert_eq!(SLACalculatorContract::get_storage_version(&env), Ok(1));
    assert_eq!(SLACalculatorContract::get_config_count(&env), Ok(4));
    assert_eq!(SLACalculatorContract::get_stats(&env).unwrap().total_calculations, 0);
    let events = env.events.len();
    SLACalculatorContract::migrate(&mut env, admin).unwrap();
    assert_eq!(env.events.len(), events);
    assert_eq!(code(SLACalculatorContract::migrate(&mut env, account(b'Q'))), 3);
}

#[test]
fn introspection() {
    let (env, _, _) = setup();
    let schema = SLACalculatorContract::get_result_schema(&env).unwrap();
    assert_eq!(schema.version, sym("v1"));
    assert_eq!(schema.rating_exceptional, sym("top"));
    assert_eq!(schema.payment_penalty, sym("pen"));
    assert!(schema.includes_config_version_hash);
    let failures = SLACalculatorContract::get_failure_schema(&env).unwrap();
    assert_eq!(failures.codes.len(), 18);
    assert_eq!(failures.codes[12].code, 13);
    assert_eq!(failures.codes[12].label, sym("DuplicateOutageInput"));
    let meta = SLACalculatorContract::get_contract_metadata(&env).unwrap();
    assert_eq!(meta.contract_name, sym("sla_calc"));
    assert_eq!(meta.features.len(), 10);
    assert_eq!(meta.supported_severities[3], sym("low"));
    let info = SLACalculatorContract::get_version_info(&env).unwrap();
    assert!(!info.needs_migration);
    assert!(!info.is_paused);
    let audit = SLACalculatorContract::get_full_audit_state(&env).unwrap();
    assert_eq!(audit.history_len, 0);
    assert!(audit.pause_info.is_empty());
    assert_eq!(audit.config_snapshot.entries.len(), 4);
}

// ---------------------------------------------------------------------
// Symbols and addresses
// ---------------------------------------------------------------------

#[test]
fn symbol_bytes_round_trip() {
    let s = sym("high");
    assert_eq!(s, Symbol::high());
    assert_eq!(s.to_bytes(), b"high".to_vec());
    assert_eq!(sym("critical"), Symbol::critical());
    assert_eq!(sym("mig_done"), Symbol::mig_done());
    assert_eq!(sym("cfg_unfrz"), Symbol::cfg_unfrz());
    let long = "abcdefghijklmnopqrstuvwxyz_01234";
    assert_eq!(sym(long).to_bytes(), long.as_bytes().to_vec());
    assert!(Symbol::from_bytes(b"abcdefghijklmnopqrstuvwxyz_012345").is_none());
    assert!(Symbol::from_bytes(b"a-b").is_none());
    assert_eq!(Symbol::from_bytes(b"").unwrap().to_bytes(), Vec::<u8>::new());
    assert!(sym("critical").less_than(&sym("high")));
    assert!(!sym("low").less_than(&sym("high")));
    assert!(sym("a").less_than(&sym("ab")));
}

#[test]
fn address_bytes_round_trip() {
    let a = account(b'X');
    let key = a.to_bytes();
    assert_eq!(key.len(), 56);
    assert_eq!(key[0], b'G');
    assert_eq!(Address::from_bytes(&key), Some(a));
    assert!(Address::from_bytes(&key[..55]).is_none());
    let mut with_zero = key.clone();
    with_zero[10] = 0;
    assert!(Address::from_bytes(&with_zero).is_none());
    assert_ne!(account(b'X'), account(b'Y'));
}

#[test]
fn maps_set_get_remove() {
    let a = SLAConfig { threshold_minutes: 1, penalty_per_minute: 2, reward_base: 3 };
    let b = SLAConfig { threshold_minutes: 4, penalty_per_minute: 5, reward_base: 6 };
    let mut sorted = SymbolMap::new();
    sorted.set(sym("zulu"), a);
    sorted.set(sym("alfa"), b);
    let keys: Vec<Symbol> = sorted.entries().iter().map(|e| e.severity).collect();
    assert_eq!(keys, vec![sym("alfa"), sym("zulu")]);
    sorted.remove(&sym("alfa"));
    assert_eq!(sorted.get(&sym("alfa")), None);
    assert_eq!(sorted.get(&sym("zulu")), Some(a));
    let mut ordered = OrderedConfigMap::new();
    ordered.set(sym("zulu"), a);
    ordered.set(sym("alfa"), b);
    let keys: Vec<Symbol> = ordered.entries().iter().map(|e| e.severity).collect();
    assert_eq!(keys, vec![sym("zulu"), sym("alfa")]);
    ordered.remove(&sym("zulu"));
    assert_eq!(ordered.get(&sym("zulu")), None);
    assert_eq!(ordered.get(&sym("alfa")), Some(b));
}
