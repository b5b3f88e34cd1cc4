//! The contract environment: persistent storage entries, emitted events,
//! demanded authorizations and the ledger clock.
//!
//! Each storage entry is an `Option`: `None` when the entry is absent.
//! An operation that fails leaves storage and events as they were (the
//! host discards a failed invocation's writes); the authorizations it
//! demanded before failing are still recorded, in order, so that the host
//! can enforce them exactly where the calculator demands them.
use vstd::prelude::*;
use crate::symbol::{Address, Symbol};
use crate::symbol_map::SymbolMap;
use crate::ordered_map::OrderedConfigMap;
use crate::{SLAConfigEntry, SLAResult, SLAStats};

verus! {

/// Pause metadata.
pub struct PauseInfo {
    /// Reason given by the admin, at most `MAX_REASON_LEN` bytes.
    pub reason: Vec<u8>,
    /// Ledger timestamp (seconds) of the pause.
    pub paused_at: u64,
    pub paused_by: Address,
}

/// Pause metadata as a mathematical value.
#[verifier::ext_equal]
pub struct PauseView {
    pub reason: Seq<u8>,
    pub paused_at: u64,
    pub paused_by: Address,
}

impl View for PauseInfo {
    type V = PauseView;

    open spec fn view(&self) -> PauseView {
        PauseView { reason: self.reason@, paused_at: self.paused_at, paused_by: self.paused_by }
    }
}

impl PauseInfo {
    /// A copy of the pause metadata.
    pub fn copy(&self) -> (r: PauseInfo)
        ensures
            r@ == self@,
    {
        let mut reason: Vec<u8> = Vec::new();
        let mut i: usize = 0;
        while i < self.reason.len()
            invariant
                i <= self.reason@.len(),
                reason@ == self.reason@.take(i as int),
            decreases self.reason@.len() - i,
        {
            reason.push(self.reason[i]);
            i += 1;
            assert(reason@ =~= self.reason@.take(i as int));
        }
        assert(self.reason@.take(i as int) =~= self.reason@);
        PauseInfo { reason, paused_at: self.paused_at, paused_by: self.paused_by }
    }
}

/// Context of an event (its third topic).
#[derive(Clone, Copy, Debug, PartialEq, Eq, Structural)]
pub enum EventContext {
    /// A severity or counter name.
    Name(Symbol),
    /// The calling account.
    Caller(Address),
}

/// Payload of an event.
#[derive(Clone, Copy, Debug, PartialEq, Eq, Structural)]
pub enum EventData {
    /// `(outage_id, status, payment_type, rating, mttr_minutes, threshold_minutes, amount)`
    SlaCalculated {
        outage_id: Symbol,
        status: Symbol,
        payment_type: Symbol,
        rating: Symbol,
        mttr_minutes: u32,
        threshold_minutes: u32,
        amount: i128,
    },
    /// `(outage_id, status, payment_type, amount, config_version_hash, recorded_at)`
    SettlementIntent {
        outage_id: Symbol,
        status: Symbol,
        payment_type: Symbol,
        amount: i128,
        config_version_hash: u64,
        recorded_at: u64,
    },
    /// `(threshold_minutes, penalty_per_minute, reward_base)`
    ConfigUpdated { threshold_minutes: u32, penalty_per_minute: i128, reward_base: i128 },
    /// `(flag,)`
    Flag(bool),
    /// `(address,)`
    NewAddress(Address),
    /// `()`
    Empty,
    /// `(removed_count, kept_count)`
    Counts { removed: u32, kept: u32 },
    /// `(field, previous_value, attempted_increment)`
    StatsSaturated { field: Symbol, previous_value: i128, attempted_increment: i128 },
    /// `(from_version, to_version)`
    Migrated { from: u32, to: u32 },
}

/// An emitted event: name, version, context and payload.
#[derive(Clone, Copy, Debug, PartialEq, Eq, Structural)]
pub struct ContractEvent {
    pub topic: Symbol,
    pub version: Symbol,
    pub context: EventContext,
    pub data: EventData,
}

/// An event with the current event version (`v1`).
#[verifier::allow_in_spec]
pub fn event(topic: Symbol, context: EventContext, data: EventData) -> ContractEvent
    returns
        (ContractEvent { topic, version: Symbol::v1(), context, data }),
{
    ContractEvent { topic, version: Symbol::v1(), context, data }
}

/// Every storage entry the calculator uses.
pub struct InstanceStorage {
    pub admin: Option<Address>,
    pub operator: Option<Address>,
    pub pending_admin: Option<Address>,
    pub pending_operator: Option<Address>,
    /// Configurations of the four canonical severities.
    pub configs: Option<SymbolMap>,
    /// Configurations of admin-registered custom severities, in
    /// registration order.
    pub custom_configs: Option<OrderedConfigMap>,
    pub paused: Option<bool>,
    pub pause_info: Option<PauseInfo>,
    pub stats: Option<SLAStats>,
    /// Per-severity calculation counters, four 32-bit lanes.
    pub calc_counts: Option<u128>,
    /// Per-severity violation counters, four 32-bit lanes.
    pub viol_counts: Option<u128>,
    /// Per-severity time of the last calculation, four 32-bit lanes.
    pub last_calc_times: Option<u128>,
    /// Per-severity time of the last violation, four 32-bit lanes.
    pub last_viol_times: Option<u128>,
    /// Calculation history, oldest first.
    pub history: Option<Vec<SLAResult>>,
    pub storage_version: Option<u32>,
    pub retention_limit: Option<u32>,
    pub config_frozen: Option<bool>,
    /// Ledger sequence of the last successful canonical configuration update.
    pub last_config_update: Option<u32>,
}

/// The storage as a mathematical value.
#[verifier::ext_equal]
pub struct StorageView {
    pub admin: Option<Address>,
    pub operator: Option<Address>,
    pub pending_admin: Option<Address>,
    pub pending_operator: Option<Address>,
    pub configs: Option<Seq<SLAConfigEntry>>,
    pub custom_configs: Option<Seq<SLAConfigEntry>>,
    pub paused: Option<bool>,
    pub pause_info: Option<PauseView>,
    pub stats: Option<SLAStats>,
    pub calc_counts: Option<u128>,
    pub viol_counts: Option<u128>,
    pub last_calc_times: Option<u128>,
    pub last_viol_times: Option<u128>,
    pub history: Option<Seq<SLAResult>>,
    pub storage_version: Option<u32>,
    pub retention_limit: Option<u32>,
    pub config_frozen: Option<bool>,
    pub last_config_update: Option<u32>,
}

pub open spec fn map_view(m: Option<SymbolMap>) -> Option<Seq<SLAConfigEntry>> {
    match m {
        Some(m) => Some(m@),
        None => None,
    }
}

pub open spec fn ordered_view(m: Option<OrderedConfigMap>) -> Option<Seq<SLAConfigEntry>> {
    match m {
        Some(m) => Some(m@),
        None => None,
    }
}

impl View for InstanceStorage {
    type V = StorageView;

    open spec fn view(&self) -> StorageView {
        StorageView {
            admin: self.admin,
            operator: self.operator,
            pending_admin: self.pending_admin,
            pending_operator: self.pending_operator,
            configs: map_view(self.configs),
            custom_configs: ordered_view(self.custom_configs),
            paused: self.paused,
            pause_info: match self.pause_info {
                Some(p) => Some(p@),
                None => None,
            },
            stats: self.stats,
            calc_counts: self.calc_counts,
            viol_counts: self.viol_counts,
            last_calc_times: self.last_calc_times,
            last_viol_times: self.last_viol_times,
            history: match self.history {
                Some(h) => Some(h@),
                None => None,
            },
            storage_version: self.storage_version,
            retention_limit: self.retention_limit,
            config_frozen: self.config_frozen,
            last_config_update: self.last_config_update,
        }
    }
}

/// Storage with no entry at all.
pub open spec fn empty_storage() -> StorageView {
    StorageView {
        admin: None,
        operator: None,
        pending_admin: None,
        pending_operator: None,
        configs: None,
        custom_configs: None,
        paused: None,
        pause_info: None,
        stats: None,
        calc_counts: None,
        viol_counts: None,
        last_calc_times: None,
        last_viol_times: None,
        history: None,
        storage_version: None,
        retention_limit: None,
        config_frozen: None,
        last_config_update: None,
    }
}

impl InstanceStorage {
    /// Storage with no entry at all.
    pub fn empty() -> (s: InstanceStorage)
        ensures
            s@ == empty_storage(),
    {
        InstanceStorage {
            admin: None,
            operator: None,
            pending_admin: None,
            pending_operator: None,
            configs: None,
            custom_configs: None,
            paused: None,
            pause_info: None,
            stats: None,
            calc_counts: None,
            viol_counts: None,
            last_calc_times: None,
            last_viol_times: None,
            history: None,
            storage_version: None,
            retention_limit: None,
            config_frozen: None,
            last_config_update: None,
        }
    }
}

/// The environment an operation acts on.
pub struct ContractEnv {
    pub storage: InstanceStorage,
    /// Events emitted so far, oldest first.
    pub events: Vec<ContractEvent>,
    /// Accounts whose authorization was demanded, in order.
    pub auths: Vec<Address>,
    /// Ledger timestamp, in seconds.
    pub timestamp: u64,
    /// Ledger sequence number.
    pub sequence: u32,
}

/// The environment as a mathematical value.
#[verifier::ext_equal]
pub struct EnvView {
    pub storage: StorageView,
    pub events: Seq<ContractEvent>,
    pub auths: Seq<Address>,
    pub timestamp: u64,
    pub sequence: u32,
}

impl View for ContractEnv {
    type V = EnvView;

    open spec fn view(&self) -> EnvView {
        EnvView {
            storage: self.storage@,
            events: self.events@,
            auths: self.auths@,
            timestamp: self.timestamp,
            sequence: self.sequence,
        }
    }
}

impl EnvView {
    /// After demanding the authorization of `a`.
    pub open spec fn with_auth(self, a: Address) -> EnvView {
        EnvView { auths: self.auths.push(a), ..self }
    }

    /// After emitting `e`.
    pub open spec fn emit(self, e: ContractEvent) -> EnvView {
        EnvView { events: self.events.push(e), ..self }
    }

    /// With storage replaced by `s`.
    pub open spec fn with_storage(self, s: StorageView) -> EnvView {
        EnvView { storage: s, ..self }
    }
}

impl ContractEnv {
    /// An environment with empty storage at the given ledger time.
    pub fn new(timestamp: u64, sequence: u32) -> (env: ContractEnv)
        ensures
            env@ == (EnvView {
                storage: empty_storage(),
                events: Seq::empty(),
                auths: Seq::empty(),
                timestamp,
                sequence,
            }),
    {
        ContractEnv {
            storage: InstanceStorage::empty(),
            events: Vec::new(),
            auths: Vec::new(),
            timestamp,
            sequence,
        }
    }

    /// Emits `e`.
    pub fn emit(&mut self, e: ContractEvent)
        ensures
            final(self)@ == old(self)@.emit(e),
    {
        self.events.push(e);
    }

    /// Demands the authorization of `a`.
    pub fn require_auth(&mut self, a: &Address)
        ensures
            final(self)@ == old(self)@.with_auth(*a),
    {
        self.auths.push(*a);
    }
}

impl Default for ContractEnv {
    fn default() -> (env: ContractEnv)
        ensures
            env@ == (EnvView {
                storage: empty_storage(),
                events: Seq::empty(),
                auths: Seq::empty(),
                timestamp: 0,
                sequence: 0,
            }),
    {
        ContractEnv::new(0, 0)
    }
}

} // verus!
