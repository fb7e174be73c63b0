//! Interest redirection: a share of the yield that grants earn buys back the
//! project token and sends it to a dead address, shrinking its supply.
use vstd::prelude::*;
use std::collections::HashMap;
use crate::types::Address;

verus! {

broadcast use vstd::std_specs::hash::group_hash_axioms;

pub const INTEREST_REDIRECTION_VERSION: u32 = 1;
/// Default share of yield redirected to burns, in basis points: 50%.
pub const DEFAULT_BURN_RATIO: u32 = 5000;
/// Smallest allowed burn ratio: 10%.
pub const MIN_BURN_RATIO: u32 = 1000;
/// Largest allowed burn ratio: 90%.
pub const MAX_BURN_RATIO: u32 = 9000;
/// Time between automatic burns: 7 days.
pub const BURN_EXECUTION_INTERVAL: u64 = 604800;
/// Smallest yield that triggers a burn.
pub const MIN_YIELD_THRESHOLD: u128 = 1000;
pub const AUTO_BURN_ENABLED: bool = true;
/// Price of the project token used for buy-backs until an oracle is wired.
pub const SIMULATED_TOKEN_PRICE: u128 = 1000000;
/// Gas cost recorded for a buy-back.
pub const SIMULATED_GAS_COST: u128 = 500000;
/// Slippage tolerance of automatic burns, in basis points: 5%.
pub const AUTO_BURN_SLIPPAGE_BPS: u32 = 500;

/// Burn configuration.
#[derive(Debug, Clone, Copy, PartialEq, Eq, Structural)]
pub struct BurnConfig {
    pub admin: Address,
    /// Share of yield to burn, in basis points.
    pub burn_ratio: u32,
    pub auto_burn_enabled: bool,
    /// Seconds between automatic burns.
    pub burn_interval: u64,
    pub min_yield_threshold: u128,
    pub project_token: Address,
    /// Where burned tokens go.
    pub dead_address: Address,
    pub last_burn_amount: u128,
    pub total_burned: u128,
    pub burn_count: u32,
}

/// Lifecycle of a burn operation.
#[derive(Debug, Clone, Copy, PartialEq, Eq, Structural)]
pub enum BurnOperationStatus {
    Pending,
    Executing,
    Completed,
    Failed,
    Cancelled,
    Expired,
}

/// A buy-back-and-burn funded by yield.
#[derive(Debug, Clone, Copy, PartialEq, Eq, Structural)]
pub struct YieldToBurnOperation {
    pub operation_id: u64,
    pub grant_id: u64,
    pub yield_amount: u128,
    pub burn_amount: u128,
    pub token_price: u128,
    /// Maximum slippage, in basis points.
    pub slippage_tolerance: u32,
    pub created_at: u64,
    pub executed_at: Option<u64>,
    pub status: BurnOperationStatus,
    pub actual_burned: u128,
    pub gas_used: u128,
}

/// Supply of the project token and burn statistics.
#[derive(Debug, Clone, Copy, PartialEq, Eq, Structural)]
pub struct TokenSupplyMetrics {
    pub initial_supply: u128,
    pub current_supply: u128,
    pub total_burned: u128,
    pub total_yield_generated: u128,
    pub last_burn_timestamp: u64,
    pub burn_rate: u32,
    pub yield_to_burn_ratio: u32,
}

/// Record of an executed buy-back.
#[derive(Debug, Clone, Copy, PartialEq, Eq, Structural)]
pub struct BuyBackExecution {
    pub execution_id: u64,
    pub operation_id: u64,
    pub amount_spent: u128,
    pub tokens_received: u128,
    pub average_price: u128,
    pub slippage: u128,
    pub gas_cost: u128,
    pub executed_at: u64,
    pub success: bool,
}

/// Why an interest redirection operation was refused.
#[derive(Debug, Clone, Copy, PartialEq, Eq, Structural)]
pub enum InterestRedirectionError {
    NotInitialized,
    Unauthorized,
    InvalidBurnRatio,
    InsufficientYield,
    BurnOperationNotFound,
    InvalidOperationState,
    SlippageExceeded,
    InsufficientLiquidity,
    TokenError,
    MathOverflow,
    AutoBurnDisabled,
    InvalidAmount,
    InvalidAddress,
    OperationExpired,
    AlreadyExists,
}

/// Storage keys of the contract.
#[derive(Debug, Clone, Copy, PartialEq, Eq, Structural)]
pub enum InterestRedirectionDataKey {
    Config,
    BurnOperation(u64),
    TokenSupplyMetrics,
    NextOperationId,
    PendingOperations,
    BuyBackExecution(u64),
    DeadAddress,
    LastBurnTimestamp,
    YieldAccumulator,
}

/// The contract's state.
pub struct InterestRedirectionContract {
    pub config: Option<BurnConfig>,
    pub operations: HashMap<u64, YieldToBurnOperation>,
    pub metrics: Option<TokenSupplyMetrics>,
    pub next_operation_id: u64,
    /// Operations created and not yet executed, in creation order.
    pub pending: Vec<u64>,
    pub executions: HashMap<u64, BuyBackExecution>,
    pub last_burn_timestamp: u64,
    /// Yield accumulated for burning.
    pub yield_accumulator: u128,
}

/// Whether a burn ratio is within the allowed 10%..90%.
pub open spec fn valid_ratio(r: u32) -> bool {
    MIN_BURN_RATIO <= r <= MAX_BURN_RATIO
}

/// `s` without the occurrences of `x`.
pub open spec fn without(s: Seq<u64>, x: u64) -> Seq<u64> {
    s.filter(|y: u64| y != x)
}

impl InterestRedirectionContract {
    /// Initialization sets configuration and metrics together; operation
    /// identifiers are below the next identifier.
    pub open spec fn wf(&self) -> bool {
        &&& self.config is Some <==> self.metrics is Some
        &&& self.config matches Some(c) ==> valid_ratio(c.burn_ratio)
        &&& forall|k: u64| #[trigger] self.operations@.contains_key(k) ==> k < self.next_operation_id
    }

    /// A contract not yet initialized.
    pub fn new() -> (r: Self)
        ensures
            r.wf(),
            r.config is None,
            r.operations@ == Map::<u64, YieldToBurnOperation>::empty(),
            r.next_operation_id == 1,
            r.yield_accumulator == 0,
            r.last_burn_timestamp == 0,
    {
        InterestRedirectionContract {
            config: None,
            operations: HashMap::new(),
            metrics: None,
            next_operation_id: 1,
            pending: Vec::new(),
            executions: HashMap::new(),
            last_burn_timestamp: 0,
            yield_accumulator: 0,
        }
    }

    /// Initializes the burn system for `project_token`, whose total supply is
    /// `initial_supply`; burned tokens go to `dead_address`.
    pub fn initialize(
        &mut self,
        admin: Address,
        project_token: Address,
        burn_ratio: u32,
        auto_burn_enabled: bool,
        initial_supply: u128,
        dead_address: Address,
    ) -> (r: Result<(), InterestRedirectionError>)
        requires
            old(self).wf(),
        ensures
            final(self).wf(),
            old(self).config is Some ==> r == Err::<(), InterestRedirectionError>(InterestRedirectionError::AlreadyExists),
            old(self).config is None && !valid_ratio(burn_ratio) ==> r == Err::<(), InterestRedirectionError>(
                InterestRedirectionError::InvalidBurnRatio,
            ),
            old(self).config is None && valid_ratio(burn_ratio) ==> r is Ok,
            r is Err ==> final(self).config == old(self).config && final(self).metrics == old(self).metrics
                && final(self).pending@ == old(self).pending@ && final(self).next_operation_id == old(self).next_operation_id,
            r is Ok ==> old(self).config is None && valid_ratio(burn_ratio)
                && final(self).config == Some(BurnConfig {
                    admin,
                    burn_ratio,
                    auto_burn_enabled,
                    burn_interval: BURN_EXECUTION_INTERVAL,
                    min_yield_threshold: MIN_YIELD_THRESHOLD,
                    project_token,
                    dead_address,
                    last_burn_amount: 0,
                    total_burned: 0,
                    burn_count: 0,
                })
                && final(self).metrics == Some(TokenSupplyMetrics {
                    initial_supply,
                    current_supply: initial_supply,
                    total_burned: 0,
                    total_yield_generated: 0,
                    last_burn_timestamp: 0,
                    burn_rate: burn_ratio,
                    yield_to_burn_ratio: burn_ratio,
                })
                && final(self).next_operation_id == old(self).next_operation_id
                && final(self).pending@.len() == 0,
            final(self).operations@ == old(self).operations@,
            final(self).yield_accumulator == old(self).yield_accumulator,
            final(self).last_burn_timestamp == old(self).last_burn_timestamp,
    {
        if self.config.is_some() {
            return Err(InterestRedirectionError::AlreadyExists);
        }
        if burn_ratio < MIN_BURN_RATIO || burn_ratio > MAX_BURN_RATIO {
            return Err(InterestRedirectionError::InvalidBurnRatio);
        }
        self.config = Some(BurnConfig {
            admin,
            burn_ratio,
            auto_burn_enabled,
            burn_interval: BURN_EXECUTION_INTERVAL,
            min_yield_threshold: MIN_YIELD_THRESHOLD,
            project_token,
            dead_address,
            last_burn_amount: 0,
            total_burned: 0,
            burn_count: 0,
        });
        self.pending = Vec::new();
        self.metrics = Some(TokenSupplyMetrics {
            initial_supply,
            current_supply: initial_supply,
            total_burned: 0,
            total_yield_generated: 0,
            last_burn_timestamp: 0,
            burn_rate: burn_ratio,
            yield_to_burn_ratio: burn_ratio,
        });
        Ok(())
    }

    /// Creates a pending burn operation at `now`; its yield joins the
    /// accumulator. Returns the operation's id.
    pub fn create_burn_operation(
        &mut self,
        grant_id: u64,
        yield_amount: u128,
        burn_amount: u128,
        slippage_tolerance: u32,
        now: u64,
    ) -> (r: Result<u64, InterestRedirectionError>)
        requires
            old(self).wf(),
            old(self).next_operation_id < u64::MAX,
        ensures
            final(self).wf(),
            final(self).config == old(self).config,
            final(self).metrics == old(self).metrics,
            final(self).last_burn_timestamp == old(self).last_burn_timestamp,
            final(self).executions@ == old(self).executions@,
            old(self).config is None ==> r == Err::<u64, InterestRedirectionError>(InterestRedirectionError::NotInitialized),
            old(self).config matches Some(c) && yield_amount < c.min_yield_threshold
                ==> r == Err::<u64, InterestRedirectionError>(InterestRedirectionError::InsufficientYield),
            old(self).config matches Some(c) && yield_amount >= c.min_yield_threshold && burn_amount == 0
                ==> r == Err::<u64, InterestRedirectionError>(InterestRedirectionError::InvalidAmount),
            old(self).config matches Some(c) && yield_amount >= c.min_yield_threshold && burn_amount > 0
                && old(self).yield_accumulator + yield_amount > u128::MAX
                ==> r == Err::<u64, InterestRedirectionError>(InterestRedirectionError::MathOverflow),
            old(self).config matches Some(c) && yield_amount >= c.min_yield_threshold && burn_amount > 0
                && old(self).yield_accumulator + yield_amount <= u128::MAX ==> r is Ok,
            r is Err ==> final(self).operations@ == old(self).operations@ && final(self).pending@ == old(self).pending@
                && final(self).next_operation_id == old(self).next_operation_id
                && final(self).yield_accumulator == old(self).yield_accumulator,
            r is Ok ==> {
                let id = old(self).next_operation_id;
                &&& r == Ok::<u64, InterestRedirectionError>(id)
                &&& old(self).config is Some && yield_amount >= old(self).config->Some_0.min_yield_threshold && burn_amount > 0
                &&& final(self).next_operation_id == id + 1
                &&& final(self).operations@ == old(self).operations@.insert(id, YieldToBurnOperation {
                    operation_id: id,
                    grant_id,
                    yield_amount,
                    burn_amount,
                    token_price: 0,
                    slippage_tolerance,
                    created_at: now,
                    executed_at: None,
                    status: BurnOperationStatus::Pending,
                    actual_burned: 0,
                    gas_used: 0,
                })
                &&& final(self).pending@ == old(self).pending@.push(id)
                &&& final(self).yield_accumulator == old(self).yield_accumulator + yield_amount
            },
    {
        let config = match self.config {
            Some(c) => c,
            None => return Err(InterestRedirectionError::NotInitialized),
        };
        if yield_amount < config.min_yield_threshold {
            return Err(InterestRedirectionError::InsufficientYield);
        }
        if burn_amount == 0 {
            return Err(InterestRedirectionError::InvalidAmount);
        }
        let new_acc = match self.yield_accumulator.checked_add(yield_amount) {
            Some(v) => v,
            None => return Err(InterestRedirectionError::MathOverflow),
        };
        let operation_id = self.get_next_operation_id();
        let operation = YieldToBurnOperation {
            operation_id,
            grant_id,
            yield_amount,
            burn_amount,
            token_price: 0,
            slippage_tolerance,
            created_at: now,
            executed_at: None,
            status: BurnOperationStatus::Pending,
            actual_burned: 0,
            gas_used: 0,
        };
        self.operations.insert(operation_id, operation);
        self.pending.push(operation_id);
        self.yield_accumulator = new_acc;
        Ok(operation_id)
    }

    fn get_next_operation_id(&mut self) -> (r: u64)
        requires
            old(self).next_operation_id < u64::MAX,
        ensures
            r == old(self).next_operation_id,
            final(self).next_operation_id == r + 1,
            final(self).config == old(self).config,
            final(self).metrics == old(self).metrics,
            final(self).operations@ == old(self).operations@,
            final(self).pending@ == old(self).pending@,
            final(self).executions@ == old(self).executions@,
            final(self).yield_accumulator == old(self).yield_accumulator,
            final(self).last_burn_timestamp == old(self).last_burn_timestamp,
    {
        let id = self.next_operation_id;
        self.next_operation_id = id + 1;
        id
    }

    /// Executes a pending burn operation at `now`: buys back `burn_amount`
    /// tokens at the current price and sends them to the dead address. The
    /// contract must hold at least that many tokens (`contract_balance`). On
    /// success the operation is completed, the configuration and the supply
    /// metrics record the burn, and the operation leaves the pending list.
    /// The caller transfers `burn_amount` of the project token to the dead
    /// address.
    pub fn execute_burn_operation(&mut self, operation_id: u64, now: u64, contract_balance: i128) -> (r: Result<(), InterestRedirectionError>)
        requires
            old(self).wf(),
            old(self).next_operation_id < u64::MAX,
            old(self).operations@.contains_key(operation_id) ==> {
                let op = old(self).operations@[operation_id];
                &&& op.slippage_tolerance <= 10000
                &&& op.yield_amount * 10000 <= u128::MAX
                &&& op.burn_amount <= i128::MAX
            },
        ensures
            final(self).wf(),
            old(self).config is None ==> r == Err::<(), InterestRedirectionError>(InterestRedirectionError::NotInitialized),
            old(self).config is Some && !old(self).operations@.contains_key(operation_id)
                ==> r == Err::<(), InterestRedirectionError>(InterestRedirectionError::BurnOperationNotFound),
            old(self).config is Some && old(self).operations@.contains_key(operation_id)
                && old(self).operations@[operation_id].status != BurnOperationStatus::Pending
                ==> r == Err::<(), InterestRedirectionError>(InterestRedirectionError::InvalidOperationState),
            old(self).config is Some && old(self).operations@.contains_key(operation_id)
                && old(self).operations@[operation_id].status == BurnOperationStatus::Pending
                && contract_balance < old(self).operations@[operation_id].burn_amount
                ==> r == Err::<(), InterestRedirectionError>(InterestRedirectionError::InsufficientLiquidity),
            old(self).config matches Some(c) && old(self).operations@.contains_key(operation_id)
                && old(self).operations@[operation_id].status == BurnOperationStatus::Pending
                && contract_balance >= old(self).operations@[operation_id].burn_amount
                && burn_overflows(c, old(self).metrics->Some_0, old(self).operations@[operation_id].burn_amount)
                ==> r == Err::<(), InterestRedirectionError>(InterestRedirectionError::MathOverflow),
            old(self).config matches Some(c) && old(self).operations@.contains_key(operation_id)
                && old(self).operations@[operation_id].status == BurnOperationStatus::Pending
                && contract_balance >= old(self).operations@[operation_id].burn_amount
                && !burn_overflows(c, old(self).metrics->Some_0, old(self).operations@[operation_id].burn_amount)
                ==> r is Ok,
            r is Err ==> final(self).operations@ == old(self).operations@ && final(self).config == old(self).config
                && final(self).metrics == old(self).metrics && final(self).pending@ == old(self).pending@,
            r is Ok ==> {
                let op = old(self).operations@[operation_id];
                let c = old(self).config->Some_0;
                let m = old(self).metrics->Some_0;
                &&& old(self).config is Some && old(self).operations@.contains_key(operation_id)
                &&& op.status == BurnOperationStatus::Pending
                &&& contract_balance >= op.burn_amount
                &&& final(self).operations@ == old(self).operations@.insert(operation_id, YieldToBurnOperation {
                    token_price: SIMULATED_TOKEN_PRICE,
                    executed_at: Some(now),
                    status: BurnOperationStatus::Completed,
                    actual_burned: op.burn_amount,
                    gas_used: SIMULATED_GAS_COST,
                    ..op
                })
                &&& final(self).config == Some(BurnConfig {
                    last_burn_amount: op.burn_amount,
                    total_burned: (c.total_burned + op.burn_amount) as u128,
                    burn_count: (c.burn_count + 1) as u32,
                    ..c
                })
                &&& final(self).metrics == Some(TokenSupplyMetrics {
                    current_supply: (m.current_supply - op.burn_amount) as u128,
                    total_burned: (m.total_burned + op.burn_amount) as u128,
                    last_burn_timestamp: now,
                    ..m
                })
                &&& final(self).pending@ == without(old(self).pending@, operation_id)
            },
            r is Ok ==> final(self).operations@[operation_id].status != BurnOperationStatus::Pending,
            r is Ok ==> {
                let op = old(self).operations@[operation_id];
                let expected = op.yield_amount * 10000 / (SIMULATED_TOKEN_PRICE as int);
                &&& final(self).next_operation_id == old(self).next_operation_id + 1
                &&& final(self).executions@ == old(self).executions@.insert(old(self).next_operation_id, BuyBackExecution {
                    execution_id: old(self).next_operation_id,
                    operation_id,
                    amount_spent: op.yield_amount,
                    tokens_received: op.burn_amount,
                    average_price: SIMULATED_TOKEN_PRICE,
                    slippage: if expected > op.burn_amount { (expected - op.burn_amount) as u128 } else { 0 },
                    gas_cost: SIMULATED_GAS_COST,
                    executed_at: now,
                    success: true,
                })
            },
            r is Err ==> final(self).executions@ == old(self).executions@ && final(self).next_operation_id == old(self).next_operation_id,
            final(self).yield_accumulator == old(self).yield_accumulator,
            final(self).last_burn_timestamp == old(self).last_burn_timestamp,
    {
        let config = match self.config {
            Some(c) => c,
            None => return Err(InterestRedirectionError::NotInitialized),
        };
        let metrics = match self.metrics {
            Some(m) => m,
            None => return Err(InterestRedirectionError::NotInitialized),
        };
        let operation = match self.operations.get(&operation_id) {
            Some(op) => *op,
            None => return Err(InterestRedirectionError::BurnOperationNotFound),
        };
        if operation.status != BurnOperationStatus::Pending {
            return Err(InterestRedirectionError::InvalidOperationState);
        }
        let current_price = SIMULATED_TOKEN_PRICE;
        let expected_tokens = (operation.yield_amount * 10000) / current_price;
        if contract_balance < operation.burn_amount as i128 {
            return Err(InterestRedirectionError::InsufficientLiquidity);
        }
        let new_total_burned = match config.total_burned.checked_add(operation.burn_amount) {
            Some(v) => v,
            None => return Err(InterestRedirectionError::MathOverflow),
        };
        let new_burn_count = match config.burn_count.checked_add(1) {
            Some(v) => v,
            None => return Err(InterestRedirectionError::MathOverflow),
        };
        let new_supply = match metrics.current_supply.checked_sub(operation.burn_amount) {
            Some(v) => v,
            None => return Err(InterestRedirectionError::MathOverflow),
        };
        let new_metrics_burned = match metrics.total_burned.checked_add(operation.burn_amount) {
            Some(v) => v,
            None => return Err(InterestRedirectionError::MathOverflow),
        };
        let execution_id = self.get_next_operation_id();
        let execution = BuyBackExecution {
            execution_id,
            operation_id,
            amount_spent: operation.yield_amount,
            tokens_received: operation.burn_amount,
            average_price: current_price,
            slippage: expected_tokens.saturating_sub(operation.burn_amount),
            gas_cost: SIMULATED_GAS_COST,
            executed_at: now,
            success: true,
        };
        self.executions.insert(execution_id, execution);
        let executed = YieldToBurnOperation {
            token_price: current_price,
            executed_at: Some(now),
            status: BurnOperationStatus::Completed,
            actual_burned: operation.burn_amount,
            gas_used: SIMULATED_GAS_COST,
            ..operation
        };
        self.operations.insert(operation_id, executed);
        self.config = Some(BurnConfig {
            last_burn_amount: operation.burn_amount,
            total_burned: new_total_burned,
            burn_count: new_burn_count,
            ..config
        });
        self.metrics = Some(TokenSupplyMetrics {
            current_supply: new_supply,
            total_burned: new_metrics_burned,
            last_burn_timestamp: now,
            ..metrics
        });
        self.remove_from_pending_operations(operation_id);
        Ok(())
    }

    fn remove_from_pending_operations(&mut self, operation_id: u64)
        ensures
            final(self).pending@ == without(old(self).pending@, operation_id),
            final(self).config == old(self).config,
            final(self).metrics == old(self).metrics,
            final(self).operations@ == old(self).operations@,
            final(self).next_operation_id == old(self).next_operation_id,
            final(self).executions@ == old(self).executions@,
            final(self).yield_accumulator == old(self).yield_accumulator,
            final(self).last_burn_timestamp == old(self).last_burn_timestamp,
    {
        let mut kept: Vec<u64> = Vec::new();
        let mut i: usize = 0;
        proof {
            reveal_with_fuel(Seq::<u64>::filter, 1);
            assert(self.pending@.subrange(0, 0) =~= Seq::<u64>::empty());
        }
        while i < self.pending.len()
            invariant
                i <= self.pending.len(),
                kept@ == without(self.pending@.subrange(0, i as int), operation_id),
            decreases self.pending.len() - i,
        {
            proof {
                reveal_with_fuel(Seq::<u64>::filter, 1);
            }
            let ghost s = self.pending@.subrange(0, i as int + 1);
            proof {
                reveal_with_fuel(Seq::<u64>::filter, 1);
                assert(s.drop_last() =~= self.pending@.subrange(0, i as int));
                assert(s.last() == self.pending@[i as int]);
                assert(without(s, operation_id) == if s.last() != operation_id {
                    without(s.drop_last(), operation_id).push(s.last())
                } else {
                    without(s.drop_last(), operation_id)
                });
            }
            if self.pending[i] != operation_id {
                kept.push(self.pending[i]);
            }
            i = i + 1;
        }
        proof {
            assert(self.pending@.subrange(0, self.pending@.len() as int) =~= self.pending@);
        }
        self.pending = kept;
    }

    /// Burns the accumulated yield at `now` when automatic burns are enabled:
    /// nothing happens below the yield threshold, before the burn interval
    /// since the last burn, or when the burn share rounds to zero. Otherwise an
    /// operation burning `burn_ratio` of the accumulated yield is created and
    /// executed, and the accumulator is cleared. Returns the executed
    /// operations.
    pub fn execute_auto_burn(&mut self, now: u64, contract_balance: i128) -> (r: Result<Vec<u64>, InterestRedirectionError>)
        requires
            old(self).wf(),
            old(self).next_operation_id < u64::MAX - 1,
            now >= old(self).last_burn_timestamp,
            old(self).config matches Some(c) ==> (c.auto_burn_enabled && old(self).yield_accumulator >= c.min_yield_threshold
                && now - old(self).last_burn_timestamp >= c.burn_interval
                ==> old(self).yield_accumulator * c.burn_ratio <= u128::MAX),
            old(self).config matches Some(c) ==> (auto_burn_due(c, old(self).yield_accumulator, old(self).last_burn_timestamp, now)
                ==> old(self).yield_accumulator * 10000 <= u128::MAX),
        ensures
            final(self).wf(),
            final(self).last_burn_timestamp == old(self).last_burn_timestamp,
            old(self).config is None ==> (r matches Err(e) && e == InterestRedirectionError::NotInitialized),
            old(self).config matches Some(c) && !c.auto_burn_enabled ==> (r matches Err(e) && e == InterestRedirectionError::AutoBurnDisabled),
            old(self).config matches Some(c) && c.auto_burn_enabled
                && !auto_burn_due(c, old(self).yield_accumulator, old(self).last_burn_timestamp, now)
                ==> (r matches Ok(v) && v@.len() == 0),
            old(self).config matches Some(c) && auto_burn_due(c, old(self).yield_accumulator, old(self).last_burn_timestamp, now)
                && contract_balance < auto_burn_amount(c, old(self).yield_accumulator)
                ==> (r matches Err(e) && e == InterestRedirectionError::InsufficientLiquidity),
            old(self).config matches Some(c) && auto_burn_due(c, old(self).yield_accumulator, old(self).last_burn_timestamp, now)
                && contract_balance >= auto_burn_amount(c, old(self).yield_accumulator)
                && auto_burn_overflows(c, old(self).metrics->Some_0, old(self).yield_accumulator)
                ==> (r matches Err(e) && e == InterestRedirectionError::MathOverflow),
            old(self).config matches Some(c) && auto_burn_due(c, old(self).yield_accumulator, old(self).last_burn_timestamp, now)
                && contract_balance >= auto_burn_amount(c, old(self).yield_accumulator)
                && !auto_burn_overflows(c, old(self).metrics->Some_0, old(self).yield_accumulator)
                ==> (r matches Ok(v) && v@.len() == 1),
            (r is Err || (r matches Ok(v) && v@.len() == 0)) ==> {
                &&& final(self).operations@ == old(self).operations@
                &&& final(self).pending@ == old(self).pending@
                &&& final(self).yield_accumulator == old(self).yield_accumulator
                &&& final(self).config == old(self).config
                &&& final(self).metrics == old(self).metrics
                &&& final(self).next_operation_id == old(self).next_operation_id
                &&& final(self).executions@ == old(self).executions@
            },
            (r matches Ok(v) && v@.len() > 0) ==> {
                let c = old(self).config->Some_0;
                let m = old(self).metrics->Some_0;
                let id = old(self).next_operation_id;
                let acc = old(self).yield_accumulator;
                let b = auto_burn_amount(c, acc) as u128;
                let expected = acc * 10000 / (SIMULATED_TOKEN_PRICE as int);
                &&& r->Ok_0@ == seq![id]
                &&& final(self).operations@ == old(self).operations@.insert(id, auto_burn_record(id, acc, b, now))
                &&& final(self).config == Some(BurnConfig {
                    last_burn_amount: b,
                    total_burned: (c.total_burned + b) as u128,
                    burn_count: (c.burn_count + 1) as u32,
                    ..c
                })
                &&& final(self).metrics == Some(TokenSupplyMetrics {
                    current_supply: (m.current_supply - b) as u128,
                    total_burned: (m.total_burned + b) as u128,
                    last_burn_timestamp: now,
                    ..m
                })
                &&& final(self).pending@ == without(old(self).pending@.push(id), id)
                &&& final(self).next_operation_id == id + 2
                &&& final(self).executions@ == old(self).executions@.insert((id + 1) as u64, BuyBackExecution {
                    execution_id: (id + 1) as u64,
                    operation_id: id,
                    amount_spent: acc,
                    tokens_received: b,
                    average_price: SIMULATED_TOKEN_PRICE,
                    slippage: if expected > b { (expected - b) as u128 } else { 0 },
                    gas_cost: SIMULATED_GAS_COST,
                    executed_at: now,
                    success: true,
                })
                &&& final(self).yield_accumulator == 0
            },
    {
        let config = match self.config {
            Some(c) => c,
            None => return Err(InterestRedirectionError::NotInitialized),
        };
        if !config.auto_burn_enabled {
            return Err(InterestRedirectionError::AutoBurnDisabled);
        }
        let accumulated_yield = self.yield_accumulator;
        if accumulated_yield < config.min_yield_threshold {
            return Ok(Vec::new());
        }
        if now - self.last_burn_timestamp < config.burn_interval {
            return Ok(Vec::new());
        }
        let burn_amount = (accumulated_yield * config.burn_ratio as u128) / 10000;
        if burn_amount == 0 {
            return Ok(Vec::new());
        }
        let metrics = self.metrics.unwrap();
        if contract_balance < burn_amount as i128 {
            return Err(InterestRedirectionError::InsufficientLiquidity);
        }
        if config.total_burned.checked_add(burn_amount).is_none() || config.burn_count == u32::MAX
            || metrics.current_supply < burn_amount || metrics.total_burned.checked_add(burn_amount).is_none()
            || accumulated_yield.checked_add(accumulated_yield).is_none() {
            return Err(InterestRedirectionError::MathOverflow);
        }
        let operation_id = self.create_burn_operation(0, accumulated_yield, burn_amount, AUTO_BURN_SLIPPAGE_BPS, now)?;
        self.execute_burn_operation(operation_id, now, contract_balance)?;
        proof {
            assert(self.operations@ =~= old(self).operations@.insert(
                operation_id,
                auto_burn_record(operation_id, accumulated_yield, burn_amount, now),
            ));
        }
        self.yield_accumulator = 0;
        let mut executed = Vec::new();
        executed.push(operation_id);
        Ok(executed)
    }

    /// The burn operation with identifier `operation_id`.
    pub fn get_burn_operation(&self, operation_id: u64) -> (r: Result<YieldToBurnOperation, InterestRedirectionError>)
        ensures
            self.operations@.contains_key(operation_id) ==> r == Ok::<YieldToBurnOperation, InterestRedirectionError>(self.operations@[operation_id]),
            !self.operations@.contains_key(operation_id) ==> r == Err::<YieldToBurnOperation, InterestRedirectionError>(InterestRedirectionError::BurnOperationNotFound),
    {
        match self.operations.get(&operation_id) {
            Some(op) => Ok(*op),
            None => Err(InterestRedirectionError::BurnOperationNotFound),
        }
    }

    /// The supply metrics.
    pub fn get_token_supply_metrics(&self) -> (r: Result<TokenSupplyMetrics, InterestRedirectionError>)
        ensures
            self.metrics matches Some(m) ==> r == Ok::<TokenSupplyMetrics, InterestRedirectionError>(m),
            self.metrics is None ==> r == Err::<TokenSupplyMetrics, InterestRedirectionError>(InterestRedirectionError::NotInitialized),
    {
        match self.metrics {
            Some(m) => Ok(m),
            None => Err(InterestRedirectionError::NotInitialized),
        }
    }

    /// The burn configuration.
    pub fn get_config(&self) -> (r: Result<BurnConfig, InterestRedirectionError>)
        ensures
            self.config matches Some(c) ==> r == Ok::<BurnConfig, InterestRedirectionError>(c),
            self.config is None ==> r == Err::<BurnConfig, InterestRedirectionError>(InterestRedirectionError::NotInitialized),
    {
        match self.config {
            Some(c) => Ok(c),
            None => Err(InterestRedirectionError::NotInitialized),
        }
    }

    /// Changes the given configuration fields (admin only); a burn ratio
    /// outside 10%..90% is refused and nothing changes.
    pub fn update_burn_config(
        &mut self,
        admin: Address,
        burn_ratio: Option<u32>,
        auto_burn_enabled: Option<bool>,
        burn_interval: Option<u64>,
        min_yield_threshold: Option<u128>,
    ) -> (r: Result<(), InterestRedirectionError>)
        requires
            old(self).wf(),
        ensures
            final(self).wf(),
            old(self).config is None ==> r == Err::<(), InterestRedirectionError>(InterestRedirectionError::NotInitialized),
            old(self).config matches Some(c) && admin != c.admin ==> r == Err::<(), InterestRedirectionError>(InterestRedirectionError::Unauthorized),
            old(self).config matches Some(c) && admin == c.admin && (burn_ratio matches Some(x) && !valid_ratio(x))
                ==> r == Err::<(), InterestRedirectionError>(InterestRedirectionError::InvalidBurnRatio),
            r is Err ==> final(self).config == old(self).config,
            r is Ok ==> {
                let c = old(self).config->Some_0;
                &&& old(self).config is Some && admin == c.admin
                &&& final(self).config == Some(BurnConfig {
                    burn_ratio: if burn_ratio is Some { burn_ratio->Some_0 } else { c.burn_ratio },
                    auto_burn_enabled: if auto_burn_enabled is Some { auto_burn_enabled->Some_0 } else { c.auto_burn_enabled },
                    burn_interval: if burn_interval is Some { burn_interval->Some_0 } else { c.burn_interval },
                    min_yield_threshold: if min_yield_threshold is Some { min_yield_threshold->Some_0 } else { c.min_yield_threshold },
                    ..c
                })
            },
            final(self).metrics == old(self).metrics,
            final(self).operations@ == old(self).operations@,
            final(self).pending@ == old(self).pending@,
            final(self).yield_accumulator == old(self).yield_accumulator,
    {
        let mut config = match self.config {
            Some(c) => c,
            None => return Err(InterestRedirectionError::NotInitialized),
        };
        if admin != config.admin {
            return Err(InterestRedirectionError::Unauthorized);
        }
        if let Some(ratio) = burn_ratio {
            if ratio < MIN_BURN_RATIO || ratio > MAX_BURN_RATIO {
                return Err(InterestRedirectionError::InvalidBurnRatio);
            }
            config.burn_ratio = ratio;
        }
        if let Some(enabled) = auto_burn_enabled {
            config.auto_burn_enabled = enabled;
        }
        if let Some(interval) = burn_interval {
            config.burn_interval = interval;
        }
        if let Some(threshold) = min_yield_threshold {
            config.min_yield_threshold = threshold;
        }
        self.config = Some(config);
        Ok(())
    }

    /// Operations awaiting execution; `NotInitialized` before initialization.
    pub fn get_pending_operations(&self) -> (r: Result<Vec<u64>, InterestRedirectionError>)
        ensures
            self.config is None ==> (r matches Err(e) && e == InterestRedirectionError::NotInitialized),
            self.config is Some ==> (r matches Ok(v) && v@ == self.pending@),
    {
        if self.config.is_none() {
            return Err(InterestRedirectionError::NotInitialized);
        }
        Ok(self.pending.clone())
    }

    /// The accumulated yield awaiting burns.
    pub fn get_yield_accumulator(&self) -> (r: u128)
        ensures
            r == self.yield_accumulator,
    {
        self.yield_accumulator
    }

    /// Time of the last automatic burn.
    pub fn get_last_burn_timestamp(&self) -> (r: u64)
        ensures
            r == self.last_burn_timestamp,
    {
        self.last_burn_timestamp
    }
}

/// Whether burning `burn` overflows the burn totals or exceeds the supply.
pub open spec fn burn_overflows(c: BurnConfig, m: TokenSupplyMetrics, burn: u128) -> bool {
    ||| c.total_burned + burn > u128::MAX
    ||| c.burn_count + 1 > u32::MAX
    ||| m.current_supply < burn
    ||| m.total_burned + burn > u128::MAX
}

/// The share of the accumulated yield an automatic burn burns.
pub open spec fn auto_burn_amount(c: BurnConfig, accumulated: u128) -> int {
    accumulated * c.burn_ratio / 10000
}

/// Whether an automatic burn is due: enabled, enough yield accumulated, the
/// interval since the last burn elapsed, and a positive amount to burn.
pub open spec fn auto_burn_due(c: BurnConfig, accumulated: u128, last: u64, now: u64) -> bool {
    &&& c.auto_burn_enabled
    &&& accumulated >= c.min_yield_threshold
    &&& now - last >= c.burn_interval
    &&& auto_burn_amount(c, accumulated) > 0
}

/// Whether an automatic burn of the accumulated yield `acc` overflows: the
/// burn totals, the supply, or the accumulator taking the yield once more.
pub open spec fn auto_burn_overflows(c: BurnConfig, m: TokenSupplyMetrics, acc: u128) -> bool {
    burn_overflows(c, m, auto_burn_amount(c, acc) as u128) || acc + acc > u128::MAX
}

/// The record of an executed automatic burn `id` of `burn` out of the
/// accumulated yield `acc`, at `now`.
pub open spec fn auto_burn_record(id: u64, acc: u128, burn: u128, now: u64) -> YieldToBurnOperation {
    YieldToBurnOperation {
        operation_id: id,
        grant_id: 0,
        yield_amount: acc,
        burn_amount: burn,
        token_price: SIMULATED_TOKEN_PRICE,
        slippage_tolerance: AUTO_BURN_SLIPPAGE_BPS,
        created_at: now,
        executed_at: Some(now),
        status: BurnOperationStatus::Completed,
        actual_burned: burn,
        gas_used: SIMULATED_GAS_COST,
    }
}

} // verus!
