//! Security classification of the protocol's sensitive entry points: for each
//! function name, its security level, the authentication it needs, the controls
//! that protect it, its audit references and the threats it faces.
use vstd::prelude::*;

verus! {

/// Severity of what a compromise of a function can cause.
#[derive(Debug, Clone, Copy, PartialEq, Eq, Structural)]
pub enum SecurityLevel {
    /// Can lead to total fund loss or protocol compromise
    Critical,
    /// Can lead to significant fund loss or security control bypass
    High,
    /// Can lead to operational issues or partial functionality loss
    Medium,
    /// Minor security implications, limited impact
    Low,
}

/// Who must authenticate to call a function.
#[derive(Debug, Clone, Copy, PartialEq, Eq, Structural)]
pub enum AuthType {
    NoneRequired,
    Recipient,
    Admin,
    Oracle,
    MultiSig,
    AdminMultiSig,
}

/// A protective mechanism attached to a function.
#[derive(Debug, Clone, Copy, PartialEq, Eq, Structural)]
pub enum SecurityControl {
    ReentrancyGuard,
    CircuitBreaker,
    LegalCompliance,
    OverflowProtection,
    RateLimit,
    Timelock,
    PauseResume,
    TokenRescue,
    OracleValidation,
    MultiThreshold,
}

/// A class of attack a function is exposed to.
#[derive(Debug, Clone, Copy, PartialEq, Eq, Structural)]
pub enum ThreatCategory {
    AdminCompromise,
    OracleManipulation,
    Reentrancy,
    MathOverflow,
    TokenIntegration,
    LegalCompliance,
    CircuitBreakerBypass,
    FrontRunning,
    MEV,
    DoS,
}

/// Security requirements of one function.
#[derive(Debug, Clone)]
pub struct SecurityRequirement {
    /// Security classification level
    pub level: SecurityLevel,
    /// Required authentication/authorization
    pub auth_required: AuthType,
    /// Additional security controls
    pub controls: Vec<SecurityControl>,
    /// Historical audit references
    pub audit_refs: Vec<&'static str>,
    /// Relevant threat categories
    pub threats: Vec<ThreatCategory>,
    /// Implementation notes for auditors
    pub notes: &'static str,
}

/// The mathematical content of a `SecurityRequirement`: level, authentication,
/// controls, audit references, threats and notes.
pub type RequirementProfile = (
    SecurityLevel,
    AuthType,
    Seq<SecurityControl>,
    Seq<&'static str>,
    Seq<ThreatCategory>,
    &'static str,
);

impl SecurityRequirement {
    pub open spec fn profile(&self) -> RequirementProfile {
        (self.level, self.auth_required, self.controls@, self.audit_refs@, self.threats@, self.notes)
    }
}

/// Requirement profile of `initialize`: Initialize the contract with core parameters
pub open spec fn initialize_profile() -> RequirementProfile {
    (
        SecurityLevel::Critical,
        AuthType::AdminMultiSig,
        seq![SecurityControl::PauseResume, SecurityControl::MultiThreshold],
        seq!["AUDIT-001: Initial setup validation", "AUDIT-004: Immutable configuration checks", "AUDIT-014: Comprehensive initialization review"],
        seq![ThreatCategory::AdminCompromise, ThreatCategory::MathOverflow],
        "Must be called once with multi-sig. All addresses must be validated. 
            Storage keys must be properly set. No re-initialization allowed.",
    )
}

/// Requirement profile of `create_grant`: Create a new grant stream
pub open spec fn create_grant_profile() -> RequirementProfile {
    (
        SecurityLevel::Critical,
        AuthType::Admin,
        seq![SecurityControl::OverflowProtection, SecurityControl::LegalCompliance, SecurityControl::PauseResume],
        seq!["AUDIT-002: Grant creation security", "AUDIT-007: Amount validation", "AUDIT-012: Duplicate prevention"],
        seq![ThreatCategory::AdminCompromise, ThreatCategory::MathOverflow, ThreatCategory::LegalCompliance],
        "Admin must authenticate. Amount and rate must be positive. 
            Duplicate grant IDs must be rejected. Legal hash validation optional.
            Warmup duration and validator address properly stored.",
    )
}

/// Requirement profile of `withdraw`: Withdraw funds from a grant stream
pub open spec fn withdraw_profile() -> RequirementProfile {
    (
        SecurityLevel::Medium,
        AuthType::Recipient,
        seq![SecurityControl::ReentrancyGuard, SecurityControl::CircuitBreaker, SecurityControl::LegalCompliance, SecurityControl::OverflowProtection],
        seq!["AUDIT-009: Withdrawal security", "AUDIT-013: Reentrancy protection", "AUDIT-015: Circuit breaker integration"],
        seq![ThreatCategory::Reentrancy, ThreatCategory::CircuitBreakerBypass, ThreatCategory::LegalCompliance, ThreatCategory::MathOverflow],
        "Recipient must authenticate. Non-reentrant guard active. 
            Soft pause and oracle freeze checks. Legal signature required if specified.
            Amount must not exceed claimable. State updated after transfer.",
    )
}

/// Requirement profile of `cancel_grant`: Cancel an active grant and return remaining funds to treasury
pub open spec fn cancel_grant_profile() -> RequirementProfile {
    (
        SecurityLevel::High,
        AuthType::Admin,
        seq![SecurityControl::OverflowProtection, SecurityControl::PauseResume, SecurityControl::TokenRescue],
        seq!["AUDIT-003: Grant cancellation security", "AUDIT-008: Treasury return validation", "AUDIT-016: Settlement calculation review"],
        seq![ThreatCategory::AdminCompromise, ThreatCategory::MathOverflow, ThreatCategory::TokenIntegration],
        "Admin must authenticate. Grant must not be completed or rage-quit.
            Settlement calculation must be accurate. Remaining funds returned to treasury.
            All claimable balances properly accounted for.",
    )
}

/// Requirement profile of `apply_kpi_multiplier`: Apply KPI multiplier to grant flow rate
pub open spec fn apply_kpi_multiplier_profile() -> RequirementProfile {
    (
        SecurityLevel::Medium,
        AuthType::Oracle,
        seq![SecurityControl::CircuitBreaker, SecurityControl::OracleValidation, SecurityControl::OverflowProtection],
        seq!["AUDIT-007: Oracle security", "AUDIT-011: Price manipulation prevention", "AUDIT-017: KPI multiplier validation"],
        seq![ThreatCategory::OracleManipulation, ThreatCategory::CircuitBreakerBypass, ThreatCategory::MathOverflow],
        "Oracle must authenticate. Oracle freeze check active. 
            Multiplier must be positive. Overflow protection on rate calculations.
            Pending rate also affected. Events emitted for transparency.",
    )
}

/// Requirement profile of `pause_stream`: Pause a grant stream
pub open spec fn pause_stream_profile() -> RequirementProfile {
    (
        SecurityLevel::Medium,
        AuthType::Admin,
        seq![SecurityControl::PauseResume, SecurityControl::OverflowProtection],
        seq!["AUDIT-005: Pause functionality", "AUDIT-018: State consistency"],
        seq![ThreatCategory::AdminCompromise, ThreatCategory::MathOverflow],
        "Admin must authenticate. Grant must be active to pause.
            Settlement calculation before state change. Status updated atomically.",
    )
}

/// Requirement profile of `resume_stream`: Resume a paused grant stream
pub open spec fn resume_stream_profile() -> RequirementProfile {
    (
        SecurityLevel::Medium,
        AuthType::Admin,
        seq![SecurityControl::PauseResume],
        seq!["AUDIT-005: Resume functionality", "AUDIT-018: State consistency"],
        seq![ThreatCategory::AdminCompromise],
        "Admin must authenticate. Grant must be paused to resume.
            Timestamp updated for accurate accrual. Status updated atomically.",
    )
}

/// Requirement profile of `rage_quit`: Rage quit from a paused grant (recipient action)
pub open spec fn rage_quit_profile() -> RequirementProfile {
    (
        SecurityLevel::Medium,
        AuthType::Recipient,
        seq![SecurityControl::ReentrancyGuard, SecurityControl::OverflowProtection, SecurityControl::TokenRescue],
        seq!["AUDIT-010: Rage quit security", "AUDIT-013: Reentrancy protection", "AUDIT-019: Validator payout validation"],
        seq![ThreatCategory::Reentrancy, ThreatCategory::MathOverflow, ThreatCategory::TokenIntegration],
        "Recipient must authenticate. Grant must be paused.
            Settlement calculation required. Validator share paid if applicable.
            Remaining funds returned to treasury. Status updated to RageQuitted.",
    )
}

/// Requirement profile of `rescue_tokens`: Rescue tokens from contract
pub open spec fn rescue_tokens_profile() -> RequirementProfile {
    (
        SecurityLevel::Critical,
        AuthType::AdminMultiSig,
        seq![SecurityControl::TokenRescue, SecurityControl::OverflowProtection, SecurityControl::MultiThreshold],
        seq!["AUDIT-004: Token rescue security", "AUDIT-006: Allocation validation", "AUDIT-020: Emergency function review"],
        seq![ThreatCategory::AdminCompromise, ThreatCategory::MathOverflow, ThreatCategory::TokenIntegration],
        "Admin multi-sig required. Amount must be positive.
            Balance must be sufficient. Cannot violate allocated funds.
            Only non-allocated tokens can be rescued. Emergency function.",
    )
}

/// Requirement profile of `set_sanity_oracle`: Set sanity oracle address
pub open spec fn set_sanity_oracle_profile() -> RequirementProfile {
    (
        SecurityLevel::Critical,
        AuthType::Admin,
        seq![SecurityControl::OracleValidation, SecurityControl::MultiThreshold],
        seq!["AUDIT-005: Oracle configuration", "AUDIT-021: Sanity oracle validation"],
        seq![ThreatCategory::AdminCompromise, ThreatCategory::OracleManipulation],
        "Admin must authenticate. Oracle address validation required.
            Critical for price deviation confirmation. No duplicate checks needed.",
    )
}

/// Requirement profile of `submit_oracle_price`: Submit oracle price with deviation checking
pub open spec fn submit_oracle_price_profile() -> RequirementProfile {
    (
        SecurityLevel::Medium,
        AuthType::Oracle,
        seq![SecurityControl::CircuitBreaker, SecurityControl::OracleValidation, SecurityControl::RateLimit],
        seq!["AUDIT-008: Oracle price security", "AUDIT-011: Deviation checking", "AUDIT-022: Heartbeat integration"],
        seq![ThreatCategory::OracleManipulation, ThreatCategory::CircuitBreakerBypass, ThreatCategory::MathOverflow],
        "Oracle must authenticate. Price must be positive.
            50% deviation threshold triggers freeze. Heartbeat automatically updated.
            Returns false if deviation exceeded and guard tripped.",
    )
}

/// Requirement profile of `confirm_oracle_price`: Confirm suspicious oracle price
pub open spec fn confirm_oracle_price_profile() -> RequirementProfile {
    (
        SecurityLevel::Critical,
        AuthType::Admin,
        seq![SecurityControl::OracleValidation, SecurityControl::MultiThreshold],
        seq!["AUDIT-021: Sanity oracle confirmation", "AUDIT-023: Price freeze resolution"],
        seq![ThreatCategory::AdminCompromise, ThreatCategory::OracleManipulation],
        "Sanity oracle must authenticate and be configured.
            Confirmed price must be positive. Clears oracle freeze.
            Critical for resuming price-dependent operations.",
    )
}

/// Requirement profile of `update_tvl_snapshot`: Update TVL snapshot for velocity calculations
pub open spec fn update_tvl_snapshot_profile() -> RequirementProfile {
    (
        SecurityLevel::Medium,
        AuthType::Admin,
        seq![SecurityControl::CircuitBreaker, SecurityControl::OverflowProtection],
        seq!["AUDIT-006: TVL management", "AUDIT-024: Velocity calculation accuracy"],
        seq![ThreatCategory::AdminCompromise, ThreatCategory::MathOverflow, ThreatCategory::CircuitBreakerBypass],
        "Admin must authenticate. Total liquidity must be non-negative.
            Used as denominator for velocity limit calculations. Should be updated
            when total protocol liquidity changes materially.",
    )
}

/// Requirement profile of `resume_after_velocity_check`: Resume operations after velocity check
pub open spec fn resume_after_velocity_check_profile() -> RequirementProfile {
    (
        SecurityLevel::Critical,
        AuthType::Admin,
        seq![SecurityControl::CircuitBreaker, SecurityControl::MultiThreshold],
        seq!["AUDIT-025: Velocity breach recovery", "AUDIT-026: Admin verification process"],
        seq![ThreatCategory::AdminCompromise, ThreatCategory::CircuitBreakerBypass],
        "Admin must authenticate. Clears soft pause after manual verification.
            Resets velocity window and accumulator. Critical for protocol recovery.",
    )
}

/// Requirement profile of `settle_grant`: Settle grant accruals and calculate claimable amounts
pub open spec fn settle_grant_profile() -> RequirementProfile {
    (
        SecurityLevel::High,
        AuthType::NoneRequired,
        seq![SecurityControl::OverflowProtection, SecurityControl::LegalCompliance],
        seq!["AUDIT-011: Settlement calculations", "AUDIT-027: Accrual accuracy", "AUDIT-028: Legal compliance integration"],
        seq![ThreatCategory::MathOverflow, ThreatCategory::LegalCompliance],
        "Internal function - no direct auth required.
            Time validation prevents backwards settlement. Legal signature check.
            Handles pending rate increases. Caps claimable at total_amount.
            Updates last_update_ts atomically.",
    )
}

/// Requirement profile of `apply_accrued_split`: Apply accrued amount split between grantee and validator
pub open spec fn apply_accrued_split_profile() -> RequirementProfile {
    (
        SecurityLevel::High,
        AuthType::NoneRequired,
        seq![SecurityControl::OverflowProtection],
        seq!["AUDIT-012: Validator share calculation", "AUDIT-029: Split accuracy"],
        seq![ThreatCategory::MathOverflow],
        "Internal function - no direct auth required.
            5% validator share when validator is set. Full amount to grantee otherwise.
            Overflow protection on all arithmetic operations. Updates both claimable
            and validator_claimable balances.",
    )
}

/// Requirement profile of `total_allocated_funds`: Calculate total allocated funds across active grants
pub open spec fn total_allocated_funds_profile() -> RequirementProfile {
    (
        SecurityLevel::Medium,
        AuthType::NoneRequired,
        seq![SecurityControl::OverflowProtection],
        seq!["AUDIT-013: Allocation calculation", "AUDIT-030: Fund tracking accuracy"],
        seq![ThreatCategory::MathOverflow],
        "Internal function - no direct auth required.
            Only includes Active and Paused grants. Calculates remaining balance
            (total_amount - withdrawn). Used for rescue token validation.
            Overflow protection on all arithmetic operations.",
    )
}

/// Requirement profile of `reentrancy_enter`: Enter reentrancy guard
pub open spec fn reentrancy_enter_profile() -> RequirementProfile {
    (
        SecurityLevel::High,
        AuthType::NoneRequired,
        seq![SecurityControl::ReentrancyGuard],
        seq!["AUDIT-013: Reentrancy protection", "AUDIT-031: Guard implementation"],
        seq![ThreatCategory::Reentrancy],
        "Internal function - uses temporary storage for efficiency.
            Auto-expires after 1 ledger to prevent permanent lock.
            Panics with specific error code if already locked.
            Must be paired with reentrancy_exit.",
    )
}

/// Requirement profile of `reentrancy_exit`: Exit reentrancy guard
pub open spec fn reentrancy_exit_profile() -> RequirementProfile {
    (
        SecurityLevel::High,
        AuthType::NoneRequired,
        seq![SecurityControl::ReentrancyGuard],
        seq!["AUDIT-013: Reentrancy protection", "AUDIT-031: Guard implementation"],
        seq![ThreatCategory::Reentrancy],
        "Internal function - removes temporary storage entry.
            Saves ledger write by deleting rather than writing false.
            Must be called before every return in guarded functions.
            Use nonreentrant! macro to ensure proper pairing.",
    )
}

/// The requirement catalogued for a function name, if it is catalogued.
pub open spec fn requirement_spec(name: Seq<char>) -> Option<RequirementProfile> {
    if name == "initialize"@ {
        Some(initialize_profile())
    } else if name == "create_grant"@ {
        Some(create_grant_profile())
    } else if name == "withdraw"@ {
        Some(withdraw_profile())
    } else if name == "cancel_grant"@ {
        Some(cancel_grant_profile())
    } else if name == "apply_kpi_multiplier"@ {
        Some(apply_kpi_multiplier_profile())
    } else if name == "pause_stream"@ {
        Some(pause_stream_profile())
    } else if name == "resume_stream"@ {
        Some(resume_stream_profile())
    } else if name == "rage_quit"@ {
        Some(rage_quit_profile())
    } else if name == "rescue_tokens"@ {
        Some(rescue_tokens_profile())
    } else if name == "set_sanity_oracle"@ {
        Some(set_sanity_oracle_profile())
    } else if name == "submit_oracle_price"@ {
        Some(submit_oracle_price_profile())
    } else if name == "confirm_oracle_price"@ {
        Some(confirm_oracle_price_profile())
    } else if name == "update_tvl_snapshot"@ {
        Some(update_tvl_snapshot_profile())
    } else if name == "resume_after_velocity_check"@ {
        Some(resume_after_velocity_check_profile())
    } else if name == "settle_grant"@ {
        Some(settle_grant_profile())
    } else if name == "apply_accrued_split"@ {
        Some(apply_accrued_split_profile())
    } else if name == "total_allocated_funds"@ {
        Some(total_allocated_funds_profile())
    } else if name == "reentrancy_enter"@ {
        Some(reentrancy_enter_profile())
    } else if name == "reentrancy_exit"@ {
        Some(reentrancy_exit_profile())
    } else {
        None
    }
}

/// Names of the functions whose compromise is critical.
pub open spec fn critical_function_names() -> Seq<&'static str> {
    seq!["initialize", "create_grant", "rescue_tokens", "set_sanity_oracle", "confirm_oracle_price", "resume_after_velocity_check"]
}

/// Names of the functions that need administrator authentication.
pub open spec fn admin_function_names() -> Seq<&'static str> {
    seq!["initialize", "create_grant", "cancel_grant", "pause_stream", "resume_stream", "rescue_tokens", "set_sanity_oracle", "confirm_oracle_price", "update_tvl_snapshot", "resume_after_velocity_check"]
}

/// The items every audit of the protocol goes through, in order.
pub open spec fn audit_checklist_items() -> Seq<&'static str> {
    seq![
        "✓ Verify all admin functions use proper multi-sig authentication",
        "✓ Confirm reentrancy guards are properly implemented on all external calls",
        "✓ Check circuit breaker logic for price deviation and velocity limits",
        "✓ Validate overflow protection on all arithmetic operations",
        "✓ Ensure legal compliance checks are enforced where required",
        "✓ Verify token rescue functions cannot violate allocated funds",
        "✓ Check oracle authentication and price validation logic",
        "✓ Confirm settlement calculations are accurate and bounded",
        "✓ Validate state consistency across all operations",
        "✓ Ensure proper event emission for transparency",
        "✓ Check for proper error handling and revert conditions",
        "✓ Verify gas optimization does not compromise security",
        "✓ Confirm upgrade patterns maintain security invariants",
        "✓ Check for potential front-running or MEV vulnerabilities",
        "✓ Validate DoS resistance and resource limits",
        "✓ Verify every guarded function releases its reentrancy guard on every return path",
    ]
}

/// Names of the functions guarded against reentrancy.
pub open spec fn reentrancy_protected_names() -> Seq<&'static str> {
    seq!["withdraw", "rage_quit"]
}

/// Character-wise equality of two string slices.
fn str_eq(a: &str, b: &str) -> (r: bool)
    ensures
        r == (a@ == b@),
{
    let n = a.unicode_len();
    let m = b.unicode_len();
    if n != m {
        return false;
    }
    let mut i: usize = 0;
    while i < n
        invariant
            n == a@.len(),
            m == b@.len(),
            n == m,
            i <= n,
            forall|j: int| 0 <= j < i ==> a@[j] == b@[j],
        decreases n - i,
    {
        if a.get_char(i) != b.get_char(i) {
            return false;
        }
        i = i + 1;
    }
    assert(a@ =~= b@);
    true
}

fn initialize_requirement() -> (r: SecurityRequirement)
    ensures
        r.profile() == initialize_profile(),
{
    let r = SecurityRequirement {
        level: SecurityLevel::Critical,
        auth_required: AuthType::AdminMultiSig,
        controls: vec![SecurityControl::PauseResume, SecurityControl::MultiThreshold],
        audit_refs: vec!["AUDIT-001: Initial setup validation", "AUDIT-004: Immutable configuration checks", "AUDIT-014: Comprehensive initialization review"],
        threats: vec![ThreatCategory::AdminCompromise, ThreatCategory::MathOverflow],
        notes: "Must be called once with multi-sig. All addresses must be validated. 
            Storage keys must be properly set. No re-initialization allowed.",
    };
    assert(r.controls@ =~= seq![SecurityControl::PauseResume, SecurityControl::MultiThreshold]);
    assert(r.audit_refs@ =~= seq!["AUDIT-001: Initial setup validation", "AUDIT-004: Immutable configuration checks", "AUDIT-014: Comprehensive initialization review"]);
    assert(r.threats@ =~= seq![ThreatCategory::AdminCompromise, ThreatCategory::MathOverflow]);
    r
}

fn create_grant_requirement() -> (r: SecurityRequirement)
    ensures
        r.profile() == create_grant_profile(),
{
    let r = SecurityRequirement {
        level: SecurityLevel::Critical,
        auth_required: AuthType::Admin,
        controls: vec![SecurityControl::OverflowProtection, SecurityControl::LegalCompliance, SecurityControl::PauseResume],
        audit_refs: vec!["AUDIT-002: Grant creation security", "AUDIT-007: Amount validation", "AUDIT-012: Duplicate prevention"],
        threats: vec![ThreatCategory::AdminCompromise, ThreatCategory::MathOverflow, ThreatCategory::LegalCompliance],
        notes: "Admin must authenticate. Amount and rate must be positive. 
            Duplicate grant IDs must be rejected. Legal hash validation optional.
            Warmup duration and validator address properly stored.",
    };
    assert(r.controls@ =~= seq![SecurityControl::OverflowProtection, SecurityControl::LegalCompliance, SecurityControl::PauseResume]);
    assert(r.audit_refs@ =~= seq!["AUDIT-002: Grant creation security", "AUDIT-007: Amount validation", "AUDIT-012: Duplicate prevention"]);
    assert(r.threats@ =~= seq![ThreatCategory::AdminCompromise, ThreatCategory::MathOverflow, ThreatCategory::LegalCompliance]);
    r
}

fn withdraw_requirement() -> (r: SecurityRequirement)
    ensures
        r.profile() == withdraw_profile(),
{
    let r = SecurityRequirement {
        level: SecurityLevel::Medium,
        auth_required: AuthType::Recipient,
        controls: vec![SecurityControl::ReentrancyGuard, SecurityControl::CircuitBreaker, SecurityControl::LegalCompliance, SecurityControl::OverflowProtection],
        audit_refs: vec!["AUDIT-009: Withdrawal security", "AUDIT-013: Reentrancy protection", "AUDIT-015: Circuit breaker integration"],
        threats: vec![ThreatCategory::Reentrancy, ThreatCategory::CircuitBreakerBypass, ThreatCategory::LegalCompliance, ThreatCategory::MathOverflow],
        notes: "Recipient must authenticate. Non-reentrant guard active. 
            Soft pause and oracle freeze checks. Legal signature required if specified.
            Amount must not exceed claimable. State updated after transfer.",
    };
    assert(r.controls@ =~= seq![SecurityControl::ReentrancyGuard, SecurityControl::CircuitBreaker, SecurityControl::LegalCompliance, SecurityControl::OverflowProtection]);
    assert(r.audit_refs@ =~= seq!["AUDIT-009: Withdrawal security", "AUDIT-013: Reentrancy protection", "AUDIT-015: Circuit breaker integration"]);
    assert(r.threats@ =~= seq![ThreatCategory::Reentrancy, ThreatCategory::CircuitBreakerBypass, ThreatCategory::LegalCompliance, ThreatCategory::MathOverflow]);
    r
}

fn cancel_grant_requirement() -> (r: SecurityRequirement)
    ensures
        r.profile() == cancel_grant_profile(),
{
    let r = SecurityRequirement {
        level: SecurityLevel::High,
        auth_required: AuthType::Admin,
        controls: vec![SecurityControl::OverflowProtection, SecurityControl::PauseResume, SecurityControl::TokenRescue],
        audit_refs: vec!["AUDIT-003: Grant cancellation security", "AUDIT-008: Treasury return validation", "AUDIT-016: Settlement calculation review"],
        threats: vec![ThreatCategory::AdminCompromise, ThreatCategory::MathOverflow, ThreatCategory::TokenIntegration],
        notes: "Admin must authenticate. Grant must not be completed or rage-quit.
            Settlement calculation must be accurate. Remaining funds returned to treasury.
            All claimable balances properly accounted for.",
    };
    assert(r.controls@ =~= seq![SecurityControl::OverflowProtection, SecurityControl::PauseResume, SecurityControl::TokenRescue]);
    assert(r.audit_refs@ =~= seq!["AUDIT-003: Grant cancellation security", "AUDIT-008: Treasury return validation", "AUDIT-016: Settlement calculation review"]);
    assert(r.threats@ =~= seq![ThreatCategory::AdminCompromise, ThreatCategory::MathOverflow, ThreatCategory::TokenIntegration]);
    r
}

fn apply_kpi_multiplier_requirement() -> (r: SecurityRequirement)
    ensures
        r.profile() == apply_kpi_multiplier_profile(),
{
    let r = SecurityRequirement {
        level: SecurityLevel::Medium,
        auth_required: AuthType::Oracle,
        controls: vec![SecurityControl::CircuitBreaker, SecurityControl::OracleValidation, SecurityControl::OverflowProtection],
        audit_refs: vec!["AUDIT-007: Oracle security", "AUDIT-011: Price manipulation prevention", "AUDIT-017: KPI multiplier validation"],
        threats: vec![ThreatCategory::OracleManipulation, ThreatCategory::CircuitBreakerBypass, ThreatCategory::MathOverflow],
        notes: "Oracle must authenticate. Oracle freeze check active. 
            Multiplier must be positive. Overflow protection on rate calculations.
            Pending rate also affected. Events emitted for transparency.",
    };
    assert(r.controls@ =~= seq![SecurityControl::CircuitBreaker, SecurityControl::OracleValidation, SecurityControl::OverflowProtection]);
    assert(r.audit_refs@ =~= seq!["AUDIT-007: Oracle security", "AUDIT-011: Price manipulation prevention", "AUDIT-017: KPI multiplier validation"]);
    assert(r.threats@ =~= seq![ThreatCategory::OracleManipulation, ThreatCategory::CircuitBreakerBypass, ThreatCategory::MathOverflow]);
    r
}

fn pause_stream_requirement() -> (r: SecurityRequirement)
    ensures
        r.profile() == pause_stream_profile(),
{
    let r = SecurityRequirement {
        level: SecurityLevel::Medium,
        auth_required: AuthType::Admin,
        controls: vec![SecurityControl::PauseResume, SecurityControl::OverflowProtection],
        audit_refs: vec!["AUDIT-005: Pause functionality", "AUDIT-018: State consistency"],
        threats: vec![ThreatCategory::AdminCompromise, ThreatCategory::MathOverflow],
        notes: "Admin must authenticate. Grant must be active to pause.
            Settlement calculation before state change. Status updated atomically.",
    };
    assert(r.controls@ =~= seq![SecurityControl::PauseResume, SecurityControl::OverflowProtection]);
    assert(r.audit_refs@ =~= seq!["AUDIT-005: Pause functionality", "AUDIT-018: State consistency"]);
    assert(r.threats@ =~= seq![ThreatCategory::AdminCompromise, ThreatCategory::MathOverflow]);
    r
}

fn resume_stream_requirement() -> (r: SecurityRequirement)
    ensures
        r.profile() == resume_stream_profile(),
{
    let r = SecurityRequirement {
        level: SecurityLevel::Medium,
        auth_required: AuthType::Admin,
        controls: vec![SecurityControl::PauseResume],
        audit_refs: vec!["AUDIT-005: Resume functionality", "AUDIT-018: State consistency"],
        threats: vec![ThreatCategory::AdminCompromise],
        notes: "Admin must authenticate. Grant must be paused to resume.
            Timestamp updated for accurate accrual. Status updated atomically.",
    };
    assert(r.controls@ =~= seq![SecurityControl::PauseResume]);
    assert(r.audit_refs@ =~= seq!["AUDIT-005: Resume functionality", "AUDIT-018: State consistency"]);
    assert(r.threats@ =~= seq![ThreatCategory::AdminCompromise]);
    r
}

fn rage_quit_requirement() -> (r: SecurityRequirement)
    ensures
        r.profile() == rage_quit_profile(),
{
    let r = SecurityRequirement {
        level: SecurityLevel::Medium,
        auth_required: AuthType::Recipient,
        controls: vec![SecurityControl::ReentrancyGuard, SecurityControl::OverflowProtection, SecurityControl::TokenRescue],
        audit_refs: vec!["AUDIT-010: Rage quit security", "AUDIT-013: Reentrancy protection", "AUDIT-019: Validator payout validation"],
        threats: vec![ThreatCategory::Reentrancy, ThreatCategory::MathOverflow, ThreatCategory::TokenIntegration],
        notes: "Recipient must authenticate. Grant must be paused.
            Settlement calculation required. Validator share paid if applicable.
            Remaining funds returned to treasury. Status updated to RageQuitted.",
    };
    assert(r.controls@ =~= seq![SecurityControl::ReentrancyGuard, SecurityControl::OverflowProtection, SecurityControl::TokenRescue]);
    assert(r.audit_refs@ =~= seq!["AUDIT-010: Rage quit security", "AUDIT-013: Reentrancy protection", "AUDIT-019: Validator payout validation"]);
    assert(r.threats@ =~= seq![ThreatCategory::Reentrancy, ThreatCategory::MathOverflow, ThreatCategory::TokenIntegration]);
    r
}

fn rescue_tokens_requirement() -> (r: SecurityRequirement)
    ensures
        r.profile() == rescue_tokens_profile(),
{
    let r = SecurityRequirement {
        level: SecurityLevel::Critical,
        auth_required: AuthType::AdminMultiSig,
        controls: vec![SecurityControl::TokenRescue, SecurityControl::OverflowProtection, SecurityControl::MultiThreshold],
        audit_refs: vec!["AUDIT-004: Token rescue security", "AUDIT-006: Allocation validation", "AUDIT-020: Emergency function review"],
        threats: vec![ThreatCategory::AdminCompromise, ThreatCategory::MathOverflow, ThreatCategory::TokenIntegration],
        notes: "Admin multi-sig required. Amount must be positive.
            Balance must be sufficient. Cannot violate allocated funds.
            Only non-allocated tokens can be rescued. Emergency function.",
    };
    assert(r.controls@ =~= seq![SecurityControl::TokenRescue, SecurityControl::OverflowProtection, SecurityControl::MultiThreshold]);
    assert(r.audit_refs@ =~= seq!["AUDIT-004: Token rescue security", "AUDIT-006: Allocation validation", "AUDIT-020: Emergency function review"]);
    assert(r.threats@ =~= seq![ThreatCategory::AdminCompromise, ThreatCategory::MathOverflow, ThreatCategory::TokenIntegration]);
    r
}

fn set_sanity_oracle_requirement() -> (r: SecurityRequirement)
    ensures
        r.profile() == set_sanity_oracle_profile(),
{
    let r = SecurityRequirement {
        level: SecurityLevel::Critical,
        auth_required: AuthType::Admin,
        controls: vec![SecurityControl::OracleValidation, SecurityControl::MultiThreshold],
        audit_refs: vec!["AUDIT-005: Oracle configuration", "AUDIT-021: Sanity oracle validation"],
        threats: vec![ThreatCategory::AdminCompromise, ThreatCategory::OracleManipulation],
        notes: "Admin must authenticate. Oracle address validation required.
            Critical for price deviation confirmation. No duplicate checks needed.",
    };
    assert(r.controls@ =~= seq![SecurityControl::OracleValidation, SecurityControl::MultiThreshold]);
    assert(r.audit_refs@ =~= seq!["AUDIT-005: Oracle configuration", "AUDIT-021: Sanity oracle validation"]);
    assert(r.threats@ =~= seq![ThreatCategory::AdminCompromise, ThreatCategory::OracleManipulation]);
    r
}

fn submit_oracle_price_requirement() -> (r: SecurityRequirement)
    ensures
        r.profile() == submit_oracle_price_profile(),
{
    let r = SecurityRequirement {
        level: SecurityLevel::Medium,
        auth_required: AuthType::Oracle,
        controls: vec![SecurityControl::CircuitBreaker, SecurityControl::OracleValidation, SecurityControl::RateLimit],
        audit_refs: vec!["AUDIT-008: Oracle price security", "AUDIT-011: Deviation checking", "AUDIT-022: Heartbeat integration"],
        threats: vec![ThreatCategory::OracleManipulation, ThreatCategory::CircuitBreakerBypass, ThreatCategory::MathOverflow],
        notes: "Oracle must authenticate. Price must be positive.
            50% deviation threshold triggers freeze. Heartbeat automatically updated.
            Returns false if deviation exceeded and guard tripped.",
    };
    assert(r.controls@ =~= seq![SecurityControl::CircuitBreaker, SecurityControl::OracleValidation, SecurityControl::RateLimit]);
    assert(r.audit_refs@ =~= seq!["AUDIT-008: Oracle price security", "AUDIT-011: Deviation checking", "AUDIT-022: Heartbeat integration"]);
    assert(r.threats@ =~= seq![ThreatCategory::OracleManipulation, ThreatCategory::CircuitBreakerBypass, ThreatCategory::MathOverflow]);
    r
}

fn confirm_oracle_price_requirement() -> (r: SecurityRequirement)
    ensures
        r.profile() == confirm_oracle_price_profile(),
{
    let r = SecurityRequirement {
        level: SecurityLevel::Critical,
        auth_required: AuthType::Admin,
        controls: vec![SecurityControl::OracleValidation, SecurityControl::MultiThreshold],
        audit_refs: vec!["AUDIT-021: Sanity oracle confirmation", "AUDIT-023: Price freeze resolution"],
        threats: vec![ThreatCategory::AdminCompromise, ThreatCategory::OracleManipulation],
        notes: "Sanity oracle must authenticate and be configured.
            Confirmed price must be positive. Clears oracle freeze.
            Critical for resuming price-dependent operations.",
    };
    assert(r.controls@ =~= seq![SecurityControl::OracleValidation, SecurityControl::MultiThreshold]);
    assert(r.audit_refs@ =~= seq!["AUDIT-021: Sanity oracle confirmation", "AUDIT-023: Price freeze resolution"]);
    assert(r.threats@ =~= seq![ThreatCategory::AdminCompromise, ThreatCategory::OracleManipulation]);
    r
}

fn update_tvl_snapshot_requirement() -> (r: SecurityRequirement)
    ensures
        r.profile() == update_tvl_snapshot_profile(),
{
    let r = SecurityRequirement {
        level: SecurityLevel::Medium,
        auth_required: AuthType::Admin,
        controls: vec![SecurityControl::CircuitBreaker, SecurityControl::OverflowProtection],
        audit_refs: vec!["AUDIT-006: TVL management", "AUDIT-024: Velocity calculation accuracy"],
        threats: vec![ThreatCategory::AdminCompromise, ThreatCategory::MathOverflow, ThreatCategory::CircuitBreakerBypass],
        notes: "Admin must authenticate. Total liquidity must be non-negative.
            Used as denominator for velocity limit calculations. Should be updated
            when total protocol liquidity changes materially.",
    };
    assert(r.controls@ =~= seq![SecurityControl::CircuitBreaker, SecurityControl::OverflowProtection]);
    assert(r.audit_refs@ =~= seq!["AUDIT-006: TVL management", "AUDIT-024: Velocity calculation accuracy"]);
    assert(r.threats@ =~= seq![ThreatCategory::AdminCompromise, ThreatCategory::MathOverflow, ThreatCategory::CircuitBreakerBypass]);
    r
}

fn resume_after_velocity_check_requirement() -> (r: SecurityRequirement)
    ensures
        r.profile() == resume_after_velocity_check_profile(),
{
    let r = SecurityRequirement {
        level: SecurityLevel::Critical,
        auth_required: AuthType::Admin,
        controls: vec![SecurityControl::CircuitBreaker, SecurityControl::MultiThreshold],
        audit_refs: vec!["AUDIT-025: Velocity breach recovery", "AUDIT-026: Admin verification process"],
        threats: vec![ThreatCategory::AdminCompromise, ThreatCategory::CircuitBreakerBypass],
        notes: "Admin must authenticate. Clears soft pause after manual verification.
            Resets velocity window and accumulator. Critical for protocol recovery.",
    };
    assert(r.controls@ =~= seq![SecurityControl::CircuitBreaker, SecurityControl::MultiThreshold]);
    assert(r.audit_refs@ =~= seq!["AUDIT-025: Velocity breach recovery", "AUDIT-026: Admin verification process"]);
    assert(r.threats@ =~= seq![ThreatCategory::AdminCompromise, ThreatCategory::CircuitBreakerBypass]);
    r
}

fn settle_grant_requirement() -> (r: SecurityRequirement)
    ensures
        r.profile() == settle_grant_profile(),
{
    let r = SecurityRequirement {
        level: SecurityLevel::High,
        auth_required: AuthType::NoneRequired,
        controls: vec![SecurityControl::OverflowProtection, SecurityControl::LegalCompliance],
        audit_refs: vec!["AUDIT-011: Settlement calculations", "AUDIT-027: Accrual accuracy", "AUDIT-028: Legal compliance integration"],
        threats: vec![ThreatCategory::MathOverflow, ThreatCategory::LegalCompliance],
        notes: "Internal function - no direct auth required.
            Time validation prevents backwards settlement. Legal signature check.
            Handles pending rate increases. Caps claimable at total_amount.
            Updates last_update_ts atomically.",
    };
    assert(r.controls@ =~= seq![SecurityControl::OverflowProtection, SecurityControl::LegalCompliance]);
    assert(r.audit_refs@ =~= seq!["AUDIT-011: Settlement calculations", "AUDIT-027: Accrual accuracy", "AUDIT-028: Legal compliance integration"]);
    assert(r.threats@ =~= seq![ThreatCategory::MathOverflow, ThreatCategory::LegalCompliance]);
    r
}

fn apply_accrued_split_requirement() -> (r: SecurityRequirement)
    ensures
        r.profile() == apply_accrued_split_profile(),
{
    let r = SecurityRequirement {
        level: SecurityLevel::High,
        auth_required: AuthType::NoneRequired,
        controls: vec![SecurityControl::OverflowProtection],
        audit_refs: vec!["AUDIT-012: Validator share calculation", "AUDIT-029: Split accuracy"],
        threats: vec![ThreatCategory::MathOverflow],
        notes: "Internal function - no direct auth required.
            5% validator share when validator is set. Full amount to grantee otherwise.
            Overflow protection on all arithmetic operations. Updates both claimable
            and validator_claimable balances.",
    };
    assert(r.controls@ =~= seq![SecurityControl::OverflowProtection]);
    assert(r.audit_refs@ =~= seq!["AUDIT-012: Validator share calculation", "AUDIT-029: Split accuracy"]);
    assert(r.threats@ =~= seq![ThreatCategory::MathOverflow]);
    r
}

fn total_allocated_funds_requirement() -> (r: SecurityRequirement)
    ensures
        r.profile() == total_allocated_funds_profile(),
{
    let r = SecurityRequirement {
        level: SecurityLevel::Medium,
        auth_required: AuthType::NoneRequired,
        controls: vec![SecurityControl::OverflowProtection],
        audit_refs: vec!["AUDIT-013: Allocation calculation", "AUDIT-030: Fund tracking accuracy"],
        threats: vec![ThreatCategory::MathOverflow],
        notes: "Internal function - no direct auth required.
            Only includes Active and Paused grants. Calculates remaining balance
            (total_amount - withdrawn). Used for rescue token validation.
            Overflow protection on all arithmetic operations.",
    };
    assert(r.controls@ =~= seq![SecurityControl::OverflowProtection]);
    assert(r.audit_refs@ =~= seq!["AUDIT-013: Allocation calculation", "AUDIT-030: Fund tracking accuracy"]);
    assert(r.threats@ =~= seq![ThreatCategory::MathOverflow]);
    r
}

fn reentrancy_enter_requirement() -> (r: SecurityRequirement)
    ensures
        r.profile() == reentrancy_enter_profile(),
{
    let r = SecurityRequirement {
        level: SecurityLevel::High,
        auth_required: AuthType::NoneRequired,
        controls: vec![SecurityControl::ReentrancyGuard],
        audit_refs: vec!["AUDIT-013: Reentrancy protection", "AUDIT-031: Guard implementation"],
        threats: vec![ThreatCategory::Reentrancy],
        notes: "Internal function - uses temporary storage for efficiency.
            Auto-expires after 1 ledger to prevent permanent lock.
            Panics with specific error code if already locked.
            Must be paired with reentrancy_exit.",
    };
    assert(r.controls@ =~= seq![SecurityControl::ReentrancyGuard]);
    assert(r.audit_refs@ =~= seq!["AUDIT-013: Reentrancy protection", "AUDIT-031: Guard implementation"]);
    assert(r.threats@ =~= seq![ThreatCategory::Reentrancy]);
    r
}

fn reentrancy_exit_requirement() -> (r: SecurityRequirement)
    ensures
        r.profile() == reentrancy_exit_profile(),
{
    let r = SecurityRequirement {
        level: SecurityLevel::High,
        auth_required: AuthType::NoneRequired,
        controls: vec![SecurityControl::ReentrancyGuard],
        audit_refs: vec!["AUDIT-013: Reentrancy protection", "AUDIT-031: Guard implementation"],
        threats: vec![ThreatCategory::Reentrancy],
        notes: "Internal function - removes temporary storage entry.
            Saves ledger write by deleting rather than writing false.
            Must be called before every return in guarded functions.
            Use nonreentrant! macro to ensure proper pairing.",
    };
    assert(r.controls@ =~= seq![SecurityControl::ReentrancyGuard]);
    assert(r.audit_refs@ =~= seq!["AUDIT-013: Reentrancy protection", "AUDIT-031: Guard implementation"]);
    assert(r.threats@ =~= seq![ThreatCategory::Reentrancy]);
    r
}

/// Security requirements for a function, looked up by its name.
pub fn get_security_requirement(function_name: &str) -> (r: Option<SecurityRequirement>)
    ensures
        match r {
            Some(req) => requirement_spec(function_name@) == Some(req.profile()),
            None => requirement_spec(function_name@) is None,
        },
{
    if str_eq(function_name, "initialize") {
        Some(initialize_requirement())
    } else if str_eq(function_name, "create_grant") {
        Some(create_grant_requirement())
    } else if str_eq(function_name, "withdraw") {
        Some(withdraw_requirement())
    } else if str_eq(function_name, "cancel_grant") {
        Some(cancel_grant_requirement())
    } else if str_eq(function_name, "apply_kpi_multiplier") {
        Some(apply_kpi_multiplier_requirement())
    } else if str_eq(function_name, "pause_stream") {
        Some(pause_stream_requirement())
    } else if str_eq(function_name, "resume_stream") {
        Some(resume_stream_requirement())
    } else if str_eq(function_name, "rage_quit") {
        Some(rage_quit_requirement())
    } else if str_eq(function_name, "rescue_tokens") {
        Some(rescue_tokens_requirement())
    } else if str_eq(function_name, "set_sanity_oracle") {
        Some(set_sanity_oracle_requirement())
    } else if str_eq(function_name, "submit_oracle_price") {
        Some(submit_oracle_price_requirement())
    } else if str_eq(function_name, "confirm_oracle_price") {
        Some(confirm_oracle_price_requirement())
    } else if str_eq(function_name, "update_tvl_snapshot") {
        Some(update_tvl_snapshot_requirement())
    } else if str_eq(function_name, "resume_after_velocity_check") {
        Some(resume_after_velocity_check_requirement())
    } else if str_eq(function_name, "settle_grant") {
        Some(settle_grant_requirement())
    } else if str_eq(function_name, "apply_accrued_split") {
        Some(apply_accrued_split_requirement())
    } else if str_eq(function_name, "total_allocated_funds") {
        Some(total_allocated_funds_requirement())
    } else if str_eq(function_name, "reentrancy_enter") {
        Some(reentrancy_enter_requirement())
    } else if str_eq(function_name, "reentrancy_exit") {
        Some(reentrancy_exit_requirement())
    } else {
        None
    }
}

/// All critical security functions.
pub fn get_critical_functions() -> (r: Vec<&'static str>)
    ensures
        r@ == critical_function_names(),
{
    let r = vec!["initialize", "create_grant", "rescue_tokens", "set_sanity_oracle", "confirm_oracle_price", "resume_after_velocity_check"];
    assert(r@ =~= critical_function_names());
    r
}

/// All functions requiring admin authentication.
pub fn get_admin_functions() -> (r: Vec<&'static str>)
    ensures
        r@ == admin_function_names(),
{
    let r = vec!["initialize", "create_grant", "cancel_grant", "pause_stream", "resume_stream", "rescue_tokens", "set_sanity_oracle", "confirm_oracle_price", "update_tvl_snapshot", "resume_after_velocity_check"];
    assert(r@ =~= admin_function_names());
    r
}

/// All functions with reentrancy protection.
pub fn get_reentrancy_protected_functions() -> (r: Vec<&'static str>)
    ensures
        r@ == reentrancy_protected_names(),
{
    let r = vec!["withdraw", "rage_quit"];
    assert(r@ =~= reentrancy_protected_names());
    r
}

/// The items every audit of the protocol goes through.
pub fn audit_checklist() -> (r: Vec<&'static str>)
    ensures
        r@ == audit_checklist_items(),
{
    let r = vec![
        "✓ Verify all admin functions use proper multi-sig authentication",
        "✓ Confirm reentrancy guards are properly implemented on all external calls",
        "✓ Check circuit breaker logic for price deviation and velocity limits",
        "✓ Validate overflow protection on all arithmetic operations",
        "✓ Ensure legal compliance checks are enforced where required",
        "✓ Verify token rescue functions cannot violate allocated funds",
        "✓ Check oracle authentication and price validation logic",
        "✓ Confirm settlement calculations are accurate and bounded",
        "✓ Validate state consistency across all operations",
        "✓ Ensure proper event emission for transparency",
        "✓ Check for proper error handling and revert conditions",
        "✓ Verify gas optimization does not compromise security",
        "✓ Confirm upgrade patterns maintain security invariants",
        "✓ Check for potential front-running or MEV vulnerabilities",
        "✓ Validate DoS resistance and resource limits",
        "✓ Verify every guarded function releases its reentrancy guard on every return path",
    ];
    assert(r@ =~= audit_checklist_items());
    r
}

/// The catalogue entry that the name `initialize` selects.
proof fn lemma_lookup_initialize()
    ensures
        requirement_spec("initialize"@) == Some(initialize_profile()),
{
    reveal_strlit("initialize");
}

/// The catalogue entry that the name `create_grant` selects.
proof fn lemma_lookup_create_grant()
    ensures
        requirement_spec("create_grant"@) == Some(create_grant_profile()),
{
    reveal_strlit("create_grant");
    reveal_strlit("initialize");
    assert("initialize"@.len() != "create_grant"@.len());
}

/// The catalogue entry that the name `withdraw` selects.
proof fn lemma_lookup_withdraw()
    ensures
        requirement_spec("withdraw"@) == Some(withdraw_profile()),
{
    reveal_strlit("withdraw");
    reveal_strlit("initialize");
    assert("initialize"@.len() != "withdraw"@.len());
    reveal_strlit("create_grant");
    assert("create_grant"@.len() != "withdraw"@.len());
}

/// The catalogue entry that the name `cancel_grant` selects.
proof fn lemma_lookup_cancel_grant()
    ensures
        requirement_spec("cancel_grant"@) == Some(cancel_grant_profile()),
{
    reveal_strlit("cancel_grant");
    reveal_strlit("initialize");
    assert("initialize"@.len() != "cancel_grant"@.len());
    reveal_strlit("create_grant");
    assert("create_grant"@[1] != "cancel_grant"@[1]);
    reveal_strlit("withdraw");
    assert("withdraw"@.len() != "cancel_grant"@.len());
}

/// The catalogue entry that the name `pause_stream` selects.
proof fn lemma_lookup_pause_stream()
    ensures
        requirement_spec("pause_stream"@) == Some(pause_stream_profile()),
{
    reveal_strlit("pause_stream");
    reveal_strlit("initialize");
    assert("initialize"@.len() != "pause_stream"@.len());
    reveal_strlit("create_grant");
    assert("create_grant"@[0] != "pause_stream"@[0]);
    reveal_strlit("withdraw");
    assert("withdraw"@.len() != "pause_stream"@.len());
    reveal_strlit("cancel_grant");
    assert("cancel_grant"@[0] != "pause_stream"@[0]);
    reveal_strlit("apply_kpi_multiplier");
    assert("apply_kpi_multiplier"@.len() != "pause_stream"@.len());
}

/// The catalogue entry that the name `resume_stream` selects.
proof fn lemma_lookup_resume_stream()
    ensures
        requirement_spec("resume_stream"@) == Some(resume_stream_profile()),
{
    reveal_strlit("resume_stream");
    reveal_strlit("initialize");
    assert("initialize"@.len() != "resume_stream"@.len());
    reveal_strlit("create_grant");
    assert("create_grant"@.len() != "resume_stream"@.len());
    reveal_strlit("withdraw");
    assert("withdraw"@.len() != "resume_stream"@.len());
    reveal_strlit("cancel_grant");
    assert("cancel_grant"@.len() != "resume_stream"@.len());
    reveal_strlit("apply_kpi_multiplier");
    assert("apply_kpi_multiplier"@.len() != "resume_stream"@.len());
    reveal_strlit("pause_stream");
    assert("pause_stream"@.len() != "resume_stream"@.len());
}

/// The catalogue entry that the name `rage_quit` selects.
proof fn lemma_lookup_rage_quit()
    ensures
        requirement_spec("rage_quit"@) == Some(rage_quit_profile()),
{
    reveal_strlit("rage_quit");
    reveal_strlit("initialize");
    assert("initialize"@.len() != "rage_quit"@.len());
    reveal_strlit("create_grant");
    assert("create_grant"@.len() != "rage_quit"@.len());
    reveal_strlit("withdraw");
    assert("withdraw"@.len() != "rage_quit"@.len());
    reveal_strlit("cancel_grant");
    assert("cancel_grant"@.len() != "rage_quit"@.len());
    reveal_strlit("apply_kpi_multiplier");
    assert("apply_kpi_multiplier"@.len() != "rage_quit"@.len());
    reveal_strlit("pause_stream");
    assert("pause_stream"@.len() != "rage_quit"@.len());
    reveal_strlit("resume_stream");
    assert("resume_stream"@.len() != "rage_quit"@.len());
}

/// The catalogue entry that the name `rescue_tokens` selects.
proof fn lemma_lookup_rescue_tokens()
    ensures
        requirement_spec("rescue_tokens"@) == Some(rescue_tokens_profile()),
{
    reveal_strlit("rescue_tokens");
    reveal_strlit("initialize");
    assert("initialize"@.len() != "rescue_tokens"@.len());
    reveal_strlit("create_grant");
    assert("create_grant"@.len() != "rescue_tokens"@.len());
    reveal_strlit("withdraw");
    assert("withdraw"@.len() != "rescue_tokens"@.len());
    reveal_strlit("cancel_grant");
    assert("cancel_grant"@.len() != "rescue_tokens"@.len());
    reveal_strlit("apply_kpi_multiplier");
    assert("apply_kpi_multiplier"@.len() != "rescue_tokens"@.len());
    reveal_strlit("pause_stream");
    assert("pause_stream"@.len() != "rescue_tokens"@.len());
    reveal_strlit("resume_stream");
    assert("resume_stream"@[3] != "rescue_tokens"@[3]);
    reveal_strlit("rage_quit");
    assert("rage_quit"@.len() != "rescue_tokens"@.len());
}

/// The catalogue entry that the name `set_sanity_oracle` selects.
proof fn lemma_lookup_set_sanity_oracle()
    ensures
        requirement_spec("set_sanity_oracle"@) == Some(set_sanity_oracle_profile()),
{
    reveal_strlit("set_sanity_oracle");
    reveal_strlit("initialize");
    assert("initialize"@.len() != "set_sanity_oracle"@.len());
    reveal_strlit("create_grant");
    assert("create_grant"@.len() != "set_sanity_oracle"@.len());
    reveal_strlit("withdraw");
    assert("withdraw"@.len() != "set_sanity_oracle"@.len());
    reveal_strlit("cancel_grant");
    assert("cancel_grant"@.len() != "set_sanity_oracle"@.len());
    reveal_strlit("apply_kpi_multiplier");
    assert("apply_kpi_multiplier"@.len() != "set_sanity_oracle"@.len());
    reveal_strlit("pause_stream");
    assert("pause_stream"@.len() != "set_sanity_oracle"@.len());
    reveal_strlit("resume_stream");
    assert("resume_stream"@.len() != "set_sanity_oracle"@.len());
    reveal_strlit("rage_quit");
    assert("rage_quit"@.len() != "set_sanity_oracle"@.len());
    reveal_strlit("rescue_tokens");
    assert("rescue_tokens"@.len() != "set_sanity_oracle"@.len());
}

/// The catalogue entry that the name `confirm_oracle_price` selects.
proof fn lemma_lookup_confirm_oracle_price()
    ensures
        requirement_spec("confirm_oracle_price"@) == Some(confirm_oracle_price_profile()),
{
    reveal_strlit("confirm_oracle_price");
    reveal_strlit("initialize");
    assert("initialize"@.len() != "confirm_oracle_price"@.len());
    reveal_strlit("create_grant");
    assert("create_grant"@.len() != "confirm_oracle_price"@.len());
    reveal_strlit("withdraw");
    assert("withdraw"@.len() != "confirm_oracle_price"@.len());
    reveal_strlit("cancel_grant");
    assert("cancel_grant"@.len() != "confirm_oracle_price"@.len());
    reveal_strlit("apply_kpi_multiplier");
    assert("apply_kpi_multiplier"@[0] != "confirm_oracle_price"@[0]);
    reveal_strlit("pause_stream");
    assert("pause_stream"@.len() != "confirm_oracle_price"@.len());
    reveal_strlit("resume_stream");
    assert("resume_stream"@.len() != "confirm_oracle_price"@.len());
    reveal_strlit("rage_quit");
    assert("rage_quit"@.len() != "confirm_oracle_price"@.len());
    reveal_strlit("rescue_tokens");
    assert("rescue_tokens"@.len() != "confirm_oracle_price"@.len());
    reveal_strlit("set_sanity_oracle");
    assert("set_sanity_oracle"@.len() != "confirm_oracle_price"@.len());
    reveal_strlit("submit_oracle_price");
    assert("submit_oracle_price"@.len() != "confirm_oracle_price"@.len());
}

/// The catalogue entry that the name `update_tvl_snapshot` selects.
proof fn lemma_lookup_update_tvl_snapshot()
    ensures
        requirement_spec("update_tvl_snapshot"@) == Some(update_tvl_snapshot_profile()),
{
    reveal_strlit("update_tvl_snapshot");
    reveal_strlit("initialize");
    assert("initialize"@.len() != "update_tvl_snapshot"@.len());
    reveal_strlit("create_grant");
    assert("create_grant"@.len() != "update_tvl_snapshot"@.len());
    reveal_strlit("withdraw");
    assert("withdraw"@.len() != "update_tvl_snapshot"@.len());
    reveal_strlit("cancel_grant");
    assert("cancel_grant"@.len() != "update_tvl_snapshot"@.len());
    reveal_strlit("apply_kpi_multiplier");
    assert("apply_kpi_multiplier"@.len() != "update_tvl_snapshot"@.len());
    reveal_strlit("pause_stream");
    assert("pause_stream"@.len() != "update_tvl_snapshot"@.len());
    reveal_strlit("resume_stream");
    assert("resume_stream"@.len() != "update_tvl_snapshot"@.len());
    reveal_strlit("rage_quit");
    assert("rage_quit"@.len() != "update_tvl_snapshot"@.len());
    reveal_strlit("rescue_tokens");
    assert("rescue_tokens"@.len() != "update_tvl_snapshot"@.len());
    reveal_strlit("set_sanity_oracle");
    assert("set_sanity_oracle"@.len() != "update_tvl_snapshot"@.len());
    reveal_strlit("submit_oracle_price");
    assert("submit_oracle_price"@[0] != "update_tvl_snapshot"@[0]);
    reveal_strlit("confirm_oracle_price");
    assert("confirm_oracle_price"@.len() != "update_tvl_snapshot"@.len());
}

/// The catalogue entry that the name `resume_after_velocity_check` selects.
proof fn lemma_lookup_resume_after_velocity_check()
    ensures
        requirement_spec("resume_after_velocity_check"@) == Some(resume_after_velocity_check_profile()),
{
    reveal_strlit("resume_after_velocity_check");
    reveal_strlit("initialize");
    assert("initialize"@.len() != "resume_after_velocity_check"@.len());
    reveal_strlit("create_grant");
    assert("create_grant"@.len() != "resume_after_velocity_check"@.len());
    reveal_strlit("withdraw");
    assert("withdraw"@.len() != "resume_after_velocity_check"@.len());
    reveal_strlit("cancel_grant");
    assert("cancel_grant"@.len() != "resume_after_velocity_check"@.len());
    reveal_strlit("apply_kpi_multiplier");
    assert("apply_kpi_multiplier"@.len() != "resume_after_velocity_check"@.len());
    reveal_strlit("pause_stream");
    assert("pause_stream"@.len() != "resume_after_velocity_check"@.len());
    reveal_strlit("resume_stream");
    assert("resume_stream"@.len() != "resume_after_velocity_check"@.len());
    reveal_strlit("rage_quit");
    assert("rage_quit"@.len() != "resume_after_velocity_check"@.len());
    reveal_strlit("rescue_tokens");
    assert("rescue_tokens"@.len() != "resume_after_velocity_check"@.len());
    reveal_strlit("set_sanity_oracle");
    assert("set_sanity_oracle"@.len() != "resume_after_velocity_check"@.len());
    reveal_strlit("submit_oracle_price");
    assert("submit_oracle_price"@.len() != "resume_after_velocity_check"@.len());
    reveal_strlit("confirm_oracle_price");
    assert("confirm_oracle_price"@.len() != "resume_after_velocity_check"@.len());
    reveal_strlit("update_tvl_snapshot");
    assert("update_tvl_snapshot"@.len() != "resume_after_velocity_check"@.len());
}

/// Every function listed as critical is catalogued with the `Critical` level.
pub proof fn lemma_critical_functions_are_critical()
    ensures
        forall|i: int|
            0 <= i < critical_function_names().len() ==> {
                &&& requirement_spec(#[trigger] critical_function_names()[i]@) is Some
                &&& requirement_spec(critical_function_names()[i]@).unwrap().0 == SecurityLevel::Critical
            },
{
    assert(critical_function_names()[0] == "initialize");
    lemma_lookup_initialize();
    assert(critical_function_names()[1] == "create_grant");
    lemma_lookup_create_grant();
    assert(critical_function_names()[2] == "rescue_tokens");
    lemma_lookup_rescue_tokens();
    assert(critical_function_names()[3] == "set_sanity_oracle");
    lemma_lookup_set_sanity_oracle();
    assert(critical_function_names()[4] == "confirm_oracle_price");
    lemma_lookup_confirm_oracle_price();
    assert(critical_function_names()[5] == "resume_after_velocity_check");
    lemma_lookup_resume_after_velocity_check();
}

/// Every function listed as needing admin authentication is catalogued with
/// `Admin` or `AdminMultiSig` authentication.
pub proof fn lemma_admin_functions_need_admin_auth()
    ensures
        forall|i: int|
            0 <= i < admin_function_names().len() ==> {
                &&& requirement_spec(#[trigger] admin_function_names()[i]@) is Some
                &&& (requirement_spec(admin_function_names()[i]@).unwrap().1 == AuthType::Admin
                    || requirement_spec(admin_function_names()[i]@).unwrap().1 == AuthType::AdminMultiSig)
            },
{
    assert(admin_function_names()[0] == "initialize");
    lemma_lookup_initialize();
    assert(admin_function_names()[1] == "create_grant");
    lemma_lookup_create_grant();
    assert(admin_function_names()[2] == "cancel_grant");
    lemma_lookup_cancel_grant();
    assert(admin_function_names()[3] == "pause_stream");
    lemma_lookup_pause_stream();
    assert(admin_function_names()[4] == "resume_stream");
    lemma_lookup_resume_stream();
    assert(admin_function_names()[5] == "rescue_tokens");
    lemma_lookup_rescue_tokens();
    assert(admin_function_names()[6] == "set_sanity_oracle");
    lemma_lookup_set_sanity_oracle();
    assert(admin_function_names()[7] == "confirm_oracle_price");
    lemma_lookup_confirm_oracle_price();
    assert(admin_function_names()[8] == "update_tvl_snapshot");
    lemma_lookup_update_tvl_snapshot();
    assert(admin_function_names()[9] == "resume_after_velocity_check");
    lemma_lookup_resume_after_velocity_check();
}

/// The admin list names each function once.
pub proof fn lemma_admin_list_distinct()
    ensures
        forall|i: int, j: int| 0 <= i < j < admin_function_names().len()
            ==> #[trigger] admin_function_names()[i]@ != #[trigger] admin_function_names()[j]@,
{
    reveal_strlit("initialize");
    reveal_strlit("create_grant");
    reveal_strlit("cancel_grant");
    reveal_strlit("pause_stream");
    reveal_strlit("resume_stream");
    reveal_strlit("rescue_tokens");
    reveal_strlit("set_sanity_oracle");
    reveal_strlit("confirm_oracle_price");
    reveal_strlit("update_tvl_snapshot");
    reveal_strlit("resume_after_velocity_check");
    assert forall|i: int, j: int| 0 <= i < j < admin_function_names().len()
        implies #[trigger] admin_function_names()[i]@ != #[trigger] admin_function_names()[j]@ by {
        let a = admin_function_names()[i]@;
        let b = admin_function_names()[j]@;
        if a.len() == b.len() {
            assert(a[0] != b[0] || a[1] != b[1] || a[2] != b[2] || a[3] != b[3] || a[7] != b[7]);
        }
    }
}

/// The admin list is complete: every catalogued function whose requirement
/// is `Admin` or `AdminMultiSig` authentication is on it.
pub proof fn lemma_admin_list_complete(name: Seq<char>)
    requires
        requirement_spec(name) is Some,
        requirement_spec(name).unwrap().1 == AuthType::Admin || requirement_spec(name).unwrap().1 == AuthType::AdminMultiSig,
    ensures
        exists|i: int| 0 <= i < admin_function_names().len() && #[trigger] admin_function_names()[i]@ == name,
{
    if name == "initialize"@ {
        assert(admin_function_names()[0]@ == name);
    } else if name == "create_grant"@ {
        assert(admin_function_names()[1]@ == name);
    } else if name == "cancel_grant"@ {
        assert(admin_function_names()[2]@ == name);
    } else if name == "pause_stream"@ {
        assert(admin_function_names()[3]@ == name);
    } else if name == "resume_stream"@ {
        assert(admin_function_names()[4]@ == name);
    } else if name == "rescue_tokens"@ {
        assert(admin_function_names()[5]@ == name);
    } else if name == "set_sanity_oracle"@ {
        assert(admin_function_names()[6]@ == name);
    } else if name == "confirm_oracle_price"@ {
        assert(admin_function_names()[7]@ == name);
    } else if name == "update_tvl_snapshot"@ {
        assert(admin_function_names()[8]@ == name);
    } else if name == "resume_after_velocity_check"@ {
        assert(admin_function_names()[9]@ == name);
    }
}

/// Every function listed as reentrancy protected carries the reentrancy guard
/// among its controls.
pub proof fn lemma_reentrancy_protected_functions_are_guarded()
    ensures
        forall|i: int|
            0 <= i < reentrancy_protected_names().len() ==> {
                &&& requirement_spec(#[trigger] reentrancy_protected_names()[i]@) is Some
                &&& requirement_spec(reentrancy_protected_names()[i]@).unwrap().2.contains(SecurityControl::ReentrancyGuard)
            },
{
    assert(reentrancy_protected_names()[0] == "withdraw");
    lemma_lookup_withdraw();
    assert(reentrancy_protected_names()[1] == "rage_quit");
    lemma_lookup_rage_quit();
    assert(withdraw_profile().2[0] == SecurityControl::ReentrancyGuard);
    assert(rage_quit_profile().2[0] == SecurityControl::ReentrancyGuard);
}

} // verus!
