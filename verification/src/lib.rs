//! StableRoute router: the typed error taxonomy, the pair storage namespace,
//! and the router's identity entrypoints, each with a verified contract.
use soroban_sdk::Symbol;
use vstd::prelude::*;

pub mod error_taxonomy;
pub mod pool_storage;

verus! {

/// Lets `soroban_sdk::Symbol` (an asset ticker such as `USDC`) stand in
/// signatures and fields. Its contents are opaque here: the library only
/// carries symbols from its inputs to its outputs.
#[verifier::external_type_specification]
#[verifier::external_body]
pub struct ExSymbol(soroban_sdk::Symbol);

/// `soroban_sdk::Symbol`'s derived `Clone`: it copies the symbol's value and
/// its environment handle, so the copy is the same symbol as the original.
pub assume_specification[ <soroban_sdk::Symbol as Clone>::clone ](symbol: &soroban_sdk::Symbol) -> (copy: soroban_sdk::Symbol)
    ensures
        copy == *symbol,
;

/// The router's append-only negative-path ABI. Each variant has a fixed
/// numeric wire code, given by `error_code`; codes are never reused.
#[derive(Clone, Copy, Debug, PartialEq, Eq, Structural)]
pub enum RouterError {
    /// An admin is already stored.
    AlreadyInitialized,
    /// The admin slot is absent.
    NotInitialized,
    /// A pair was registered with `source == destination`.
    SourceEqualsDestination,
    /// A fee above the maximum basis points.
    FeeBpsTooHigh,
    /// An unregistered pair was used.
    PairNotRegistered,
    /// A non-positive amount.
    AmountMustBePositive,
    /// No pending admin to accept.
    NoPendingAdminTransfer,
    /// The caller does not match the pending admin.
    NotPendingAdmin,
    /// A state-changing call while paused.
    ContractPaused,
    /// An amount below the pair minimum.
    AmountBelowMin,
    /// An amount above the pair maximum.
    AmountAboveMax,
    /// An amount above the reported liquidity.
    InsufficientLiquidity,
    /// Migration from a schema other than v1.
    MigrationVersionMismatch,
    /// Admin handover before the timelock expired.
    TimelockNotElapsed,
    /// A re-entrant call.
    ReentrantCall,
    /// The caller is neither admin nor oracle.
    NotAuthorized,
    /// The per-pair cooldown has not elapsed.
    RouteCooldownActive,
    /// A batch above the maximum size.
    BatchTooLarge,
    /// A batch with zero entries.
    EmptyBatch,
    /// A cooldown above the maximum.
    CooldownTooLarge,
    /// A zero absolute fee cap.
    ZeroFeeCap,
    /// An admin address that cannot take the role.
    InvalidAdminAddress,
    /// A parameter outside its documented range.
    InvalidParameterRange,
}

/// The wire code of each error: append-only, starting at 1.
pub open spec fn error_code(error: RouterError) -> u32 {
    match error {
        RouterError::AlreadyInitialized => 1,
        RouterError::NotInitialized => 2,
        RouterError::SourceEqualsDestination => 3,
        RouterError::FeeBpsTooHigh => 4,
        RouterError::PairNotRegistered => 5,
        RouterError::AmountMustBePositive => 6,
        RouterError::NoPendingAdminTransfer => 7,
        RouterError::NotPendingAdmin => 8,
        RouterError::ContractPaused => 9,
        RouterError::AmountBelowMin => 10,
        RouterError::AmountAboveMax => 11,
        RouterError::InsufficientLiquidity => 12,
        RouterError::MigrationVersionMismatch => 13,
        RouterError::TimelockNotElapsed => 14,
        RouterError::ReentrantCall => 15,
        RouterError::NotAuthorized => 16,
        RouterError::RouteCooldownActive => 17,
        RouterError::BatchTooLarge => 18,
        RouterError::EmptyBatch => 19,
        RouterError::CooldownTooLarge => 20,
        RouterError::ZeroFeeCap => 21,
        RouterError::InvalidAdminAddress => 22,
        RouterError::InvalidParameterRange => 23,
    }
}

impl RouterError {
    /// The error's numeric wire code.
    pub fn code(self) -> (code: u32)
        ensures
            code == error_code(self),
    {
        match self {
            RouterError::AlreadyInitialized => 1,
            RouterError::NotInitialized => 2,
            RouterError::SourceEqualsDestination => 3,
            RouterError::FeeBpsTooHigh => 4,
            RouterError::PairNotRegistered => 5,
            RouterError::AmountMustBePositive => 6,
            RouterError::NoPendingAdminTransfer => 7,
            RouterError::NotPendingAdmin => 8,
            RouterError::ContractPaused => 9,
            RouterError::AmountBelowMin => 10,
            RouterError::AmountAboveMax => 11,
            RouterError::InsufficientLiquidity => 12,
            RouterError::MigrationVersionMismatch => 13,
            RouterError::TimelockNotElapsed => 14,
            RouterError::ReentrantCall => 15,
            RouterError::NotAuthorized => 16,
            RouterError::RouteCooldownActive => 17,
            RouterError::BatchTooLarge => 18,
            RouterError::EmptyBatch => 19,
            RouterError::CooldownTooLarge => 20,
            RouterError::ZeroFeeCap => 21,
            RouterError::InvalidAdminAddress => 22,
            RouterError::InvalidParameterRange => 23,
        }
    }
}

/// The router's storage keys. Global singletons first, then the per-pair
/// slots keyed by the ordered `(source, destination)` pair.
#[derive(Clone, Debug, PartialEq, Eq)]
pub enum DataKey {
    Admin,
    PendingAdmin,
    PendingAdminEta,
    Timelock,
    Paused,
    FeeRecipient,
    MaxFeeAbsolute,
    MinFeeAbsolute,
    Oracle,
    TotalRoutesAllTime,
    SchemaVersion,
    ReentrancyLock,
    Pair(Symbol, Symbol),
    PairFeeBps(Symbol, Symbol),
    PairMinAmount(Symbol, Symbol),
    PairMaxAmount(Symbol, Symbol),
    PairLiquidity(Symbol, Symbol),
    PairLastRouteAt(Symbol, Symbol),
    PairRouteCount(Symbol, Symbol),
    PairVolume(Symbol, Symbol),
    PairCooldown(Symbol, Symbol),
}

/// StableRoute router contract: routing metadata and route integrity.
pub struct StableRouteRouter;

impl StableRouteRouter {
    /// The router contract's fixed identity tag.
    pub fn version() -> (tag: &'static str)
        ensures
            tag@ == "ROUTER_V1"@,
    {
        "ROUTER_V1"
    }

    /// The route tag of a `(source, destination)` leg: the ordered pair
    /// itself, so the two directions of a pair carry different tags.
    pub fn route_tag(source: Symbol, destination: Symbol) -> (tag: (Symbol, Symbol))
        ensures
            tag == (source, destination),
    {
        (source, destination)
    }
}

} // verus!
