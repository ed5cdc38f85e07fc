//! Exhaustive, stable error metadata for pool operations.
//!
//! `RouterError` is the ABI enum. This module adds the metadata needed by
//! clients: a stable code, operation-independent category,
//! retry guidance, and whether the error can be resolved by configuration.
use crate::error_code;
use crate::RouterError;
use vstd::prelude::*;

verus! {

/// Broad class used by SDKs for consistent negative-path handling.
#[derive(Clone, Copy, Debug, PartialEq, Eq, Structural)]
pub enum ErrorClass {
    /// Caller input cannot satisfy the contract's preconditions.
    Input,
    /// Caller lacks the required role or signature.
    Authorization,
    /// Pair or contract state does not permit this operation.
    State,
    /// Amount, rate, or batch limit was exceeded.
    Limit,
    /// Governance or deployment lifecycle failure.
    Governance,
    /// Safety guard such as pause, reentrancy, or liquidity protection.
    Safety,
}

/// Stable symbolic name for a catalog entry.
#[derive(Clone, Copy, Debug, PartialEq, Eq, Structural)]
pub enum ErrorName {
    AlreadyInitialized,
    NotInitialized,
    SourceEqualsDestination,
    FeeBpsTooHigh,
    PairNotRegistered,
    AmountMustBePositive,
    NoPendingAdminTransfer,
    NotPendingAdmin,
    ContractPaused,
    AmountBelowMin,
    AmountAboveMax,
    InsufficientLiquidity,
    MigrationVersionMismatch,
    TimelockNotElapsed,
    ReentrantCall,
    NotAuthorized,
    RouteCooldownActive,
    BatchTooLarge,
    EmptyBatch,
    CooldownTooLarge,
    ZeroFeeCap,
    InvalidAdminAddress,
    InvalidParameterRange,
}

/// Metadata exposed by the read-only error catalog.
#[derive(Clone, Copy, Debug, PartialEq, Eq, Structural)]
pub struct ErrorDescriptor {
    /// Append-only numeric code from `RouterError`.
    pub code: u32,
    /// Stable machine-readable symbolic name.
    pub name: ErrorName,
    /// Handling category.
    pub class: ErrorClass,
    /// Whether retrying the same request can succeed without changing input.
    pub retryable: bool,
    /// Whether an administrator can normally resolve it by changing config.
    pub configuration_fix: bool,
}

/// Operations that have a typed failure contract at the pool boundary.
#[derive(Clone, Copy, Debug, PartialEq, Eq, Structural)]
pub enum PoolOperation {
    Register,
    ConfigureFee,
    ConfigureBounds,
    ConfigureLiquidity,
    ConfigureCooldown,
    Quote,
    Compute,
    Governance,
    Migration,
    Batch,
}

/// The documented catalog row of each error: name, class, retryability and
/// whether configuration can fix it, next to its wire code.
pub open spec fn error_descriptor(error: RouterError) -> ErrorDescriptor {
    let (name, class, retryable, configuration_fix) = match error {
        RouterError::AlreadyInitialized => (ErrorName::AlreadyInitialized, ErrorClass::Governance, false, false),
        RouterError::NotInitialized => (ErrorName::NotInitialized, ErrorClass::Governance, false, true),
        RouterError::SourceEqualsDestination => (ErrorName::SourceEqualsDestination, ErrorClass::Input, false, false),
        RouterError::FeeBpsTooHigh => (ErrorName::FeeBpsTooHigh, ErrorClass::Limit, false, true),
        RouterError::PairNotRegistered => (ErrorName::PairNotRegistered, ErrorClass::State, false, true),
        RouterError::AmountMustBePositive => (ErrorName::AmountMustBePositive, ErrorClass::Input, false, false),
        RouterError::NoPendingAdminTransfer => (ErrorName::NoPendingAdminTransfer, ErrorClass::Governance, false, true),
        RouterError::NotPendingAdmin => (ErrorName::NotPendingAdmin, ErrorClass::Authorization, false, false),
        RouterError::ContractPaused => (ErrorName::ContractPaused, ErrorClass::Safety, true, true),
        RouterError::AmountBelowMin => (ErrorName::AmountBelowMin, ErrorClass::Limit, false, true),
        RouterError::AmountAboveMax => (ErrorName::AmountAboveMax, ErrorClass::Limit, false, true),
        RouterError::InsufficientLiquidity => (ErrorName::InsufficientLiquidity, ErrorClass::Safety, true, true),
        RouterError::MigrationVersionMismatch => (ErrorName::MigrationVersionMismatch, ErrorClass::Governance, false, true),
        RouterError::TimelockNotElapsed => (ErrorName::TimelockNotElapsed, ErrorClass::Governance, true, false),
        RouterError::ReentrantCall => (ErrorName::ReentrantCall, ErrorClass::Safety, true, false),
        RouterError::NotAuthorized => (ErrorName::NotAuthorized, ErrorClass::Authorization, false, true),
        RouterError::RouteCooldownActive => (ErrorName::RouteCooldownActive, ErrorClass::Safety, true, true),
        RouterError::BatchTooLarge => (ErrorName::BatchTooLarge, ErrorClass::Limit, false, true),
        RouterError::EmptyBatch => (ErrorName::EmptyBatch, ErrorClass::Input, false, false),
        RouterError::CooldownTooLarge => (ErrorName::CooldownTooLarge, ErrorClass::Limit, false, true),
        RouterError::ZeroFeeCap => (ErrorName::ZeroFeeCap, ErrorClass::Input, false, true),
        RouterError::InvalidAdminAddress => (ErrorName::InvalidAdminAddress, ErrorClass::Governance, false, false),
        RouterError::InvalidParameterRange => (ErrorName::InvalidParameterRange, ErrorClass::Input, false, true),
    };
    ErrorDescriptor { code: error_code(error), name, class, retryable, configuration_fix }
}

/// The operation family that each error protects.
pub open spec fn operation_family(error: RouterError) -> PoolOperation {
    match error {
        RouterError::AlreadyInitialized
        | RouterError::NotInitialized
        | RouterError::NoPendingAdminTransfer
        | RouterError::NotPendingAdmin
        | RouterError::TimelockNotElapsed
        | RouterError::InvalidAdminAddress => PoolOperation::Governance,
        RouterError::SourceEqualsDestination | RouterError::PairNotRegistered => PoolOperation::Register,
        RouterError::FeeBpsTooHigh | RouterError::ZeroFeeCap => PoolOperation::ConfigureFee,
        RouterError::AmountMustBePositive
        | RouterError::AmountBelowMin
        | RouterError::AmountAboveMax
        | RouterError::InvalidParameterRange => PoolOperation::ConfigureBounds,
        RouterError::InsufficientLiquidity
        | RouterError::ContractPaused
        | RouterError::ReentrantCall
        | RouterError::RouteCooldownActive => PoolOperation::Compute,
        RouterError::MigrationVersionMismatch => PoolOperation::Migration,
        RouterError::NotAuthorized => PoolOperation::ConfigureLiquidity,
        RouterError::BatchTooLarge | RouterError::EmptyBatch => PoolOperation::Batch,
        RouterError::CooldownTooLarge => PoolOperation::ConfigureCooldown,
    }
}

/// Every error, in wire (numeric code) order.
pub open spec fn wire_order() -> Seq<RouterError> {
    seq![
        RouterError::AlreadyInitialized,
        RouterError::NotInitialized,
        RouterError::SourceEqualsDestination,
        RouterError::FeeBpsTooHigh,
        RouterError::PairNotRegistered,
        RouterError::AmountMustBePositive,
        RouterError::NoPendingAdminTransfer,
        RouterError::NotPendingAdmin,
        RouterError::ContractPaused,
        RouterError::AmountBelowMin,
        RouterError::AmountAboveMax,
        RouterError::InsufficientLiquidity,
        RouterError::MigrationVersionMismatch,
        RouterError::TimelockNotElapsed,
        RouterError::ReentrantCall,
        RouterError::NotAuthorized,
        RouterError::RouteCooldownActive,
        RouterError::BatchTooLarge,
        RouterError::EmptyBatch,
        RouterError::CooldownTooLarge,
        RouterError::ZeroFeeCap,
        RouterError::InvalidAdminAddress,
        RouterError::InvalidParameterRange,
    ]
}

/// Whether an error belongs to one operation family.
pub open spec fn in_operation(operation: PoolOperation) -> spec_fn(RouterError) -> bool {
    |error: RouterError| operation_family(error) == operation
}

/// Whether an error belongs to one class.
pub open spec fn in_class(class: ErrorClass) -> spec_fn(RouterError) -> bool {
    |error: RouterError| error_descriptor(error).class == class
}

/// The descriptors of a sequence of errors, in the same order.
pub open spec fn descriptors_of(errors: Seq<RouterError>) -> Seq<ErrorDescriptor> {
    errors.map_values(|error: RouterError| error_descriptor(error))
}

/// The catalog entries of one operation family, in wire order.
pub open spec fn operation_catalog(operation: PoolOperation) -> Seq<ErrorDescriptor> {
    descriptors_of(wire_order().filter(in_operation(operation)))
}

/// The number of errors in one class.
pub open spec fn class_total(class: ErrorClass) -> nat {
    wire_order().filter(in_class(class)).len()
}

/// Map a stable error to the operation family it protects.
pub fn operation_for(error: RouterError) -> (operation: PoolOperation)
    ensures
        operation == operation_family(error),
{
    match error {
        RouterError::AlreadyInitialized
        | RouterError::NotInitialized
        | RouterError::NoPendingAdminTransfer
        | RouterError::NotPendingAdmin
        | RouterError::TimelockNotElapsed
        | RouterError::InvalidAdminAddress => PoolOperation::Governance,
        RouterError::SourceEqualsDestination | RouterError::PairNotRegistered => {
            PoolOperation::Register
        },
        RouterError::FeeBpsTooHigh | RouterError::ZeroFeeCap => PoolOperation::ConfigureFee,
        RouterError::AmountMustBePositive
        | RouterError::AmountBelowMin
        | RouterError::AmountAboveMax
        | RouterError::InvalidParameterRange => PoolOperation::ConfigureBounds,
        RouterError::InsufficientLiquidity => PoolOperation::Compute,
        RouterError::MigrationVersionMismatch => PoolOperation::Migration,
        RouterError::ContractPaused | RouterError::ReentrantCall => PoolOperation::Compute,
        RouterError::NotAuthorized => PoolOperation::ConfigureLiquidity,
        RouterError::RouteCooldownActive => PoolOperation::Compute,
        RouterError::BatchTooLarge | RouterError::EmptyBatch => PoolOperation::Batch,
        RouterError::CooldownTooLarge => PoolOperation::ConfigureCooldown,
    }
}

/// Return the complete append-only error list in numeric order.
pub fn all_errors() -> (errors: [RouterError; 23])
    ensures
        errors@ == wire_order(),
{
    let errors = [
        RouterError::AlreadyInitialized,
        RouterError::NotInitialized,
        RouterError::SourceEqualsDestination,
        RouterError::FeeBpsTooHigh,
        RouterError::PairNotRegistered,
        RouterError::AmountMustBePositive,
        RouterError::NoPendingAdminTransfer,
        RouterError::NotPendingAdmin,
        RouterError::ContractPaused,
        RouterError::AmountBelowMin,
        RouterError::AmountAboveMax,
        RouterError::InsufficientLiquidity,
        RouterError::MigrationVersionMismatch,
        RouterError::TimelockNotElapsed,
        RouterError::ReentrantCall,
        RouterError::NotAuthorized,
        RouterError::RouteCooldownActive,
        RouterError::BatchTooLarge,
        RouterError::EmptyBatch,
        RouterError::CooldownTooLarge,
        RouterError::ZeroFeeCap,
        RouterError::InvalidAdminAddress,
        RouterError::InvalidParameterRange,
    ];
    assert(errors@ =~= wire_order());
    errors
}

/// Return the exact stable descriptor for a router error.
pub fn descriptor(error: RouterError) -> (details: ErrorDescriptor)
    ensures
        details == error_descriptor(error),
{
    let (name, class, retryable, configuration_fix) = match error {
        RouterError::AlreadyInitialized => (ErrorName::AlreadyInitialized, ErrorClass::Governance, false, false),
        RouterError::NotInitialized => (ErrorName::NotInitialized, ErrorClass::Governance, false, true),
        RouterError::SourceEqualsDestination => (ErrorName::SourceEqualsDestination, ErrorClass::Input, false, false),
        RouterError::FeeBpsTooHigh => (ErrorName::FeeBpsTooHigh, ErrorClass::Limit, false, true),
        RouterError::PairNotRegistered => (ErrorName::PairNotRegistered, ErrorClass::State, false, true),
        RouterError::AmountMustBePositive => (ErrorName::AmountMustBePositive, ErrorClass::Input, false, false),
        RouterError::NoPendingAdminTransfer => (ErrorName::NoPendingAdminTransfer, ErrorClass::Governance, false, true),
        RouterError::NotPendingAdmin => (ErrorName::NotPendingAdmin, ErrorClass::Authorization, false, false),
        RouterError::ContractPaused => (ErrorName::ContractPaused, ErrorClass::Safety, true, true),
        RouterError::AmountBelowMin => (ErrorName::AmountBelowMin, ErrorClass::Limit, false, true),
        RouterError::AmountAboveMax => (ErrorName::AmountAboveMax, ErrorClass::Limit, false, true),
        RouterError::InsufficientLiquidity => (ErrorName::InsufficientLiquidity, ErrorClass::Safety, true, true),
        RouterError::MigrationVersionMismatch => (ErrorName::MigrationVersionMismatch, ErrorClass::Governance, false, true),
        RouterError::TimelockNotElapsed => (ErrorName::TimelockNotElapsed, ErrorClass::Governance, true, false),
        RouterError::ReentrantCall => (ErrorName::ReentrantCall, ErrorClass::Safety, true, false),
        RouterError::NotAuthorized => (ErrorName::NotAuthorized, ErrorClass::Authorization, false, true),
        RouterError::RouteCooldownActive => (ErrorName::RouteCooldownActive, ErrorClass::Safety, true, true),
        RouterError::BatchTooLarge => (ErrorName::BatchTooLarge, ErrorClass::Limit, false, true),
        RouterError::EmptyBatch => (ErrorName::EmptyBatch, ErrorClass::Input, false, false),
        RouterError::CooldownTooLarge => (ErrorName::CooldownTooLarge, ErrorClass::Limit, false, true),
        RouterError::ZeroFeeCap => (ErrorName::ZeroFeeCap, ErrorClass::Input, false, true),
        RouterError::InvalidAdminAddress => (ErrorName::InvalidAdminAddress, ErrorClass::Governance, false, false),
        RouterError::InvalidParameterRange => (ErrorName::InvalidParameterRange, ErrorClass::Input, false, true),
    };
    ErrorDescriptor { code: error.code(), name, class, retryable, configuration_fix }
}

/// Look up an error by its wire code without exposing a generic failure:
/// codes 1 to 23 name exactly one error, every other code names none.
pub fn from_code(code: u32) -> (error: Option<RouterError>)
    ensures
        error is None <==> (code < 1 || code > 23),
        error matches Some(found) ==> error_code(found) == code,
{
    match code {
        1 => Some(RouterError::AlreadyInitialized),
        2 => Some(RouterError::NotInitialized),
        3 => Some(RouterError::SourceEqualsDestination),
        4 => Some(RouterError::FeeBpsTooHigh),
        5 => Some(RouterError::PairNotRegistered),
        6 => Some(RouterError::AmountMustBePositive),
        7 => Some(RouterError::NoPendingAdminTransfer),
        8 => Some(RouterError::NotPendingAdmin),
        9 => Some(RouterError::ContractPaused),
        10 => Some(RouterError::AmountBelowMin),
        11 => Some(RouterError::AmountAboveMax),
        12 => Some(RouterError::InsufficientLiquidity),
        13 => Some(RouterError::MigrationVersionMismatch),
        14 => Some(RouterError::TimelockNotElapsed),
        15 => Some(RouterError::ReentrantCall),
        16 => Some(RouterError::NotAuthorized),
        17 => Some(RouterError::RouteCooldownActive),
        18 => Some(RouterError::BatchTooLarge),
        19 => Some(RouterError::EmptyBatch),
        20 => Some(RouterError::CooldownTooLarge),
        21 => Some(RouterError::ZeroFeeCap),
        22 => Some(RouterError::InvalidAdminAddress),
        23 => Some(RouterError::InvalidParameterRange),
        _ => None,
    }
}

/// Return the retry recommendation without requiring clients to unpack metadata.
pub fn should_retry(error: RouterError) -> (retry: bool)
    ensures
        retry == error_descriptor(error).retryable,
{
    descriptor(error).retryable
}

/// Return whether an administrator action is a plausible remediation.
pub fn has_configuration_fix(error: RouterError) -> (fixable: bool)
    ensures
        fixable == error_descriptor(error).configuration_fix,
{
    descriptor(error).configuration_fix
}

/// Return the catalog, one descriptor per error in wire order.
pub fn catalog() -> (entries: Vec<ErrorDescriptor>)
    ensures
        entries@ == descriptors_of(wire_order()),
{
    let errors = all_errors();
    let mut result: Vec<ErrorDescriptor> = Vec::new();
    let mut index: usize = 0;
    while index < 23
        invariant
            errors@ == wire_order(),
            index <= 23,
            result@ == descriptors_of(wire_order().take(index as int)),
        decreases 23 - index,
    {
        let entry = descriptor(errors[index]);
        result.push(entry);
        assert(wire_order().take(index + 1) =~= wire_order().take(index as int).push(errors@[index as int]));
        assert(descriptors_of(wire_order().take(index + 1)) =~= descriptors_of(wire_order().take(index as int)).push(entry));
        index += 1;
    }
    assert(wire_order().take(23) =~= wire_order());
    result
}

/// Return only errors associated with one operation family, in wire order.
pub fn catalog_for_operation(operation: PoolOperation) -> (entries: Vec<ErrorDescriptor>)
    ensures
        entries@ == operation_catalog(operation),
{
    let errors = all_errors();
    let mut result: Vec<ErrorDescriptor> = Vec::new();
    let mut index: usize = 0;
    while index < 23
        invariant
            errors@ == wire_order(),
            index <= 23,
            result@ == descriptors_of(wire_order().take(index as int).filter(in_operation(operation))),
        decreases 23 - index,
    {
        let error = errors[index];
        proof {
            reveal(Seq::filter);
            assert(wire_order().take(index + 1).drop_last() =~= wire_order().take(index as int));
        }
        if operation_for(error) == operation {
            let entry = descriptor(error);
            result.push(entry);
            assert(descriptors_of(wire_order().take(index + 1).filter(in_operation(operation)))
                =~= descriptors_of(wire_order().take(index as int).filter(in_operation(operation))).push(entry));
        }
        index += 1;
    }
    assert(wire_order().take(23) =~= wire_order());
    result
}

/// Return the number of errors in one class.
pub fn class_count(class: ErrorClass) -> (count: u32)
    ensures
        count == class_total(class),
{
    let errors = all_errors();
    let mut count: u32 = 0;
    let mut index: usize = 0;
    while index < errors.len()
        invariant
            errors@ == wire_order(),
            index <= 23,
            count == wire_order().take(index as int).filter(in_class(class)).len(),
        decreases 23 - index,
    {
        proof {
            reveal(Seq::filter);
            assert(wire_order().take(index + 1).drop_last() =~= wire_order().take(index as int));
            wire_order().take(index as int).lemma_filter_len(in_class(class));
        }
        if descriptor(errors[index]).class == class {
            count += 1;
        }
        index += 1;
    }
    assert(wire_order().take(23) =~= wire_order());
    count
}

/// The total size of the ten operation families' shares of `errors`.
pub open spec fn operation_shares_total(errors: Seq<RouterError>) -> nat {
    errors.filter(in_operation(PoolOperation::Register)).len()
        + errors.filter(in_operation(PoolOperation::ConfigureFee)).len()
        + errors.filter(in_operation(PoolOperation::ConfigureBounds)).len()
        + errors.filter(in_operation(PoolOperation::ConfigureLiquidity)).len()
        + errors.filter(in_operation(PoolOperation::ConfigureCooldown)).len()
        + errors.filter(in_operation(PoolOperation::Quote)).len()
        + errors.filter(in_operation(PoolOperation::Compute)).len()
        + errors.filter(in_operation(PoolOperation::Governance)).len()
        + errors.filter(in_operation(PoolOperation::Migration)).len()
        + errors.filter(in_operation(PoolOperation::Batch)).len()
}

/// The total size of the six classes' shares of `errors`.
pub open spec fn class_shares_total(errors: Seq<RouterError>) -> nat {
    errors.filter(in_class(ErrorClass::Input)).len()
        + errors.filter(in_class(ErrorClass::Authorization)).len()
        + errors.filter(in_class(ErrorClass::State)).len()
        + errors.filter(in_class(ErrorClass::Limit)).len()
        + errors.filter(in_class(ErrorClass::Governance)).len()
        + errors.filter(in_class(ErrorClass::Safety)).len()
}

/// Every error falls in exactly one operation family, so the families'
/// shares of any error list add up to the list's length.
proof fn lemma_operation_shares_cover(errors: Seq<RouterError>)
    ensures
        operation_shares_total(errors) == errors.len(),
    decreases errors.len(),
{
    reveal(Seq::filter);
    if errors.len() > 0 {
        lemma_operation_shares_cover(errors.drop_last());
    }
}

/// Every error has exactly one class, so the classes' shares of any error
/// list add up to the list's length.
proof fn lemma_class_shares_cover(errors: Seq<RouterError>)
    ensures
        class_shares_total(errors) == errors.len(),
    decreases errors.len(),
{
    reveal(Seq::filter);
    if errors.len() > 0 {
        lemma_class_shares_cover(errors.drop_last());
    }
}

/// Codes are contiguous and append-only: the error at position `i` of the
/// wire order has code `i + 1`, and there are exactly 23 of them.
pub proof fn lemma_codes_are_contiguous()
    ensures
        wire_order().len() == 23,
        forall|i: int| 0 <= i < 23 ==> #[trigger] error_code(wire_order()[i]) == i + 1,
{
}

/// Every code round-trips: each error's code lies in `1..=23`, no two errors
/// share a code, and the error sits at position `code - 1` of the wire order.
pub proof fn lemma_code_identifies_error(error: RouterError, other: RouterError)
    ensures
        1 <= error_code(error) <= 23,
        error_code(error) == error_code(other) ==> error == other,
        wire_order()[error_code(error) - 1] == error,
        error_descriptor(error).code == error_code(error),
{
}

/// The operation catalogs are disjoint and together cover every error: a
/// descriptor is in the catalog of exactly the operation its error protects,
/// and the catalogs' sizes add up to the number of errors.
pub proof fn lemma_operation_catalogs_partition(error: RouterError, operation: PoolOperation)
    ensures
        operation_catalog(operation).contains(error_descriptor(error))
            <==> operation_family(error) == operation,
        operation_catalog(PoolOperation::Register).len()
            + operation_catalog(PoolOperation::ConfigureFee).len()
            + operation_catalog(PoolOperation::ConfigureBounds).len()
            + operation_catalog(PoolOperation::ConfigureLiquidity).len()
            + operation_catalog(PoolOperation::ConfigureCooldown).len()
            + operation_catalog(PoolOperation::Quote).len()
            + operation_catalog(PoolOperation::Compute).len()
            + operation_catalog(PoolOperation::Governance).len()
            + operation_catalog(PoolOperation::Migration).len()
            + operation_catalog(PoolOperation::Batch).len() == wire_order().len(),
{
    broadcast use Seq::lemma_filter_pred, Seq::lemma_filter_contains;
    lemma_operation_shares_cover(wire_order());
    let chosen = wire_order().filter(in_operation(operation));
    if operation_catalog(operation).contains(error_descriptor(error)) {
        let i = choose|i: int| 0 <= i < operation_catalog(operation).len()
            && operation_catalog(operation)[i] == error_descriptor(error);
        assert(error_descriptor(chosen[i]).code == error_descriptor(error).code);
        lemma_code_identifies_error(chosen[i], error);
        assert(in_operation(operation)(chosen[i]));
    }
    if operation_family(error) == operation {
        lemma_code_identifies_error(error, error);
        let k = error_code(error) - 1;
        assert(in_operation(operation)(wire_order()[k]));
        assert(chosen.contains(wire_order()[k]));
        let j = choose|j: int| 0 <= j < chosen.len() && chosen[j] == error;
        assert(operation_catalog(operation)[j] == error_descriptor(error));
    }
}

/// Every error has one class, so the class counts add up to the number of
/// errors.
pub proof fn lemma_class_counts_cover_catalog()
    ensures
        class_total(ErrorClass::Input) + class_total(ErrorClass::Authorization)
            + class_total(ErrorClass::State) + class_total(ErrorClass::Limit)
            + class_total(ErrorClass::Governance) + class_total(ErrorClass::Safety)
            == wire_order().len(),
{
    lemma_class_shares_cover(wire_order());
}

/// Retry guidance follows the class: input and authorization errors are
/// deterministic and never retryable, while every safety error is retryable
/// because the guarded state can change. Every descriptor has a positive code.
pub proof fn lemma_retry_guidance_follows_class(error: RouterError)
    ensures
        error_descriptor(error).class == ErrorClass::Input ==> !error_descriptor(error).retryable,
        error_descriptor(error).class == ErrorClass::Authorization
            ==> !error_descriptor(error).retryable,
        error_descriptor(error).class == ErrorClass::Safety ==> error_descriptor(error).retryable,
        error_descriptor(error).code > 0,
{
}

/// The documented operation families, family by family: an error belongs to
/// a family exactly when it is one of the errors listed for it, and no error
/// belongs to `Quote`.
pub proof fn lemma_operation_families_are_documented(error: RouterError)
    ensures
        operation_family(error) == PoolOperation::Register <==> (error == RouterError::SourceEqualsDestination || error == RouterError::PairNotRegistered),
        operation_family(error) == PoolOperation::ConfigureFee <==> (error == RouterError::FeeBpsTooHigh || error == RouterError::ZeroFeeCap),
        operation_family(error) == PoolOperation::ConfigureBounds <==> (error == RouterError::AmountMustBePositive || error == RouterError::AmountBelowMin || error == RouterError::AmountAboveMax || error == RouterError::InvalidParameterRange),
        operation_family(error) == PoolOperation::ConfigureLiquidity <==> (error == RouterError::NotAuthorized),
        operation_family(error) == PoolOperation::ConfigureCooldown <==> (error == RouterError::CooldownTooLarge),
        operation_family(error) == PoolOperation::Compute <==> (error == RouterError::ContractPaused || error == RouterError::InsufficientLiquidity || error == RouterError::ReentrantCall || error == RouterError::RouteCooldownActive),
        operation_family(error) == PoolOperation::Governance <==> (error == RouterError::AlreadyInitialized || error == RouterError::NotInitialized || error == RouterError::NoPendingAdminTransfer || error == RouterError::NotPendingAdmin || error == RouterError::TimelockNotElapsed || error == RouterError::InvalidAdminAddress),
        operation_family(error) == PoolOperation::Migration <==> (error == RouterError::MigrationVersionMismatch),
        operation_family(error) == PoolOperation::Batch <==> (error == RouterError::BatchTooLarge || error == RouterError::EmptyBatch),
        operation_family(error) != PoolOperation::Quote,
{
}

/// The documented classes, class by class: an error has a class exactly
/// when it is one of the errors listed for that class.
pub proof fn lemma_classes_are_documented(error: RouterError)
    ensures
        error_descriptor(error).class == ErrorClass::Input <==> (error == RouterError::SourceEqualsDestination || error == RouterError::AmountMustBePositive || error == RouterError::EmptyBatch || error == RouterError::ZeroFeeCap || error == RouterError::InvalidParameterRange),
        error_descriptor(error).class == ErrorClass::Authorization <==> (error == RouterError::NotPendingAdmin || error == RouterError::NotAuthorized),
        error_descriptor(error).class == ErrorClass::State <==> (error == RouterError::PairNotRegistered),
        error_descriptor(error).class == ErrorClass::Limit <==> (error == RouterError::FeeBpsTooHigh || error == RouterError::AmountBelowMin || error == RouterError::AmountAboveMax || error == RouterError::BatchTooLarge || error == RouterError::CooldownTooLarge),
        error_descriptor(error).class == ErrorClass::Governance <==> (error == RouterError::AlreadyInitialized || error == RouterError::NotInitialized || error == RouterError::NoPendingAdminTransfer || error == RouterError::MigrationVersionMismatch || error == RouterError::TimelockNotElapsed || error == RouterError::InvalidAdminAddress),
        error_descriptor(error).class == ErrorClass::Safety <==> (error == RouterError::ContractPaused || error == RouterError::InsufficientLiquidity || error == RouterError::ReentrantCall || error == RouterError::RouteCooldownActive),
{
}

/// The documented retry and remediation guidance: exactly the errors whose
/// guarded state can change by itself are retryable, and configuration can fix
/// every error except the deterministic input, role and lifecycle failures
/// listed here.
pub proof fn lemma_guidance_is_documented(error: RouterError)
    ensures
        error_descriptor(error).retryable <==> (error == RouterError::ContractPaused || error == RouterError::InsufficientLiquidity || error == RouterError::TimelockNotElapsed || error == RouterError::ReentrantCall || error == RouterError::RouteCooldownActive),
        !error_descriptor(error).configuration_fix <==> (error == RouterError::AlreadyInitialized || error == RouterError::SourceEqualsDestination || error == RouterError::AmountMustBePositive || error == RouterError::NotPendingAdmin || error == RouterError::TimelockNotElapsed || error == RouterError::ReentrantCall || error == RouterError::EmptyBatch || error == RouterError::InvalidAdminAddress),
{
}

/// The documented wire-code table, code by code, and each descriptor
/// carries the name of its own error.
pub proof fn lemma_wire_codes_are_documented()
    ensures
        error_code(RouterError::AlreadyInitialized) == 1,
        error_code(RouterError::NotInitialized) == 2,
        error_code(RouterError::SourceEqualsDestination) == 3,
        error_code(RouterError::FeeBpsTooHigh) == 4,
        error_code(RouterError::PairNotRegistered) == 5,
        error_code(RouterError::AmountMustBePositive) == 6,
        error_code(RouterError::NoPendingAdminTransfer) == 7,
        error_code(RouterError::NotPendingAdmin) == 8,
        error_code(RouterError::ContractPaused) == 9,
        error_code(RouterError::AmountBelowMin) == 10,
        error_code(RouterError::AmountAboveMax) == 11,
        error_code(RouterError::InsufficientLiquidity) == 12,
        error_code(RouterError::MigrationVersionMismatch) == 13,
        error_code(RouterError::TimelockNotElapsed) == 14,
        error_code(RouterError::ReentrantCall) == 15,
        error_code(RouterError::NotAuthorized) == 16,
        error_code(RouterError::RouteCooldownActive) == 17,
        error_code(RouterError::BatchTooLarge) == 18,
        error_code(RouterError::EmptyBatch) == 19,
        error_code(RouterError::CooldownTooLarge) == 20,
        error_code(RouterError::ZeroFeeCap) == 21,
        error_code(RouterError::InvalidAdminAddress) == 22,
        error_code(RouterError::InvalidParameterRange) == 23,
        error_descriptor(RouterError::AlreadyInitialized).name == ErrorName::AlreadyInitialized,
        error_descriptor(RouterError::NotInitialized).name == ErrorName::NotInitialized,
        error_descriptor(RouterError::SourceEqualsDestination).name == ErrorName::SourceEqualsDestination,
        error_descriptor(RouterError::FeeBpsTooHigh).name == ErrorName::FeeBpsTooHigh,
        error_descriptor(RouterError::PairNotRegistered).name == ErrorName::PairNotRegistered,
        error_descriptor(RouterError::AmountMustBePositive).name == ErrorName::AmountMustBePositive,
        error_descriptor(RouterError::NoPendingAdminTransfer).name == ErrorName::NoPendingAdminTransfer,
        error_descriptor(RouterError::NotPendingAdmin).name == ErrorName::NotPendingAdmin,
        error_descriptor(RouterError::ContractPaused).name == ErrorName::ContractPaused,
        error_descriptor(RouterError::AmountBelowMin).name == ErrorName::AmountBelowMin,
        error_descriptor(RouterError::AmountAboveMax).name == ErrorName::AmountAboveMax,
        error_descriptor(RouterError::InsufficientLiquidity).name == ErrorName::InsufficientLiquidity,
        error_descriptor(RouterError::MigrationVersionMismatch).name == ErrorName::MigrationVersionMismatch,
        error_descriptor(RouterError::TimelockNotElapsed).name == ErrorName::TimelockNotElapsed,
        error_descriptor(RouterError::ReentrantCall).name == ErrorName::ReentrantCall,
        error_descriptor(RouterError::NotAuthorized).name == ErrorName::NotAuthorized,
        error_descriptor(RouterError::RouteCooldownActive).name == ErrorName::RouteCooldownActive,
        error_descriptor(RouterError::BatchTooLarge).name == ErrorName::BatchTooLarge,
        error_descriptor(RouterError::EmptyBatch).name == ErrorName::EmptyBatch,
        error_descriptor(RouterError::CooldownTooLarge).name == ErrorName::CooldownTooLarge,
        error_descriptor(RouterError::ZeroFeeCap).name == ErrorName::ZeroFeeCap,
        error_descriptor(RouterError::InvalidAdminAddress).name == ErrorName::InvalidAdminAddress,
        error_descriptor(RouterError::InvalidParameterRange).name == ErrorName::InvalidParameterRange,
{
}

} // verus!
