use stableroute_contracts::error_taxonomy::{
    all_errors, catalog, catalog_for_operation, class_count, descriptor, from_code,
    has_configuration_fix, operation_for, should_retry, ErrorClass, ErrorName, PoolOperation,
};
use stableroute_contracts::RouterError;

#[test]
fn codes_are_contiguous_and_append_only() {
    let errors = all_errors();
    for (index, error) in errors.iter().enumerate() {
        assert_eq!(descriptor(*error).code, index as u32 + 1);
    }
}

#[test]
fn every_code_round_trips() {
    for error in all_errors() {
        let code = descriptor(error).code;
        assert_eq!(from_code(code), Some(error));
    }
    assert_eq!(from_code(0), None);
    assert_eq!(from_code(24), None);
    assert_eq!(from_code(u32::MAX), None);
}

#[test]
fn every_descriptor_has_metadata() {
    for error in all_errors() {
        let details = descriptor(error);
        assert!(details.code > 0);
        assert!(matches!(details.name, _));
        assert!(matches!(details.class, _));
    }
}

#[test]
fn safety_errors_are_retryable_when_state_can_change() {
    assert!(descriptor(RouterError::ContractPaused).retryable);
    assert!(descriptor(RouterError::InsufficientLiquidity).retryable);
    assert!(descriptor(RouterError::RouteCooldownActive).retryable);
    assert!(!descriptor(RouterError::AmountMustBePositive).retryable);
}

#[test]
fn deterministic_input_and_authorization_errors_are_not_retryable() {
    for error in [
        RouterError::SourceEqualsDestination,
        RouterError::AmountMustBePositive,
        RouterError::NotPendingAdmin,
        RouterError::NotAuthorized,
        RouterError::EmptyBatch,
    ] {
        assert!(!descriptor(error).retryable);
    }
}

#[test]
fn configuration_fix_metadata_is_explicit() {
    assert!(descriptor(RouterError::FeeBpsTooHigh).configuration_fix);
    assert!(descriptor(RouterError::PairNotRegistered).configuration_fix);
    assert!(descriptor(RouterError::CooldownTooLarge).configuration_fix);
    assert!(!descriptor(RouterError::SourceEqualsDestination).configuration_fix);
}

#[test]
fn operation_mapping_covers_every_error() {
    for error in all_errors() {
        assert!(matches!(
            operation_for(error),
            PoolOperation::Register
                | PoolOperation::ConfigureFee
                | PoolOperation::ConfigureBounds
                | PoolOperation::ConfigureLiquidity
                | PoolOperation::ConfigureCooldown
                | PoolOperation::Quote
                | PoolOperation::Compute
                | PoolOperation::Governance
                | PoolOperation::Migration
                | PoolOperation::Batch
        ));
    }
}

#[test]
fn catalog_order_matches_wire_order() {
    let entries = catalog();
    assert_eq!(entries.len(), 23);
    for (index, entry) in entries.iter().enumerate() {
        assert_eq!(entry.code, index as u32 + 1);
    }
}

#[test]
fn unknown_codes_are_not_coerced_into_known_errors() {
    for code in [24, 42, 100, u32::MAX] {
        assert!(from_code(code).is_none());
    }
}

#[test]
fn retry_and_configuration_helpers_match_descriptors() {
    for error in all_errors() {
        assert_eq!(should_retry(error), descriptor(error).retryable);
        assert_eq!(
            has_configuration_fix(error),
            descriptor(error).configuration_fix
        );
    }
}

#[test]
fn operation_catalogs_are_disjoint_subsets() {
    let operations = [
        PoolOperation::Register,
        PoolOperation::ConfigureFee,
        PoolOperation::ConfigureBounds,
        PoolOperation::ConfigureLiquidity,
        PoolOperation::ConfigureCooldown,
        PoolOperation::Quote,
        PoolOperation::Compute,
        PoolOperation::Governance,
        PoolOperation::Migration,
        PoolOperation::Batch,
    ];
    let mut total = 0;
    for operation in operations {
        let entries = catalog_for_operation(operation);
        total += entries.len() as u32;
        for entry in entries.iter() {
            assert_eq!(operation_for(from_code(entry.code).unwrap()), operation);
        }
    }
    assert_eq!(total, all_errors().len() as u32);
}

#[test]
fn class_counts_cover_all_codes() {
    let total = class_count(ErrorClass::Input)
        + class_count(ErrorClass::Authorization)
        + class_count(ErrorClass::State)
        + class_count(ErrorClass::Limit)
        + class_count(ErrorClass::Governance)
        + class_count(ErrorClass::Safety);
    assert_eq!(total, all_errors().len() as u32);
}

#[test]
fn exact_boundary_errors_have_exact_metadata() {
    assert_eq!(descriptor(RouterError::BatchTooLarge).code, 18);
    assert_eq!(descriptor(RouterError::EmptyBatch).code, 19);
    assert_eq!(descriptor(RouterError::CooldownTooLarge).code, 20);
    assert_eq!(descriptor(RouterError::ZeroFeeCap).code, 21);
    assert_eq!(descriptor(RouterError::InvalidAdminAddress).code, 22);
    assert_eq!(descriptor(RouterError::InvalidParameterRange).code, 23);
    assert_eq!(
        descriptor(RouterError::BatchTooLarge).class,
        ErrorClass::Limit
    );
    assert_eq!(descriptor(RouterError::EmptyBatch).class, ErrorClass::Input);
}

#[test]
fn state_and_safety_paths_remain_distinguishable() {
    assert_eq!(
        descriptor(RouterError::PairNotRegistered).class,
        ErrorClass::State
    );
    assert_eq!(
        descriptor(RouterError::InsufficientLiquidity).class,
        ErrorClass::Safety
    );
    assert_eq!(
        descriptor(RouterError::ContractPaused).class,
        ErrorClass::Safety
    );
}

// Further concrete checks of the catalog's contents.

#[test]
fn descriptor_of_paused_error_is_the_documented_row() {
    let details = descriptor(RouterError::ContractPaused);
    assert_eq!(details.code, 9);
    assert_eq!(details.name, ErrorName::ContractPaused);
    assert_eq!(details.class, ErrorClass::Safety);
    assert!(details.retryable);
    assert!(details.configuration_fix);
}

#[test]
fn timelock_and_reentrancy_are_retryable_without_configuration() {
    assert!(should_retry(RouterError::TimelockNotElapsed));
    assert!(!has_configuration_fix(RouterError::TimelockNotElapsed));
    assert!(should_retry(RouterError::ReentrantCall));
    assert!(!has_configuration_fix(RouterError::ReentrantCall));
}

#[test]
fn class_counts_match_the_documented_table() {
    assert_eq!(class_count(ErrorClass::Input), 5);
    assert_eq!(class_count(ErrorClass::Authorization), 2);
    assert_eq!(class_count(ErrorClass::State), 1);
    assert_eq!(class_count(ErrorClass::Limit), 5);
    assert_eq!(class_count(ErrorClass::Governance), 6);
    assert_eq!(class_count(ErrorClass::Safety), 4);
}

#[test]
fn operation_catalogs_have_the_documented_members() {
    let governance: Vec<u32> = catalog_for_operation(PoolOperation::Governance)
        .iter()
        .map(|entry| entry.code)
        .collect();
    assert_eq!(governance, vec![1, 2, 7, 8, 14, 22]);
    let compute: Vec<u32> = catalog_for_operation(PoolOperation::Compute)
        .iter()
        .map(|entry| entry.code)
        .collect();
    assert_eq!(compute, vec![9, 12, 15, 17]);
    assert!(catalog_for_operation(PoolOperation::Quote).is_empty());
    assert_eq!(
        catalog_for_operation(PoolOperation::ConfigureLiquidity),
        vec![descriptor(RouterError::NotAuthorized)]
    );
}

#[test]
fn from_code_names_the_error_with_that_code() {
    assert_eq!(from_code(1), Some(RouterError::AlreadyInitialized));
    assert_eq!(from_code(12), Some(RouterError::InsufficientLiquidity));
    assert_eq!(from_code(23), Some(RouterError::InvalidParameterRange));
    assert_eq!(RouterError::NotAuthorized.code(), 16);
}

#[test]
fn catalog_holds_each_descriptor_in_order() {
    let entries = catalog();
    for (index, error) in all_errors().iter().enumerate() {
        assert_eq!(entries[index], descriptor(*error));
    }
}
