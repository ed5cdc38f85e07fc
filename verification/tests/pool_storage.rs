use soroban_sdk::Symbol;
use stableroute_contracts::pool_storage::{
    all_slots, descriptor, is_cleared_on_unregister, is_config_slot, is_metric_slot, key_for,
    layout_is_complete, namespace, pair_descriptors, pair_ttl_policy, slot_index, slot_label,
    PoolSlot, PoolStorageKey, PAIR_TTL_EXTEND_TO, PAIR_TTL_THRESHOLD, POOL_SLOT_COUNT,
};
use stableroute_contracts::DataKey;

#[test]
fn labels_are_unique_and_stable() {
    let labels = [
        slot_label(PoolSlot::Registration),
        slot_label(PoolSlot::FeeBps),
        slot_label(PoolSlot::MinAmount),
        slot_label(PoolSlot::MaxAmount),
        slot_label(PoolSlot::Liquidity),
        slot_label(PoolSlot::LastRouteAt),
        slot_label(PoolSlot::RouteCount),
        slot_label(PoolSlot::Volume),
        slot_label(PoolSlot::Cooldown),
    ];
    for (index, label) in labels.iter().enumerate() {
        assert!(!label.is_empty());
        assert!(!labels[index + 1..].contains(label));
    }
}

#[test]
fn metric_slots_are_not_cleared_by_normal_unregister() {
    assert!(!is_cleared_on_unregister(PoolSlot::LastRouteAt));
    assert!(!is_cleared_on_unregister(PoolSlot::RouteCount));
    assert!(!is_cleared_on_unregister(PoolSlot::Volume));
    assert!(is_metric_slot(PoolSlot::Volume));
}

#[test]
fn config_slots_are_cleared() {
    assert!(is_cleared_on_unregister(PoolSlot::Registration));
    assert!(is_cleared_on_unregister(PoolSlot::FeeBps));
    assert!(is_cleared_on_unregister(PoolSlot::Cooldown));
    assert!(!is_metric_slot(PoolSlot::Cooldown));
}

#[test]
fn ttl_policy_has_a_safe_renewal_window() {
    assert!(pair_ttl_policy().threshold > 0);
    assert!(pair_ttl_policy().extend_to > pair_ttl_policy().threshold);
}

#[test]
fn canonical_slot_order_is_append_only() {
    let slots = all_slots();
    assert_eq!(slots.len() as u32, POOL_SLOT_COUNT);
    for (index, slot) in slots.iter().enumerate() {
        assert_eq!(slot_index(*slot), index as u32);
    }
}

#[test]
fn config_and_metric_partitions_cover_the_layout() {
    let mut config = 0;
    let mut metrics = 0;
    for slot in all_slots().iter() {
        if is_config_slot(*slot) {
            config += 1;
        }
        if is_metric_slot(*slot) {
            metrics += 1;
        }
    }
    assert_eq!(config + metrics, POOL_SLOT_COUNT);
    assert_eq!(metrics, 3);
    assert_eq!(config, 6);
}

#[test]
fn unregister_partition_matches_documented_history_policy() {
    for slot in all_slots().iter() {
        assert_eq!(is_metric_slot(*slot), !is_cleared_on_unregister(*slot));
    }
}

#[test]
fn all_slot_labels_are_namespaced() {
    for slot in all_slots().iter() {
        assert!(slot_label(*slot).starts_with("pair."));
    }
}

#[test]
fn slot_ordinals_have_no_gaps() {
    let mut expected = 0;
    for slot in all_slots().iter() {
        assert_eq!(slot_index(*slot), expected);
        expected += 1;
    }
    assert_eq!(expected, POOL_SLOT_COUNT);
}

// Further concrete checks of the slot layout.

#[test]
fn ttl_policy_is_thirty_and_sixty_days_of_ledgers() {
    assert_eq!(pair_ttl_policy().threshold, 518_400);
    assert_eq!(pair_ttl_policy().extend_to, 1_036_800);
    assert_eq!(PAIR_TTL_THRESHOLD, 518_400);
    assert_eq!(PAIR_TTL_EXTEND_TO, 1_036_800);
}

#[test]
fn slot_labels_and_ordinals_are_exact() {
    assert_eq!(slot_label(PoolSlot::Registration), "pair.registration");
    assert_eq!(slot_label(PoolSlot::LastRouteAt), "pair.last_route_at");
    assert_eq!(slot_label(PoolSlot::Cooldown), "pair.cooldown");
    assert_eq!(slot_index(PoolSlot::Registration), 0);
    assert_eq!(slot_index(PoolSlot::Volume), 7);
    assert_eq!(slot_index(PoolSlot::Cooldown), 8);
}

#[test]
fn liquidity_is_configuration_cleared_on_unregister() {
    assert!(is_config_slot(PoolSlot::Liquidity));
    assert!(!is_metric_slot(PoolSlot::Liquidity));
    assert!(is_cleared_on_unregister(PoolSlot::Liquidity));
    assert!(is_cleared_on_unregister(PoolSlot::MinAmount));
    assert!(is_cleared_on_unregister(PoolSlot::MaxAmount));
}

// Namespaces and keys carry the pair's symbols.

#[allow(deprecated)]
fn symbol(text: &str) -> Symbol {
    Symbol::short(text)
}

fn pair(slot: PoolSlot) -> PoolStorageKey {
    descriptor(symbol("USDC"), symbol("EURC"), slot)
}

#[test]
fn namespace_is_directional() {
    let forward = namespace(symbol("USDC"), symbol("EURC"));
    let reverse = namespace(symbol("EURC"), symbol("USDC"));
    assert_ne!(forward, reverse);
}

#[test]
fn every_slot_maps_to_a_pair_variant() {
    assert_eq!(
        key_for(&pair(PoolSlot::Registration)),
        DataKey::Pair(symbol("USDC"), symbol("EURC"))
    );
    assert_eq!(
        key_for(&pair(PoolSlot::FeeBps)),
        DataKey::PairFeeBps(symbol("USDC"), symbol("EURC"))
    );
    assert_eq!(
        key_for(&pair(PoolSlot::MinAmount)),
        DataKey::PairMinAmount(symbol("USDC"), symbol("EURC"))
    );
    assert_eq!(
        key_for(&pair(PoolSlot::MaxAmount)),
        DataKey::PairMaxAmount(symbol("USDC"), symbol("EURC"))
    );
    assert_eq!(
        key_for(&pair(PoolSlot::Liquidity)),
        DataKey::PairLiquidity(symbol("USDC"), symbol("EURC"))
    );
    assert_eq!(
        key_for(&pair(PoolSlot::LastRouteAt)),
        DataKey::PairLastRouteAt(symbol("USDC"), symbol("EURC"))
    );
    assert_eq!(
        key_for(&pair(PoolSlot::RouteCount)),
        DataKey::PairRouteCount(symbol("USDC"), symbol("EURC"))
    );
    assert_eq!(
        key_for(&pair(PoolSlot::Volume)),
        DataKey::PairVolume(symbol("USDC"), symbol("EURC"))
    );
    assert_eq!(
        key_for(&pair(PoolSlot::Cooldown)),
        DataKey::PairCooldown(symbol("USDC"), symbol("EURC"))
    );
}

#[test]
fn labels_identify_the_storage_namespace_without_being_keys() {
    let descriptor = pair(PoolSlot::FeeBps);
    assert_eq!(slot_label(descriptor.slot), "pair.fee_bps");
    assert_eq!(descriptor.namespace.source, symbol("USDC"));
    assert_eq!(descriptor.namespace.destination, symbol("EURC"));
}

#[test]
fn each_descriptor_has_the_same_namespace() {
    let descriptors = pair_descriptors(symbol("USDC"), symbol("EURC"));
    assert_eq!(descriptors.len() as u32, POOL_SLOT_COUNT);
    for descriptor in descriptors.iter() {
        assert_eq!(descriptor.namespace.source, symbol("USDC"));
        assert_eq!(descriptor.namespace.destination, symbol("EURC"));
    }
}

#[test]
fn layout_completeness_rejects_no_current_slots() {
    assert!(layout_is_complete(symbol("USDC"), symbol("EURC")));
}

#[test]
fn pair_descriptors_follow_the_canonical_slot_order() {
    let descriptors = pair_descriptors(symbol("USDC"), symbol("EURC"));
    let slots = all_slots();
    for (index, descriptor) in descriptors.iter().enumerate() {
        assert_eq!(descriptor.slot, slots[index]);
    }
    assert_eq!(
        key_for(&descriptors[8]),
        DataKey::PairCooldown(symbol("USDC"), symbol("EURC"))
    );
}

#[test]
fn reverse_pair_keys_are_distinct() {
    let forward = key_for(&descriptor(symbol("USDC"), symbol("EURC"), PoolSlot::Volume));
    let reverse = key_for(&descriptor(symbol("EURC"), symbol("USDC"), PoolSlot::Volume));
    assert_ne!(forward, reverse);
    assert_eq!(reverse, DataKey::PairVolume(symbol("EURC"), symbol("USDC")));
}
