//! Centralized namespaced storage policy for pool/pair state.
//!
//! The router's `DataKey` variants are part of the deployed layout and cannot
//! be replaced during a routine maintenance release. This module gives those
//! variants one typed namespace and one TTL policy. `key_for` maps to the
//! existing variants, preserving their layout while preventing call sites
//! from inventing ad-hoc keys.
use crate::DataKey;
use soroban_sdk::Symbol;
use vstd::prelude::*;

verus! {

/// Persistent entries in a pair namespace.
#[derive(Clone, Copy, Debug, PartialEq, Eq, Structural)]
pub enum PoolSlot {
    /// Pair registration flag.
    Registration,
    /// Relative fee in basis points.
    FeeBps,
    /// Minimum accepted route amount.
    MinAmount,
    /// Maximum accepted route amount.
    MaxAmount,
    /// Reported available liquidity.
    Liquidity,
    /// Last successful route timestamp.
    LastRouteAt,
    /// Number of successful routes.
    RouteCount,
    /// Cumulative routed volume.
    Volume,
    /// Minimum interval between routes.
    Cooldown,
}

/// Typed pair namespace. Source and destination order is significant.
#[derive(Clone, Debug, PartialEq, Eq)]
pub struct PoolNamespace {
    pub source: Symbol,
    pub destination: Symbol,
}

/// A key descriptor useful for audits and layout tests.
#[derive(Clone, Debug, PartialEq, Eq)]
pub struct PoolStorageKey {
    pub namespace: PoolNamespace,
    pub slot: PoolSlot,
}

/// TTL values for all pair-scoped persistent entries.
#[derive(Clone, Copy, Debug, PartialEq, Eq, Structural)]
pub struct PoolTtlPolicy {
    /// Entries are extended when their remaining TTL reaches this threshold.
    pub threshold: u32,
    /// Entries are renewed to at least this many ledgers.
    pub extend_to: u32,
}

/// Roughly 30 days at five seconds per ledger.
pub const PAIR_TTL_THRESHOLD: u32 = 518_400;

/// Roughly 60 days at five seconds per ledger.
pub const PAIR_TTL_EXTEND_TO: u32 = 1_036_800;

/// The one TTL policy used for pair configuration and metrics.
pub fn pair_ttl_policy() -> (policy: PoolTtlPolicy)
    ensures
        policy == (PoolTtlPolicy { threshold: PAIR_TTL_THRESHOLD, extend_to: PAIR_TTL_EXTEND_TO }),
{
    PoolTtlPolicy { threshold: PAIR_TTL_THRESHOLD, extend_to: PAIR_TTL_EXTEND_TO }
}

/// Number of pair-scoped slots in the current layout.
pub const POOL_SLOT_COUNT: u32 = 9;

/// The canonical, append-only slot order used by layout snapshots and audits.
pub open spec fn canonical_slots() -> Seq<PoolSlot> {
    seq![
        PoolSlot::Registration,
        PoolSlot::FeeBps,
        PoolSlot::MinAmount,
        PoolSlot::MaxAmount,
        PoolSlot::Liquidity,
        PoolSlot::LastRouteAt,
        PoolSlot::RouteCount,
        PoolSlot::Volume,
        PoolSlot::Cooldown,
    ]
}

/// The audit ordinal of each slot.
pub open spec fn slot_ordinal(slot: PoolSlot) -> u32 {
    match slot {
        PoolSlot::Registration => 0,
        PoolSlot::FeeBps => 1,
        PoolSlot::MinAmount => 2,
        PoolSlot::MaxAmount => 3,
        PoolSlot::Liquidity => 4,
        PoolSlot::LastRouteAt => 5,
        PoolSlot::RouteCount => 6,
        PoolSlot::Volume => 7,
        PoolSlot::Cooldown => 8,
    }
}

/// The diagnostic label of each slot.
pub open spec fn slot_label_text(slot: PoolSlot) -> Seq<char> {
    match slot {
        PoolSlot::Registration => "pair.registration"@,
        PoolSlot::FeeBps => "pair.fee_bps"@,
        PoolSlot::MinAmount => "pair.min_amount"@,
        PoolSlot::MaxAmount => "pair.max_amount"@,
        PoolSlot::Liquidity => "pair.liquidity"@,
        PoolSlot::LastRouteAt => "pair.last_route_at"@,
        PoolSlot::RouteCount => "pair.route_count"@,
        PoolSlot::Volume => "pair.volume"@,
        PoolSlot::Cooldown => "pair.cooldown"@,
    }
}

/// Slots that hold operational history rather than configuration.
pub open spec fn holds_history(slot: PoolSlot) -> bool {
    slot is LastRouteAt || slot is RouteCount || slot is Volume
}

/// Slots removed when a pair is unregistered.
pub open spec fn cleared_on_unregister(slot: PoolSlot) -> bool {
    slot is Registration || slot is FeeBps || slot is MinAmount || slot is MaxAmount
        || slot is Liquidity || slot is Cooldown
}

/// Return the canonical slot order used by layout snapshots and audits.
pub fn all_slots() -> (slots: Vec<PoolSlot>)
    ensures
        slots@ == canonical_slots(),
{
    let mut result: Vec<PoolSlot> = Vec::new();
    result.push(PoolSlot::Registration);
    result.push(PoolSlot::FeeBps);
    result.push(PoolSlot::MinAmount);
    result.push(PoolSlot::MaxAmount);
    result.push(PoolSlot::Liquidity);
    result.push(PoolSlot::LastRouteAt);
    result.push(PoolSlot::RouteCount);
    result.push(PoolSlot::Volume);
    result.push(PoolSlot::Cooldown);
    assert(result@ =~= canonical_slots());
    result
}

/// Return the append-only ordinal assigned to a slot in the audit layout.
pub fn slot_index(slot: PoolSlot) -> (index: u32)
    ensures
        index == slot_ordinal(slot),
{
    match slot {
        PoolSlot::Registration => 0,
        PoolSlot::FeeBps => 1,
        PoolSlot::MinAmount => 2,
        PoolSlot::MaxAmount => 3,
        PoolSlot::Liquidity => 4,
        PoolSlot::LastRouteAt => 5,
        PoolSlot::RouteCount => 6,
        PoolSlot::Volume => 7,
        PoolSlot::Cooldown => 8,
    }
}

/// Return a stable, human-readable slot label for off-chain diagnostics.
///
/// Labels are not storage keys and must never be used as a substitute for
/// `key_for`; they exist to make audit logs and layout snapshots legible.
pub fn slot_label(slot: PoolSlot) -> (label: &'static str)
    ensures
        label@ == slot_label_text(slot),
{
    match slot {
        PoolSlot::Registration => "pair.registration",
        PoolSlot::FeeBps => "pair.fee_bps",
        PoolSlot::MinAmount => "pair.min_amount",
        PoolSlot::MaxAmount => "pair.max_amount",
        PoolSlot::Liquidity => "pair.liquidity",
        PoolSlot::LastRouteAt => "pair.last_route_at",
        PoolSlot::RouteCount => "pair.route_count",
        PoolSlot::Volume => "pair.volume",
        PoolSlot::Cooldown => "pair.cooldown",
    }
}

/// Return whether the slot contains operational history rather than config.
pub fn is_metric_slot(slot: PoolSlot) -> (metric: bool)
    ensures
        metric == holds_history(slot),
{
    match slot {
        PoolSlot::LastRouteAt | PoolSlot::RouteCount | PoolSlot::Volume => true,
        _ => false,
    }
}

/// Return whether a slot is live configuration rather than history.
pub fn is_config_slot(slot: PoolSlot) -> (config: bool)
    ensures
        config == !holds_history(slot),
{
    !is_metric_slot(slot)
}

/// Return whether the slot is cleared when a pair is unregistered.
pub fn is_cleared_on_unregister(slot: PoolSlot) -> (cleared: bool)
    ensures
        cleared == cleared_on_unregister(slot),
{
    match slot {
        PoolSlot::Registration
        | PoolSlot::FeeBps
        | PoolSlot::MinAmount
        | PoolSlot::MaxAmount
        | PoolSlot::Liquidity
        | PoolSlot::Cooldown => true,
        _ => false,
    }
}

/// The deployed `DataKey` variant that stores each slot of a namespace.
pub open spec fn slot_key(key: PoolStorageKey) -> DataKey {
    let source = key.namespace.source;
    let destination = key.namespace.destination;
    match key.slot {
        PoolSlot::Registration => DataKey::Pair(source, destination),
        PoolSlot::FeeBps => DataKey::PairFeeBps(source, destination),
        PoolSlot::MinAmount => DataKey::PairMinAmount(source, destination),
        PoolSlot::MaxAmount => DataKey::PairMaxAmount(source, destination),
        PoolSlot::Liquidity => DataKey::PairLiquidity(source, destination),
        PoolSlot::LastRouteAt => DataKey::PairLastRouteAt(source, destination),
        PoolSlot::RouteCount => DataKey::PairRouteCount(source, destination),
        PoolSlot::Volume => DataKey::PairVolume(source, destination),
        PoolSlot::Cooldown => DataKey::PairCooldown(source, destination),
    }
}

/// The descriptor of one slot of the `(source, destination)` namespace.
pub open spec fn slot_descriptor(source: Symbol, destination: Symbol, slot: PoolSlot) -> PoolStorageKey {
    PoolStorageKey { namespace: PoolNamespace { source, destination }, slot }
}

/// Construct an immutable namespace descriptor.
pub fn namespace(source: Symbol, destination: Symbol) -> (ns: PoolNamespace)
    ensures
        ns == (PoolNamespace { source, destination }),
{
    PoolNamespace { source, destination }
}

/// Construct an audit descriptor for a pair slot.
pub fn descriptor(source: Symbol, destination: Symbol, slot: PoolSlot) -> (key: PoolStorageKey)
    ensures
        key == slot_descriptor(source, destination, slot),
{
    PoolStorageKey { namespace: namespace(source, destination), slot }
}

/// Map the typed descriptor to the deployed `DataKey` layout.
pub fn key_for(key: &PoolStorageKey) -> (data_key: DataKey)
    ensures
        data_key == slot_key(*key),
{
    let source = key.namespace.source.clone();
    let destination = key.namespace.destination.clone();
    match key.slot {
        PoolSlot::Registration => DataKey::Pair(source, destination),
        PoolSlot::FeeBps => DataKey::PairFeeBps(source, destination),
        PoolSlot::MinAmount => DataKey::PairMinAmount(source, destination),
        PoolSlot::MaxAmount => DataKey::PairMaxAmount(source, destination),
        PoolSlot::Liquidity => DataKey::PairLiquidity(source, destination),
        PoolSlot::LastRouteAt => DataKey::PairLastRouteAt(source, destination),
        PoolSlot::RouteCount => DataKey::PairRouteCount(source, destination),
        PoolSlot::Volume => DataKey::PairVolume(source, destination),
        PoolSlot::Cooldown => DataKey::PairCooldown(source, destination),
    }
}

/// Return every pair key in canonical layout order.
pub fn pair_descriptors(source: Symbol, destination: Symbol) -> (keys: Vec<PoolStorageKey>)
    ensures
        keys@.len() == canonical_slots().len(),
        forall|i: int|
            0 <= i < keys@.len() ==> #[trigger] keys@[i] == slot_descriptor(
                source,
                destination,
                canonical_slots()[i],
            ),
{
    let slots = all_slots();
    let mut result: Vec<PoolStorageKey> = Vec::new();
    let mut index: usize = 0;
    while index < slots.len()
        invariant
            slots@ == canonical_slots(),
            index <= slots@.len(),
            result@.len() == index,
            forall|i: int|
                0 <= i < index ==> #[trigger] result@[i] == slot_descriptor(
                    source,
                    destination,
                    canonical_slots()[i],
                ),
        decreases slots@.len() - index,
    {
        result.push(descriptor(source.clone(), destination.clone(), slots[index]));
        index += 1;
    }
    result
}

/// Validate the invariants required before adding a slot to the layout:
/// the canonical order and the pair's descriptors both have one entry per
/// slot, and every slot has an in-range ordinal and a non-empty label.
pub fn layout_is_complete(source: Symbol, destination: Symbol) -> (complete: bool)
    ensures
        complete,
{
    let slots = all_slots();
    if slots.len() != POOL_SLOT_COUNT as usize {
        return false;
    }
    let descriptors = pair_descriptors(source, destination);
    if descriptors.len() != POOL_SLOT_COUNT as usize {
        return false;
    }
    let mut index: usize = 0;
    while index < slots.len()
        invariant
            slots@ == canonical_slots(),
            index <= slots@.len(),
        decreases slots@.len() - index,
    {
        let slot = slots[index];
        proof {
            lemma_labels_are_namespaced(slot);
        }
        if slot_index(slot) >= POOL_SLOT_COUNT || slot_label(slot).is_empty() {
            return false;
        }
        index += 1;
    }
    true
}

/// Labels are namespaced and non-empty: each starts with `pair.` and has
/// at least one character after it.
pub proof fn lemma_labels_are_namespaced(slot: PoolSlot)
    ensures
        slot_label_text(slot).len() > 5,
        slot_label_text(slot).subrange(0, 5) == "pair."@,
{
    reveal_strlit("pair.");
    reveal_strlit("pair.registration");
    reveal_strlit("pair.fee_bps");
    reveal_strlit("pair.min_amount");
    reveal_strlit("pair.max_amount");
    reveal_strlit("pair.liquidity");
    reveal_strlit("pair.last_route_at");
    reveal_strlit("pair.route_count");
    reveal_strlit("pair.volume");
    reveal_strlit("pair.cooldown");
    assert(slot_label_text(slot).subrange(0, 5) =~= "pair."@);
}

/// The slot-to-key mapping is one-to-one: two descriptors map to the same
/// deployed key only if they name the same slot of the same ordered pair.
pub proof fn lemma_key_for_is_one_to_one(key: PoolStorageKey, other: PoolStorageKey)
    ensures
        slot_key(key) == slot_key(other) ==> key == other,
{
}

/// Direction matters: when source and destination differ, no slot of
/// `(source, destination)` shares a key with any slot of the reverse pair.
pub proof fn lemma_reverse_direction_never_shares_a_key(
    source: Symbol,
    destination: Symbol,
    slot: PoolSlot,
    other_slot: PoolSlot,
)
    requires
        source != destination,
    ensures
        slot_key(slot_descriptor(source, destination, slot)) != slot_key(
            slot_descriptor(destination, source, other_slot),
        ),
{
}

/// The canonical order and the audit ordinals agree: there is one slot per
/// ordinal, the slot at position `i` has ordinal `i`, and every slot sits at
/// the position of its ordinal.
pub proof fn lemma_canonical_order_matches_ordinals(slot: PoolSlot)
    ensures
        canonical_slots().len() == POOL_SLOT_COUNT,
        slot_ordinal(slot) < POOL_SLOT_COUNT,
        canonical_slots()[slot_ordinal(slot) as int] == slot,
        forall|i: int| 0 <= i < 9 ==> slot_ordinal(#[trigger] canonical_slots()[i]) == i,
{
}

/// Unregistering clears exactly the configuration slots and preserves
/// operational history; every slot is either configuration or history.
pub proof fn lemma_unregister_preserves_exactly_history(slot: PoolSlot)
    ensures
        cleared_on_unregister(slot) == !holds_history(slot),
{
}

/// Labels are unique: two slots share a label only if they are the same slot.
pub proof fn lemma_labels_are_unique(slot: PoolSlot, other: PoolSlot)
    ensures
        slot_label_text(slot) == slot_label_text(other) ==> slot == other,
{
    reveal_strlit("pair.registration");
    reveal_strlit("pair.fee_bps");
    reveal_strlit("pair.min_amount");
    reveal_strlit("pair.max_amount");
    reveal_strlit("pair.liquidity");
    reveal_strlit("pair.last_route_at");
    reveal_strlit("pair.route_count");
    reveal_strlit("pair.volume");
    reveal_strlit("pair.cooldown");
    if slot_label_text(slot) == slot_label_text(other) && slot != other {
        assert(slot_label_text(slot)[6] == slot_label_text(other)[6]);
        assert(slot_label_text(slot).len() == slot_label_text(other).len());
    }
}

/// Each slot's label is `pair.` followed by the slot's own snake_case name,
/// and each slot's ordinal is its documented position.
pub proof fn lemma_slot_labels_and_ordinals_are_documented()
    ensures
        slot_label_text(PoolSlot::Registration) == "pair."@ + "registration"@,
        slot_label_text(PoolSlot::FeeBps) == "pair."@ + "fee_bps"@,
        slot_label_text(PoolSlot::MinAmount) == "pair."@ + "min_amount"@,
        slot_label_text(PoolSlot::MaxAmount) == "pair."@ + "max_amount"@,
        slot_label_text(PoolSlot::Liquidity) == "pair."@ + "liquidity"@,
        slot_label_text(PoolSlot::LastRouteAt) == "pair."@ + "last_route_at"@,
        slot_label_text(PoolSlot::RouteCount) == "pair."@ + "route_count"@,
        slot_label_text(PoolSlot::Volume) == "pair."@ + "volume"@,
        slot_label_text(PoolSlot::Cooldown) == "pair."@ + "cooldown"@,
        slot_ordinal(PoolSlot::Registration) == 0,
        slot_ordinal(PoolSlot::FeeBps) == 1,
        slot_ordinal(PoolSlot::MinAmount) == 2,
        slot_ordinal(PoolSlot::MaxAmount) == 3,
        slot_ordinal(PoolSlot::Liquidity) == 4,
        slot_ordinal(PoolSlot::LastRouteAt) == 5,
        slot_ordinal(PoolSlot::RouteCount) == 6,
        slot_ordinal(PoolSlot::Volume) == 7,
        slot_ordinal(PoolSlot::Cooldown) == 8,
{
    reveal_strlit("pair.");
    reveal_strlit("registration");
    reveal_strlit("pair.registration");
    reveal_strlit("fee_bps");
    reveal_strlit("pair.fee_bps");
    reveal_strlit("min_amount");
    reveal_strlit("pair.min_amount");
    reveal_strlit("max_amount");
    reveal_strlit("pair.max_amount");
    reveal_strlit("liquidity");
    reveal_strlit("pair.liquidity");
    reveal_strlit("last_route_at");
    reveal_strlit("pair.last_route_at");
    reveal_strlit("route_count");
    reveal_strlit("pair.route_count");
    reveal_strlit("volume");
    reveal_strlit("pair.volume");
    reveal_strlit("cooldown");
    reveal_strlit("pair.cooldown");
    assert(slot_label_text(PoolSlot::Registration) =~= "pair."@ + "registration"@);
    assert(slot_label_text(PoolSlot::FeeBps) =~= "pair."@ + "fee_bps"@);
    assert(slot_label_text(PoolSlot::MinAmount) =~= "pair."@ + "min_amount"@);
    assert(slot_label_text(PoolSlot::MaxAmount) =~= "pair."@ + "max_amount"@);
    assert(slot_label_text(PoolSlot::Liquidity) =~= "pair."@ + "liquidity"@);
    assert(slot_label_text(PoolSlot::LastRouteAt) =~= "pair."@ + "last_route_at"@);
    assert(slot_label_text(PoolSlot::RouteCount) =~= "pair."@ + "route_count"@);
    assert(slot_label_text(PoolSlot::Volume) =~= "pair."@ + "volume"@);
    assert(slot_label_text(PoolSlot::Cooldown) =~= "pair."@ + "cooldown"@);
}

/// The documented history policy, slot by slot: exactly `LastRouteAt`,
/// `RouteCount` and `Volume` hold history, and unregistering clears every
/// other slot.
pub proof fn lemma_history_slots_are_documented(slot: PoolSlot)
    ensures
        holds_history(slot) <==> (slot == PoolSlot::LastRouteAt || slot == PoolSlot::RouteCount
            || slot == PoolSlot::Volume),
        cleared_on_unregister(slot) <==> (slot == PoolSlot::Registration || slot
            == PoolSlot::FeeBps || slot == PoolSlot::MinAmount || slot == PoolSlot::MaxAmount
            || slot == PoolSlot::Liquidity || slot == PoolSlot::Cooldown),
{
}

} // verus!
