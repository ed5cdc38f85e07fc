use soroban_sdk::Symbol;
use stableroute_contracts::StableRouteRouter;

#[allow(deprecated)]
fn symbol(text: &str) -> Symbol {
    Symbol::short(text)
}

#[test]
fn test_version() {
    let v = StableRouteRouter::version();
    assert_eq!(v, "ROUTER_V1");
}

#[test]
fn test_route_tag() {
    let (src, dest) = StableRouteRouter::route_tag(symbol("USDC"), symbol("EURC"));
    assert_eq!(src, symbol("USDC"));
    assert_eq!(dest, symbol("EURC"));
}

#[test]
fn route_tags_are_direction_sensitive() {
    let forward = StableRouteRouter::route_tag(symbol("USDC"), symbol("EURC"));
    let reverse = StableRouteRouter::route_tag(symbol("EURC"), symbol("USDC"));
    assert_ne!(forward, reverse);
    assert_eq!(
        forward,
        StableRouteRouter::route_tag(symbol("USDC"), symbol("EURC"))
    );
}
