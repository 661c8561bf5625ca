use bonding_curve::error::ErrorCode;
use bonding_curve::identity::{Identity, TokenAccount};
use bonding_curve::registry::CurveRegistry;

fn id(n: u64) -> Identity {
    Identity { w0: 0, w1: 0, w2: 0, w3: n }
}

#[test]
fn create_then_get_yields_fresh_curve() {
    let mut registry = CurveRegistry::new();
    assert!(!registry.contains(id(2)));
    assert_eq!(registry.create_curve(id(2), 100, 10, id(1), 254), Ok(()));
    assert!(registry.contains(id(2)));
    let curve = registry.get(id(2)).unwrap();
    assert_eq!(curve.authority, id(1));
    assert_eq!(curve.initial_price, 100);
    assert_eq!(curve.slope, 10);
    assert_eq!(curve.total_supply, 0);
    assert_eq!(curve.token_mint, id(2));
    assert_eq!(curve.bump, 254);
}

#[test]
fn create_rejects_zero_parameters_and_stores_nothing() {
    let mut registry = CurveRegistry::new();
    assert_eq!(registry.create_curve(id(2), 0, 10, id(1), 0), Err(ErrorCode::InvalidParameters));
    assert_eq!(registry.create_curve(id(2), 100, 0, id(1), 0), Err(ErrorCode::InvalidParameters));
    assert!(!registry.contains(id(2)));
    assert_eq!(registry.get(id(2)), None);
}

#[test]
fn curves_are_kept_per_token_identity() {
    let mut registry = CurveRegistry::new();
    registry.create_curve(id(2), 100, 10, id(1), 0).unwrap();
    registry.create_curve(id(3), 7, 3, id(1), 0).unwrap();
    registry.buy(id(2), 5, id(1)).unwrap();
    assert_eq!(registry.get(id(2)).unwrap().total_supply, 5);
    assert_eq!(registry.get(id(3)).unwrap().total_supply, 0);
    assert_eq!(registry.get(id(3)).unwrap().initial_price, 7);
}

#[test]
fn registry_trade_scenario() {
    let seller = id(7);
    let acct = TokenAccount { owner: seller, mint: id(2) };
    let mut registry = CurveRegistry::new();
    registry.create_curve(id(2), 100, 10, id(1), 0).unwrap();
    assert_eq!(registry.buy(id(2), 5, id(1)), Ok(500));
    assert_eq!(registry.buy(id(2), 3, id(1)), Ok(450));
    assert_eq!(registry.sell(id(2), 3, id(1), seller, acct), Ok(540));
    assert_eq!(registry.get(id(2)).unwrap().total_supply, 5);
}

#[test]
fn registry_update_changes_only_parameters() {
    let mut registry = CurveRegistry::new();
    registry.create_curve(id(2), 100, 10, id(1), 9).unwrap();
    registry.buy(id(2), 4, id(1)).unwrap();
    assert_eq!(registry.update_curve(id(2), 200, 20, id(1)), Ok(()));
    let curve = registry.get(id(2)).unwrap();
    assert_eq!(curve.initial_price, 200);
    assert_eq!(curve.slope, 20);
    assert_eq!(curve.total_supply, 4);
    assert_eq!(curve.bump, 9);
}

#[test]
fn registry_rejects_foreign_callers_unchanged() {
    let seller = id(7);
    let acct = TokenAccount { owner: seller, mint: id(2) };
    let mut registry = CurveRegistry::new();
    registry.create_curve(id(2), 100, 10, id(1), 0).unwrap();
    registry.buy(id(2), 5, id(1)).unwrap();
    assert_eq!(registry.buy(id(2), 1, id(9)), Err(ErrorCode::Unauthorized));
    assert_eq!(registry.sell(id(2), 1, id(9), seller, acct), Err(ErrorCode::Unauthorized));
    assert_eq!(registry.update_curve(id(2), 1, 1, id(9)), Err(ErrorCode::Unauthorized));
    let curve = registry.get(id(2)).unwrap();
    assert_eq!(curve.initial_price, 100);
    assert_eq!(curve.slope, 10);
    assert_eq!(curve.total_supply, 5);
}

#[test]
fn registry_update_rejects_zero_parameters() {
    let mut registry = CurveRegistry::new();
    registry.create_curve(id(2), 100, 10, id(1), 0).unwrap();
    assert_eq!(registry.update_curve(id(2), 0, 20, id(1)), Err(ErrorCode::InvalidParameters));
    assert_eq!(registry.update_curve(id(2), 20, 0, id(1)), Err(ErrorCode::InvalidParameters));
    let curve = registry.get(id(2)).unwrap();
    assert_eq!(curve.initial_price, 100);
    assert_eq!(curve.slope, 10);
}
