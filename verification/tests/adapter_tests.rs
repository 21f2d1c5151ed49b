use order_engine::adapter::{
    build_sim_request, build_swap, AltAsset, PoolFamily, PriceRatio, SimRequest, SwapInstr,
    MAX_SPREAD,
};
use order_engine::asset::{Asset, AssetKind, Coin};
use order_engine::asset::attached_amount_of;
use order_engine::order::{inverse_at_price_checked, PRICE_ONE};

fn native(denom: &str, amount: u128) -> Asset {
    Asset { kind: AssetKind::Native { denom: denom.to_string() }, amount }
}

fn issued(contract: &str, amount: u128) -> Asset {
    Asset { kind: AssetKind::Issued { contract: contract.to_string() }, amount }
}

#[test]
fn standard_family_passes_the_offer_through() {
    let req = build_sim_request(PoolFamily::Standard, "pool1".to_string(), &native("ua", 100));
    assert_eq!(
        req,
        SimRequest::Standard { pair_addr: "pool1".to_string(), offer: native("ua", 100) }
    );
}

#[test]
fn alternate_family_keys_assets_by_bare_identifier() {
    let req = build_sim_request(PoolFamily::Alternate, "pool1".to_string(), &native("ua", 100));
    assert_eq!(
        req,
        SimRequest::Alternate {
            pair_addr: "pool1".to_string(),
            offer: AltAsset::Native { denom: "ua".to_string(), amount: 100 },
        }
    );
    let req = build_sim_request(PoolFamily::Alternate, "pool1".to_string(), &issued("tok", 7));
    assert_eq!(
        req,
        SimRequest::Alternate {
            pair_addr: "pool1".to_string(),
            offer: AltAsset::Contract { contract: "tok".to_string(), amount: 7 },
        }
    );
}

#[test]
fn issued_offers_swap_through_one_hook_for_both_families() {
    let belief = PriceRatio { num: 1, den: 2 };
    for family in [PoolFamily::Standard, PoolFamily::Alternate] {
        let swap = build_swap(family, "pool1".to_string(), issued("tok", 7), belief);
        assert_eq!(
            swap,
            SwapInstr::Hook {
                token: "tok".to_string(),
                pair_addr: "pool1".to_string(),
                amount: 7,
                belief_price: belief,
                max_spread: MAX_SPREAD,
            }
        );
    }
}

#[test]
fn native_offers_swap_in_the_family_wire_shape() {
    let belief = PriceRatio { num: 1, den: 2 };
    let swap = build_swap(PoolFamily::Standard, "pool1".to_string(), native("ua", 9), belief);
    assert_eq!(
        swap,
        SwapInstr::StandardNative {
            pair_addr: "pool1".to_string(),
            offer: native("ua", 9),
            belief_price: belief,
            max_spread: MAX_SPREAD,
        }
    );
    let swap = build_swap(PoolFamily::Alternate, "pool1".to_string(), native("ua", 9), belief);
    assert_eq!(
        swap,
        SwapInstr::AlternateNative {
            pair_addr: "pool1".to_string(),
            offer: AltAsset::Native { denom: "ua".to_string(), amount: 9 },
            belief_price: belief,
            max_spread: MAX_SPREAD,
        }
    );
}

#[test]
fn max_spread_is_half_a_percent() {
    assert_eq!(MAX_SPREAD, PRICE_ONE / 200);
}

#[test]
fn inverse_conversion_truncates_and_guards_the_edges() {
    // 9000 at rate 0.0111: 9000 / 0.0111 = 810810.81..., truncated.
    assert_eq!(inverse_at_price_checked(9000, 11_100_000_000_000_000), Some(810_810));
    // A rate of exactly one is the identity.
    assert_eq!(inverse_at_price_checked(123, PRICE_ONE), Some(123));
    // A zero rate has no inverse.
    assert_eq!(inverse_at_price_checked(123, 0), None);
    // The scaled intermediate product must fit the amount type.
    assert_eq!(inverse_at_price_checked(u128::MAX / PRICE_ONE + 1, PRICE_ONE), None);
    assert_eq!(inverse_at_price_checked(u128::MAX / PRICE_ONE, PRICE_ONE), Some(u128::MAX / PRICE_ONE));
}

#[test]
fn attached_amount_takes_the_first_matching_coin() {
    let funds = vec![
        Coin { denom: "ua".to_string(), amount: 5 },
        Coin { denom: "ub".to_string(), amount: 9 },
        Coin { denom: "ua".to_string(), amount: 100 },
    ];
    assert_eq!(attached_amount_of(&funds, &"ua".to_string()), 5);
    assert_eq!(attached_amount_of(&funds, &"ub".to_string()), 9);
    assert_eq!(attached_amount_of(&funds, &"uc".to_string()), 0);
}
