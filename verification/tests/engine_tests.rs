use order_engine::adapter::{PoolFamily, PriceRatio, SimulationResponse, SwapInstr, MAX_SPREAD};
use order_engine::asset::{Asset, AssetKind, Coin};
use order_engine::contract::{execute, instantiate, migrate, update_config, PoolObservation};
use order_engine::engine::{
    cancel_order, execute_order, submit_order, EngineError, Event, Instr, State,
};
use order_engine::msg::{ExecuteMsg, InstantiateMsg, MigrateMsg};
use order_engine::order::{Recurring, PRICE_ONE};

fn native(denom: &str, amount: u128) -> Asset {
    Asset { kind: AssetKind::Native { denom: denom.to_string() }, amount }
}

fn issued(contract: &str, amount: u128) -> Asset {
    Asset { kind: AssetKind::Issued { contract: contract.to_string() }, amount }
}

fn coin(denom: &str, amount: u128) -> Coin {
    Coin { denom: denom.to_string(), amount }
}

/// Fee asset is native "ua", minimum fee 10, reserve payee "reserve".
fn base_state() -> State {
    instantiate(InstantiateMsg {
        fee_token: AssetKind::Native { denom: "ua".to_string() },
        min_fee_amount: 10,
        min_fee_percent: 0,
        executor_fee_percent: 0,
        reserve_addr: "reserve".to_string(),
    })
}

fn submit_100a_for_9000b(state: &mut State, recurring: Option<Recurring>) -> u64 {
    let resp = submit_order(
        state,
        "alice".to_string(),
        vec![coin("ua", 200)],
        "engine".to_string(),
        "pool1".to_string(),
        native("ua", 100),
        native("ub", 9000),
        100,
        recurring,
    )
    .expect("submission should succeed");
    assert_eq!(resp.instructions, vec![]);
    match resp.event {
        Event::Submitted { order_id, .. } => order_id,
        other => panic!("unexpected event {:?}", other),
    }
}

#[test]
fn submit_assigns_sequential_ids_and_stores_caller_amounts() {
    let mut state = base_state();
    let id1 = submit_100a_for_9000b(&mut state, None);
    let id2 = submit_100a_for_9000b(&mut state, None);
    assert_eq!(id1, 1);
    assert_eq!(id2, 2);
    assert_eq!(state.ledger.last_order_id, 2);
    // The stored order records the caller-supplied offer amount, not the
    // fee-augmented pulled amount.
    assert_eq!(state.ledger.orders[0].offer_asset, native("ua", 100));
    assert_eq!(state.ledger.orders[0].fee_amount, 100);
    assert_eq!(state.ledger.orders[0].bidder_addr, "alice".to_string());
}

#[test]
fn submit_fee_below_minimum_is_rejected_without_state_change() {
    let mut state = base_state();
    let r = submit_order(
        &mut state,
        "alice".to_string(),
        vec![coin("ua", 200)],
        "engine".to_string(),
        "pool1".to_string(),
        native("ua", 100),
        native("ub", 9000),
        9,
        None,
    );
    assert_eq!(r, Err(EngineError::FeeTooLow));
    assert_eq!(state.ledger.orders.len(), 0);
    assert_eq!(state.ledger.last_order_id, 0);
}

#[test]
fn submit_native_offer_needs_fee_augmented_funds_attached() {
    let mut state = base_state();
    // Fee included: the pull is 100 + 100 = 200 "ua"; only 150 attached.
    let r = submit_order(
        &mut state,
        "alice".to_string(),
        vec![coin("ua", 150)],
        "engine".to_string(),
        "pool1".to_string(),
        native("ua", 100),
        native("ub", 9000),
        100,
        None,
    );
    assert_eq!(r, Err(EngineError::InsufficientAttachedFunds));
    assert_eq!(state.ledger.orders.len(), 0);
}

#[test]
fn submit_issued_offer_pulls_offer_and_fee_separately() {
    let mut state = base_state();
    // Offer is an issued token, fee stays native: one transfer-from plus an
    // attached-funds check for the fee.
    let resp = submit_order(
        &mut state,
        "alice".to_string(),
        vec![coin("ua", 40)],
        "engine".to_string(),
        "pool1".to_string(),
        issued("tokenx", 500),
        native("ub", 9000),
        40,
        None,
    )
    .expect("submission should succeed");
    assert_eq!(
        resp.instructions,
        vec![Instr::TransferFrom {
            token: "tokenx".to_string(),
            owner: "alice".to_string(),
            recipient: "engine".to_string(),
            amount: 500,
        }]
    );
}

#[test]
fn submit_issued_fee_is_pulled_by_transfer() {
    let mut state = instantiate(InstantiateMsg {
        fee_token: AssetKind::Issued { contract: "feetoken".to_string() },
        min_fee_amount: 10,
        min_fee_percent: 0,
        executor_fee_percent: 0,
        reserve_addr: "reserve".to_string(),
    });
    let resp = submit_order(
        &mut state,
        "alice".to_string(),
        vec![coin("ua", 100)],
        "engine".to_string(),
        "pool1".to_string(),
        native("ua", 100),
        native("ub", 9000),
        25,
        None,
    )
    .expect("submission should succeed");
    assert_eq!(
        resp.instructions,
        vec![Instr::TransferFrom {
            token: "feetoken".to_string(),
            owner: "alice".to_string(),
            recipient: "engine".to_string(),
            amount: 25,
        }]
    );
}

#[test]
fn submit_overflowing_fee_augmented_amount_is_rejected() {
    let mut state = base_state();
    let r = submit_order(
        &mut state,
        "alice".to_string(),
        vec![coin("ua", 200)],
        "engine".to_string(),
        "pool1".to_string(),
        native("ua", u128::MAX),
        native("ub", 9000),
        100,
        None,
    );
    assert_eq!(r, Err(EngineError::Overflow));
}

#[test]
fn cancel_after_submit_refunds_offer_and_fee_and_deletes_order() {
    let mut state = base_state();
    let id = submit_100a_for_9000b(&mut state, None);
    let resp = cancel_order(&mut state, "alice".to_string(), id)
        .expect("owner's cancel should succeed");
    assert_eq!(
        resp.instructions,
        vec![
            Instr::Payout { recipient: "alice".to_string(), asset: native("ua", 100) },
            Instr::Payout { recipient: "alice".to_string(), asset: native("ua", 100) },
        ]
    );
    assert_eq!(state.ledger.orders.len(), 0);
    // The id stays consumed after deletion.
    assert_eq!(state.ledger.last_order_id, 1);
    assert_eq!(cancel_order(&mut state, "alice".to_string(), id), Err(EngineError::NotFound));
}

#[test]
fn cancel_by_stranger_is_unauthorized() {
    let mut state = base_state();
    let id = submit_100a_for_9000b(&mut state, None);
    assert_eq!(cancel_order(&mut state, "mallory".to_string(), id), Err(EngineError::Unauthorized));
    assert_eq!(state.ledger.orders.len(), 1);
}

#[test]
fn execute_below_ask_leaves_order_unchanged() {
    let mut state = base_state();
    let id = submit_100a_for_9000b(&mut state, None);
    let r = execute_order(
        &mut state,
        "bob".to_string(),
        id,
        PoolFamily::Standard,
        100,
        SimulationResponse { return_amount: 8999, spread_amount: 0, commission_amount: 0 },
    );
    assert_eq!(r, Err(EngineError::InsufficientReturn));
    assert_eq!(state.ledger.orders.len(), 1);
    assert_eq!(state.ledger.orders[0].order_id, id);
    assert_eq!(state.ledger.last_order_id, 1);
}

#[test]
fn execute_missing_order_is_not_found() {
    let mut state = base_state();
    let r = execute_order(
        &mut state,
        "bob".to_string(),
        77,
        PoolFamily::Standard,
        100,
        SimulationResponse { return_amount: 9500, spread_amount: 0, commission_amount: 0 },
    );
    assert_eq!(r, Err(EngineError::NotFound));
}

/// Scenario: offer 100 A, ask 9000 B, fee 100 in A (included, so submit pulls
/// 200 A); a terminal execution at a simulated return of 9500 B pays 9000 B
/// to the owner, 500 B excess and the 100 A fee to the reserve, and deletes
/// the order.
#[test]
fn terminal_execution_distributes_ask_excess_and_fee() {
    let mut state = base_state();
    let id = submit_100a_for_9000b(&mut state, None);
    let resp = execute_order(
        &mut state,
        "bob".to_string(),
        id,
        PoolFamily::Standard,
        100,
        SimulationResponse { return_amount: 9500, spread_amount: 0, commission_amount: 0 },
    )
    .expect("execution should succeed");
    assert_eq!(
        resp.instructions,
        vec![
            Instr::Swap(SwapInstr::StandardNative {
                pair_addr: "pool1".to_string(),
                offer: native("ua", 100),
                belief_price: PriceRatio { num: 100, den: 9000 },
                max_spread: MAX_SPREAD,
            }),
            Instr::Payout { recipient: "alice".to_string(), asset: native("ub", 9000) },
            Instr::Payout { recipient: "reserve".to_string(), asset: native("ub", 500) },
            Instr::Payout { recipient: "reserve".to_string(), asset: native("ua", 100) },
        ]
    );
    assert_eq!(resp.event, Event::Executed { order_id: 1, fee_amount: 100, excess_amount: 500 });
    assert_eq!(state.ledger.orders.len(), 0);
    assert_eq!(state.ledger.last_order_id, 1);
}

/// Scenario: as above but recurring with two legs, one remaining: the charge
/// is half the fee, nothing is paid to the owner, and a successor order is
/// created with the proceeds as its offer, half the fee, and no legs left.
#[test]
fn recurring_execution_charges_half_fee_and_creates_successor() {
    let mut state = base_state();
    let recurring = Recurring {
        total_loop: 2,
        remaining_loop: 1,
        belief_price: 11_100_000_000_000_000,        // 0.0111
        swapback_belief_price: 85_000_000_000_000_000_000,  // 85.0
    };
    let id = submit_100a_for_9000b(&mut state, Some(recurring));
    let resp = execute_order(
        &mut state,
        "bob".to_string(),
        id,
        PoolFamily::Standard,
        100,
        SimulationResponse { return_amount: 9500, spread_amount: 0, commission_amount: 0 },
    )
    .expect("execution should succeed");
    assert_eq!(
        resp.instructions,
        vec![
            Instr::Swap(SwapInstr::StandardNative {
                pair_addr: "pool1".to_string(),
                offer: native("ua", 100),
                belief_price: PriceRatio { num: 100, den: 9000 },
                max_spread: MAX_SPREAD,
            }),
            // No payout to the owner on a non-terminal leg.
            Instr::Payout { recipient: "reserve".to_string(), asset: native("ub", 500) },
            Instr::Payout { recipient: "reserve".to_string(), asset: native("ua", 50) },
        ]
    );
    assert_eq!(resp.event, Event::Executed { order_id: 1, fee_amount: 50, excess_amount: 500 });
    assert_eq!(state.ledger.orders.len(), 1);
    let successor = &state.ledger.orders[0];
    assert_eq!(successor.order_id, 2);
    assert_eq!(successor.bidder_addr, "bob".to_string());
    assert_eq!(successor.pair_addr, "pool1".to_string());
    assert_eq!(successor.offer_asset, native("ub", 9000));
    assert_eq!(successor.fee_amount, 50);
    // One leg past (parity (2 - 1) % 2 == 1): the outbound rate implies the
    // return ask: 9000 / 0.0111, truncated.
    assert_eq!(successor.ask_asset, native("ua", 810_810));
    assert_eq!(
        successor.recurring,
        Some(Recurring {
            total_loop: 2,
            remaining_loop: 0,
            belief_price: 11_100_000_000_000_000,
            swapback_belief_price: 85_000_000_000_000_000_000,
        })
    );
    assert_eq!(state.ledger.last_order_id, 2);
}

/// A three-leg chain charges 33, 33 and 34 out of a fee of 100: the sum is
/// exactly the reserved fee, and the implied rate alternates between the two
/// stored prices by the parity of executed legs.
#[test]
fn three_leg_chain_conserves_fee_and_alternates_rates() {
    let mut state = base_state();
    let recurring = Recurring {
        total_loop: 3,
        remaining_loop: 2,
        belief_price: PRICE_ONE,            // 1.0
        swapback_belief_price: 2 * PRICE_ONE,  // 2.0
    };
    let id = submit_100a_for_9000b(&mut state, Some(recurring));
    let sim = SimulationResponse { return_amount: 9000, spread_amount: 0, commission_amount: 0 };

    let r1 = execute_order(&mut state, "bob".to_string(), id, PoolFamily::Standard, 100, sim)
        .expect("leg one should settle");
    assert_eq!(r1.event, Event::Executed { order_id: 1, fee_amount: 33, excess_amount: 0 });
    // Parity (3 - 2) % 2 == 1: the outbound rate 1.0 implies ask 9000 / 1.
    {
        let leg2 = &state.ledger.orders[0];
        assert_eq!(leg2.order_id, 2);
        assert_eq!(leg2.offer_asset.amount, 9000); // the previous ask
        assert_eq!(leg2.ask_asset.amount, 9000); // 9000 * 1/1.0
        assert_eq!(leg2.fee_amount, 67); // fee carried forward
        assert_eq!(leg2.recurring.map(|r| r.remaining_loop), Some(1));
    }

    let r2 = execute_order(
        &mut state,
        "bob".to_string(),
        2,
        PoolFamily::Standard,
        9000,
        SimulationResponse { return_amount: 9000, spread_amount: 0, commission_amount: 0 },
    )
    .expect("leg two should settle");
    assert_eq!(r2.event, Event::Executed { order_id: 2, fee_amount: 33, excess_amount: 0 });
    // Parity (3 - 1) % 2 == 0: the swapback rate 2.0 implies ask 9000 / 2.
    {
        let leg3 = &state.ledger.orders[0];
        assert_eq!(leg3.order_id, 3);
        assert_eq!(leg3.offer_asset.amount, 9000);
        assert_eq!(leg3.ask_asset.amount, 4500);
        assert_eq!(leg3.fee_amount, 34);
        assert_eq!(leg3.recurring.map(|r| r.remaining_loop), Some(0));
    }

    let r3 = execute_order(
        &mut state,
        "bob".to_string(),
        3,
        PoolFamily::Standard,
        9000,
        SimulationResponse { return_amount: 4500, spread_amount: 0, commission_amount: 0 },
    )
    .expect("leg three should settle");
    // Terminal leg: the whole remaining fee.
    assert_eq!(r3.event, Event::Executed { order_id: 3, fee_amount: 34, excess_amount: 0 });
    assert_eq!(state.ledger.orders.len(), 0);
    // 33 + 33 + 34 == 100: no leakage, no double charge.
}

#[test]
fn successor_ask_with_zero_rate_overflows_before_any_state_change() {
    let mut state = base_state();
    let recurring = Recurring {
        total_loop: 2,
        remaining_loop: 1,
        belief_price: 0,
        swapback_belief_price: 0,
    };
    let id = submit_100a_for_9000b(&mut state, Some(recurring));
    let r = execute_order(
        &mut state,
        "bob".to_string(),
        id,
        PoolFamily::Standard,
        100,
        SimulationResponse { return_amount: 9500, spread_amount: 0, commission_amount: 0 },
    );
    assert_eq!(r, Err(EngineError::Overflow));
    assert_eq!(state.ledger.orders.len(), 1);
    assert_eq!(state.ledger.orders[0].order_id, id);
}

#[test]
fn submit_native_offer_with_other_native_fee_checks_both_denoms() {
    let mut state = base_state();
    // Offer "ub" is not the fee asset "ua": both coins must be attached.
    let r = submit_order(
        &mut state,
        "alice".to_string(),
        vec![coin("ub", 100)],
        "engine".to_string(),
        "pool1".to_string(),
        native("ub", 100),
        native("uc", 9000),
        30,
        None,
    );
    assert_eq!(r, Err(EngineError::InsufficientAttachedFunds));
    let resp = submit_order(
        &mut state,
        "alice".to_string(),
        vec![coin("ub", 100), coin("ua", 30)],
        "engine".to_string(),
        "pool1".to_string(),
        native("ub", 100),
        native("uc", 9000),
        30,
        None,
    )
    .expect("submission with both coins attached should succeed");
    assert_eq!(resp.instructions, vec![]);
}

#[test]
fn settling_one_order_leaves_the_others_untouched() {
    let mut state = base_state();
    let id1 = submit_100a_for_9000b(&mut state, None);
    let id2 = submit_100a_for_9000b(&mut state, None);
    execute_order(
        &mut state,
        "bob".to_string(),
        id1,
        PoolFamily::Standard,
        100,
        SimulationResponse { return_amount: 9000, spread_amount: 0, commission_amount: 0 },
    )
    .expect("execution should succeed");
    assert_eq!(state.ledger.orders.len(), 1);
    assert_eq!(state.ledger.orders[0].order_id, id2);
    assert_eq!(state.ledger.orders[0].offer_asset, native("ua", 100));
    assert_eq!(state.ledger.orders[0].bidder_addr, "alice".to_string());
}

#[test]
fn update_config_requires_reserve_payee() {
    let mut state = base_state();
    let r = update_config(
        &mut state,
        "mallory".to_string(),
        false,
        AssetKind::Native { denom: "ux".to_string() },
        1,
        2,
        3,
        "mallory".to_string(),
    );
    assert_eq!(r, Err(EngineError::Unauthorized));
    assert_eq!(state.config.reserve_addr, "reserve".to_string());

    update_config(
        &mut state,
        "reserve".to_string(),
        false,
        AssetKind::Native { denom: "ux".to_string() },
        1,
        2,
        3,
        "newreserve".to_string(),
    )
    .expect("the reserve payee may replace the config");
    assert_eq!(state.config.reserve_addr, "newreserve".to_string());
    assert_eq!(state.config.min_fee_amount, 1);
}

#[test]
fn execute_dispatcher_routes_operations() {
    let mut state = base_state();
    let resp = execute(
        &mut state,
        "alice".to_string(),
        vec![coin("ua", 200)],
        "engine".to_string(),
        ExecuteMsg::SubmitOrder {
            pair_addr: "pool1".to_string(),
            offer_asset: native("ua", 100),
            ask_asset: native("ub", 9000),
            fee_amount: 100,
            recurring: None,
        },
        None,
    )
    .expect("submission should succeed");
    match resp.event {
        Event::Submitted { order_id, .. } => assert_eq!(order_id, 1),
        other => panic!("unexpected event {:?}", other),
    }
    let resp = execute(
        &mut state,
        "bob".to_string(),
        vec![],
        "engine".to_string(),
        ExecuteMsg::ExecuteOrder { order_id: 1, family: PoolFamily::Standard },
        Some(PoolObservation {
            net_offer_amount: 100,
            sim: SimulationResponse { return_amount: 9500, spread_amount: 0, commission_amount: 0 },
        }),
    )
    .expect("execution should succeed");
    assert_eq!(resp.event, Event::Executed { order_id: 1, fee_amount: 100, excess_amount: 500 });
    let r = execute(
        &mut state,
        "alice".to_string(),
        vec![],
        "engine".to_string(),
        ExecuteMsg::CancelOrder { order_id: 1 },
        None,
    );
    assert_eq!(r, Err(EngineError::NotFound));
}

#[test]
fn migrate_changes_nothing() {
    let mut state = base_state();
    migrate(&mut state, MigrateMsg {}).expect("migration is a no-op");
    assert_eq!(state.ledger.orders.len(), 0);
    assert_eq!(state.config.min_fee_amount, 10);
}
