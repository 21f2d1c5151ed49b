use vstd::prelude::*;
use crate::adapter::SimulationResponse;
use crate::asset::Coin;
use crate::config::Config;
use crate::engine::{
    cancel_step, execute_step, follows_step, submit_step, EngineError, EngineResponse, Event,
    Instr, State,
};
use crate::ledger::Ledger;
use crate::msg::{ExecuteMsg, InstantiateMsg, MigrateMsg};

verus! {

/// What the host observed from outside systems ahead of an execution: the tax
/// oracle's net deliverable amount for a native offer (ignored for an issued
/// offer), and the pool's normalized simulation answer.
#[derive(Clone, Copy, Debug, PartialEq, Eq, Structural)]
pub struct PoolObservation {
    pub net_offer_amount: u128,
    pub sim: SimulationResponse,
}

/// Creates the engine's initial state: the given policy record, an empty
/// ledger, and the id counter at zero.
pub fn instantiate(msg: InstantiateMsg) -> (s: State)
    ensures
        s.wf(),
        s.ledger.orders@ == Seq::<crate::order::Order>::empty(),
        s.ledger.last_order_id == 0,
        s.config == (Config {
            fee_token: msg.fee_token,
            min_fee_amount: msg.min_fee_amount,
            min_fee_percent: msg.min_fee_percent,
            executor_fee_percent: msg.executor_fee_percent,
            reserve_addr: msg.reserve_addr,
        }),
{
    State {
        config: Config {
            fee_token: msg.fee_token,
            min_fee_amount: msg.min_fee_amount,
            min_fee_percent: msg.min_fee_percent,
            executor_fee_percent: msg.executor_fee_percent,
            reserve_addr: msg.reserve_addr,
        },
        ledger: Ledger::new(),
    }
}

/// Whether a caller may replace the policy record: always at instantiation,
/// afterwards only the current reserve payee.
pub open spec fn update_config_allowed(config: Config, init: bool, sender: String) -> bool {
    init || sender@ == config.reserve_addr@
}

/// Replaces the policy record in full — no partial-field merge. `init` marks
/// the unconditional call made once during instantiation; on every later call
/// the caller must be the current reserve payee.
pub fn update_config(
    state: &mut State,
    sender: String,
    init: bool,
    fee_token: crate::asset::AssetKind,
    min_fee_amount: u128,
    min_fee_percent: u128,
    executor_fee_percent: u128,
    reserve_addr: String,
) -> (r: Result<(), EngineError>)
    requires
        old(state).wf(),
    ensures
        final(state).wf(),
        if update_config_allowed(old(state).config, init, sender) {
            &&& r is Ok
            &&& final(state).config == (Config {
                fee_token,
                min_fee_amount,
                min_fee_percent,
                executor_fee_percent,
                reserve_addr,
            })
            &&& final(state).ledger == old(state).ledger
        } else {
            r == Err::<(), EngineError>(EngineError::Unauthorized) && *final(state) == *old(state)
        },
{
    if !init {
        if !(sender == state.config.reserve_addr) {
            return Err(EngineError::Unauthorized);
        }
    }
    state.config = Config {
        fee_token,
        min_fee_amount,
        min_fee_percent,
        executor_fee_percent,
        reserve_addr,
    };
    Ok(())
}

/// Dispatches one state-changing entry operation. For `ExecuteOrder` the host
/// must supply its observation of the tax oracle and the pool simulation; the
/// other operations ignore it.
pub fn execute(
    state: &mut State,
    sender: String,
    funds: Vec<Coin>,
    self_addr: String,
    msg: ExecuteMsg,
    observation: Option<PoolObservation>,
) -> (r: Result<EngineResponse, EngineError>)
    requires
        old(state).wf(),
        old(state).ledger.last_order_id < u64::MAX,
        msg is ExecuteOrder ==> observation is Some,
    ensures
        final(state).wf(),
        ({
            let cfg = old(state).config;
            let orders = old(state).ledger.orders@;
            let last = old(state).ledger.last_order_id;
            match msg {
                ExecuteMsg::UpdateConfig {
                    fee_token,
                    min_fee_amount,
                    min_fee_percent,
                    executor_fee_percent,
                    reserve_addr,
                } => if update_config_allowed(cfg, false, sender) {
                    &&& r matches Ok(resp) && resp.instructions@ == Seq::<Instr>::empty()
                        && resp.event == Event::ConfigUpdated
                    &&& final(state).config == (Config {
                        fee_token,
                        min_fee_amount,
                        min_fee_percent,
                        executor_fee_percent,
                        reserve_addr,
                    })
                    &&& final(state).ledger == old(state).ledger
                } else {
                    &&& r == Err::<EngineResponse, EngineError>(EngineError::Unauthorized)
                    &&& *final(state) == *old(state)
                },
                ExecuteMsg::SubmitOrder {
                    pair_addr,
                    offer_asset,
                    ask_asset,
                    fee_amount,
                    recurring,
                } => follows_step(
                    submit_step(
                        cfg,
                        orders,
                        last,
                        sender,
                        funds@,
                        self_addr,
                        pair_addr,
                        offer_asset,
                        ask_asset,
                        fee_amount,
                        recurring,
                    ),
                    *old(state),
                    *final(state),
                    r,
                ),
                ExecuteMsg::CancelOrder { order_id } => follows_step(
                    cancel_step(cfg, orders, last, sender, order_id),
                    *old(state),
                    *final(state),
                    r,
                ),
                ExecuteMsg::ExecuteOrder { order_id, family } => follows_step(
                    execute_step(
                        cfg,
                        orders,
                        last,
                        sender,
                        order_id,
                        family,
                        observation->Some_0.net_offer_amount,
                        observation->Some_0.sim,
                    ),
                    *old(state),
                    *final(state),
                    r,
                ),
            }
        }),
{
    match msg {
        ExecuteMsg::UpdateConfig {
            fee_token,
            min_fee_amount,
            min_fee_percent,
            executor_fee_percent,
            reserve_addr,
        } => {
            match update_config(
                state,
                sender,
                false,
                fee_token,
                min_fee_amount,
                min_fee_percent,
                executor_fee_percent,
                reserve_addr,
            ) {
                Ok(_) => Ok(
                    EngineResponse { instructions: Vec::new(), event: Event::ConfigUpdated },
                ),
                Err(e) => Err(e),
            }
        },
        ExecuteMsg::SubmitOrder { pair_addr, offer_asset, ask_asset, fee_amount, recurring } => {
            crate::engine::submit_order(
                state,
                sender,
                funds,
                self_addr,
                pair_addr,
                offer_asset,
                ask_asset,
                fee_amount,
                recurring,
            )
        },
        ExecuteMsg::CancelOrder { order_id } => {
            crate::engine::cancel_order(state, sender, order_id)
        },
        ExecuteMsg::ExecuteOrder { order_id, family } => {
            let obs = match observation {
                Some(obs) => obs,
                None => unreached(),
            };
            crate::engine::execute_order(
                state,
                sender,
                order_id,
                family,
                obs.net_offer_amount,
                obs.sim,
            )
        },
    }
}

/// A migration changes nothing.
pub fn migrate(state: &mut State, _msg: MigrateMsg) -> (r: Result<(), EngineError>)
    ensures
        *final(state) == *old(state),
        r is Ok,
{
    Ok(())
}

} // verus!
