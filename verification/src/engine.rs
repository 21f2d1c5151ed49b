use vstd::prelude::*;
use crate::adapter::{swap_instr_spec, PoolFamily, PriceRatio, SimulationResponse, SwapInstr};
use crate::asset::{attached_amount, Asset, AssetKind, Coin};
use crate::config::Config;
use crate::ledger::{find_order, remove_id, Ledger};
use crate::order::Order;
use crate::order::Recurring;

verus! {

/// Everything that can make an operation fail. Every failure aborts the whole
/// invocation: no partial state change is ever committed.
#[derive(Clone, Copy, Debug, PartialEq, Eq, Structural)]
pub enum EngineError {
    /// The submitted fee is below the configured minimum.
    FeeTooLow,
    /// The caller is neither the order's owner (cancel) nor the reserve payee
    /// (config update).
    Unauthorized,
    /// No open order carries the given id.
    NotFound,
    /// The caller attached less of a native coin than the operation pulls.
    InsufficientAttachedFunds,
    /// The simulated return is below the order's minimum acceptable amount.
    InsufficientReturn,
    /// An amount does not fit the amount type (or a conversion rate of zero
    /// would make it infinite).
    Overflow,
}

/// One cross-system instruction the engine emits. Instructions are dispatched
/// by the host after the invocation's state changes commit, in emission
/// order, under an all-or-nothing transaction.
#[derive(Debug, PartialEq)]
pub enum Instr {
    /// Pull `amount` of the issued token at `token` from `owner` to
    /// `recipient` (the engine's own account).
    TransferFrom { token: String, owner: String, recipient: String, amount: u128 },
    /// Pay `asset` out to `recipient`: a bank-style send for a native coin, a
    /// direct token transfer for an issued token.
    Payout { recipient: String, asset: Asset },
    /// Swap against an exchange pool, in the addressed family's wire shape.
    Swap(SwapInstr),
}

/// The structured record an operation leaves behind.
#[derive(Debug, PartialEq)]
pub enum Event {
    Submitted { order_id: u64, bidder_addr: String, offer_asset: Asset, ask_asset: Asset },
    Cancelled { order_id: u64, refunded_asset: Asset, refunded_fee: Asset },
    Executed { order_id: u64, fee_amount: u128, excess_amount: u128 },
    ConfigUpdated,
}

/// What a successful operation hands back: the instructions to dispatch and
/// the event to record.
#[derive(Debug, PartialEq)]
pub struct EngineResponse {
    pub instructions: Vec<Instr>,
    pub event: Event,
}

/// The engine's whole persistent state: the policy singleton and the order
/// ledger. Nothing else ever mutates either.
#[derive(Debug, PartialEq)]
pub struct State {
    pub config: Config,
    pub ledger: Ledger,
}

impl State {
    pub open spec fn wf(self) -> bool {
        self.ledger.wf()
    }
}

/// The specified effect of one operation: either the error it reports (and no
/// state change), or the new ledger contents, the instructions it emits and
/// the event it records. The config is replaced only by `update_config`,
/// which says so itself.
pub enum Step {
    Fail(EngineError),
    Go { orders: Seq<Order>, last_order_id: u64, instructions: Seq<Instr>, event: Event },
}

/// Whether an exec result and final state agree with a specified step taken
/// from `old_state`.
pub open spec fn follows_step(
    step: Step,
    old_state: State,
    new_state: State,
    r: Result<EngineResponse, EngineError>,
) -> bool {
    match step {
        Step::Fail(e) => r == Err::<EngineResponse, EngineError>(e) && new_state == old_state,
        Step::Go { orders, last_order_id, instructions, event } => {
            &&& r matches Ok(resp) && resp.instructions@ == instructions && resp.event == event
            &&& new_state.ledger.orders@ == orders
            &&& new_state.ledger.last_order_id == last_order_id
            &&& new_state.config == old_state.config
        },
    }
}

/// The inbound instructions that pull `asset` from `sender`: an explicit
/// transfer-from for an issued token; none for a native coin, whose funds
/// already moved along with the invocation itself.
pub open spec fn pull_instrs(asset: Asset, sender: String, self_addr: String) -> Seq<Instr> {
    match asset.kind {
        AssetKind::Issued { contract } => seq![
            Instr::TransferFrom {
                token: contract,
                owner: sender,
                recipient: self_addr,
                amount: asset.amount,
            },
        ],
        AssetKind::Native { .. } => seq![],
    }
}

/// Whether enough of `asset` rides along with the invocation when the asset
/// is native; an issued asset is pulled explicitly and needs nothing
/// attached.
pub open spec fn attached_suffices(asset: Asset, funds: Seq<Coin>) -> bool {
    match asset.kind {
        AssetKind::Native { denom } => attached_amount(funds, denom@) >= asset.amount,
        AssetKind::Issued { .. } => true,
    }
}

/// The specified effect of `submit_order`.
pub open spec fn submit_step(
    config: Config,
    orders: Seq<Order>,
    last_order_id: u64,
    sender: String,
    funds: Seq<Coin>,
    self_addr: String,
    pair_addr: String,
    offer_asset: Asset,
    ask_asset: Asset,
    fee_amount: u128,
    recurring: Option<Recurring>,
) -> Step {
    let included = offer_asset.kind.matches(config.fee_token);
    if fee_amount < config.min_fee_amount {
        Step::Fail(EngineError::FeeTooLow)
    } else if included && offer_asset.amount + fee_amount > u128::MAX {
        Step::Fail(EngineError::Overflow)
    } else {
        let pulled = Asset {
            kind: offer_asset.kind,
            amount: if included {
                (offer_asset.amount + fee_amount) as u128
            } else {
                offer_asset.amount
            },
        };
        let fee_asset = Asset { kind: config.fee_token, amount: fee_amount };
        let pull_fee = !included && fee_amount > 0;
        if !attached_suffices(pulled, funds) {
            Step::Fail(EngineError::InsufficientAttachedFunds)
        } else if pull_fee && !attached_suffices(fee_asset, funds) {
            Step::Fail(EngineError::InsufficientAttachedFunds)
        } else {
            let id = (last_order_id + 1) as u64;
            let new_order = Order {
                order_id: id,
                bidder_addr: sender,
                pair_addr,
                offer_asset,
                ask_asset,
                fee_amount,
                recurring,
            };
            Step::Go {
                orders: orders.push(new_order),
                last_order_id: id,
                instructions: pull_instrs(pulled, sender, self_addr) + if pull_fee {
                    pull_instrs(fee_asset, sender, self_addr)
                } else {
                    seq![]
                },
                event: Event::Submitted {
                    order_id: id,
                    bidder_addr: sender,
                    offer_asset,
                    ask_asset,
                },
            }
        }
    }
}

/// Opens a new order. Checks the fee floor, pulls the offer (augmented by the
/// fee when the offer is the fee asset itself) and, separately, a fee not
/// already included, then persists the order under a fresh id. The stored
/// order records the caller-supplied offer amount: fee bookkeeping is
/// separate from the stored offer.
pub fn submit_order(
    state: &mut State,
    sender: String,
    funds: Vec<Coin>,
    self_addr: String,
    pair_addr: String,
    offer_asset: Asset,
    ask_asset: Asset,
    fee_amount: u128,
    recurring: Option<Recurring>,
) -> (r: Result<EngineResponse, EngineError>)
    requires
        old(state).wf(),
        old(state).ledger.last_order_id < u64::MAX,
    ensures
        final(state).wf(),
        follows_step(
            submit_step(
                old(state).config,
                old(state).ledger.orders@,
                old(state).ledger.last_order_id,
                sender,
                funds@,
                self_addr,
                pair_addr,
                offer_asset,
                ask_asset,
                fee_amount,
                recurring,
            ),
            *old(state),
            *final(state),
            r,
        ),
{
    if fee_amount < state.config.min_fee_amount {
        return Err(EngineError::FeeTooLow);
    }
    let included = offer_asset.kind.same_kind(&state.config.fee_token);
    let pulled_amount: u128 = if included {
        if offer_asset.amount > u128::MAX - fee_amount {
            return Err(EngineError::Overflow);
        }
        offer_asset.amount + fee_amount
    } else {
        offer_asset.amount
    };
    let mut instructions: Vec<Instr> = Vec::new();
    match &offer_asset.kind {
        AssetKind::Native { denom } => {
            if crate::asset::attached_amount_of(&funds, denom) < pulled_amount {
                return Err(EngineError::InsufficientAttachedFunds);
            }
        },
        AssetKind::Issued { contract } => {
            instructions.push(Instr::TransferFrom {
                token: contract.clone(),
                owner: sender.clone(),
                recipient: self_addr.clone(),
                amount: pulled_amount,
            });
        },
    }
    if !included && fee_amount > 0 {
        match &state.config.fee_token {
            AssetKind::Native { denom } => {
                if crate::asset::attached_amount_of(&funds, denom) < fee_amount {
                    return Err(EngineError::InsufficientAttachedFunds);
                }
            },
            AssetKind::Issued { contract } => {
                instructions.push(Instr::TransferFrom {
                    token: contract.clone(),
                    owner: sender.clone(),
                    recipient: self_addr.clone(),
                    amount: fee_amount,
                });
            },
        }
    }
    proof {
        let pulled = Asset { kind: offer_asset.kind, amount: pulled_amount };
        let fee_asset = Asset { kind: state.config.fee_token, amount: fee_amount };
        let pull_fee = !included && fee_amount > 0;
        assert(instructions@ =~= pull_instrs(pulled, sender, self_addr) + if pull_fee {
            pull_instrs(fee_asset, sender, self_addr)
        } else {
            seq![]
        });
    }
    let order = Order {
        order_id: 0,
        bidder_addr: sender.clone(),
        pair_addr,
        offer_asset: offer_asset.dup(),
        ask_asset: ask_asset.dup(),
        fee_amount,
        recurring,
    };
    let id = state.ledger.create(order);
    Ok(EngineResponse {
        instructions,
        event: Event::Submitted { order_id: id, bidder_addr: sender, offer_asset, ask_asset },
    })
}

/// The specified effect of `cancel_order`.
pub open spec fn cancel_step(
    config: Config,
    orders: Seq<Order>,
    last_order_id: u64,
    sender: String,
    order_id: u64,
) -> Step {
    match find_order(orders, order_id) {
        None => Step::Fail(EngineError::NotFound),
        Some(order) => if order.bidder_addr@ != sender@ {
            Step::Fail(EngineError::Unauthorized)
        } else {
            let refund_fee = Asset { kind: config.fee_token, amount: order.fee_amount };
            Step::Go {
                orders: remove_id(orders, order_id),
                last_order_id,
                instructions: seq![
                    Instr::Payout { recipient: order.bidder_addr, asset: order.offer_asset },
                    Instr::Payout { recipient: order.bidder_addr, asset: refund_fee },
                ],
                event: Event::Cancelled {
                    order_id,
                    refunded_asset: order.offer_asset,
                    refunded_fee: refund_fee,
                },
            }
        },
    }
}

/// Cancels an open order: only its owner may. Refunds exactly the stored
/// offer asset and the whole reserved fee to the owner, then deletes the
/// order — the terminal `Cancelled` transition.
pub fn cancel_order(state: &mut State, sender: String, order_id: u64) -> (r: Result<
    EngineResponse,
    EngineError,
>)
    requires
        old(state).wf(),
    ensures
        final(state).wf(),
        follows_step(
            cancel_step(
                old(state).config,
                old(state).ledger.orders@,
                old(state).ledger.last_order_id,
                sender,
                order_id,
            ),
            *old(state),
            *final(state),
            r,
        ),
{
    let order = match state.ledger.get(order_id) {
        None => {
            return Err(EngineError::NotFound);
        },
        Some(o) => o.dup(),
    };
    if !(order.bidder_addr == sender) {
        return Err(EngineError::Unauthorized);
    }
    let refund_fee = Asset { kind: state.config.fee_token.dup(), amount: order.fee_amount };
    let mut instructions: Vec<Instr> = Vec::new();
    instructions.push(Instr::Payout {
        recipient: order.bidder_addr.clone(),
        asset: order.offer_asset.dup(),
    });
    instructions.push(Instr::Payout { recipient: order.bidder_addr, asset: refund_fee.dup() });
    state.ledger.remove(order_id);
    proof {
        let step = cancel_step(
            old(state).config,
            old(state).ledger.orders@,
            old(state).ledger.last_order_id,
            sender,
            order_id,
        );
        assert(instructions@ =~= step->instructions);
    }
    Ok(EngineResponse {
        instructions,
        event: Event::Cancelled {
            order_id,
            refunded_asset: order.offer_asset,
            refunded_fee: refund_fee,
        },
    })
}

/// The offer an execution actually swaps: a native offer is reduced to the
/// net amount the transfer-tax oracle reports as deliverable; an issued offer
/// is used unchanged and the oracle is not consulted.
pub open spec fn effective_offer(order: Order, net_offer_amount: u128) -> Asset {
    if order.offer_asset.kind is Native {
        Asset { kind: order.offer_asset.kind, amount: net_offer_amount }
    } else {
        order.offer_asset
    }
}

/// The successor of a non-terminal recurring execution: proceeds become the
/// offer, the ask amount is implied from the alternating conversion rate, the
/// fee left after this leg's charge is carried forward, and one leg fewer
/// remains. The successor is owned by the executing caller.
pub open spec fn successor_order(order: Order, sender: String, new_id: u64) -> Order
    recommends
        order.recurring is Some,
{
    let rec = order.recurring->Some_0;
    Order {
        order_id: new_id,
        bidder_addr: sender,
        pair_addr: order.pair_addr,
        offer_asset: order.ask_asset,
        ask_asset: Asset {
            kind: order.offer_asset.kind,
            amount: crate::order::inverse_at_price(
                order.ask_asset.amount,
                crate::order::successor_price(rec),
            ) as u128,
        },
        fee_amount: (order.fee_amount - order.charged_fee()) as u128,
        recurring: Some(Recurring { remaining_loop: (rec.remaining_loop - 1) as u64, ..rec }),
    }
}

/// Whether the successor's implied ask amount fits the amount type: the
/// conversion rate is nonzero and the scaled intermediate product fits.
pub open spec fn successor_ask_fits(order: Order) -> bool
    recommends
        order.recurring is Some,
{
    let price = crate::order::successor_price(order.recurring->Some_0);
    price > 0 && order.ask_asset.amount * crate::order::PRICE_ONE <= u128::MAX
}

/// The instructions one execution emits, in emission order: the swap; the
/// payout of the ask to the owner on a terminal leg; the excess, if any, to
/// the reserve; the charged fee, if nonzero, to the reserve.
pub open spec fn execute_instrs(
    config: Config,
    order: Order,
    family: PoolFamily,
    offer: Asset,
    excess: u128,
    charged: u128,
) -> Seq<Instr> {
    let swap = Instr::Swap(
        swap_instr_spec(
            family,
            order.pair_addr,
            offer,
            PriceRatio { num: offer.amount, den: order.ask_asset.amount },
        ),
    );
    seq![swap] + (if order.is_terminal() {
        seq![Instr::Payout { recipient: order.bidder_addr, asset: order.ask_asset }]
    } else {
        seq![]
    }) + (if excess > 0 {
        seq![
            Instr::Payout {
                recipient: config.reserve_addr,
                asset: Asset { kind: order.ask_asset.kind, amount: excess },
            },
        ]
    } else {
        seq![]
    }) + (if charged > 0 {
        seq![
            Instr::Payout {
                recipient: config.reserve_addr,
                asset: Asset { kind: config.fee_token, amount: charged },
            },
        ]
    } else {
        seq![]
    })
}

/// The specified effect of `execute_order`.
pub open spec fn execute_step(
    config: Config,
    orders: Seq<Order>,
    last_order_id: u64,
    sender: String,
    order_id: u64,
    family: PoolFamily,
    net_offer_amount: u128,
    sim: SimulationResponse,
) -> Step {
    match find_order(orders, order_id) {
        None => Step::Fail(EngineError::NotFound),
        Some(order) => if sim.return_amount < order.ask_asset.amount {
            Step::Fail(EngineError::InsufficientReturn)
        } else if !order.is_terminal() && !successor_ask_fits(order) {
            Step::Fail(EngineError::Overflow)
        } else {
            let offer = effective_offer(order, net_offer_amount);
            let charged = order.charged_fee() as u128;
            let excess = (sim.return_amount - order.ask_asset.amount) as u128;
            Step::Go {
                orders: if order.is_terminal() {
                    remove_id(orders, order_id)
                } else {
                    remove_id(orders, order_id).push(
                        successor_order(order, sender, (last_order_id + 1) as u64),
                    )
                },
                last_order_id: if order.is_terminal() {
                    last_order_id
                } else {
                    (last_order_id + 1) as u64
                },
                instructions: execute_instrs(config, order, family, offer, excess, charged),
                event: Event::Executed { order_id, fee_amount: charged, excess_amount: excess },
            }
        },
    }
}

/// Settles an open order against its pool. The caller supplies the pool
/// family tag, the tax oracle's net deliverable amount for a native offer
/// (ignored for an issued offer), and the pool's simulated return. Aborts
/// with no state change when the simulated return is below the ask. Otherwise
/// emits the swap and the payouts, deletes the order, and, on a non-terminal
/// recurring leg, persists the successor under a fresh id instead of paying
/// the owner.
pub fn execute_order(
    state: &mut State,
    sender: String,
    order_id: u64,
    family: PoolFamily,
    net_offer_amount: u128,
    sim: SimulationResponse,
) -> (r: Result<EngineResponse, EngineError>)
    requires
        old(state).wf(),
        old(state).ledger.last_order_id < u64::MAX,
    ensures
        final(state).wf(),
        follows_step(
            execute_step(
                old(state).config,
                old(state).ledger.orders@,
                old(state).ledger.last_order_id,
                sender,
                order_id,
                family,
                net_offer_amount,
                sim,
            ),
            *old(state),
            *final(state),
            r,
        ),
{
    let order = match state.ledger.get(order_id) {
        None => {
            return Err(EngineError::NotFound);
        },
        Some(o) => o.dup(),
    };
    if sim.return_amount < order.ask_asset.amount {
        return Err(EngineError::InsufficientReturn);
    }
    let terminal = order.terminal();

    // The successor's implied ask amount; computed before any state change so
    // that an overflow aborts cleanly.
    let successor_ask: u128 = if !terminal {
        let rec = match &order.recurring {
            Some(rec) => *rec,
            None => unreached(),
        };
        let price = crate::order::successor_price_of(&rec);
        match crate::order::inverse_at_price_checked(order.ask_asset.amount, price) {
            Some(v) => v,
            None => {
                return Err(EngineError::Overflow);
            },
        }
    } else {
        0
    };

    let offer = match &order.offer_asset.kind {
        AssetKind::Native { .. } => Asset {
            kind: order.offer_asset.kind.dup(),
            amount: net_offer_amount,
        },
        AssetKind::Issued { .. } => order.offer_asset.dup(),
    };
    let charged = order.charged_fee_of();
    let excess: u128 = sim.return_amount - order.ask_asset.amount;

    let mut instructions: Vec<Instr> = Vec::new();
    instructions.push(Instr::Swap(crate::adapter::build_swap(
        family,
        order.pair_addr.clone(),
        offer.dup(),
        PriceRatio { num: offer.amount, den: order.ask_asset.amount },
    )));
    if terminal {
        instructions.push(Instr::Payout {
            recipient: order.bidder_addr.clone(),
            asset: order.ask_asset.dup(),
        });
    }
    if excess > 0 {
        instructions.push(Instr::Payout {
            recipient: state.config.reserve_addr.clone(),
            asset: Asset { kind: order.ask_asset.kind.dup(), amount: excess },
        });
    }
    if charged > 0 {
        instructions.push(Instr::Payout {
            recipient: state.config.reserve_addr.clone(),
            asset: Asset { kind: state.config.fee_token.dup(), amount: charged },
        });
    }
    proof {
        assert(instructions@ =~= execute_instrs(
            state.config,
            order,
            family,
            offer,
            excess,
            charged,
        ));
    }

    state.ledger.remove(order_id);
    if !terminal {
        let rec = match &order.recurring {
            Some(rec) => *rec,
            None => unreached(),
        };
        let successor = Order {
            order_id: 0,
            bidder_addr: sender,
            pair_addr: order.pair_addr,
            offer_asset: order.ask_asset,
            ask_asset: Asset { kind: order.offer_asset.kind, amount: successor_ask },
            fee_amount: order.fee_amount - charged,
            recurring: Some(
                Recurring {
                    total_loop: rec.total_loop,
                    remaining_loop: rec.remaining_loop - 1,
                    belief_price: rec.belief_price,
                    swapback_belief_price: rec.swapback_belief_price,
                },
            ),
        };
        state.ledger.create(successor);
    }

    Ok(EngineResponse {
        instructions,
        event: Event::Executed { order_id, fee_amount: charged, excess_amount: excess },
    })
}

} // verus!
