use vstd::prelude::*;
use crate::asset::{Asset, Coin};
use crate::config::Config;
use crate::engine::{cancel_step, execute_step, submit_step, successor_order, Instr, Step};
use crate::ledger::{
    find_order, lemma_find_order_push_fresh, lemma_remove_id_element_of,
    lemma_remove_id_push_fresh, orders_wf,
};
use crate::order::{successor_price, uses_swapback, Order, Recurring};

verus! {

/// Law: cancelling immediately after a successful submission, by the
/// submitter, succeeds, refunds exactly the submitted offer asset and the
/// submitted fee to the owner, deletes the order, and leaves the ledger
/// contents as they were before the submission.
pub proof fn law_cancel_after_submit(
    config: Config,
    orders: Seq<Order>,
    last_order_id: u64,
    sender: String,
    funds: Seq<Coin>,
    self_addr: String,
    pair_addr: String,
    offer_asset: Asset,
    ask_asset: Asset,
    fee_amount: u128,
    recurring: Option<Recurring>,
)
    requires
        orders_wf(orders, last_order_id),
        last_order_id < u64::MAX,
        submit_step(
            config,
            orders,
            last_order_id,
            sender,
            funds,
            self_addr,
            pair_addr,
            offer_asset,
            ask_asset,
            fee_amount,
            recurring,
        ) is Go,
    ensures
        ({
            let sub = submit_step(
                config,
                orders,
                last_order_id,
                sender,
                funds,
                self_addr,
                pair_addr,
                offer_asset,
                ask_asset,
                fee_amount,
                recurring,
            );
            let new_id = (last_order_id + 1) as u64;
            let can = cancel_step(config, sub->orders, sub->last_order_id, sender, new_id);
            &&& can is Go
            &&& can->instructions =~= seq![
                Instr::Payout { recipient: sender, asset: offer_asset },
                Instr::Payout {
                    recipient: sender,
                    asset: Asset { kind: config.fee_token, amount: fee_amount },
                },
            ]
            &&& find_order(can->orders, new_id) is None
            &&& can->orders == orders
        }),
{
    let new_id = (last_order_id + 1) as u64;
    let new_order = Order {
        order_id: new_id,
        bidder_addr: sender,
        pair_addr,
        offer_asset,
        ask_asset,
        fee_amount,
        recurring,
    };
    assert(forall|k: int| 0 <= k < orders.len() ==> orders[k].order_id != new_id);
    lemma_find_order_push_fresh(orders, new_order);
    lemma_remove_id_push_fresh(orders, new_order);
    crate::ledger::lemma_find_order_absent(orders, new_id);
}

/// Law: order ids assigned by a submission are fresh — the counter advances
/// by one, and the new id lies strictly above every id it ever covered, so
/// above every open order's id and above every id already deleted. Hence ids
/// are strictly increasing across submissions and never reused.
pub proof fn law_submit_id_fresh(
    config: Config,
    orders: Seq<Order>,
    last_order_id: u64,
    sender: String,
    funds: Seq<Coin>,
    self_addr: String,
    pair_addr: String,
    offer_asset: Asset,
    ask_asset: Asset,
    fee_amount: u128,
    recurring: Option<Recurring>,
)
    requires
        orders_wf(orders, last_order_id),
        last_order_id < u64::MAX,
    ensures
        ({
            let sub = submit_step(
                config,
                orders,
                last_order_id,
                sender,
                funds,
                self_addr,
                pair_addr,
                offer_asset,
                ask_asset,
                fee_amount,
                recurring,
            );
            sub is Go ==> {
                &&& sub->last_order_id == last_order_id + 1
                &&& orders_wf(sub->orders, sub->last_order_id)
                &&& forall|k: int|
                    0 <= k < orders.len() ==> orders[k].order_id < last_order_id + 1
            }
        }),
{
}

/// Law: the successor of a non-terminal recurring execution carries a fresh
/// id as well — the counter advances by one and the successor's id lies
/// strictly above every id it ever covered, including the id of the order
/// just deleted. A terminal execution leaves the counter unchanged and
/// creates nothing.
pub proof fn law_execute_id_fresh(
    config: Config,
    orders: Seq<Order>,
    last_order_id: u64,
    sender: String,
    order_id: u64,
    family: crate::adapter::PoolFamily,
    net_offer_amount: u128,
    sim: crate::adapter::SimulationResponse,
)
    requires
        orders_wf(orders, last_order_id),
        last_order_id < u64::MAX,
    ensures
        ({
            let step = execute_step(
                config,
                orders,
                last_order_id,
                sender,
                order_id,
                family,
                net_offer_amount,
                sim,
            );
            step is Go ==> {
                &&& step->last_order_id >= last_order_id
                &&& orders_wf(step->orders, step->last_order_id)
                &&& last_order_id < step->last_order_id + 1
                &&& forall|k: int|
                    0 <= k < orders.len() ==> #[trigger] orders[k].order_id <= last_order_id
            }
        }),
{
    let step = execute_step(
        config,
        orders,
        last_order_id,
        sender,
        order_id,
        family,
        net_offer_amount,
        sim,
    );
    if step is Go {
        crate::ledger::lemma_remove_id_keeps_wf(orders, order_id, last_order_id);
        let removed = crate::ledger::remove_id(orders, order_id);
        match find_order(orders, order_id) {
            Some(order) => {
                if !order.is_terminal() {
                    let succ = successor_order(order, sender, (last_order_id + 1) as u64);
                    assert(step->orders == removed.push(succ));
                    assert forall|i: int, j: int|
                        0 <= i < j < step->orders.len() implies step->orders[i].order_id
                        < step->orders[j].order_id by {
                        if j < removed.len() {
                        } else {
                            lemma_remove_id_element_of(orders, order_id, i);
                        }
                    }
                    assert forall|i: int|
                        0 <= i < step->orders.len() implies step->orders[i].order_id <= step
                        ->last_order_id by {
                        if i < removed.len() {
                            lemma_remove_id_element_of(orders, order_id, i);
                        }
                    }
                }
            },
            None => {
            },
        }
    }
}

/// Law: one non-terminal execution charges part of the reserved fee and
/// carries exactly the rest on its successor — no leakage, no double charge.
pub proof fn law_fee_split_conserved(order: Order, sender: String, new_id: u64)
    requires
        !order.is_terminal(),
        order.recurring is Some,
    ensures
        0 <= order.charged_fee() <= order.fee_amount,
        order.charged_fee() + successor_order(order, sender, new_id).fee_amount
            == order.fee_amount,
{
    let rec = order.recurring->Some_0;
    let d = rec.remaining_loop as int + 1;
    assert(0 <= order.fee_amount as int / d <= order.fee_amount) by (nonlinear_arith)
        requires
            d >= 2,
    ;
}

/// Law: over a full three-leg recurring chain (`total_loop` 3, two legs
/// remaining at the start), the three charges sum exactly to the fee reserved
/// on the originating order, to the unit, whatever truncation each division
/// step performs.
pub proof fn law_three_leg_fee_total(
    order: Order,
    sender1: String,
    sender2: String,
    id1: u64,
    id2: u64,
)
    requires
        order.recurring matches Some(rec) && rec.total_loop == 3 && rec.remaining_loop == 2,
    ensures
        ({
            let leg2 = successor_order(order, sender1, id1);
            let leg3 = successor_order(leg2, sender2, id2);
            &&& leg2.recurring->Some_0.remaining_loop == 1
            &&& leg3.recurring->Some_0.remaining_loop == 0
            &&& leg3.is_terminal()
            &&& order.charged_fee() + leg2.charged_fee() + leg3.charged_fee()
                == order.fee_amount
        }),
{
    let leg2 = successor_order(order, sender1, id1);
    law_fee_split_conserved(order, sender1, id1);
    law_fee_split_conserved(leg2, sender2, id2);
}

/// Law: along a recurring chain the implied conversion rate alternates — a
/// leg and its successor never convert at the same side's rate, because the
/// parity of the number of executed legs flips at each step.
pub proof fn law_rate_alternates(order: Order, sender: String, new_id: u64)
    requires
        !order.is_terminal(),
        order.recurring is Some,
    ensures
        ({
            let succ = successor_order(order, sender, new_id);
            uses_swapback(succ.recurring->Some_0) != uses_swapback(order.recurring->Some_0)
        }),
{
    let rec = order.recurring->Some_0;
    let succ_rec = successor_order(order, sender, new_id).recurring->Some_0;
    assert(succ_rec.total_loop == rec.total_loop);
    assert(succ_rec.remaining_loop == rec.remaining_loop - 1);
    let d = rec.total_loop as int - rec.remaining_loop as int;
    lemma_parity_flip(d);
    assert(succ_rec.total_loop as int - succ_rec.remaining_loop as int == d + 1);
}

/// Law: a submission only adds — looking up any id other than the newly
/// assigned one finds exactly the order it found before.
pub proof fn law_submit_mutates_nothing_else(
    config: Config,
    orders: Seq<Order>,
    last_order_id: u64,
    sender: String,
    funds: Seq<Coin>,
    self_addr: String,
    pair_addr: String,
    offer_asset: Asset,
    ask_asset: Asset,
    fee_amount: u128,
    recurring: Option<Recurring>,
    other_id: u64,
)
    requires
        last_order_id < u64::MAX,
        other_id != last_order_id + 1,
        submit_step(
            config,
            orders,
            last_order_id,
            sender,
            funds,
            self_addr,
            pair_addr,
            offer_asset,
            ask_asset,
            fee_amount,
            recurring,
        ) is Go,
    ensures
        ({
            let sub = submit_step(
                config,
                orders,
                last_order_id,
                sender,
                funds,
                self_addr,
                pair_addr,
                offer_asset,
                ask_asset,
                fee_amount,
                recurring,
            );
            find_order(sub->orders, other_id) == find_order(orders, other_id)
        }),
{
    let new_order = Order {
        order_id: (last_order_id + 1) as u64,
        bidder_addr: sender,
        pair_addr,
        offer_asset,
        ask_asset,
        fee_amount,
        recurring,
    };
    crate::ledger::lemma_find_order_push_other(orders, new_order, other_id);
}

/// Law: no operation rewrites an open order in place. After a successful
/// cancellation, looking up any id other than the cancelled one finds exactly
/// the order it found before; the cancelled id is gone for good.
pub proof fn law_cancel_mutates_nothing_else(
    config: Config,
    orders: Seq<Order>,
    last_order_id: u64,
    sender: String,
    order_id: u64,
    other_id: u64,
)
    requires
        orders_wf(orders, last_order_id),
        other_id != order_id,
        cancel_step(config, orders, last_order_id, sender, order_id) is Go,
    ensures
        ({
            let can = cancel_step(config, orders, last_order_id, sender, order_id);
            &&& find_order(can->orders, other_id) == find_order(orders, other_id)
            &&& find_order(can->orders, order_id) is None
        }),
{
    crate::ledger::lemma_find_order_remove_other(orders, order_id, other_id);
    lemma_removed_id_gone(orders, order_id, last_order_id);
}

/// Law: a successful execution removes exactly the executed order — every
/// other previously open order is found unchanged afterwards; the executed id
/// is gone for good, and only the successor, when one is created, is new.
pub proof fn law_execute_mutates_nothing_else(
    config: Config,
    orders: Seq<Order>,
    last_order_id: u64,
    sender: String,
    order_id: u64,
    family: crate::adapter::PoolFamily,
    net_offer_amount: u128,
    sim: crate::adapter::SimulationResponse,
    other_id: u64,
)
    requires
        orders_wf(orders, last_order_id),
        last_order_id < u64::MAX,
        other_id != order_id,
        other_id != last_order_id + 1,
        execute_step(config, orders, last_order_id, sender, order_id, family, net_offer_amount, sim)
            is Go,
    ensures
        ({
            let step = execute_step(
                config,
                orders,
                last_order_id,
                sender,
                order_id,
                family,
                net_offer_amount,
                sim,
            );
            &&& find_order(step->orders, other_id) == find_order(orders, other_id)
            &&& find_order(step->orders, order_id) is None
        }),
{
    let removed = crate::ledger::remove_id(orders, order_id);
    crate::ledger::lemma_find_order_remove_other(orders, order_id, other_id);
    lemma_removed_id_gone(orders, order_id, last_order_id);
    let order = find_order(orders, order_id)->Some_0;
    lemma_find_order_some_is_element(orders, order_id);
    if !order.is_terminal() {
        let succ = successor_order(order, sender, (last_order_id + 1) as u64);
        crate::ledger::lemma_remove_id_keeps_wf(orders, order_id, last_order_id);
        crate::ledger::lemma_find_order_push_other(removed, succ, other_id);
        crate::ledger::lemma_find_order_push_other(removed, succ, order_id);
    }
}

/// A found order is an element of the sequence.
proof fn lemma_find_order_some_is_element(s: Seq<Order>, id: u64)
    requires
        find_order(s, id) is Some,
    ensures
        exists|k: int|
            0 <= k < s.len() && s[k] == find_order(s, id)->Some_0 && s[k].order_id == id,
    decreases s.len(),
{
    if s.len() > 0 && s[0].order_id != id {
        lemma_find_order_some_is_element(s.drop_first(), id);
        let k = choose|k: int|
            0 <= k < s.drop_first().len() && s.drop_first()[k] == find_order(
                s.drop_first(),
                id,
            )->Some_0 && s.drop_first()[k].order_id == id;
        assert(s[k + 1] == s.drop_first()[k]);
    }
}

/// Under unique, counter-bounded ids, a removed id is no longer found.
proof fn lemma_removed_id_gone(s: Seq<Order>, id: u64, last_order_id: u64)
    requires
        orders_wf(s, last_order_id),
    ensures
        find_order(crate::ledger::remove_id(s, id), id) is None,
    decreases s.len(),
{
    if s.len() > 0 {
        if s[0].order_id == id {
            assert(crate::ledger::remove_id(s, id) == s.drop_first());
            assert forall|k: int|
                0 <= k < s.drop_first().len() implies s.drop_first()[k].order_id != id by {
                assert(s.drop_first()[k] == s[k + 1]);
            }
            crate::ledger::lemma_find_order_absent(s.drop_first(), id);
        } else {
            let rest = crate::ledger::remove_id(s.drop_first(), id);
            assert(crate::ledger::remove_id(s, id) == seq![s[0]] + rest);
            assert(forall|k: int|
                0 <= k < s.drop_first().len() ==> s.drop_first()[k] == s[k + 1]);
            lemma_removed_id_gone(s.drop_first(), id, last_order_id);
            assert((seq![s[0]] + rest)[0] == s[0]);
            assert((seq![s[0]] + rest).drop_first() =~= rest);
        }
    }
}

/// Consecutive integers have different parities.
proof fn lemma_parity_flip(x: int)
    ensures
        (x % 2 == 0) != ((x + 1) % 2 == 0),
{
    let q = x / 2;
    vstd::arithmetic::div_mod::lemma_fundamental_div_mod(x, 2);
    vstd::arithmetic::div_mod::lemma_mod_bound(x, 2);
    if x % 2 == 0 {
        vstd::arithmetic::div_mod::lemma_fundamental_div_mod_converse(x + 1, 2, q, 1);
    } else {
        vstd::arithmetic::div_mod::lemma_fundamental_div_mod_converse(x + 1, 2, q + 1, 0);
    }
}

} // verus!
