use vstd::prelude::*;
use crate::config::Config;
use crate::engine::{EngineError, State};
use crate::ledger::find_order;
use crate::msg::{
    ConfigResponse, LastOrderIdResponse, OrderBy, OrderResponse, OrdersResponse, QueryMsg,
};
use crate::order::Order;

verus! {

/// Page size of a listing when the caller gives none.
pub const DEFAULT_LIMIT: u32 = 10;

/// Ceiling on the page size of a listing.
pub const MAX_LIMIT: u32 = 30;

pub open spec fn config_response_spec(config: Config) -> ConfigResponse {
    ConfigResponse {
        fee_token: config.fee_token,
        min_fee_amount: config.min_fee_amount,
        min_fee_percent: config.min_fee_percent,
        executor_fee_percent: config.executor_fee_percent,
        reserve_addr: config.reserve_addr,
    }
}

pub open spec fn response_of(o: Order) -> OrderResponse {
    OrderResponse {
        order_id: o.order_id,
        bidder_addr: o.bidder_addr,
        pair_addr: o.pair_addr,
        offer_asset: o.offer_asset,
        ask_asset: o.ask_asset,
        fee_amount: o.fee_amount,
    }
}

pub fn order_response_of(o: &Order) -> (r: OrderResponse)
    ensures
        r == response_of(*o),
{
    OrderResponse {
        order_id: o.order_id,
        bidder_addr: o.bidder_addr.clone(),
        pair_addr: o.pair_addr.clone(),
        offer_asset: o.offer_asset.dup(),
        ask_asset: o.ask_asset.dup(),
        fee_amount: o.fee_amount,
    }
}

/// Whether a listing keeps an order: the owner matches when a filter is
/// given, and the id lies strictly beyond the cursor in the listing
/// direction.
pub open spec fn keeps(
    o: Order,
    bidder: Option<String>,
    start_after: Option<u64>,
    desc: bool,
) -> bool {
    &&& match bidder {
        Some(b) => o.bidder_addr@ == b@,
        None => true,
    }
    &&& match start_after {
        Some(c) => if desc {
            o.order_id < c
        } else {
            o.order_id > c
        },
        None => true,
    }
}

fn keeps_exec(o: &Order, bidder: &Option<String>, start_after: &Option<u64>, desc: bool) -> (r:
    bool)
    ensures
        r == keeps(*o, *bidder, *start_after, desc),
{
    let owner_ok = match bidder {
        Some(b) => o.bidder_addr == *b,
        None => true,
    };
    let cursor_ok = match start_after {
        Some(c) => if desc {
            o.order_id < *c
        } else {
            o.order_id > *c
        },
        None => true,
    };
    owner_ok && cursor_ok
}

/// The first `limit` orders of `s` that the listing keeps, in the order of
/// `s`.
pub open spec fn first_matching(
    s: Seq<Order>,
    bidder: Option<String>,
    start_after: Option<u64>,
    desc: bool,
    limit: nat,
) -> Seq<Order>
    decreases s.len(),
{
    if s.len() == 0 || limit == 0 {
        Seq::empty()
    } else if keeps(s[0], bidder, start_after, desc) {
        seq![s[0]] + first_matching(s.drop_first(), bidder, start_after, desc, (limit - 1) as nat)
    } else {
        first_matching(s.drop_first(), bidder, start_after, desc, limit)
    }
}

/// One page of a listing: the open orders scanned ascending by id, or
/// descending when `desc`, filtered and cut to the page size.
pub open spec fn listed(
    orders: Seq<Order>,
    bidder: Option<String>,
    start_after: Option<u64>,
    desc: bool,
    limit: nat,
) -> Seq<Order> {
    if desc {
        first_matching(orders.reverse(), bidder, start_after, desc, limit)
    } else {
        first_matching(orders, bidder, start_after, desc, limit)
    }
}

pub open spec fn effective_limit(limit: Option<u32>) -> u32 {
    let l = match limit {
        Some(l) => l,
        None => DEFAULT_LIMIT,
    };
    if l > MAX_LIMIT {
        MAX_LIMIT
    } else {
        l
    }
}

/// Collects one page in the given direction.
fn collect_page(
    orders: &Vec<Order>,
    bidder: &Option<String>,
    start_after: &Option<u64>,
    desc: bool,
    lim: usize,
) -> (r: Vec<OrderResponse>)
    ensures
        r@ == listed(orders@, *bidder, *start_after, desc, lim as nat).map_values(
            |o: Order| response_of(o),
        ),
{
    let n = orders.len();
    let mut result: Vec<OrderResponse> = Vec::new();
    let ghost mut taken: Seq<Order> = Seq::empty();
    if !desc {
        let ghost s = orders@;
        let mut i: usize = 0;
        proof {
            assert(s.skip(0) =~= s);
            assert(taken + first_matching(s, *bidder, *start_after, false, lim as nat) =~=
                first_matching(s, *bidder, *start_after, false, lim as nat));
        }
        while i < n && result.len() < lim
            invariant
                i <= n,
                n == s.len(),
                s == orders@,
                result@.len() == taken.len(),
                taken.len() <= lim,
                result@ == taken.map_values(|o: Order| response_of(o)),
                first_matching(s, *bidder, *start_after, false, lim as nat) == taken
                    + first_matching(
                    s.skip(i as int),
                    *bidder,
                    *start_after,
                    false,
                    (lim - taken.len()) as nat,
                ),
            decreases n - i,
        {
            proof {
                assert(s.skip(i as int)[0] == s[i as int]);
                assert(s.skip(i as int).drop_first() =~= s.skip(i as int + 1));
            }
            if keeps_exec(&orders[i], bidder, start_after, false) {
                result.push(order_response_of(&orders[i]));
                proof {
                    let rest = first_matching(
                        s.skip(i as int + 1),
                        *bidder,
                        *start_after,
                        false,
                        (lim - taken.len() - 1) as nat,
                    );
                    assert(taken + (seq![s[i as int]] + rest) =~= taken.push(s[i as int]) + rest);
                    taken = taken.push(s[i as int]);
                    assert(result@ =~= taken.map_values(|o: Order| response_of(o)));
                }
            }
            i = i + 1;
        }
        proof {
            if i == n {
                assert(s.skip(n as int) =~= Seq::<Order>::empty());
            }
            assert(taken + Seq::<Order>::empty() =~= taken);
        }
        result
    } else {
        let ghost s = orders@.reverse();
        let mut j: usize = 0;
        proof {
            assert(s.skip(0) =~= s);
            assert(taken + first_matching(s, *bidder, *start_after, true, lim as nat) =~=
                first_matching(s, *bidder, *start_after, true, lim as nat));
        }
        while j < n && result.len() < lim
            invariant
                j <= n,
                n == orders@.len(),
                s == orders@.reverse(),
                n == s.len(),
                result@.len() == taken.len(),
                taken.len() <= lim,
                result@ == taken.map_values(|o: Order| response_of(o)),
                first_matching(s, *bidder, *start_after, true, lim as nat) == taken
                    + first_matching(
                    s.skip(j as int),
                    *bidder,
                    *start_after,
                    true,
                    (lim - taken.len()) as nat,
                ),
            decreases n - j,
        {
            let idx = n - 1 - j;
            proof {
                assert(s[j as int] == orders@[idx as int]);
                assert(s.skip(j as int)[0] == s[j as int]);
                assert(s.skip(j as int).drop_first() =~= s.skip(j as int + 1));
            }
            if keeps_exec(&orders[idx], bidder, start_after, true) {
                result.push(order_response_of(&orders[idx]));
                proof {
                    let rest = first_matching(
                        s.skip(j as int + 1),
                        *bidder,
                        *start_after,
                        true,
                        (lim - taken.len() - 1) as nat,
                    );
                    assert(taken + (seq![s[j as int]] + rest) =~= taken.push(s[j as int]) + rest);
                    taken = taken.push(s[j as int]);
                    assert(result@ =~= taken.map_values(|o: Order| response_of(o)));
                }
            }
            j = j + 1;
        }
        proof {
            if j == n {
                assert(s.skip(n as int) =~= Seq::<Order>::empty());
            }
            assert(taken + Seq::<Order>::empty() =~= taken);
        }
        result
    }
}

/// Lists open orders, filtered by owner when given, paginated by a
/// strictly-beyond `start_after` id cursor, ascending by id only when
/// explicitly asked, else descending, and cut to the page size.
pub fn query_orders(
    state: &State,
    bidder_addr: Option<String>,
    start_after: Option<u64>,
    limit: Option<u32>,
    order_by: Option<OrderBy>,
) -> (r: OrdersResponse)
    ensures
        ({
            let desc = !(order_by matches Some(OrderBy::Asc));
            r.orders@ == listed(
                state.ledger.orders@,
                bidder_addr,
                start_after,
                desc,
                effective_limit(limit) as nat,
            ).map_values(|o: Order| response_of(o))
        }),
{
    let desc = match order_by {
        Some(OrderBy::Asc) => false,
        _ => true,
    };
    let lim_u32 = match limit {
        Some(l) => if l > MAX_LIMIT {
            MAX_LIMIT
        } else {
            l
        },
        None => DEFAULT_LIMIT,
    };
    let lim = lim_u32 as usize;
    let orders = collect_page(&state.ledger.orders, &bidder_addr, &start_after, desc, lim);
    OrdersResponse { orders }
}

pub fn query_config(state: &State) -> (r: ConfigResponse)
    ensures
        r == config_response_spec(state.config),
{
    ConfigResponse {
        fee_token: state.config.fee_token.dup(),
        min_fee_amount: state.config.min_fee_amount,
        min_fee_percent: state.config.min_fee_percent,
        executor_fee_percent: state.config.executor_fee_percent,
        reserve_addr: state.config.reserve_addr.clone(),
    }
}

pub fn query_order(state: &State, order_id: u64) -> (r: Result<OrderResponse, EngineError>)
    ensures
        match find_order(state.ledger.orders@, order_id) {
            Some(o) => r == Ok::<OrderResponse, EngineError>(response_of(o)),
            None => r == Err::<OrderResponse, EngineError>(EngineError::NotFound),
        },
{
    match state.ledger.get(order_id) {
        Some(o) => Ok(order_response_of(o)),
        None => Err(EngineError::NotFound),
    }
}

pub fn query_last_order_id(state: &State) -> (r: LastOrderIdResponse)
    ensures
        r == (LastOrderIdResponse { last_order_id: state.ledger.last_order_id }),
{
    LastOrderIdResponse { last_order_id: state.ledger.last_order_id }
}

/// One read-only answer, in the shape of the query that asked for it.
#[derive(Debug, PartialEq)]
pub enum QueryAnswer {
    Config(ConfigResponse),
    Order(OrderResponse),
    Orders(OrdersResponse),
    LastOrderId(LastOrderIdResponse),
}

/// Dispatches one read-only query.
pub fn query(state: &State, msg: QueryMsg) -> (r: Result<QueryAnswer, EngineError>)
    ensures
        match msg {
            QueryMsg::Config {  } => r matches Ok(QueryAnswer::Config(c)) && c
                == config_response_spec(state.config),
            QueryMsg::Order { order_id } => match find_order(state.ledger.orders@, order_id) {
                Some(o) => r matches Ok(QueryAnswer::Order(resp)) && resp == response_of(o),
                None => r == Err::<QueryAnswer, EngineError>(EngineError::NotFound),
            },
            QueryMsg::Orders { bidder_addr, start_after, limit, order_by } => {
                let desc = !(order_by matches Some(OrderBy::Asc));
                r matches Ok(QueryAnswer::Orders(resp)) && resp.orders@ == listed(
                    state.ledger.orders@,
                    bidder_addr,
                    start_after,
                    desc,
                    effective_limit(limit) as nat,
                ).map_values(|o: Order| response_of(o))
            },
            QueryMsg::LastOrderId {  } => r == Ok::<QueryAnswer, EngineError>(
                QueryAnswer::LastOrderId(
                    LastOrderIdResponse { last_order_id: state.ledger.last_order_id },
                ),
            ),
        },
{
    match msg {
        QueryMsg::Config {  } => Ok(QueryAnswer::Config(query_config(state))),
        QueryMsg::Order { order_id } => match query_order(state, order_id) {
            Ok(resp) => Ok(QueryAnswer::Order(resp)),
            Err(e) => Err(e),
        },
        QueryMsg::Orders { bidder_addr, start_after, limit, order_by } => Ok(
            QueryAnswer::Orders(query_orders(state, bidder_addr, start_after, limit, order_by)),
        ),
        QueryMsg::LastOrderId {  } => Ok(QueryAnswer::LastOrderId(query_last_order_id(state))),
    }
}

} // verus!
