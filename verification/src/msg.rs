use vstd::prelude::*;
use crate::adapter::PoolFamily;
use crate::asset::{Asset, AssetKind};
use crate::order::Recurring;

verus! {

/// Payload that initializes the engine: the initial policy record. The order
/// id counter starts at zero.
#[derive(Debug, PartialEq)]
pub struct InstantiateMsg {
    pub fee_token: AssetKind,
    pub min_fee_amount: u128,
    pub min_fee_percent: u128,
    pub executor_fee_percent: u128,
    pub reserve_addr: String,
}

/// The state-changing entry operations.
#[derive(Debug, PartialEq)]
pub enum ExecuteMsg {
    /// Replaces the whole policy record; only the current reserve payee may.
    UpdateConfig {
        fee_token: AssetKind,
        min_fee_amount: u128,
        min_fee_percent: u128,
        executor_fee_percent: u128,
        reserve_addr: String,
    },
    /// Opens a new order. The caller must have attached (native) or approved
    /// (issued) the offer asset and the fee beforehand.
    SubmitOrder {
        pair_addr: String,
        offer_asset: Asset,
        ask_asset: Asset,
        fee_amount: u128,
        recurring: Option<Recurring>,
    },
    /// Owner operation: cancels an existing order.
    CancelOrder { order_id: u64 },
    /// Executor operation: settles an existing order against the pool family
    /// named by the tag.
    ExecuteOrder { order_id: u64, family: PoolFamily },
}

/// The read-only queries.
#[derive(Debug, PartialEq)]
pub enum QueryMsg {
    Config {},
    Order { order_id: u64 },
    Orders {
        bidder_addr: Option<String>,
        start_after: Option<u64>,
        limit: Option<u32>,
        order_by: Option<OrderBy>,
    },
    LastOrderId {},
}

/// The current policy record.
#[derive(Debug, PartialEq)]
pub struct ConfigResponse {
    pub fee_token: AssetKind,
    pub min_fee_amount: u128,
    pub min_fee_percent: u128,
    pub executor_fee_percent: u128,
    pub reserve_addr: String,
}

/// One open order, as the query surface reports it.
#[derive(Debug, PartialEq)]
pub struct OrderResponse {
    pub order_id: u64,
    pub bidder_addr: String,
    pub pair_addr: String,
    pub offer_asset: Asset,
    pub ask_asset: Asset,
    pub fee_amount: u128,
}

#[derive(Debug, PartialEq)]
pub struct OrdersResponse {
    pub orders: Vec<OrderResponse>,
}

#[derive(Debug, PartialEq)]
pub struct LastOrderIdResponse {
    pub last_order_id: u64,
}

/// Listing direction, by order id.
#[derive(Clone, Copy, Debug, PartialEq, Eq, Structural)]
pub enum OrderBy {
    Asc,
    Desc,
}

/// Migration payload; a migration changes nothing.
#[derive(Debug, PartialEq)]
pub struct MigrateMsg {}

} // verus!
