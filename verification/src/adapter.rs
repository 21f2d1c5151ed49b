use vstd::prelude::*;
use crate::asset::{Asset, AssetKind};

verus! {

/// The default ceiling on acceptable spread, 0.5% in fixed-point atomics at
/// scale `crate::order::PRICE_ONE`. One pool family applies this value as its
/// own default while the other checks nothing when no ceiling is given, so
/// every swap instruction carries it explicitly to keep behaviour the same
/// across families.
pub const MAX_SPREAD: u128 = 5_000_000_000_000_000;

/// Which external exchange protocol the target pool speaks. The tag is
/// supplied at execution time and is not stored on the order; a tag
/// inconsistent with the pool address leaves the pool to reject the
/// mistranslated message.
#[derive(Clone, Copy, Debug, PartialEq, Eq, Structural)]
pub enum PoolFamily {
    /// Two protocol families that share one wire schema; assets pass through
    /// in their internal representation.
    Standard,
    /// A family with a different asset representation: native assets keyed by
    /// bare denomination, issued assets by bare contract address.
    Alternate,
}

/// A pool's answer to a simulation query, already normalized: both families
/// answer with the same three amounts.
#[derive(Clone, Copy, Debug, PartialEq, Eq, Structural)]
pub struct SimulationResponse {
    pub return_amount: u128,
    pub spread_amount: u128,
    pub commission_amount: u128,
}

/// A belief price expressed as the exact ratio `num / den`; the engine never
/// divides it out, the wire encoding does.
#[derive(Clone, Copy, Debug, PartialEq, Eq, Structural)]
pub struct PriceRatio {
    pub num: u128,
    pub den: u128,
}

/// The alternate family's wire shape of an asset.
#[derive(Debug, PartialEq)]
pub enum AltAsset {
    Native { denom: String, amount: u128 },
    Contract { contract: String, amount: u128 },
}

/// The translation of an internal asset into the alternate family's shape.
pub open spec fn alt_of(asset: Asset) -> AltAsset {
    match asset.kind {
        AssetKind::Native { denom } => AltAsset::Native { denom, amount: asset.amount },
        AssetKind::Issued { contract } => AltAsset::Contract { contract, amount: asset.amount },
    }
}

pub fn to_alt_asset(asset: &Asset) -> (r: AltAsset)
    ensures
        r == alt_of(*asset),
{
    match &asset.kind {
        AssetKind::Native { denom } => AltAsset::Native {
            denom: denom.clone(),
            amount: asset.amount,
        },
        AssetKind::Issued { contract } => AltAsset::Contract {
            contract: contract.clone(),
            amount: asset.amount,
        },
    }
}

/// A simulation query in the wire shape of the addressed family. The host
/// sends it to the pool and hands the normalized answer back to the engine.
#[derive(Debug, PartialEq)]
pub enum SimRequest {
    Standard { pair_addr: String, offer: Asset },
    Alternate { pair_addr: String, offer: AltAsset },
}

pub open spec fn sim_request_spec(family: PoolFamily, pair_addr: String, offer: Asset) -> SimRequest {
    match family {
        PoolFamily::Standard => SimRequest::Standard { pair_addr, offer },
        PoolFamily::Alternate => SimRequest::Alternate { pair_addr, offer: alt_of(offer) },
    }
}

/// Normalizes the simulate operation: one entry point, two wire schemas.
pub fn build_sim_request(family: PoolFamily, pair_addr: String, offer: &Asset) -> (r: SimRequest)
    ensures
        r == sim_request_spec(family, pair_addr, *offer),
{
    match family {
        PoolFamily::Standard => SimRequest::Standard { pair_addr, offer: offer.dup() },
        PoolFamily::Alternate => SimRequest::Alternate { pair_addr, offer: to_alt_asset(offer) },
    }
}

/// A swap instruction in the wire shape of the addressed family.
#[derive(Debug, PartialEq)]
pub enum SwapInstr {
    /// Issued offer: a token `send` of the amount to the pool carrying an
    /// embedded swap hook; one hook schema serves both families.
    Hook {
        token: String,
        pair_addr: String,
        amount: u128,
        belief_price: PriceRatio,
        max_spread: u128,
    },
    /// Native offer against the standard family: the coin is attached and the
    /// offer rides in the message in its internal shape.
    StandardNative {
        pair_addr: String,
        offer: Asset,
        belief_price: PriceRatio,
        max_spread: u128,
    },
    /// Native offer against the alternate family: the offer is translated to
    /// the alternate shape.
    AlternateNative {
        pair_addr: String,
        offer: AltAsset,
        belief_price: PriceRatio,
        max_spread: u128,
    },
}

pub open spec fn swap_instr_spec(
    family: PoolFamily,
    pair_addr: String,
    offer: Asset,
    belief_price: PriceRatio,
) -> SwapInstr {
    match offer.kind {
        AssetKind::Issued { contract } => SwapInstr::Hook {
            token: contract,
            pair_addr,
            amount: offer.amount,
            belief_price,
            max_spread: MAX_SPREAD,
        },
        AssetKind::Native { denom } => match family {
            PoolFamily::Standard => SwapInstr::StandardNative {
                pair_addr,
                offer,
                belief_price,
                max_spread: MAX_SPREAD,
            },
            PoolFamily::Alternate => SwapInstr::AlternateNative {
                pair_addr,
                offer: alt_of(offer),
                belief_price,
                max_spread: MAX_SPREAD,
            },
        },
    }
}

/// Normalizes the swap operation: one entry point, two wire schemas, selected
/// by the family tag and by the offer's asset kind.
pub fn build_swap(
    family: PoolFamily,
    pair_addr: String,
    offer: Asset,
    belief_price: PriceRatio,
) -> (r: SwapInstr)
    ensures
        r == swap_instr_spec(family, pair_addr, offer, belief_price),
{
    let Asset { kind, amount } = offer;
    match kind {
        AssetKind::Issued { contract } => SwapInstr::Hook {
            token: contract,
            pair_addr,
            amount,
            belief_price,
            max_spread: MAX_SPREAD,
        },
        AssetKind::Native { denom } => match family {
            PoolFamily::Standard => SwapInstr::StandardNative {
                pair_addr,
                offer: Asset { kind: AssetKind::Native { denom }, amount },
                belief_price,
                max_spread: MAX_SPREAD,
            },
            PoolFamily::Alternate => SwapInstr::AlternateNative {
                pair_addr,
                offer: AltAsset::Native { denom, amount },
                belief_price,
                max_spread: MAX_SPREAD,
            },
        },
    }
}

} // verus!
