use vstd::prelude::*;

verus! {

/// The identity of a transferable asset: either a chain-native coin, known by
/// its denomination, or a token issued by a contract, known by that contract's
/// address. The tag is immutable once an order is created; the two kinds have
/// different transfer semantics (native coins ride along with an invocation,
/// issued tokens move by explicit transfer instructions).
#[derive(Debug, PartialEq)]
pub enum AssetKind {
    Native { denom: String },
    Issued { contract: String },
}

/// A quantity of one asset.
#[derive(Debug, PartialEq)]
pub struct Asset {
    pub kind: AssetKind,
    pub amount: u128,
}

/// A native coin attached to an invocation by the caller.
#[derive(Debug, PartialEq)]
pub struct Coin {
    pub denom: String,
    pub amount: u128,
}

impl AssetKind {
    /// Identity of two asset kinds: the same variant carrying the same
    /// denomination or contract address.
    pub open spec fn matches(self, other: AssetKind) -> bool {
        match (self, other) {
            (AssetKind::Native { denom: a }, AssetKind::Native { denom: b }) => a@ == b@,
            (AssetKind::Issued { contract: a }, AssetKind::Issued { contract: b }) => a@ == b@,
            _ => false,
        }
    }

    pub fn same_kind(&self, other: &AssetKind) -> (r: bool)
        ensures
            r == self.matches(*other),
    {
        match (self, other) {
            (AssetKind::Native { denom: a }, AssetKind::Native { denom: b }) => *a == *b,
            (AssetKind::Issued { contract: a }, AssetKind::Issued { contract: b }) => *a == *b,
            _ => false,
        }
    }

    /// An explicit copy; the result equals `*self`.
    pub fn dup(&self) -> (r: AssetKind)
        ensures
            r == *self,
    {
        match self {
            AssetKind::Native { denom } => AssetKind::Native { denom: denom.clone() },
            AssetKind::Issued { contract } => AssetKind::Issued { contract: contract.clone() },
        }
    }
}

impl Asset {
    /// An explicit copy; the result equals `*self`.
    pub fn dup(&self) -> (r: Asset)
        ensures
            r == *self,
    {
        Asset { kind: self.kind.dup(), amount: self.amount }
    }
}

/// The amount of the first attached coin of the given denomination, or zero
/// when none is attached. Only the first matching coin counts: callers are
/// expected to attach each denomination once.
pub open spec fn attached_amount(funds: Seq<Coin>, denom: Seq<char>) -> u128
    decreases funds.len(),
{
    if funds.len() == 0 {
        0
    } else if funds[0].denom@ == denom {
        funds[0].amount
    } else {
        attached_amount(funds.drop_first(), denom)
    }
}

/// Looks up the first attached coin of the given denomination.
pub fn attached_amount_of(funds: &Vec<Coin>, denom: &String) -> (r: u128)
    ensures
        r == attached_amount(funds@, denom@),
{
    let mut i: usize = 0;
    assert(funds@.skip(0) =~= funds@);
    while i < funds.len()
        invariant
            i <= funds.len(),
            attached_amount(funds@, denom@) == attached_amount(funds@.skip(i as int), denom@),
        decreases funds.len() - i,
    {
        assert(funds@.skip(i as int)[0] == funds@[i as int]);
        if funds[i].denom == *denom {
            return funds[i].amount;
        }
        assert(funds@.skip(i as int).drop_first() =~= funds@.skip(i as int + 1));
        i = i + 1;
    }
    assert(funds@.skip(i as int) =~= Seq::<Coin>::empty());
    0
}

} // verus!
