//! The combined holders and supply of the three chains.
use vstd::prelude::*;

verus! {

/// Holders and supply of RIO, for one chain or summed over several.
#[derive(Clone, Copy, Debug, PartialEq, Eq, Structural)]
pub struct CombinedData {
    pub holders: i64,
    pub supply: i64,
}

/// Mathematical sum of two (holders, supply) pairs.
pub open spec fn pair_sum(a: (int, int), b: (int, int)) -> (int, int) {
    (a.0 + b.0, a.1 + b.1)
}

/// Whether an integer is a value of `i64`.
pub open spec fn fits_i64(x: int) -> bool {
    i64::MIN <= x <= i64::MAX
}

impl View for CombinedData {
    type V = (int, int);

    open spec fn view(&self) -> (int, int) {
        (self.holders as int, self.supply as int)
    }
}

impl CombinedData {
    /// The figures of one chain, as a (holders, supply) pair.
    pub fn from_figures(figures: (i64, i64)) -> (r: CombinedData)
        ensures
            r.holders == figures.0,
            r.supply == figures.1,
    {
        CombinedData { holders: figures.0, supply: figures.1 }
    }

    /// Field-wise sum of two records.  Overflow of either field is left
    /// out: integer addition panics there.
    pub fn add(self, rhs: CombinedData) -> (r: CombinedData)
        requires
            fits_i64(self.holders + rhs.holders),
            fits_i64(self.supply + rhs.supply),
        ensures
            r@ == pair_sum(self@, rhs@),
            r.holders == self.holders + rhs.holders,
            r.supply == self.supply + rhs.supply,
    {
        CombinedData { holders: self.holders + rhs.holders, supply: self.supply + rhs.supply }
    }
}

/// The totals over the three chains, added in the order Algorand,
/// Ethereum, Stellar.  An overflow in either running sum is left out.
pub fn total_of_chains(algorand: (i64, i64), ethereum: (i64, i64), stellar: (i64, i64)) -> (r:
    CombinedData)
    requires
        fits_i64(algorand.0 + ethereum.0),
        fits_i64(algorand.1 + ethereum.1),
        fits_i64(algorand.0 + ethereum.0 + stellar.0),
        fits_i64(algorand.1 + ethereum.1 + stellar.1),
    ensures
        r.holders == algorand.0 + ethereum.0 + stellar.0,
        r.supply == algorand.1 + ethereum.1 + stellar.1,
{
    let a = CombinedData::from_figures(algorand);
    let e = CombinedData::from_figures(ethereum);
    let s = CombinedData::from_figures(stellar);
    a.add(e).add(s)
}

/// The sum of two records is the integer sum of their holders and the
/// integer sum of their supplies.
pub proof fn lemma_sum_is_field_wise_addition(x: (int, int), y: (int, int))
    ensures
        pair_sum(x, y).0 == x.0 + y.0,
        pair_sum(x, y).1 == x.1 + y.1,
{
}

/// Adding records does not depend on their order.
pub proof fn lemma_sum_commutes(a: CombinedData, b: CombinedData)
    ensures
        pair_sum(a@, b@) == pair_sum(b@, a@),
{
}

/// Adding records does not depend on how they are grouped.
pub proof fn lemma_sum_associates(a: CombinedData, b: CombinedData, c: CombinedData)
    ensures
        pair_sum(pair_sum(a@, b@), c@) == pair_sum(a@, pair_sum(b@, c@)),
{
}

/// A chain with no holders and no supply leaves a total unchanged.
pub proof fn lemma_sum_zero(a: CombinedData)
    ensures
        pair_sum(a@, (0int, 0int)) == a@,
        pair_sum((0int, 0int), a@) == a@,
{
}

} // verus!
