//! Stellar: which figures of the asset's statistics count.
use vstd::prelude::*;

verus! {

/// The trustlines to the Stellar asset.
#[derive(Clone, Copy, Debug, PartialEq, Eq, Structural)]
pub struct Trustlines {
    pub total: i64,
    pub authorized: i64,
    pub funded: i64,
}

/// The issuer's published information about the Stellar asset.
#[derive(Clone, Debug)]
pub struct TomlInfo {
    pub org_name: String,
    pub org_logo: String,
    pub name: String,
    pub image: String,
    pub decimals: i64,
}

/// The (holders, supply) figures of Stellar: the holders are the funded
/// trustlines (not all of them, nor the authorized ones), the supply is the
/// asset's supply as the statistics report it.
pub fn stellar_figures(trustlines: &Trustlines, supply: i64) -> (r: (i64, i64))
    ensures
        r == (trustlines.funded, supply),
{
    (trustlines.funded, supply)
}

} // verus!
