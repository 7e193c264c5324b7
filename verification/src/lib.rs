//! Verified core of the RIO holder and supply service.
//!
//! The service asks the public indexers of three chains (Algorand,
//! Ethereum, Stellar) how many accounts hold RIO and how large its supply
//! is there, and answers with the sum over the three chains.  The network
//! calls, the JSON decoding and the HTTP server live outside this library;
//! what stays here is every decision that the service makes on the values
//! it received: how the paginated Algorand listing is walked and counted,
//! which figures of each chain's answer count as holders and supply, which
//! headers go with each request, and how the per-chain figures add up.
pub mod chains;
pub mod combined;
pub mod request;

pub use chains::algorand::{
    AlgoSupply, Algoholder, AlgorandHolderScan, AlgorandStep, Asset, Balance, Params,
};
pub use chains::stellar::{TomlInfo, Trustlines};
pub use combined::CombinedData;
