//! The list of assets that a chain recognises.
//!
//! These are records exactly as the registry publishes them; the library
//! hands them through and reads none of their fields.

use vstd::prelude::*;

verus! {

/// The assets of one chain. A field that the registry leaves out is
/// empty or zero.
#[derive(Clone, Debug, Default, PartialEq, Eq)]
pub struct AssetList {
    pub schema: String,
    pub chain_name: String,
    pub assets: Vec<Asset>,
}

/// One asset: its denominations, its names and where its logo is found.
#[derive(Clone, Debug, Default, PartialEq, Eq)]
pub struct Asset {
    pub description: String,
    pub denom_units: Vec<DenomUnit>,
    pub base: String,
    pub name: String,
    pub display: String,
    pub symbol: String,
    pub logo_uris: LogoURIs,
    pub coingecko_id: String,
}

/// One denomination of an asset: ten to the power of `exponent` of the
/// base denomination, with the other names it goes by.
#[derive(Clone, Debug, Default, PartialEq, Eq)]
pub struct DenomUnit {
    pub denom: String,
    pub exponent: u16,
    pub aliases: Vec<String>,
}

/// Where the logo of an asset is found, by image format.
#[derive(Clone, Debug, Default, PartialEq, Eq)]
pub struct LogoURIs {
    pub png: String,
    pub svg: String,
}

} // verus!
