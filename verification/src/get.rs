//! The operations of the registry client against the public registry at
//! one revision that is fixed here, for callers that need no
//! configuration.

use crate::assets::AssetList;
use crate::chain::ChainInfo;
use crate::fetch::{Listing, ListingKind, Lookup};
use crate::locator::{
    assets_file, chain_file, chain_listing_address, file_address, path_file, path_listing_address,
};
use crate::paths::IBCPath;
use crate::registry::{agent, Ref, Registry, Repo, RepoView};
use vstd::prelude::*;

verus! {

/// The revision that these operations read.
pub const GIT_REF: &'static str = "f96992f3f0eb4248836fca010301d912e56bae0c";

/// The base address of raw files.
pub const RAW_FILE_REPO_URL: &'static str = "https://raw.githubusercontent.com/cosmos/chain-registry";

/// The base address of directory listings.
pub const REPO_URL: &'static str = "https://api.github.com/repos/cosmos/chain-registry/contents";

/// The configuration that these operations read.
pub open spec fn pinned_repo() -> RepoView {
    RepoView { git_ref: GIT_REF@, url: REPO_URL@, raw_file_url: RAW_FILE_REPO_URL@ }
}

/// A client of the public registry at the fixed revision.
pub fn pinned() -> (registry: Registry)
    ensures
        registry.repo.git_ref is SHA,
        registry.repo.deep_view() == pinned_repo(),
{
    Registry {
        repo: Repo {
            git_ref: Ref::SHA(String::from_str(GIT_REF)),
            url: String::from_str(REPO_URL),
            raw_file_url: String::from_str(RAW_FILE_REPO_URL),
        },
    }
}

/// Asks for the names of the chains in the registry.
pub fn list_chains() -> (listing: Listing)
    ensures
        listing.request.url@ == chain_listing_address(pinned_repo()),
        listing.request.user_agent@ == agent(),
        listing.kind == ListingKind::Chains,
{
    pinned().list_chains()
}

/// Asks for the identifiers of the paths in the registry, each in the
/// form `<chain_a>-<chain_b>`.
pub fn list_paths() -> (listing: Listing)
    ensures
        listing.request.url@ == path_listing_address(pinned_repo()),
        listing.request.user_agent@ == agent(),
        listing.kind == ListingKind::Paths,
{
    pinned().list_paths()
}

/// Asks for the asset list of the chain `name`.
pub fn get_assets(name: &str) -> (lookup: Lookup<AssetList>)
    ensures
        lookup.request.url@ == file_address(pinned_repo(), assets_file(name@)),
        lookup.request.user_agent@ == agent(),
{
    pinned().get_assets(name)
}

/// Asks for the descriptor of the chain `name`.
pub fn get_chain(name: &str) -> (lookup: Lookup<ChainInfo>)
    ensures
        lookup.request.url@ == file_address(pinned_repo(), chain_file(name@)),
        lookup.request.user_agent@ == agent(),
{
    pinned().get_chain(name)
}

/// Asks for the descriptor of the path between two chains, named in
/// either order.
pub fn get_path(chain_a: &str, chain_b: &str) -> (lookup: Lookup<IBCPath>)
    ensures
        lookup.request.url@ == file_address(pinned_repo(), path_file(chain_a@, chain_b@)),
        lookup.request.url@ == file_address(pinned_repo(), path_file(chain_b@, chain_a@)),
        lookup.request.user_agent@ == agent(),
{
    pinned().get_path(chain_a, chain_b)
}

} // verus!
