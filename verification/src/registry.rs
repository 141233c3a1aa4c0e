//! The registry client: which revision of the registry is read, where it
//! is hosted, and the operations that read it.
//!
//! Each operation names the request to send and is finished with the
//! reply that came back; see [`crate::fetch`].

use crate::assets::AssetList;
use crate::chain::ChainInfo;
use crate::fetch::{Listing, ListingKind, Lookup, Request};
use crate::locator::{
    assets_file, assets_file_name, chain_file, chain_file_name, chain_listing_address,
    chain_listing_url, file_address, file_url, path_file, path_file_name, path_listing_address,
    path_listing_url,
};
use crate::paths::IBCPath;
use std::marker::PhantomData;
use vstd::prelude::*;

verus! {

/// The version by which this client identifies itself.
pub const VERSION: &'static str = "0.1.0";

/// Which revision of the registry is read.
#[derive(Debug, PartialEq, Eq)]
pub enum Ref {
    /// The newest revision: the head of the main branch.
    Latest,
    /// One fixed revision, by its hash.
    SHA(String),
}

impl Ref {
    /// The name of the revision as addresses spell it: the main branch
    /// for the newest revision, the hash itself for a fixed one.
    pub open spec fn resolved(&self) -> Seq<char> {
        match self {
            Ref::Latest => "master"@,
            Ref::SHA(sha) => sha@,
        }
    }

    /// The name of the revision as addresses spell it.
    pub fn to_string(&self) -> (name: String)
        ensures
            name@ == self.resolved(),
    {
        match self {
            Ref::Latest => String::from_str("master"),
            Ref::SHA(sha) => sha.clone(),
        }
    }
}

/// Where the registry is hosted and which revision of it is read.
#[derive(Debug, PartialEq, Eq)]
pub struct Repo {
    /// The revision.
    pub git_ref: Ref,
    /// The base address of directory listings.
    pub url: String,
    /// The base address of raw files.
    pub raw_file_url: String,
}

/// The mathematical content of [`Repo`]: the three strings that
/// addresses are made of.
pub struct RepoView {
    pub git_ref: Seq<char>,
    pub url: Seq<char>,
    pub raw_file_url: Seq<char>,
}

impl DeepView for Repo {
    type V = RepoView;

    open spec fn deep_view(&self) -> RepoView {
        RepoView {
            git_ref: self.git_ref.resolved(),
            url: self.url@,
            raw_file_url: self.raw_file_url@,
        }
    }
}

/// The configuration that is used where none is given: the public
/// registry at one fixed revision.
pub open spec fn default_repo() -> RepoView {
    RepoView {
        git_ref: "1ec726b7308a71ce0cb02916b1929979c6f2e39d"@,
        url: "https://api.github.com/repos/cosmos/chain-registry/contents"@,
        raw_file_url: "https://raw.githubusercontent.com/cosmos/chain-registry"@,
    }
}

impl Default for Repo {
    fn default() -> (repo: Self)
        ensures
            repo.git_ref is SHA,
            repo.deep_view() == default_repo(),
    {
        Repo {
            git_ref: Ref::SHA(String::from_str("1ec726b7308a71ce0cb02916b1929979c6f2e39d")),
            url: String::from_str("https://api.github.com/repos/cosmos/chain-registry/contents"),
            raw_file_url: String::from_str(
                "https://raw.githubusercontent.com/cosmos/chain-registry",
            ),
        }
    }
}

/// The text by which requests identify this client.
pub open spec fn agent() -> Seq<char> {
    "ocular/"@ + VERSION@
}

/// The text by which requests identify this client.
pub fn user_agent() -> (text: String)
    ensures
        text@ == agent(),
{
    let mut text = String::from_str("ocular/");
    text.append(VERSION);
    text
}

/// A client of one registry.
#[derive(Debug, PartialEq, Eq)]
pub struct Registry {
    pub repo: Repo,
}

impl Registry {
    /// A client of the registry that `repo` describes, or of the default
    /// registry where none is given.
    pub fn new(repo: Option<Repo>) -> (registry: Self)
        ensures
            match repo {
                Some(given) => registry.repo == given,
                None => registry.repo.git_ref is SHA && registry.repo.deep_view() == default_repo(),
            },
    {
        match repo {
            Some(given) => Registry { repo: given },
            None => Registry { repo: Repo::default() },
        }
    }

    /// Asks for the names of the chains in the registry.
    pub fn list_chains(&self) -> (listing: Listing)
        ensures
            listing.request.url@ == chain_listing_address(self.repo.deep_view()),
            listing.request.user_agent@ == agent(),
            listing.kind == ListingKind::Chains,
    {
        Listing {
            request: Request { url: chain_listing_url(&self.repo), user_agent: user_agent() },
            kind: ListingKind::Chains,
        }
    }

    /// Asks for the identifiers of the paths in the registry, each in the
    /// form `<chain_a>-<chain_b>`.
    pub fn list_paths(&self) -> (listing: Listing)
        ensures
            listing.request.url@ == path_listing_address(self.repo.deep_view()),
            listing.request.user_agent@ == agent(),
            listing.kind == ListingKind::Paths,
    {
        Listing {
            request: Request { url: path_listing_url(&self.repo), user_agent: user_agent() },
            kind: ListingKind::Paths,
        }
    }

    /// Asks for the asset list of the chain `name`.
    pub fn get_assets(&self, name: &str) -> (lookup: Lookup<AssetList>)
        ensures
            lookup.request.url@ == file_address(self.repo.deep_view(), assets_file(name@)),
            lookup.request.user_agent@ == agent(),
    {
        let file = assets_file_name(name);
        Lookup {
            request: Request { url: file_url(&self.repo, file.as_str()), user_agent: user_agent() },
            target: PhantomData,
        }
    }

    /// Asks for the descriptor of the chain `name`.
    pub fn get_chain(&self, name: &str) -> (lookup: Lookup<ChainInfo>)
        ensures
            lookup.request.url@ == file_address(self.repo.deep_view(), chain_file(name@)),
            lookup.request.user_agent@ == agent(),
    {
        let file = chain_file_name(name);
        Lookup {
            request: Request { url: file_url(&self.repo, file.as_str()), user_agent: user_agent() },
            target: PhantomData,
        }
    }

    /// Asks for the descriptor of the path between two chains, named in
    /// either order.
    pub fn get_path(&self, chain_a: &str, chain_b: &str) -> (lookup: Lookup<IBCPath>)
        ensures
            lookup.request.url@ == file_address(self.repo.deep_view(), path_file(chain_a@, chain_b@)),
            lookup.request.url@ == file_address(self.repo.deep_view(), path_file(chain_b@, chain_a@)),
            lookup.request.user_agent@ == agent(),
    {
        proof {
            crate::locator::lemma_path_order_independent(self.repo.deep_view(), chain_a@, chain_b@);
        }
        let file = path_file_name(chain_a, chain_b);
        Lookup {
            request: Request { url: file_url(&self.repo, file.as_str()), user_agent: user_agent() },
            target: PhantomData,
        }
    }
}

} // verus!
