use chain_registry::fetch::{ListingKind, Reply};
use chain_registry::get::{
    get_assets, get_chain, get_path, list_chains, list_paths, pinned, GIT_REF, RAW_FILE_REPO_URL,
    REPO_URL,
};
use chain_registry::registry::Ref;

#[test]
fn pinned_configuration() {
    assert_eq!(GIT_REF, "f96992f3f0eb4248836fca010301d912e56bae0c");
    assert_eq!(RAW_FILE_REPO_URL, "https://raw.githubusercontent.com/cosmos/chain-registry");
    assert_eq!(REPO_URL, "https://api.github.com/repos/cosmos/chain-registry/contents");
    let registry = pinned();
    assert_eq!(registry.repo.git_ref, Ref::SHA(GIT_REF.to_string()));
    assert_eq!(registry.repo.url, REPO_URL);
    assert_eq!(registry.repo.raw_file_url, RAW_FILE_REPO_URL);
}

#[test]
fn pinned_listings() {
    let chains = list_chains();
    assert_eq!(
        chains.request.url,
        "https://api.github.com/repos/cosmos/chain-registry/contents?ref=f96992f3f0eb4248836fca010301d912e56bae0c"
    );
    assert_eq!(chains.kind, ListingKind::Chains);
    let paths = list_paths();
    assert_eq!(
        paths.request.url,
        "https://api.github.com/repos/cosmos/chain-registry/contents/_IBC?ref=f96992f3f0eb4248836fca010301d912e56bae0c"
    );
    assert_eq!(paths.kind, ListingKind::Paths);
}

#[test]
fn pinned_lookups() {
    assert_eq!(
        get_chain("cosmoshub").request.url,
        "https://raw.githubusercontent.com/cosmos/chain-registry/f96992f3f0eb4248836fca010301d912e56bae0c/cosmoshub/chain.json"
    );
    assert_eq!(
        get_assets("cosmoshub").request.url,
        "https://raw.githubusercontent.com/cosmos/chain-registry/f96992f3f0eb4248836fca010301d912e56bae0c/cosmoshub/assetlist.json"
    );
    assert_eq!(
        get_path("osmosis", "cosmoshub").request.url,
        "https://raw.githubusercontent.com/cosmos/chain-registry/f96992f3f0eb4248836fca010301d912e56bae0c/_IBC/cosmoshub-osmosis.json"
    );
    assert_eq!(get_path("osmosis", "cosmoshub"), get_path("cosmoshub", "osmosis"));
}

#[test]
fn pinned_path_not_present_is_absent() {
    let chain_a = "fake";
    let chain_b = "osmosis";
    let result = get_path(chain_b, chain_a)
        .finish(Reply::Received { status: 404, body: Err(String::new()) })
        .unwrap();
    assert!(result.is_none())
}
