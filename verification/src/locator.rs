//! Where each resource of the registry is found: pure construction of
//! addresses from a repository configuration and a logical request.
//!
//! The path between two chains has one name whatever the order in which
//! the chains are given: the two chain names in the order of strings,
//! joined by a hyphen.

use crate::registry::{Repo, RepoView};
use crate::text::{
    first_index_of, le, lemma_first_index_of, lemma_first_index_of_is,
    lemma_precedes_antisymmetric, lemma_precedes_total, precedes, split_at_first, split_once,
};
use vstd::prelude::*;

verus! {

/// The address of the listing of chains.
pub open spec fn chain_listing_address(repo: RepoView) -> Seq<char> {
    repo.url + "?ref="@ + repo.git_ref
}

/// The address of the listing of path identifiers.
pub open spec fn path_listing_address(repo: RepoView) -> Seq<char> {
    repo.url + "/_IBC?ref="@ + repo.git_ref
}

/// The address of a file of the registry, given by its place in the tree.
pub open spec fn file_address(repo: RepoView, file: Seq<char>) -> Seq<char> {
    repo.raw_file_url + "/"@ + repo.git_ref + "/"@ + file
}

/// The place of a chain's descriptor in the tree.
pub open spec fn chain_file(name: Seq<char>) -> Seq<char> {
    name + "/chain.json"@
}

/// The place of a chain's asset list in the tree.
pub open spec fn assets_file(name: Seq<char>) -> Seq<char> {
    name + "/assetlist.json"@
}

/// Of two names, the one that comes first in the order of strings.
pub open spec fn lower(a: Seq<char>, b: Seq<char>) -> Seq<char> {
    if precedes(a, b) {
        a
    } else {
        b
    }
}

/// Of two names, the one that comes last in the order of strings.
pub open spec fn upper(a: Seq<char>, b: Seq<char>) -> Seq<char> {
    if precedes(a, b) {
        b
    } else {
        a
    }
}

/// The pair of two names in the order of strings: the key under which
/// the path between the two chains is known.
pub open spec fn canonical_pair(a: Seq<char>, b: Seq<char>) -> (Seq<char>, Seq<char>) {
    (lower(a, b), upper(a, b))
}

/// The identifier of the path between two chains.
pub open spec fn path_name(a: Seq<char>, b: Seq<char>) -> Seq<char> {
    lower(a, b) + "-"@ + upper(a, b)
}

/// The place of a path's descriptor in the tree.
pub open spec fn path_file(a: Seq<char>, b: Seq<char>) -> Seq<char> {
    "_IBC/"@ + path_name(a, b) + ".json"@
}

/// The two chain names that a path identifier was made of: what stands
/// before its first hyphen and what stands after it.
pub open spec fn path_chains(id: Seq<char>) -> Option<(Seq<char>, Seq<char>)> {
    split_at_first(id, '-')
}

/// The canonical pair of two names does not depend on the order in which
/// they are given, and its first name comes no later than its second.
pub proof fn lemma_canonical_pair(a: Seq<char>, b: Seq<char>)
    ensures
        canonical_pair(a, b) == canonical_pair(b, a),
        precedes(canonical_pair(a, b).0, canonical_pair(a, b).1),
        canonical_pair(a, b) == (a, b) || canonical_pair(a, b) == (b, a),
{
    lemma_precedes_total(a, b);
    if precedes(a, b) && precedes(b, a) {
        lemma_precedes_antisymmetric(a, b);
    }
}

/// The path between two chains has the same identifier, the same place
/// in the tree and the same address whichever chain is named first.
pub proof fn lemma_path_order_independent(repo: RepoView, a: Seq<char>, b: Seq<char>)
    ensures
        path_name(a, b) == path_name(b, a),
        path_file(a, b) == path_file(b, a),
        file_address(repo, path_file(a, b)) == file_address(repo, path_file(b, a)),
{
    lemma_canonical_pair(a, b);
}

/// An identifier made of two names, the first of them without a hyphen,
/// splits back into those two names in their canonical order.
pub proof fn lemma_path_chains_of_path_name(a: Seq<char>, b: Seq<char>)
    requires
        first_index_of(lower(a, b), '-') is None,
    ensures
        path_chains(path_name(a, b)) == Some(canonical_pair(a, b)),
{
    reveal_strlit("-");
    let lo = lower(a, b);
    let id = path_name(a, b);
    lemma_first_index_of(lo, '-');
    assert forall|j: int| 0 <= j < lo.len() implies id[j] != '-' by {}
    lemma_first_index_of_is(id, '-', lo.len() as int);
}

/// The address of the listing of chains.
pub fn chain_listing_url(repo: &Repo) -> (url: String)
    ensures
        url@ == chain_listing_address(repo.deep_view()),
{
    let mut url = repo.url.clone();
    url.append("?ref=");
    url.append(repo.git_ref.to_string().as_str());
    url
}

/// The address of the listing of path identifiers.
pub fn path_listing_url(repo: &Repo) -> (url: String)
    ensures
        url@ == path_listing_address(repo.deep_view()),
{
    let mut url = repo.url.clone();
    url.append("/_IBC?ref=");
    url.append(repo.git_ref.to_string().as_str());
    url
}

/// The address of a file of the registry, given by its place in the tree.
pub fn file_url(repo: &Repo, file: &str) -> (url: String)
    ensures
        url@ == file_address(repo.deep_view(), file@),
{
    let mut url = repo.raw_file_url.clone();
    url.append("/");
    url.append(repo.git_ref.to_string().as_str());
    url.append("/");
    url.append(file);
    url
}

/// The place of a chain's descriptor in the tree.
pub fn chain_file_name(name: &str) -> (file: String)
    ensures
        file@ == chain_file(name@),
{
    let mut file = String::from_str(name);
    file.append("/chain.json");
    file
}

/// The place of a chain's asset list in the tree.
pub fn assets_file_name(name: &str) -> (file: String)
    ensures
        file@ == assets_file(name@),
{
    let mut file = String::from_str(name);
    file.append("/assetlist.json");
    file
}

/// The two names in the order of strings.
pub fn ordered<'a>(chain_a: &'a str, chain_b: &'a str) -> (pair: (&'a str, &'a str))
    ensures
        (pair.0@, pair.1@) == canonical_pair(chain_a@, chain_b@),
{
    if le(chain_a, chain_b) {
        (chain_a, chain_b)
    } else {
        (chain_b, chain_a)
    }
}

/// The identifier of the path between two chains.
pub fn path_id(chain_a: &str, chain_b: &str) -> (id: String)
    ensures
        id@ == path_name(chain_a@, chain_b@),
{
    let (lo, hi) = ordered(chain_a, chain_b);
    let mut id = String::from_str(lo);
    id.append("-");
    id.append(hi);
    id
}

/// The place of a path's descriptor in the tree.
pub fn path_file_name(chain_a: &str, chain_b: &str) -> (file: String)
    ensures
        file@ == path_file(chain_a@, chain_b@),
{
    let mut file = String::from_str("_IBC/");
    file.append(path_id(chain_a, chain_b).as_str());
    file.append(".json");
    file
}

/// The two chain names of a path identifier, as listed.
pub fn chains_of(id: &str) -> (pair: Option<(String, String)>)
    ensures
        match pair {
            Some((a, b)) => path_chains(id@) == Some((a@, b@)),
            None => path_chains(id@) is None,
        },
{
    split_once(id, '-')
}

} // verus!
