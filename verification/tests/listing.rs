use chain_registry::listing::{chains_in, paths_in, DirectoryEntry, EntryKind};

fn directory(name: &str) -> DirectoryEntry {
    DirectoryEntry { name: name.to_string(), kind: EntryKind::Directory }
}

fn file(name: &str) -> DirectoryEntry {
    DirectoryEntry { name: name.to_string(), kind: EntryKind::File }
}

fn root_listing() -> Vec<DirectoryEntry> {
    vec![
        directory(".github"),
        file(".gitignore"),
        file("README.md"),
        directory("_IBC"),
        directory("_non-cosmos"),
        directory("osmosis"),
        directory("cosmoshub"),
        file("chain.schema.json"),
        directory("akash"),
        directory(".githubx"),
        directory(""),
    ]
}

#[test]
fn chains_are_the_plain_directories() {
    let names = chains_in(&root_listing());
    assert_eq!(names, vec!["osmosis", "cosmoshub", "akash", ".githubx", ""]);
}

#[test]
fn chains_keep_the_order_of_the_listing() {
    let listing = vec![directory("zeta"), directory("alpha"), directory("mu")];
    assert_eq!(chains_in(&listing), vec!["zeta", "alpha", "mu"]);
}

#[test]
fn no_chain_begins_with_an_underscore_or_is_the_hosting_directory() {
    for name in chains_in(&root_listing()) {
        assert!(!name.starts_with('_'));
        assert_ne!(name, ".github");
    }
}

#[test]
fn paths_are_the_json_files() {
    let listing = vec![
        file("akash-cosmoshub.json"),
        file("cosmoshub-osmosis.json"),
        file("_template.json"),
        file("README.md"),
        directory("archive.json"),
        file(".json"),
        file("juno-osmosis.JSON"),
        file("juno-osmosis.json"),
    ];
    assert_eq!(
        paths_in(&listing),
        vec!["akash-cosmoshub", "cosmoshub-osmosis", "", "juno-osmosis"]
    );
}

#[test]
fn no_path_identifier_keeps_the_suffix() {
    let listing = vec![
        file("akash-cosmoshub.json"),
        file("cosmoshub-osmosis.json"),
        file("juno-osmosis.json"),
    ];
    let ids = paths_in(&listing);
    assert_eq!(ids.len(), 3);
    for id in ids {
        assert!(!id.ends_with(".json"));
    }
}

#[test]
fn only_one_suffix_is_taken_off() {
    let listing = vec![file("a-b.json.json")];
    assert_eq!(paths_in(&listing), vec!["a-b.json"]);
}

#[test]
fn empty_listing_names_nothing() {
    let listing: Vec<DirectoryEntry> = Vec::new();
    assert!(chains_in(&listing).is_empty());
    assert!(paths_in(&listing).is_empty());
}
