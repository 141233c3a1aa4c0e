use chain_registry::builder::{Event, OnFailure};
use chain_registry::cache::PathCache;
use chain_registry::fetch::Reply;
use chain_registry::listing::{DirectoryEntry, EntryKind};
use chain_registry::paths::{Chain1, Chain2, Channel, IBCPath, Tag, Tags};

fn lane(dex: &str, status: &str) -> Channel {
    Channel {
        tags: Tags { dex: dex.to_string(), status: status.to_string(), ..Tags::default() },
        ..Channel::default()
    }
}

fn path_between(first: &str, second: &str, channels: Vec<Channel>) -> IBCPath {
    IBCPath {
        chain_1: Chain1 { chain_name: first.to_string(), ..Chain1::default() },
        chain_2: Chain2 { chain_name: second.to_string(), ..Chain2::default() },
        channels,
        ..IBCPath::default()
    }
}

/// A cache built from paths that are listed and found in the given order.
fn cache_of(paths: Vec<(&str, &str, IBCPath)>) -> PathCache {
    let listing = paths
        .iter()
        .map(|(a, b, _)| DirectoryEntry { name: format!("{a}-{b}.json"), kind: EntryKind::File })
        .collect();
    let replies = paths
        .into_iter()
        .map(|(_, _, path)| Reply::Received { status: 200, body: Ok(path) })
        .collect();
    PathCache::build(usize::MAX, OnFailure::Skip)
        .step(Event::Listed(Reply::Received { status: 200, body: Ok(listing) }))
        .step(Event::Fetched(replies))
        .finish()
        .unwrap()
}

fn sample_paths() -> Vec<(&'static str, &'static str, IBCPath)> {
    vec![
        ("cosmoshub", "osmosis", path_between("cosmoshub", "osmosis", vec![lane("osmosis", "live")])),
        ("juno", "akash", path_between("akash", "juno", vec![lane("", "live")])),
        (
            "osmosis",
            "juno",
            path_between("juno", "osmosis", vec![lane("", "killed"), lane("osmosis", "live")]),
        ),
        ("akash", "cosmoshub", path_between("akash", "cosmoshub", Vec::new())),
    ]
}

fn sample_cache() -> PathCache {
    cache_of(sample_paths())
}

#[test]
fn new_cache_is_empty() {
    let cache = PathCache::new();
    assert_eq!(cache.len(), 0);
    assert_eq!(cache.get("cosmoshub", "osmosis"), None);
    assert!(cache.filter(Tag::Preferred(false)).is_empty());
}

#[test]
fn get_finds_a_path_in_either_order() {
    let cache = sample_cache();
    assert_eq!(cache.len(), 4);
    let forward = cache.get("cosmoshub", "osmosis");
    let backward = cache.get("osmosis", "cosmoshub");
    assert_eq!(forward, backward);
    assert_eq!(forward, Some(path_between("cosmoshub", "osmosis", vec![lane("osmosis", "live")])));
    assert_eq!(cache.get("akash", "juno"), cache.get("juno", "akash"));
    assert_eq!(cache.get("akash", "juno").unwrap().chain_2.chain_name, "juno");
    assert_eq!(cache.get("akash", "osmosis"), None);
    assert_eq!(cache.get("osmosis", "osmosis"), None);
    assert_eq!(cache.get("", ""), None);
}

#[test]
fn later_path_replaces_the_path_of_the_same_two_chains() {
    let mut paths = sample_paths();
    paths.push((
        "osmosis",
        "cosmoshub",
        path_between("cosmoshub", "osmosis", vec![lane("other", "upcoming")]),
    ));
    let cache = cache_of(paths);
    assert_eq!(cache.len(), 4);
    assert_eq!(
        cache.get("cosmoshub", "osmosis"),
        Some(path_between("cosmoshub", "osmosis", vec![lane("other", "upcoming")]))
    );
    // the replaced path keeps its place in the order of the cache
    let live = cache.filter(Tag::Status("upcoming".to_string()));
    assert_eq!(live.len(), 1);
    let all = cache.filter(Tag::Preferred(false));
    assert_eq!(all[0].chain_1.chain_name, "cosmoshub");
    // the others are as they were
    assert_eq!(cache.get("akash", "juno"), sample_cache().get("akash", "juno"));
    assert_eq!(cache.get("juno", "osmosis"), sample_cache().get("juno", "osmosis"));
    assert_eq!(cache.get("akash", "cosmoshub"), sample_cache().get("akash", "cosmoshub"));
}

#[test]
fn filter_selects_paths_with_a_matching_channel() {
    let cache = sample_cache();
    let dex = cache.filter(Tag::Dex("osmosis".to_string()));
    assert_eq!(
        dex,
        vec![
            path_between("cosmoshub", "osmosis", vec![lane("osmosis", "live")]),
            path_between("juno", "osmosis", vec![lane("", "killed"), lane("osmosis", "live")]),
        ]
    );
    let killed = cache.filter(Tag::Status("killed".to_string()));
    assert_eq!(killed.len(), 1);
    assert_eq!(killed[0].chain_1.chain_name, "juno");
    let none = cache.filter(Tag::Dex("sifchain".to_string()));
    assert!(none.is_empty());
    // a path without channels matches no tag
    let plain = cache.filter(Tag::Preferred(false));
    assert_eq!(plain.len(), 3);
    assert!(cache.filter(Tag::Preferred(true)).is_empty());
    assert!(cache.filter(Tag::Properties("x".to_string())).is_empty());
    assert_eq!(cache.filter(Tag::Properties(String::new())).len(), 3);
}

#[test]
fn filter_keeps_the_order_of_insertion() {
    let cache = sample_cache();
    let live = cache.filter(Tag::Status("live".to_string()));
    let names: Vec<(String, String)> = live
        .iter()
        .map(|p| (p.chain_1.chain_name.clone(), p.chain_2.chain_name.clone()))
        .collect();
    assert_eq!(
        names,
        vec![
            ("cosmoshub".to_string(), "osmosis".to_string()),
            ("akash".to_string(), "juno".to_string()),
            ("juno".to_string(), "osmosis".to_string()),
        ]
    );
    // asking twice gives the same
    assert_eq!(cache.filter(Tag::Status("live".to_string())), live);
}

#[test]
fn filter_is_exactly_the_paths_that_have_the_tag() {
    let cache = sample_cache();
    let pairs = [
        ("cosmoshub", "osmosis"),
        ("akash", "juno"),
        ("juno", "osmosis"),
        ("akash", "cosmoshub"),
    ];
    for tag in [
        Tag::Dex("osmosis".to_string()),
        Tag::Dex(String::new()),
        Tag::Status("live".to_string()),
        Tag::Status("killed".to_string()),
        Tag::Preferred(false),
        Tag::Preferred(true),
    ] {
        let chosen = cache.filter(tag.clone());
        for (a, b) in pairs.iter() {
            let path = cache.get(a, b).unwrap();
            assert_eq!(chosen.contains(&path), path.has_tag(&tag));
        }
        for path in chosen.iter() {
            assert!(path.has_tag(&tag));
        }
    }
}
