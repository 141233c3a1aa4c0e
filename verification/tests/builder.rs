use chain_registry::builder::{Action, CacheBuild, Event, OnFailure, Skipped, Stage};
use chain_registry::cache::PathCache;
use chain_registry::fetch::{Error, Reply};
use chain_registry::listing::{DirectoryEntry, EntryKind};
use chain_registry::paths::{Chain1, Chain2, Channel, IBCPath, Tag, Tags};
use chain_registry::registry::{Ref, Registry, Repo};

const RAW: &str = "https://raw.example/registry/rev1/_IBC/";

fn test_registry() -> Registry {
    Registry::new(Some(Repo {
        git_ref: Ref::SHA("rev1".to_string()),
        url: "https://api.example/contents".to_string(),
        raw_file_url: "https://raw.example/registry".to_string(),
    }))
}

fn json_file(name: &str) -> DirectoryEntry {
    DirectoryEntry { name: name.to_string(), kind: EntryKind::File }
}

fn descriptor(first: &str, second: &str, dex: &str) -> IBCPath {
    IBCPath {
        chain_1: Chain1 { chain_name: first.to_string(), ..Chain1::default() },
        chain_2: Chain2 { chain_name: second.to_string(), ..Chain2::default() },
        channels: vec![Channel {
            tags: Tags { dex: dex.to_string(), ..Tags::default() },
            ..Channel::default()
        }],
        ..IBCPath::default()
    }
}

fn found(path: IBCPath) -> Reply<IBCPath> {
    Reply::Received { status: 200, body: Ok(path) }
}

/// What the remote side answers for the address of a path file.
fn remote(url: &str) -> Reply<IBCPath> {
    let file = url.strip_prefix(RAW).expect("a path address");
    match file {
        "akash-cosmoshub.json" => found(descriptor("akash", "cosmoshub", "")),
        "akash-osmosis.json" => found(descriptor("akash", "osmosis", "osmosis")),
        "cosmoshub-osmosis.json" => found(descriptor("cosmoshub", "osmosis", "osmosis")),
        "cosmoshub-juno.json" => found(descriptor("cosmoshub", "juno", "junoswap")),
        "juno-osmosis.json" => Reply::Received { status: 200, body: Err("bad field".to_string()) },
        "juno-sifchain.json" => Reply::Received { status: 500, body: Err(String::new()) },
        "osmosis-terra.json" => Reply::Failed("reset by peer".to_string()),
        _ => Reply::Received { status: 404, body: Err(String::new()) },
    }
}

fn listed(names: &[&str]) -> Reply<Vec<DirectoryEntry>> {
    Reply::Received { status: 200, body: Ok(names.iter().map(|n| json_file(n)).collect()) }
}

/// Runs a build that skips failures to its end and returns it with the
/// size of each batch.
fn drive(limit: usize, listing: Reply<Vec<DirectoryEntry>>) -> (CacheBuild, Vec<usize>) {
    drive_with(limit, OnFailure::Skip, listing)
}

/// Runs a build to its end and returns it with the size of each batch.
fn drive_with(
    limit: usize,
    on_failure: OnFailure,
    listing: Reply<Vec<DirectoryEntry>>,
) -> (CacheBuild, Vec<usize>) {
    let registry = test_registry();
    let mut build = PathCache::build(limit, on_failure);
    let mut listing = Some(listing);
    let mut batches = Vec::new();
    loop {
        let event = match build.action(&registry) {
            Action::List(request) => {
                assert_eq!(build.stage(), Stage::Listing);
                assert_eq!(request.request.url, "https://api.example/contents/_IBC?ref=rev1");
                Event::Listed(listing.take().expect("one listing"))
            }
            Action::Fetch(lookups) => {
                assert_eq!(build.stage(), Stage::Fetching);
                batches.push(lookups.len());
                Event::Fetched(lookups.iter().map(|l| remote(&l.request.url)).collect())
            }
            Action::Done => {
                assert_eq!(build.stage(), Stage::Finished);
                return (build, batches);
            }
        };
        build = build.step(event);
    }
}

const ALL: [&str; 8] = [
    "akash-cosmoshub.json",
    "akash-osmosis.json",
    "cosmoshub-osmosis.json",
    "cosmoshub-juno.json",
    "juno-osmosis.json",
    "juno-sifchain.json",
    "osmosis-terra.json",
    "gone-vanished.json",
];

#[test]
fn build_caches_every_path_that_is_found() {
    let (build, _) = drive(3, listed(&ALL));
    let cache = build.finish().unwrap();
    assert_eq!(cache.len(), 4);
    assert_eq!(cache.get("akash", "cosmoshub"), Some(descriptor("akash", "cosmoshub", "")));
    assert_eq!(cache.get("osmosis", "akash"), Some(descriptor("akash", "osmosis", "osmosis")));
    assert_eq!(
        cache.get("osmosis", "cosmoshub"),
        Some(descriptor("cosmoshub", "osmosis", "osmosis"))
    );
    assert_eq!(cache.get("juno", "cosmoshub"), Some(descriptor("cosmoshub", "juno", "junoswap")));
    assert_eq!(cache.get("juno", "osmosis"), None);
    assert_eq!(cache.get("gone", "vanished"), None);
}

#[test]
fn cache_answers_as_the_direct_lookup_did() {
    let registry = test_registry();
    let (build, _) = drive(2, listed(&ALL));
    let cache = build.finish().unwrap();
    let pairs = [
        ("akash", "cosmoshub"),
        ("akash", "osmosis"),
        ("cosmoshub", "osmosis"),
        ("cosmoshub", "juno"),
        ("gone", "vanished"),
    ];
    for (a, b) in pairs.iter() {
        let lookup = registry.get_path(a, b);
        let reply = remote(&lookup.request.url);
        assert_eq!(Ok(cache.get(a, b)), lookup.finish(reply));
        assert_eq!(cache.get(b, a), cache.get(a, b));
    }
}

#[test]
fn filter_after_build() {
    let (build, _) = drive(4, listed(&ALL));
    let cache = build.finish().unwrap();
    let osmosis = cache.filter(Tag::Dex("osmosis".to_string()));
    assert_eq!(
        osmosis,
        vec![descriptor("akash", "osmosis", "osmosis"), descriptor("cosmoshub", "osmosis", "osmosis")]
    );
    assert_eq!(
        cache.filter(Tag::Dex("junoswap".to_string())),
        vec![descriptor("cosmoshub", "juno", "junoswap")]
    );
    assert!(cache.filter(Tag::Dex("sifchain".to_string())).is_empty());
}

#[test]
fn failed_items_are_noted_and_missing_ones_dropped() {
    let (build, _) = drive(3, listed(&ALL));
    assert_eq!(
        build.skipped(),
        &vec![
            Skipped::Failed {
                chain_a: "juno".to_string(),
                chain_b: "osmosis".to_string(),
                error: Error::Malformed("bad field".to_string()),
            },
            Skipped::Failed {
                chain_a: "juno".to_string(),
                chain_b: "sifchain".to_string(),
                error: Error::Status(500),
            },
            Skipped::Failed {
                chain_a: "osmosis".to_string(),
                chain_b: "terra".to_string(),
                error: Error::Transport("reset by peer".to_string()),
            },
        ]
    );
    assert!(build.finish().is_ok());
}

#[test]
fn batches_hold_at_most_the_limit() {
    for limit in [1usize, 2, 3, 5, 8, 9, 100] {
        let (build, batches) = drive(limit, listed(&ALL));
        assert!(batches.iter().all(|n| 1 <= *n && *n <= limit));
        assert_eq!(batches.iter().sum::<usize>(), 8);
        assert_eq!(batches.len(), (8 + limit - 1) / limit);
        assert_eq!(build.finish().unwrap().len(), 4);
    }
}

#[test]
fn limit_of_zero_counts_as_one() {
    let (build, batches) = drive(0, listed(&ALL));
    assert_eq!(batches, vec![1; 8]);
    assert_eq!(build.finish().unwrap().len(), 4);
}

#[test]
fn result_does_not_depend_on_the_limit() {
    let (one, _) = drive(1, listed(&ALL));
    let (many, _) = drive(50, listed(&ALL));
    assert_eq!(one.skipped(), many.skipped());
    assert_eq!(one.finish(), many.finish());
}

#[test]
fn failed_listing_ends_the_build() {
    let (build, batches) = drive(4, Reply::Failed("no route".to_string()));
    assert!(batches.is_empty());
    assert_eq!(build.finish(), Err(Error::Transport("no route".to_string())));
    let (build, _) = drive(4, Reply::Received { status: 404, body: Ok(Vec::new()) });
    assert_eq!(build.finish(), Err(Error::Status(404)));
    let (build, _) = drive(4, Reply::Received { status: 200, body: Err("eof".to_string()) });
    assert_eq!(build.finish(), Err(Error::Malformed("eof".to_string())));
}

#[test]
fn empty_listing_builds_an_empty_cache() {
    let (build, batches) = drive(4, listed(&[]));
    assert!(batches.is_empty());
    assert!(build.skipped().is_empty());
    assert_eq!(build.finish().unwrap().len(), 0);
}

#[test]
fn identifier_without_two_chains_is_noted() {
    let (build, batches) =
        drive(4, listed(&["akash-cosmoshub.json", "orphan.json", "README.md", "_x-y.json"]));
    assert_eq!(batches, vec![1]);
    assert_eq!(build.skipped(), &vec![Skipped::Unreadable("orphan".to_string())]);
    assert_eq!(build.finish().unwrap().len(), 1);
}

#[test]
fn listed_order_is_put_in_canonical_order() {
    // the listing names the pair against the order of strings
    let registry = test_registry();
    let build = PathCache::build(4, OnFailure::Skip).step(Event::Listed(listed(&["osmosis-cosmoshub.json"])));
    match build.action(&registry) {
        Action::Fetch(lookups) => {
            assert_eq!(lookups.len(), 1);
            assert_eq!(
                lookups[0].request.url,
                "https://raw.example/registry/rev1/_IBC/cosmoshub-osmosis.json"
            );
        }
        _ => panic!("a batch is due"),
    }
    let build = build.step(Event::Fetched(vec![found(descriptor("cosmoshub", "osmosis", "x"))]));
    let cache = build.finish().unwrap();
    assert_eq!(cache.get("osmosis", "cosmoshub"), Some(descriptor("cosmoshub", "osmosis", "x")));
}

#[test]
fn events_out_of_turn_change_nothing() {
    let registry = test_registry();
    // a batch before the listing
    let build = PathCache::build(2, OnFailure::Skip).step(Event::Fetched(vec![found(descriptor("a", "b", ""))]));
    assert_eq!(build.stage(), Stage::Listing);
    let build = build.step(Event::Listed(listed(&["a-b.json", "c-d.json", "e-f.json"])));
    assert_eq!(build.stage(), Stage::Fetching);
    // a second listing
    let build = build.step(Event::Listed(listed(&["x-y.json"])));
    match build.action(&registry) {
        Action::Fetch(lookups) => assert_eq!(lookups.len(), 2),
        _ => panic!("a batch is due"),
    }
    // a batch of the wrong size
    let build = build.step(Event::Fetched(vec![found(descriptor("a", "b", ""))]));
    let build = build.step(Event::Fetched(Vec::new()));
    match build.action(&registry) {
        Action::Fetch(lookups) => {
            assert_eq!(lookups.len(), 2);
            assert_eq!(lookups[0].request.url, "https://raw.example/registry/rev1/_IBC/a-b.json");
            assert_eq!(lookups[1].request.url, "https://raw.example/registry/rev1/_IBC/c-d.json");
        }
        _ => panic!("a batch is due"),
    }
    let build = build.step(Event::Fetched(vec![
        found(descriptor("a", "b", "")),
        Reply::Received { status: 404, body: Err(String::new()) },
    ]));
    match build.action(&registry) {
        Action::Fetch(lookups) => {
            assert_eq!(lookups.len(), 1);
            assert_eq!(lookups[0].request.url, "https://raw.example/registry/rev1/_IBC/e-f.json");
        }
        _ => panic!("a batch is due"),
    }
    let build = build.step(Event::Fetched(vec![found(descriptor("e", "f", ""))]));
    assert_eq!(build.stage(), Stage::Finished);
    // anything after the end
    let build = build.step(Event::Fetched(vec![found(descriptor("g", "h", ""))]));
    let build = build.step(Event::Listed(listed(&["x-y.json"])));
    assert_eq!(build.stage(), Stage::Finished);
    let cache = build.finish().unwrap();
    assert_eq!(cache.len(), 2);
    assert_eq!(cache.get("a", "b"), Some(descriptor("a", "b", "")));
    assert_eq!(cache.get("e", "f"), Some(descriptor("e", "f", "")));
    assert_eq!(cache.get("c", "d"), None);
}

#[test]
fn pair_listed_twice_keeps_the_later_answer() {
    let build = PathCache::build(8, OnFailure::Skip).step(Event::Listed(listed(&["a-b.json", "c-d.json", "b-a.json"])));
    let build = build.step(Event::Fetched(vec![
        found(descriptor("a", "b", "first")),
        found(descriptor("c", "d", "")),
        found(descriptor("a", "b", "second")),
    ]));
    let cache = build.finish().unwrap();
    assert_eq!(cache.len(), 2);
    assert_eq!(cache.get("a", "b"), Some(descriptor("a", "b", "second")));
    let all = cache.filter(Tag::Preferred(false));
    assert_eq!(all[0].chain_1.chain_name, "a");
    assert_eq!(all[1].chain_1.chain_name, "c");
}

#[test]
fn ending_early_gives_what_was_found_so_far() {
    let build = PathCache::build(1, OnFailure::Skip);
    assert_eq!(build.stage(), Stage::Listing);
    let build = build.step(Event::Listed(listed(&["a-b.json", "c-d.json"])));
    let build = build.step(Event::Fetched(vec![found(descriptor("a", "b", ""))]));
    assert_eq!(build.stage(), Stage::Fetching);
    let cache = build.finish().unwrap();
    assert_eq!(cache.len(), 1);
    assert_eq!(PathCache::build(1, OnFailure::Skip).finish().unwrap().len(), 0);
}

#[test]
fn abort_ends_the_build_with_the_first_error() {
    // the fifth path is the first whose fetch fails
    let (build, batches) = drive_with(2, OnFailure::Abort, listed(&ALL));
    assert_eq!(batches, vec![2, 2, 2]);
    assert_eq!(
        build.skipped(),
        &vec![
            Skipped::Failed {
                chain_a: "juno".to_string(),
                chain_b: "osmosis".to_string(),
                error: Error::Malformed("bad field".to_string()),
            },
            Skipped::Failed {
                chain_a: "juno".to_string(),
                chain_b: "sifchain".to_string(),
                error: Error::Status(500),
            },
        ]
    );
    assert_eq!(build.finish(), Err(Error::Malformed("bad field".to_string())));
}

#[test]
fn abort_does_not_end_the_build_for_a_missing_path() {
    let names = ["akash-cosmoshub.json", "gone-vanished.json", "akash-osmosis.json"];
    let (build, batches) = drive_with(1, OnFailure::Abort, listed(&names));
    assert_eq!(batches, vec![1, 1, 1]);
    assert!(build.skipped().is_empty());
    assert_eq!(build.finish().unwrap().len(), 2);
}

#[test]
fn abort_and_skip_agree_where_nothing_fails() {
    let names = ["akash-cosmoshub.json", "cosmoshub-osmosis.json", "akash-osmosis.json"];
    let (skipping, _) = drive_with(2, OnFailure::Skip, listed(&names));
    let (aborting, _) = drive_with(2, OnFailure::Abort, listed(&names));
    assert_eq!(skipping.finish(), aborting.finish());
}
