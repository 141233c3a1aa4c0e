//! Filling a path cache: a state machine that turns what the registry
//! answers into the next requests to send, and at last into a cache.
//!
//! The machine sends nothing itself. Its driver asks it for the next
//! [`Action`], performs it, and reports the result as an [`Event`]:
//!
//! 1. the identifiers of all paths are listed; a failure here ends the
//!    build with that error;
//! 2. the paths are fetched in batches of at most `limit` requests, which
//!    the driver may run at the same time;
//! 3. a path that is found goes into the cache, one that the registry does
//!    not have is dropped, and one whose fetch failed is noted and left
//!    out. Whether such a failure also ends the build is for the caller to
//!    choose ([`OnFailure`]).

use crate::cache::{lemma_stored, lookup, stored, well_formed, CachedPathView, PathCache};
use crate::fetch::{
    listing_outcome, resource_outcome, Error, Listing, ListingKind, ListingView, Lookup, Reply,
    RequestView,
};
use crate::listing::{path_ids, paths_in, DirectoryEntry};
use crate::locator::{
    canonical_pair, chains_of, file_address, lemma_canonical_pair, path_chains, path_file,
    path_listing_address,
};
use crate::paths::IBCPath;
use crate::registry::{agent, Registry, RepoView};
use vstd::prelude::*;

verus! {

/// A listed path that did not make it into the cache, and why.
#[derive(Debug, PartialEq, Eq)]
pub enum Skipped {
    /// The listed identifier does not name two chains.
    Unreadable(String),
    /// The fetch of the path between these two chains failed.
    Failed { chain_a: String, chain_b: String, error: Error },
}

/// The mathematical content of [`Skipped`].
pub enum SkippedView {
    Unreadable(Seq<char>),
    Failed { chain_a: Seq<char>, chain_b: Seq<char>, error: Error },
}

impl DeepView for Skipped {
    type V = SkippedView;

    open spec fn deep_view(&self) -> SkippedView {
        match self {
            Skipped::Unreadable(id) => SkippedView::Unreadable(id@),
            Skipped::Failed { chain_a, chain_b, error } => SkippedView::Failed {
                chain_a: chain_a@,
                chain_b: chain_b@,
                error: *error,
            },
        }
    }
}

impl Clone for Skipped {
    fn clone(&self) -> (r: Self)
        ensures
            r == *self,
    {
        match self {
            Skipped::Unreadable(id) => Skipped::Unreadable(id.clone()),
            Skipped::Failed { chain_a, chain_b, error } => Skipped::Failed {
                chain_a: chain_a.clone(),
                chain_b: chain_b.clone(),
                error: error.clone(),
            },
        }
    }
}

/// What the driver reports back.
#[derive(Debug, PartialEq, Eq)]
pub enum Event {
    /// The reply to the listing of path identifiers.
    Listed(Reply<Vec<DirectoryEntry>>),
    /// The replies to the requests of one batch, in the order of the
    /// batch.
    Fetched(Vec<Reply<IBCPath>>),
}

/// What the driver is to do next.
#[derive(Debug, PartialEq, Eq)]
pub enum Action {
    /// Send this listing request and report its reply.
    List(Listing),
    /// Send these requests, all at once if it likes, and report their
    /// replies in the same order.
    Fetch(Vec<Lookup<IBCPath>>),
    /// Nothing is left to do: take the cache.
    Done,
}

/// The mathematical content of [`Action`].
pub enum ActionView {
    List(ListingView),
    Fetch(Seq<RequestView>),
    Done,
}

impl DeepView for Action {
    type V = ActionView;

    open spec fn deep_view(&self) -> ActionView {
        match self {
            Action::List(listing) => ActionView::List(listing.deep_view()),
            Action::Fetch(batch) => ActionView::Fetch(batch.deep_view()),
            Action::Done => ActionView::Done,
        }
    }
}

/// What a failed fetch of one path does to the build.
#[derive(Debug, Clone, Copy, PartialEq, Eq, Structural)]
pub enum OnFailure {
    /// The path is left out and the build goes on.
    Skip,
    /// The build ends with the error, once the batch has been taken in.
    Abort,
}

/// How far a build has come.
#[derive(Debug, Clone, Copy, PartialEq, Eq, Structural)]
pub enum Stage {
    /// The identifiers have not been listed yet.
    Listing,
    /// Some listed paths have not been fetched yet.
    Fetching,
    /// Nothing is left to do.
    Finished,
}

/// The mathematical content of a [`CacheBuild`].
pub struct CacheBuildView {
    /// How many requests a batch may hold; zero counts as one.
    pub limit: nat,
    /// What a failed fetch of one path does to the build.
    pub on_failure: OnFailure,
    /// Whether the listing has been answered.
    pub listed: bool,
    /// The pairs of chains to fetch, in the order of the listing.
    pub queue: Seq<(Seq<char>, Seq<char>)>,
    /// How many pairs of the queue have been answered.
    pub cursor: nat,
    /// The paths found so far.
    pub cache: Seq<CachedPathView>,
    /// The listed paths that were left out so far.
    pub skipped: Seq<SkippedView>,
    /// Why the build failed, if it did.
    pub failure: Option<Error>,
    /// The replies taken in so far, one for each answered pair of the
    /// queue.
    pub answered: Seq<Reply<IBCPath>>,
}

/// The state in which every build begins.
pub open spec fn initial(limit: nat, on_failure: OnFailure) -> CacheBuildView {
    CacheBuildView {
        limit,
        on_failure,
        listed: false,
        queue: Seq::empty(),
        cursor: 0,
        cache: Seq::empty(),
        skipped: Seq::empty(),
        failure: None,
        answered: Seq::empty(),
    }
}

/// How far the build has come.
pub open spec fn stage_of(state: CacheBuildView) -> Stage {
    if !state.listed {
        Stage::Listing
    } else if state.failure is Some || state.cursor >= state.queue.len() {
        Stage::Finished
    } else {
        Stage::Fetching
    }
}

/// The size of the next batch: the limit, or what is left of the queue
/// where that is less.
pub open spec fn batch_len(state: CacheBuildView) -> nat {
    let most: nat = if state.limit == 0 {
        1
    } else {
        state.limit
    };
    if state.cursor >= state.queue.len() {
        0
    } else if state.queue.len() - state.cursor <= most {
        (state.queue.len() - state.cursor) as nat
    } else {
        most
    }
}

/// The pairs of chains of the next batch.
pub open spec fn batch(state: CacheBuildView) -> Seq<(Seq<char>, Seq<char>)> {
    state.queue.subrange(state.cursor as int, (state.cursor + batch_len(state)) as int)
}

/// The request for the path between the two chains of `pair`.
pub open spec fn path_request(repo: RepoView, pair: (Seq<char>, Seq<char>)) -> RequestView {
    RequestView { url: file_address(repo, path_file(pair.0, pair.1)), user_agent: agent() }
}

/// What the driver is to do in a state.
pub open spec fn action_of(state: CacheBuildView, repo: RepoView) -> ActionView {
    match stage_of(state) {
        Stage::Listing => ActionView::List(
            ListingView {
                request: RequestView { url: path_listing_address(repo), user_agent: agent() },
                kind: ListingKind::Paths,
            },
        ),
        Stage::Fetching => ActionView::Fetch(
            batch(state).map_values(|pair: (Seq<char>, Seq<char>)| path_request(repo, pair)),
        ),
        Stage::Finished => ActionView::Done,
    }
}

/// The pairs of chains that the listed identifiers name, in the order of
/// the listing.
pub open spec fn pairs_of(ids: Seq<Seq<char>>) -> Seq<(Seq<char>, Seq<char>)> {
    ids.filter_map(|id: Seq<char>| path_chains(id))
}

/// The note for an identifier that names no two chains.
pub open spec fn unreadable_note(id: Seq<char>) -> Option<SkippedView> {
    if path_chains(id) is None {
        Some(SkippedView::Unreadable(id))
    } else {
        None
    }
}

/// The notes for the listed identifiers that name no two chains, in the
/// order of the listing.
pub open spec fn unreadable(ids: Seq<Seq<char>>) -> Seq<SkippedView> {
    ids.filter_map(|id: Seq<char>| unreadable_note(id))
}

/// The cache after the replies for `pairs` have been taken in, one after
/// the other: each path that was found is stored under the canonical pair
/// of its chains; nothing else changes the cache.
pub open spec fn absorbed(
    held: Seq<CachedPathView>,
    pairs: Seq<(Seq<char>, Seq<char>)>,
    replies: Seq<Reply<IBCPath>>,
) -> Seq<CachedPathView>
    decreases replies.len(),
{
    if replies.len() == 0 || pairs.len() == 0 {
        held
    } else {
        let before = absorbed(held, pairs.drop_last(), replies.drop_last());
        match resource_outcome(replies.last()) {
            Ok(Some(path)) => stored(
                before,
                canonical_pair(pairs.last().0, pairs.last().1),
                path.deep_view(),
            ),
            _ => before,
        }
    }
}

/// The notes for the replies for `pairs` that were errors, in the order
/// of the replies.
pub open spec fn failures(pairs: Seq<(Seq<char>, Seq<char>)>, replies: Seq<Reply<IBCPath>>) -> Seq<
    SkippedView,
>
    decreases replies.len(),
{
    if replies.len() == 0 || pairs.len() == 0 {
        Seq::empty()
    } else {
        let before = failures(pairs.drop_last(), replies.drop_last());
        match resource_outcome(replies.last()) {
            Err(error) => before.push(
                SkippedView::Failed { chain_a: pairs.last().0, chain_b: pairs.last().1, error },
            ),
            _ => before,
        }
    }
}

/// The error of the first reply that is an error, if any is.
pub open spec fn first_error(replies: Seq<Reply<IBCPath>>) -> Option<Error>
    decreases replies.len(),
{
    if replies.len() == 0 {
        None
    } else {
        match first_error(replies.drop_last()) {
            Some(error) => Some(error),
            None => match resource_outcome(replies.last()) {
                Err(error) => Some(error),
                _ => None,
            },
        }
    }
}

/// Why the build has failed once a batch of replies is taken in: for the
/// first error among them where failures abort, and not at all where they
/// are skipped.
pub open spec fn failure_after(on_failure: OnFailure, replies: Seq<Reply<IBCPath>>) -> Option<
    Error,
> {
    match on_failure {
        OnFailure::Skip => None,
        OnFailure::Abort => first_error(replies),
    }
}

/// The state that follows `state` on `event`.
///
/// The listing is taken in the first stage only and a batch of replies in
/// the second only, and the batch must answer every request of the action;
/// any other event leaves the state as it is.
pub open spec fn after(state: CacheBuildView, event: Event) -> CacheBuildView {
    match event {
        Event::Listed(reply) => {
            if stage_of(state) != Stage::Listing {
                state
            } else {
                match listing_outcome(reply) {
                    Ok(entries) => CacheBuildView {
                        listed: true,
                        queue: pairs_of(path_ids(entries.deep_view())),
                        cursor: 0,
                        skipped: state.skipped + unreadable(path_ids(entries.deep_view())),
                        ..state
                    },
                    Err(error) => CacheBuildView { listed: true, failure: Some(error), ..state },
                }
            }
        },
        Event::Fetched(replies) => {
            if stage_of(state) != Stage::Fetching || replies@.len() != batch_len(state) {
                state
            } else {
                CacheBuildView {
                    cursor: state.cursor + batch_len(state),
                    cache: absorbed(state.cache, batch(state), replies@),
                    skipped: state.skipped + failures(batch(state), replies@),
                    failure: failure_after(state.on_failure, replies@),
                    answered: state.answered + replies@,
                    ..state
                }
            }
        },
    }
}

/// What a build yields when it is ended in `state`.
pub open spec fn result_of(state: CacheBuildView) -> Result<Seq<CachedPathView>, Error> {
    match state.failure {
        Some(error) => Err(error),
        None => Ok(state.cache),
    }
}

/// Taking replies in keeps a cache well formed.
pub proof fn lemma_absorbed_well_formed(
    held: Seq<CachedPathView>,
    pairs: Seq<(Seq<char>, Seq<char>)>,
    replies: Seq<Reply<IBCPath>>,
)
    requires
        well_formed(held),
    ensures
        well_formed(absorbed(held, pairs, replies)),
    decreases replies.len(),
{
    if replies.len() > 0 && pairs.len() > 0 {
        let before = absorbed(held, pairs.drop_last(), replies.drop_last());
        lemma_absorbed_well_formed(held, pairs.drop_last(), replies.drop_last());
        match resource_outcome(replies.last()) {
            Ok(Some(path)) => {
                lemma_canonical_pair(pairs.last().0, pairs.last().1);
                lemma_stored(
                    before,
                    canonical_pair(pairs.last().0, pairs.last().1),
                    path.deep_view(),
                );
            },
            _ => {},
        }
    }
}

/// A key that none of the pairs has is left as it was.
pub proof fn lemma_absorbed_keeps_others(
    held: Seq<CachedPathView>,
    pairs: Seq<(Seq<char>, Seq<char>)>,
    replies: Seq<Reply<IBCPath>>,
    key: (Seq<char>, Seq<char>),
)
    requires
        well_formed(held),
        forall|j: int|
            0 <= j < pairs.len() ==> canonical_pair((#[trigger] pairs[j]).0, pairs[j].1) != key,
    ensures
        lookup(absorbed(held, pairs, replies), key) == lookup(held, key),
    decreases replies.len(),
{
    if replies.len() > 0 && pairs.len() > 0 {
        let before = absorbed(held, pairs.drop_last(), replies.drop_last());
        lemma_absorbed_well_formed(held, pairs.drop_last(), replies.drop_last());
        assert forall|j: int| 0 <= j < pairs.drop_last().len() implies canonical_pair(
            (#[trigger] pairs.drop_last()[j]).0,
            pairs.drop_last()[j].1,
        ) != key by {}
        lemma_absorbed_keeps_others(held, pairs.drop_last(), replies.drop_last(), key);
        match resource_outcome(replies.last()) {
            Ok(Some(path)) => {
                let last = pairs[pairs.len() - 1];
                lemma_canonical_pair(last.0, last.1);
                lemma_stored(before, canonical_pair(last.0, last.1), path.deep_view());
            },
            _ => {},
        }
    }
}

/// After a batch is taken in, the cache yields for a pair of chains the
/// path that the lookup of that pair found, provided no later request of
/// the batch is for the same two chains.
pub proof fn lemma_absorbed_yields_found(
    held: Seq<CachedPathView>,
    pairs: Seq<(Seq<char>, Seq<char>)>,
    replies: Seq<Reply<IBCPath>>,
    i: int,
    path: IBCPath,
)
    requires
        well_formed(held),
        pairs.len() == replies.len(),
        0 <= i < pairs.len(),
        resource_outcome(replies[i]) == Ok::<Option<IBCPath>, Error>(Some(path)),
        forall|j: int|
            i < j < pairs.len() ==> canonical_pair((#[trigger] pairs[j]).0, pairs[j].1)
                != canonical_pair(pairs[i].0, pairs[i].1),
    ensures
        lookup(absorbed(held, pairs, replies), canonical_pair(pairs[i].0, pairs[i].1)) == Some(
            path.deep_view(),
        ),
    decreases replies.len(),
{
    let key = canonical_pair(pairs[i].0, pairs[i].1);
    let before = absorbed(held, pairs.drop_last(), replies.drop_last());
    lemma_absorbed_well_formed(held, pairs.drop_last(), replies.drop_last());
    let last = pairs[pairs.len() - 1];
    lemma_canonical_pair(last.0, last.1);
    if i == pairs.len() - 1 {
        lemma_stored(before, key, path.deep_view());
    } else {
        assert forall|j: int| i < j < pairs.drop_last().len() implies canonical_pair(
            (#[trigger] pairs.drop_last()[j]).0,
            pairs.drop_last()[j].1,
        ) != key by {}
        lemma_absorbed_yields_found(held, pairs.drop_last(), replies.drop_last(), i, path);
        match resource_outcome(replies.last()) {
            Ok(Some(other)) => {
                lemma_stored(before, canonical_pair(last.0, last.1), other.deep_view());
            },
            _ => {},
        }
    }
}

/// Taking in one batch after another is the same as taking in both at
/// once.
pub proof fn lemma_absorbed_in_turn(
    held: Seq<CachedPathView>,
    first_pairs: Seq<(Seq<char>, Seq<char>)>,
    first_replies: Seq<Reply<IBCPath>>,
    next_pairs: Seq<(Seq<char>, Seq<char>)>,
    next_replies: Seq<Reply<IBCPath>>,
)
    requires
        first_pairs.len() == first_replies.len(),
        next_pairs.len() == next_replies.len(),
    ensures
        absorbed(absorbed(held, first_pairs, first_replies), next_pairs, next_replies) == absorbed(
            held,
            first_pairs + next_pairs,
            first_replies + next_replies,
        ),
    decreases next_replies.len(),
{
    if next_replies.len() > 0 {
        lemma_absorbed_in_turn(
            held,
            first_pairs,
            first_replies,
            next_pairs.drop_last(),
            next_replies.drop_last(),
        );
        assert((first_pairs + next_pairs).drop_last() =~= first_pairs + next_pairs.drop_last());
        assert((first_replies + next_replies).drop_last() =~= first_replies
            + next_replies.drop_last());
    }
}

/// What holds of every state that a build reaches: the replies taken in
/// answer the first pairs of the queue, one each, and the cache is what
/// taking them in, from nothing, comes to.
pub open spec fn consistent(state: CacheBuildView) -> bool {
    &&& !state.listed ==> state.queue.len() == 0
    &&& state.cursor <= state.queue.len()
    &&& state.answered.len() == state.cursor
    &&& state.cache == absorbed(
        Seq::empty(),
        state.queue.take(state.cursor as int),
        state.answered,
    )
}

/// A build begins in a consistent state.
pub proof fn lemma_initial_consistent(limit: nat, on_failure: OnFailure)
    ensures
        consistent(initial(limit, on_failure)),
{
}

/// Every event takes a consistent state to a consistent state.
pub proof fn lemma_after_consistent(state: CacheBuildView, event: Event)
    requires
        consistent(state),
    ensures
        consistent(after(state, event)),
{
    let next = after(state, event);
    match event {
        Event::Listed(reply) => {},
        Event::Fetched(replies) => {
            if stage_of(state) == Stage::Fetching && replies@.len() == batch_len(state) {
                let done = state.queue.take(state.cursor as int);
                lemma_absorbed_in_turn(
                    Seq::empty(),
                    done,
                    state.answered,
                    batch(state),
                    replies@,
                );
                assert(done + batch(state) =~= next.queue.take(next.cursor as int));
            }
        },
    }
}

/// In a consistent state the cache is well formed, and it yields for each
/// answered pair of chains whose path was found the very path that the
/// lookup of that pair found, provided no later answered pair is of the
/// same two chains.
pub proof fn lemma_cache_agrees_with_lookups(state: CacheBuildView, i: int, path: IBCPath)
    requires
        consistent(state),
        0 <= i < state.cursor,
        resource_outcome(state.answered[i]) == Ok::<Option<IBCPath>, Error>(Some(path)),
        forall|j: int|
            i < j < state.cursor ==> canonical_pair((#[trigger] state.queue[j]).0, state.queue[j].1)
                != canonical_pair(state.queue[i].0, state.queue[i].1),
    ensures
        well_formed(state.cache),
        lookup(state.cache, canonical_pair(state.queue[i].0, state.queue[i].1)) == Some(
            path.deep_view(),
        ),
{
    let done = state.queue.take(state.cursor as int);
    lemma_absorbed_well_formed(Seq::empty(), done, state.answered);
    assert forall|j: int| i < j < done.len() implies canonical_pair((#[trigger] done[j]).0, done[j].1)
        != canonical_pair(done[i].0, done[i].1) by {}
    lemma_absorbed_yields_found(Seq::empty(), done, state.answered, i, path);
}

/// A build of a path cache, between two steps.
pub struct CacheBuild {
    limit: usize,
    on_failure: OnFailure,
    listed: bool,
    queue: Vec<(String, String)>,
    cursor: usize,
    cache: PathCache,
    skipped: Vec<Skipped>,
    failure: Option<Error>,
    answered: Ghost<Seq<Reply<IBCPath>>>,
}

impl View for CacheBuild {
    type V = CacheBuildView;

    closed spec fn view(&self) -> CacheBuildView {
        CacheBuildView {
            limit: self.limit as nat,
            on_failure: self.on_failure,
            listed: self.listed,
            queue: self.queue.deep_view(),
            cursor: self.cursor as nat,
            cache: self.cache@,
            skipped: self.skipped.deep_view(),
            failure: self.failure,
            answered: self.answered@,
        }
    }
}

impl PathCache {
    /// Begins the build of a cache whose batches hold at most `limit`
    /// requests (one, where `limit` is zero), and which treats the failed
    /// fetch of a path as `on_failure` says.
    pub fn build(limit: usize, on_failure: OnFailure) -> (state: CacheBuild)
        ensures
            state@ == initial(limit as nat, on_failure),
            consistent(state@),
    {
        let state = CacheBuild {
            limit,
            on_failure,
            listed: false,
            queue: Vec::new(),
            cursor: 0,
            cache: PathCache::new(),
            skipped: Vec::new(),
            failure: None,
            answered: Ghost(Seq::empty()),
        };
        assert(state.queue.deep_view() =~= Seq::<(Seq<char>, Seq<char>)>::empty());
        assert(state.skipped.deep_view() =~= Seq::<SkippedView>::empty());
        state
    }
}

impl CacheBuild {
    /// How far the build has come.
    pub fn stage(&self) -> (stage: Stage)
        ensures
            stage == stage_of(self@),
    {
        if !self.listed {
            Stage::Listing
        } else if self.failure.is_some() || self.cursor >= self.queue.len() {
            Stage::Finished
        } else {
            Stage::Fetching
        }
    }

    /// The size of the next batch.
    fn next_batch_len(&self) -> (count: usize)
        ensures
            count == batch_len(self@),
            self.cursor + count <= self.queue.len() || count == 0,
    {
        let most: usize = if self.limit == 0 {
            1
        } else {
            self.limit
        };
        if self.cursor >= self.queue.len() {
            0
        } else if self.queue.len() - self.cursor <= most {
            self.queue.len() - self.cursor
        } else {
            most
        }
    }

    /// What the driver is to do next, against the registry that the cache
    /// is built from.
    pub fn action(&self, registry: &Registry) -> (action: Action)
        ensures
            action.deep_view() == action_of(self@, registry.repo.deep_view()),
    {
        match self.stage() {
            Stage::Listing => Action::List(registry.list_paths()),
            Stage::Fetching => {
                let count: usize = self.next_batch_len();
                let mut lookups: Vec<Lookup<IBCPath>> = Vec::new();
                let mut k: usize = 0;
                while k < count
                    invariant
                        k <= count,
                        count == batch_len(self@),
                        self.cursor + count <= self.queue.len(),
                        self@.queue == self.queue.deep_view(),
                        self@.cursor == self.cursor,
                        lookups.len() == k,
                        forall|j: int|
                            0 <= j < k ==> (#[trigger] lookups@[j]).deep_view() == path_request(
                                registry.repo.deep_view(),
                                batch(self@)[j],
                            ),
                    decreases count - k,
                {
                    let pair = &self.queue[self.cursor + k];
                    lookups.push(registry.get_path(pair.0.as_str(), pair.1.as_str()));
                    k = k + 1;
                }
                assert(lookups.deep_view() =~= batch(self@).map_values(
                    |pair: (Seq<char>, Seq<char>)|
                        path_request(registry.repo.deep_view(), pair),
                ));
                Action::Fetch(lookups)
            },
            Stage::Finished => Action::Done,
        }
    }

    /// Takes in what the driver reports and moves to the next state.
    pub fn step(self, event: Event) -> (next: Self)
        ensures
            next@ == after(self@, event),
            consistent(self@) ==> consistent(next@),
    {
        proof {
            if consistent(self@) {
                lemma_after_consistent(self@, event);
            }
        }
        match event {
            Event::Listed(reply) => {
                if self.stage() != Stage::Listing {
                    return self;
                }
                match reply.into_listing() {
                    Ok(entries) => self.take_listing(entries),
                    Err(error) => {
                        let mut next = self;
                        next.listed = true;
                        next.failure = Some(error);
                        next
                    },
                }
            },
            Event::Fetched(replies) => {
                if self.stage() != Stage::Fetching || replies.len() != self.next_batch_len() {
                    return self;
                }
                self.take_batch(replies)
            },
        }
    }

    /// Queues the pairs of chains that a listing names.
    fn take_listing(self, entries: Vec<DirectoryEntry>) -> (next: Self)
        requires
            stage_of(self@) == Stage::Listing,
        ensures
            next@ == (CacheBuildView {
                listed: true,
                queue: pairs_of(path_ids(entries.deep_view())),
                cursor: 0,
                skipped: self@.skipped + unreadable(path_ids(entries.deep_view())),
                ..self@
            }),
    {
        let ids = paths_in(&entries);
        let ghost names = ids.deep_view();
        let ghost pick = |id: Seq<char>| path_chains(id);
        let ghost note = |id: Seq<char>| unreadable_note(id);
        let ghost noted = self@.skipped;
        let mut next = self;
        let mut queue: Vec<(String, String)> = Vec::new();
        let mut i: usize = 0;
        while i < ids.len()
            invariant
                i <= ids.len(),
                names == ids.deep_view(),
                pick == |id: Seq<char>| path_chains(id),
                note == |id: Seq<char>| unreadable_note(id),
                queue.deep_view() == names.take(i as int).filter_map(pick),
                next.skipped.deep_view() == noted + names.take(i as int).filter_map(note),
                next.limit == self.limit,
                next.on_failure == self.on_failure,
                next.listed == self.listed,
                next.cursor == self.cursor,
                next.cache == self.cache,
                next.failure == self.failure,
                next.answered == self.answered,
            decreases ids.len() - i,
        {
            let id = &ids[i];
            let ghost notes = next.skipped.deep_view();
            proof {
                names.lemma_filter_map_take_succ(pick, i as int);
                names.lemma_filter_map_take_succ(note, i as int);
            }
            match chains_of(id.as_str()) {
                Some(pair) => {
                    queue.push(pair);
                },
                None => {
                    next.skipped.push(Skipped::Unreadable(id.clone()));
                    assert(next.skipped.deep_view() =~= notes + seq![SkippedView::Unreadable(id@)]);
                },
            }
            i = i + 1;
        }
        assert(names.take(ids.len() as int) =~= names);
        next.listed = true;
        next.queue = queue;
        next.cursor = 0;
        next
    }

    /// Takes in the replies to the batch that the action named.
    fn take_batch(self, replies: Vec<Reply<IBCPath>>) -> (next: Self)
        requires
            stage_of(self@) == Stage::Fetching,
            replies@.len() == batch_len(self@),
        ensures
            next@ == (CacheBuildView {
                cursor: self@.cursor + batch_len(self@),
                cache: absorbed(self@.cache, batch(self@), replies@),
                skipped: self@.skipped + failures(batch(self@), replies@),
                failure: failure_after(self@.on_failure, replies@),
                answered: self@.answered + replies@,
                ..self@
            }),
    {
        let count: usize = replies.len();
        let ghost pairs = batch(self@);
        let ghost held = self@.cache;
        let ghost noted = self@.skipped;
        let ghost all = replies@;
        let mut next = self;
        let mut first: Option<Error> = None;
        let mut k: usize = 0;
        for reply in it: replies
            invariant
                k == it.index(),
                it.seq() == all,
                count == all.len(),
                count == pairs.len(),
                next.cursor + count <= next.queue.len(),
                pairs == next.queue.deep_view().subrange(
                    next.cursor as int,
                    next.cursor + count,
                ),
                next.cache@ == absorbed(held, pairs.take(k as int), all.take(k as int)),
                next.skipped.deep_view() == noted + failures(
                    pairs.take(k as int),
                    all.take(k as int),
                ),
                first == first_error(all.take(k as int)),
                next.limit == self.limit,
                next.on_failure == self.on_failure,
                next.listed == self.listed,
                next.queue == self.queue,
                next.cursor == self.cursor,
                next.failure == self.failure,
                next.answered == self.answered,
        {
            let pair = &next.queue[next.cursor + k];
            let ghost notes = next.skipped.deep_view();
            proof {
                assert(pairs.take(k + 1).drop_last() =~= pairs.take(k as int));
                assert(all.take(k + 1).drop_last() =~= all.take(k as int));
            }
            match reply.into_resource() {
                Ok(Some(path)) => {
                    next.cache.insert(pair.0.as_str(), pair.1.as_str(), path);
                },
                Ok(None) => {},
                Err(error) => {
                    if first.is_none() {
                        first = Some(error.clone());
                    }
                    let skipped = Skipped::Failed {
                        chain_a: pair.0.clone(),
                        chain_b: pair.1.clone(),
                        error,
                    };
                    next.skipped.push(skipped);
                    assert(next.skipped.deep_view() =~= notes.push(skipped.deep_view()));
                },
            }
            k = k + 1;
        }
        assert(pairs.take(count as int) =~= pairs);
        assert(all.take(count as int) =~= all);
        next.cursor = next.cursor + count;
        next.failure = match next.on_failure {
            OnFailure::Skip => None,
            OnFailure::Abort => first,
        };
        next.answered = Ghost(next.answered@ + all);
        next
    }

    /// The listed paths that were left out so far, in the order in which
    /// they were left out.
    pub fn skipped(&self) -> (notes: &Vec<Skipped>)
        ensures
            notes.deep_view() == self@.skipped,
    {
        &self.skipped
    }

    /// Ends the build: the error where the build has failed, else the
    /// cache with every path found so far. A build may be ended before it
    /// is finished.
    pub fn finish(self) -> (result: Result<PathCache, Error>)
        ensures
            match result {
                Ok(cache) => result_of(self@) == Ok::<Seq<CachedPathView>, Error>(cache@),
                Err(error) => result_of(self@) == Err::<Seq<CachedPathView>, Error>(error),
            },
    {
        match self.failure {
            Some(error) => Err(error),
            None => Ok(self.cache),
        }
    }
}

} // verus!
