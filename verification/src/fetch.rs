//! What one `GET` came back with, and what the registry makes of it.
//!
//! The library performs no I/O. A caller sends the request that an
//! operation names, reports what happened as a [`Reply`], and the library
//! decides between a value, an absence and an error.

use crate::listing::{chain_names, chains_in, path_ids, paths_in, DirectoryEntry, DirectoryEntryView};
use std::marker::PhantomData;
use vstd::prelude::*;

verus! {

/// The status code that stands for "no such resource".
pub const NOT_FOUND: u16 = 404;

/// What the transport reports for one request.
#[derive(Debug, PartialEq, Eq)]
pub enum Reply<T> {
    /// No response arrived (connection, name resolution, timeout); the
    /// text says why.
    Failed(String),
    /// A response arrived with this status code. `body` is what its
    /// content was decoded to, or why it could not be decoded; it is
    /// looked at only where the status is a success.
    Received { status: u16, body: Result<T, String> },
}

/// Why an operation did not yield a result.
#[derive(Debug, PartialEq, Eq)]
pub enum Error {
    /// The transport failed before any response arrived.
    Transport(String),
    /// The response carried a status that is no success (and, for a
    /// single resource, is not "not found" either).
    Status(u16),
    /// The response was a success, but its content does not fit the
    /// expected shape.
    Malformed(String),
}

impl Clone for Error {
    fn clone(&self) -> (r: Self)
        ensures
            r == *self,
    {
        match self {
            Error::Transport(why) => Error::Transport(why.clone()),
            Error::Status(status) => Error::Status(*status),
            Error::Malformed(why) => Error::Malformed(why.clone()),
        }
    }
}

/// The status codes that carry the requested content.
pub open spec fn is_success(status: u16) -> bool {
    200 <= status < 300
}

/// What a reply means for a single resource: "not found" is an absence,
/// any other status outside the successes is an error, and a success
/// must decode.
pub open spec fn resource_outcome<T>(reply: Reply<T>) -> Result<Option<T>, Error> {
    match reply {
        Reply::Failed(why) => Err(Error::Transport(why)),
        Reply::Received { status, body } => {
            if status == NOT_FOUND {
                Ok(None)
            } else if !is_success(status) {
                Err(Error::Status(status))
            } else {
                match body {
                    Ok(value) => Ok(Some(value)),
                    Err(why) => Err(Error::Malformed(why)),
                }
            }
        },
    }
}

/// What a reply means for a listing: every status outside the successes
/// is an error, "not found" included, and a success must decode.
pub open spec fn listing_outcome<T>(reply: Reply<T>) -> Result<T, Error> {
    match reply {
        Reply::Failed(why) => Err(Error::Transport(why)),
        Reply::Received { status, body } => {
            if !is_success(status) {
                Err(Error::Status(status))
            } else {
                match body {
                    Ok(value) => Ok(value),
                    Err(why) => Err(Error::Malformed(why)),
                }
            }
        },
    }
}

/// Whether a response with this status carries content worth decoding.
pub fn carries_content(status: u16) -> (r: bool)
    ensures
        r == is_success(status),
{
    200 <= status && status < 300
}

impl<T> Reply<T> {
    /// Reads the reply as the answer to a request for a single resource.
    pub fn into_resource(self) -> (r: Result<Option<T>, Error>)
        ensures
            r == resource_outcome(self),
    {
        match self {
            Reply::Failed(why) => Err(Error::Transport(why)),
            Reply::Received { status, body } => {
                if status == NOT_FOUND {
                    Ok(None)
                } else if !carries_content(status) {
                    Err(Error::Status(status))
                } else {
                    match body {
                        Ok(value) => Ok(Some(value)),
                        Err(why) => Err(Error::Malformed(why)),
                    }
                }
            },
        }
    }

    /// Reads the reply as the answer to a request for a listing.
    pub fn into_listing(self) -> (r: Result<T, Error>)
        ensures
            r == listing_outcome(self),
    {
        match self {
            Reply::Failed(why) => Err(Error::Transport(why)),
            Reply::Received { status, body } => {
                if !carries_content(status) {
                    Err(Error::Status(status))
                } else {
                    match body {
                        Ok(value) => Ok(value),
                        Err(why) => Err(Error::Malformed(why)),
                    }
                }
            },
        }
    }
}

/// One `GET`: where it goes and how the client identifies itself.
#[derive(Debug, PartialEq, Eq)]
pub struct Request {
    pub url: String,
    pub user_agent: String,
}

/// The mathematical content of [`Request`].
pub struct RequestView {
    pub url: Seq<char>,
    pub user_agent: Seq<char>,
}

impl DeepView for Request {
    type V = RequestView;

    open spec fn deep_view(&self) -> RequestView {
        RequestView { url: self.url@, user_agent: self.user_agent@ }
    }
}

/// What a listing is asked for.
#[derive(Debug, Clone, Copy, PartialEq, Eq, Structural)]
pub enum ListingKind {
    /// The chains, at the root of the registry.
    Chains,
    /// The path identifiers, in the directory of paths.
    Paths,
}

/// The names that a listing of the given kind yields.
pub open spec fn listed_names(kind: ListingKind, entries: Seq<DirectoryEntryView>) -> Seq<
    Seq<char>,
> {
    match kind {
        ListingKind::Chains => chain_names(entries),
        ListingKind::Paths => path_ids(entries),
    }
}

/// A listing that has been asked for and not yet answered.
#[derive(Debug, PartialEq, Eq)]
pub struct Listing {
    pub request: Request,
    pub kind: ListingKind,
}

/// The mathematical content of [`Listing`].
pub struct ListingView {
    pub request: RequestView,
    pub kind: ListingKind,
}

impl DeepView for Listing {
    type V = ListingView;

    open spec fn deep_view(&self) -> ListingView {
        ListingView { request: self.request.deep_view(), kind: self.kind }
    }
}

/// Whether `result` is what a listing of kind `kind` comes to over
/// `reply`: the names that the listed entries yield where the reply is a
/// success that decoded, and the error of the reply where it is not.
pub open spec fn finishes_listing(
    kind: ListingKind,
    reply: Reply<Vec<DirectoryEntry>>,
    result: Result<Vec<String>, Error>,
) -> bool {
    match listing_outcome(reply) {
        Ok(entries) => result is Ok && result->Ok_0.deep_view() == listed_names(
            kind,
            entries.deep_view(),
        ),
        Err(error) => result == Err::<Vec<String>, Error>(error),
    }
}

/// A listing that is finished twice over the same reply yields the same
/// names both times, or the same error.
pub proof fn lemma_listing_repeatable(
    kind: ListingKind,
    reply: Reply<Vec<DirectoryEntry>>,
    first: Result<Vec<String>, Error>,
    second: Result<Vec<String>, Error>,
)
    requires
        finishes_listing(kind, reply, first),
        finishes_listing(kind, reply, second),
    ensures
        first is Ok <==> second is Ok,
        first is Ok ==> first->Ok_0.deep_view() == second->Ok_0.deep_view(),
        first is Err ==> first == second,
{
}

impl Listing {
    /// The names that the listing yields, given the reply to its request.
    /// Any failure of the request is an error: a listing is never absent.
    pub fn finish(self, reply: Reply<Vec<DirectoryEntry>>) -> (r: Result<Vec<String>, Error>)
        ensures
            finishes_listing(self.kind, reply, r),
    {
        match reply.into_listing() {
            Ok(entries) => match self.kind {
                ListingKind::Chains => Ok(chains_in(&entries)),
                ListingKind::Paths => Ok(paths_in(&entries)),
            },
            Err(error) => Err(error),
        }
    }
}

/// A request for a single resource of type `T` that has been made and
/// not yet answered.
#[derive(Debug, PartialEq, Eq)]
pub struct Lookup<T> {
    pub request: Request,
    pub target: PhantomData<T>,
}

impl<T> DeepView for Lookup<T> {
    type V = RequestView;

    open spec fn deep_view(&self) -> RequestView {
        self.request.deep_view()
    }
}

impl<T> Lookup<T> {
    /// The resource, given the reply to its request: the value where the
    /// reply holds one, `None` where the registry has no such resource,
    /// and an error for everything else.
    pub fn finish(self, reply: Reply<T>) -> (r: Result<Option<T>, Error>)
        ensures
            r == resource_outcome(reply),
    {
        reply.into_resource()
    }
}

/// A missing resource is an absence and never an error; a transport
/// failure is an error and never an absence; and a value is returned only
/// from a success that decoded.
pub proof fn lemma_absence_is_not_failure<T>(reply: Reply<T>)
    ensures
        resource_outcome(reply) == Ok::<Option<T>, Error>(None) <==> (reply matches Reply::Received {
            status,
            ..
        } && status == NOT_FOUND),
        reply is Failed ==> resource_outcome(reply) is Err,
        resource_outcome(reply) matches Ok(Some(value)) ==> (reply matches Reply::Received {
            status,
            body,
        } && is_success(status) && body == Ok::<T, String>(value)),
{
}

} // verus!
