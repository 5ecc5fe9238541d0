//! Finding the server binary: first in the resolver's cache, then at the place
//! where an install would have put it.

use vstd::prelude::*;
use vstd::string::*;

use crate::layout::{server_binary_path, server_binary_path_of};

verus! {

/// The cache of one resolver: the server path that an earlier resolution
/// settled on, if any.
///
/// The path is set at most once. From then on it is handed out as it is,
/// whether or not the file is still there.
#[derive(Debug)]
pub struct BootstrapState {
    resolved_server_path: Option<String>,
}

impl View for BootstrapState {
    type V = Option<Seq<char>>;

    closed spec fn view(&self) -> Option<Seq<char>> {
        match self.resolved_server_path {
            Some(path) => Some(path@),
            None => None,
        }
    }
}

/// The cache after `path` was offered to it: a path that is already there
/// stays, an empty cache takes `path`.
pub open spec fn remembered(cache: Option<Seq<char>>, path: Seq<char>) -> Option<Seq<char>> {
    if cache is Some {
        cache
    } else {
        Some(path)
    }
}

impl BootstrapState {
    /// The state of a resolver that has resolved nothing yet.
    pub fn new() -> (state: BootstrapState)
        ensures
            state@ is None,
    {
        BootstrapState { resolved_server_path: None }
    }

    /// The cached server path, if one was resolved.
    pub fn resolved_server_path(&self) -> (path: Option<&String>)
        ensures
            path.deep_view() == self@,
    {
        self.resolved_server_path.as_ref()
    }

    /// Caches `path` unless a path is cached already.
    pub fn remember(&mut self, path: &str)
        ensures
            final(self)@ == remembered(old(self)@, path@),
    {
        if self.resolved_server_path.is_none() {
            self.resolved_server_path = Some(String::from_str(path));
        }
    }
}

/// Where the search for the server binary stands before the filesystem was
/// asked.
#[derive(Debug, Clone, PartialEq, Eq)]
pub enum Lookup {
    /// The cache holds this path: no file needs checking.
    Cached(String),
    /// Nothing is cached: the file at this path has to be checked.
    Probe(String),
}

/// The view of a [`Lookup`].
pub enum LookupView {
    Cached(Seq<char>),
    Probe(Seq<char>),
}

impl View for Lookup {
    type V = LookupView;

    open spec fn view(&self) -> LookupView {
        match self {
            Lookup::Cached(path) => LookupView::Cached(path@),
            Lookup::Probe(path) => LookupView::Probe(path@),
        }
    }
}

/// The lookup for a cache and a workspace root: a cached path wins, else the
/// expected install location is to be probed.
pub open spec fn lookup_of(cache: Option<Seq<char>>, workspace_root: Seq<char>) -> LookupView {
    match cache {
        Some(path) => LookupView::Cached(path),
        None => LookupView::Probe(server_binary_path_of(workspace_root)),
    }
}

/// What the search ends in once the probe of `expected` has said `present`:
/// the path found, if any, and the cache afterwards.
pub open spec fn located(cache: Option<Seq<char>>, expected: Seq<char>, present: bool) -> (
    Option<Seq<char>>,
    Option<Seq<char>>,
) {
    if cache is Some {
        (cache, cache)
    } else if present {
        (Some(expected), Some(expected))
    } else {
        (None, None)
    }
}

/// Starts the search for the server binary. A cached path is returned at
/// once; otherwise the caller is told which file to check.
pub fn locate_server_binary(state: &BootstrapState, workspace_root: &str) -> (lookup: Lookup)
    ensures
        lookup@ == lookup_of(state@, workspace_root@),
{
    match state.resolved_server_path() {
        Some(path) => Lookup::Cached(path.clone()),
        None => Lookup::Probe(server_binary_path(workspace_root)),
    }
}

/// Ends the search with the probe's answer. A file that exists is cached and
/// returned; a missing one is no error, the search just found nothing.
pub fn conclude_probe(state: &mut BootstrapState, expected: &str, present: bool) -> (found: Option<
    String,
>)
    ensures
        (found.deep_view(), final(state)@) == located(old(state)@, expected@, present),
{
    match state.resolved_server_path() {
        Some(path) => Some(path.clone()),
        None => {
            if present {
                state.remember(expected);
                Some(String::from_str(expected))
            } else {
                None
            }
        },
    }
}

} // verus!
