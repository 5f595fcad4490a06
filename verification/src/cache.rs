//! Addressing of cache entries, and the results of invalidating one.
//!
//! The removal itself is the caller's work. This module says where an entry
//! lies and which results of a removal count as failures.

use vstd::prelude::*;
use crate::package::PackageIdentifier;

verus! {

/// The namespace under which every cache entry lies.
pub open spec fn cache_namespace() -> Seq<char> {
    "/tmp/cache/"@
}

/// The location of the cache entry of a package: the namespace, then the
/// package's name.
pub open spec fn entry_path_of(pkg: Seq<char>) -> Seq<char> {
    cache_namespace() + pkg
}

/// The location of the cached artifact of one package.
#[derive(Debug, Clone, PartialEq, Eq)]
pub struct CacheEntryHandle {
    path: String,
}

impl View for CacheEntryHandle {
    type V = Seq<char>;

    closed spec fn view(&self) -> Seq<char> {
        self.path@
    }
}

impl CacheEntryHandle {
    /// The handle of a package's cache entry. The same package always has the
    /// same handle.
    pub fn for_package(pkg: &PackageIdentifier) -> (handle: CacheEntryHandle)
        ensures
            handle@ == entry_path_of(pkg@),
    {
        let mut path = String::from_str("/tmp/cache/");
        path.append(pkg.as_str());
        CacheEntryHandle { path }
    }

    /// The location as a path.
    pub fn as_str(&self) -> (path: &str)
        ensures
            path@ == self@,
    {
        self.path.as_str()
    }
}

/// What an attempt to invalidate a cache entry came to.
#[derive(Debug, Clone, PartialEq, Eq)]
pub enum InvalidationResult {
    /// The entry was there and is removed.
    Removed,
    /// There was no entry to remove.
    AlreadyAbsent,
    /// The storage refused the removal, for the reason given.
    Failed(String),
}

impl InvalidationResult {
    /// Whether the attempt failed. To find no entry is no failure.
    pub open spec fn spec_is_failure(&self) -> bool {
        self is Failed
    }

    /// Whether the attempt failed. To find no entry is no failure.
    #[verifier::when_used_as_spec(spec_is_failure)]
    pub fn is_failure(&self) -> (r: bool)
        ensures
            r == self.spec_is_failure(),
    {
        match self {
            InvalidationResult::Removed => false,
            InvalidationResult::AlreadyAbsent => false,
            InvalidationResult::Failed(_) => true,
        }
    }
}

/// Handles are never shared: two different packages have two different
/// handles, and no handle is the namespace itself.
pub proof fn lemma_handles_distinct(p: Seq<char>, q: Seq<char>)
    ensures
        entry_path_of(p) == entry_path_of(q) ==> p == q,
        p.len() > 0 ==> entry_path_of(p) != cache_namespace(),
{
    let ns = cache_namespace();
    assert(entry_path_of(p).subrange(ns.len() as int, entry_path_of(p).len() as int) =~= p);
    assert(entry_path_of(q).subrange(ns.len() as int, entry_path_of(q).len() as int) =~= q);
}

} // verus!
