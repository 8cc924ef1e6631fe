//! The checks every file operation of a server passes: deny list, quota, and
//! the cache invalidation that follows a change.

use vstd::prelude::*;
use crate::filesystem::cache::{parent_of, CachedFileInfo, DirectoryCache};
use crate::filesystem::disk::DiskUsage;
use crate::path::{is_within, SafePath};
use crate::server::backup::{ignored_by, is_ignored, verdicts_of};

verus! {

/// Why a file operation is refused.
#[derive(Debug, Clone, Copy, PartialEq, Eq, Structural)]
pub enum FilesystemError {
    /// The path resolves outside the server's root.
    PathEscape,
    /// The path matches a pattern of the deny list.
    Denied,
    /// The write would exceed the disk limit.
    QuotaExceeded,
}

/// The rules of one server's filesystem.
pub struct Filesystem {
    denylist: Vec<String>,
    limit_bytes: u64,
    cache: DirectoryCache,
}

impl Filesystem {
    /// The deny list patterns.
    pub closed spec fn denylist(&self) -> Seq<String> {
        self.denylist@
    }

    /// The disk limit in bytes; zero means unlimited.
    pub closed spec fn limit(&self) -> u64 {
        self.limit_bytes
    }

    /// The listing cache.
    pub closed spec fn cache(&self) -> DirectoryCache {
        self.cache
    }

    /// The cache is well formed.
    pub open spec fn wf(&self) -> bool {
        self.cache().wf()
    }

    /// Whether a path, relative to the root, is on the deny list.
    pub open spec fn denies(&self, relative_path: Seq<char>) -> bool {
        ignored_by(verdicts_of(self.denylist(), relative_path))
    }

    /// The verdict on a write of `incoming` bytes to a path: the deny list is
    /// consulted first, then the quota.
    pub open spec fn write_verdict(&self, relative_path: Seq<char>, used: u64, incoming: u64) -> Result<
        (),
        FilesystemError,
    > {
        if self.denies(relative_path) {
            Err(FilesystemError::Denied)
        } else if !(DiskUsage { used_bytes: used, limit_bytes: self.limit() }).fits(incoming) {
            Err(FilesystemError::QuotaExceeded)
        } else {
            Ok(())
        }
    }

    /// Rules with an empty cache of the default configuration.
    pub fn new(denylist: Vec<String>, limit_bytes: u64) -> (f: Self)
        ensures
            f.wf(),
            f.denylist() == denylist@,
            f.limit() == limit_bytes,
            f.cache().len() == 0,
    {
        Filesystem { denylist, limit_bytes, cache: DirectoryCache::new() }
    }

    /// Accepts a canonical path exactly when it lies within the canonical
    /// root; any other path is an escape.
    pub fn confirm_path(root: Vec<u8>, resolved: Vec<u8>) -> (r: Result<SafePath, FilesystemError>)
        ensures
            r.is_ok() == is_within(root@, resolved@),
            r.is_ok() ==> r.unwrap().root_view() == root@ && r.unwrap().resolved_view() == resolved@,
            r.is_err() ==> r.unwrap_err() == FilesystemError::PathEscape,
    {
        match SafePath::confirm(root, resolved) {
            Ok(p) => Ok(p),
            Err(_) => Err(FilesystemError::PathEscape),
        }
    }

    /// Whether a path is on the deny list.
    pub fn is_denied(&self, relative_path: &str) -> (r: bool)
        ensures
            r == self.denies(relative_path@),
    {
        is_ignored(&self.denylist, relative_path)
    }

    /// Decides whether a write may proceed.
    pub fn authorize_write(&self, relative_path: &str, used_bytes: u64, incoming: u64) -> (r: Result<
        (),
        FilesystemError,
    >)
        ensures
            r == self.write_verdict(relative_path@, used_bytes, incoming),
    {
        if self.is_denied(relative_path) {
            Err(FilesystemError::Denied)
        } else if !DiskUsage::new(used_bytes, self.limit_bytes).has_space_for(incoming) {
            Err(FilesystemError::QuotaExceeded)
        } else {
            Ok(())
        }
    }

    /// Decides whether a read, rename source or delete may proceed: the path
    /// must not be on the deny list.
    pub fn authorize_access(&self, relative_path: &str) -> (r: Result<(), FilesystemError>)
        ensures
            r == if self.denies(relative_path@) {
                Err::<(), FilesystemError>(FilesystemError::Denied)
            } else {
                Ok::<(), FilesystemError>(())
            },
    {
        if self.is_denied(relative_path) {
            Err(FilesystemError::Denied)
        } else {
            Ok(())
        }
    }

    /// Records that the entry at `path` was written, created, renamed or
    /// deleted: its listing and that of its parent leave the cache.
    pub fn note_change(&mut self, path: &str)
        requires
            old(self).wf(),
        ensures
            final(self).wf(),
            final(self).denylist() == old(self).denylist(),
            final(self).limit() == old(self).limit(),
            final(self).cache().listing(path@).is_none(),
            parent_of(path@).is_some() ==> final(self).cache().listing(
                parent_of(path@).unwrap(),
            ).is_none(),
            forall|other: Seq<char>|
                other != path@ && parent_of(path@) != Some(other) ==> final(self).cache().listing(
                    other,
                ) == old(self).cache().listing(other),
    {
        self.cache.invalidate(path);
    }

    /// The cached listing of a directory, if one is still valid at `now`.
    pub fn cached_listing(&self, path: &str, now: u64) -> (r: Option<&Vec<CachedFileInfo>>)
        ensures
            match self.cache().listing(path@) {
                Some(l) => if crate::filesystem::cache::elapsed(l.cached_at, now) < self.cache().ttl() {
                    r == Some(&l.entries)
                } else {
                    r.is_none()
                },
                None => r.is_none(),
            },
    {
        self.cache.get_at(path, now)
    }

    /// Caches the listing of a directory read at `now`.
    pub fn remember_listing(&mut self, path: String, entries: Vec<CachedFileInfo>, now: u64)
        requires
            old(self).wf(),
        ensures
            final(self).wf(),
            final(self).denylist() == old(self).denylist(),
            final(self).limit() == old(self).limit(),
            final(self).cache().listing(path@).is_some(),
            final(self).cache().listing(path@).unwrap().entries == entries,
            final(self).cache().listing(path@).unwrap().cached_at == now,
    {
        self.cache.put_at(path, entries, now);
    }
}

} // verus!
