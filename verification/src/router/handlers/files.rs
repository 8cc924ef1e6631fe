//! File endpoints.

use vstd::prelude::*;
use vstd::string::{StrSliceExecFns, StringExecFns};
use crate::text::text_is;

verus! {

#[derive(Debug, Clone)]
pub struct ListFilesQuery {
    pub directory: String,
}

#[derive(Debug, Clone)]
pub struct ReadFileQuery {
    pub file: String,
}

#[derive(Debug, Clone)]
pub struct WriteFileRequest {
    pub file: String,
    pub content: String,
}

#[derive(Debug, Clone)]
pub struct CreateFileRequest {
    pub path: String,
    pub file_type: String,
    pub content: Option<String>,
}

#[derive(Debug, Clone)]
pub struct CreateDirectoryRequest {
    pub name: String,
    pub root: String,
}

#[derive(Debug, Clone)]
pub struct RenameFileRequest {
    pub from: String,
    pub to: String,
    pub root: String,
}

#[derive(Debug, Clone)]
pub struct CopyFileRequest {
    pub location: String,
}

#[derive(Debug, Clone)]
pub struct CopyFileResponse {
    pub name: String,
}

#[derive(Debug, Clone)]
pub struct DeleteFilesRequest {
    pub files: Vec<String>,
    pub root: String,
}

#[derive(Debug, Clone)]
pub struct CompressFilesRequest {
    pub files: Vec<String>,
    pub root: String,
}

#[derive(Debug, Clone)]
pub struct DecompressFileRequest {
    pub file: String,
    pub root: String,
}

#[derive(Debug, Clone)]
pub struct ChmodRequest {
    pub files: Vec<ChmodEntry>,
    pub root: String,
}

#[derive(Debug, Clone)]
pub struct ChmodEntry {
    pub file: String,
    pub mode: u32,
}

#[derive(Debug, Clone)]
pub struct PullFileRequest {
    pub url: String,
    pub directory: String,
    pub filename: Option<String>,
    pub decompress: bool,
}

#[derive(Debug, Clone)]
pub struct PullFileResponse {
    pub success: bool,
    pub path: String,
    pub size: u64,
}

#[derive(Debug, Clone)]
pub struct DiskUsageResponse {
    pub used_bytes: u64,
    pub limit_bytes: u64,
    pub path: String,
}

/// What a create request asks for.
#[derive(Debug, Clone, Copy, PartialEq, Eq, Structural)]
pub enum EntryKind {
    File,
    Directory,
}

/// The kind of entry a create request names: `file` or `directory`.
pub fn entry_kind(file_type: &str) -> (r: Option<EntryKind>)
    ensures
        r == if file_type@ == "directory"@ {
            Some(EntryKind::Directory)
        } else if file_type@ == "file"@ {
            Some(EntryKind::File)
        } else {
            None
        },
{
    if text_is(file_type, "directory") {
        Some(EntryKind::Directory)
    } else if text_is(file_type, "file") {
        Some(EntryKind::File)
    } else {
        None
    }
}

/// A text without its trailing separators.
pub open spec fn trim_slashes(s: Seq<char>) -> Seq<char>
    decreases s.len(),
{
    if s.len() > 0 && s.last() == '/' {
        trim_slashes(s.drop_last())
    } else {
        s
    }
}

/// The path of an entry named `name` below `root`: the name itself for an
/// empty root, else the root without trailing separators, a separator, and
/// the name.
pub open spec fn rooted(root: Seq<char>, name: Seq<char>) -> Seq<char> {
    if root.len() == 0 {
        name
    } else {
        trim_slashes(root) + "/"@ + name
    }
}

/// The path of an entry named `name` below `root`.
pub fn join_root(root: &str, name: &str) -> (path: String)
    ensures
        path@ == rooted(root@, name@),
{
    let n: usize = root.unicode_len();
    if n == 0 {
        return String::from_str(name);
    }
    let mut k: usize = n;
    assert(root@.subrange(0, n as int) =~= root@);
    while k > 0 && root.get_char(k - 1) == '/'
        invariant
            k <= n,
            n == root@.len(),
            trim_slashes(root@) == trim_slashes(root@.subrange(0, k as int)),
        decreases k,
    {
        proof {
            let cur = root@.subrange(0, k as int);
            assert(cur.last() == root@[k - 1]);
            assert(cur.drop_last() =~= root@.subrange(0, k - 1));
        }
        k = k - 1;
    }
    proof {
        let cur = root@.subrange(0, k as int);
        if k > 0 {
            assert(cur.last() == root@[k - 1]);
        }
        assert(trim_slashes(cur) == cur);
    }
    let mut path = String::from_str(root.substring_char(0, k));
    path.append("/");
    path.append(name);
    path
}

/// The response to a disk usage query: usage and limit of the server's root.
pub fn disk_usage_response(usage: crate::filesystem::disk::DiskUsage) -> (r: DiskUsageResponse)
    ensures
        r.used_bytes == usage.used_bytes,
        r.limit_bytes == usage.limit_bytes,
        r.path@ == "/"@,
{
    DiskUsageResponse {
        used_bytes: usage.used_bytes,
        limit_bytes: usage.limit_bytes,
        path: String::from_str("/"),
    }
}

} // verus!
