//! Backup naming, listing and ignore rules, and the safe-extraction checks.

use vstd::prelude::*;
use vstd::string::{StrSliceExecFns, StringExecFns};
use crate::checksum::{calculate_checksum, checksum_of};
use crate::path::{is_within, within, DOT, SLASH};

verus! {

/// The result of creating a backup.
#[derive(Debug, Clone)]
pub struct BackupResult {
    /// Path of the archive file.
    pub path: String,
    /// Size of the archive in bytes.
    pub size: u64,
    /// SHA-256 of the archive in lowercase hexadecimal.
    pub checksum: String,
}

/// Backup errors.
#[derive(Debug, Clone)]
pub enum BackupError {
    Io(String),
    ServerRunning,
    NotFound(String),
    InvalidPath(String),
    Other(String),
}

/// A backup found in the backup directory.
#[derive(Debug, Clone)]
pub struct BackupInfo {
    pub uuid: String,
    pub size: u64,
    pub created_at: u64,
}

/// How hard the archive is compressed.
#[derive(Debug, Clone, Copy, PartialEq, Eq, Structural)]
pub enum BackupCompressionLevel {
    Fast,
    Default,
    Best,
}

/// The gzip level of a compression setting.
pub fn compression_level(level: BackupCompressionLevel) -> (n: u32)
    ensures
        n == match level {
            BackupCompressionLevel::Fast => 1u32,
            BackupCompressionLevel::Default => 6u32,
            BackupCompressionLevel::Best => 9u32,
        },
{
    match level {
        BackupCompressionLevel::Fast => 1,
        BackupCompressionLevel::Default => 6,
        BackupCompressionLevel::Best => 9,
    }
}

/// The suffix of every backup archive.
pub open spec fn archive_suffix() -> Seq<char> {
    seq!['.', 't', 'a', 'r', '.', 'g', 'z']
}

/// Whether a file name is that of a backup archive.
pub open spec fn has_archive_suffix(name: Seq<char>) -> bool {
    name.len() >= 7 && name.subrange(name.len() - 7, name.len() as int) == archive_suffix()
}

/// The backup id a file name carries: the name without the archive suffix.
pub open spec fn uuid_in_name(name: Seq<char>) -> Option<Seq<char>> {
    if has_archive_suffix(name) {
        Some(name.subrange(0, name.len() - 7))
    } else {
        None
    }
}

/// The literal suffix is the archive suffix.
pub proof fn lemma_suffix_literal()
    ensures
        ".tar.gz"@ == archive_suffix(),
{
    reveal_strlit(".tar.gz");
    assert(".tar.gz"@ =~= archive_suffix());
}

/// The file name of a backup: `{uuid}.tar.gz`.
pub fn backup_file_name(backup_uuid: &str) -> (name: String)
    ensures
        name@ == backup_uuid@ + archive_suffix(),
{
    proof {
        lemma_suffix_literal();
    }
    let mut name = String::from_str(backup_uuid);
    name.append(".tar.gz");
    name
}

/// The backup id that a file of the backup directory stands for; `None` for
/// files that are not backup archives.
pub fn backup_uuid_of(file_name: &str) -> (uuid: Option<String>)
    ensures
        match uuid {
            Some(u) => uuid_in_name(file_name@) == Some(u@),
            None => uuid_in_name(file_name@).is_none(),
        },
{
    let n: usize = file_name.unicode_len();
    if n < 7 {
        return None;
    }
    let at: usize = n - 7;
    if file_name.get_char(at) == '.' && file_name.get_char(at + 1) == 't' && file_name.get_char(
        at + 2,
    ) == 'a' && file_name.get_char(at + 3) == 'r' && file_name.get_char(at + 4) == '.'
        && file_name.get_char(at + 5) == 'g' && file_name.get_char(at + 6) == 'z' {
        assert(file_name@.subrange(n - 7, n as int) =~= archive_suffix());
        Some(String::from_str(file_name.substring_char(0, at)))
    } else {
        assert(file_name@.subrange(n - 7, n as int) != archive_suffix()) by {
            let tail = file_name@.subrange(n - 7, n as int);
            if tail == archive_suffix() {
                assert(tail[0] == '.' && tail[1] == 't' && tail[2] == 'a' && tail[3] == 'r' && tail[4]
                    == '.' && tail[5] == 'g' && tail[6] == 'z');
            }
        }
        None
    }
}

/// A backup's file name leads back to its id.
pub proof fn lemma_backup_name_roundtrip(uuid: Seq<char>)
    ensures
        uuid_in_name(uuid + archive_suffix()) == Some(uuid),
{
    let name = uuid + archive_suffix();
    assert(name.subrange(name.len() - 7, name.len() as int) =~= archive_suffix());
    assert(name.subrange(0, name.len() - 7) =~= uuid);
}

/// The listing entry of one file of the backup directory.
pub fn backup_info(file_name: &str, size: u64, created_at: Option<u64>) -> (info: Option<BackupInfo>)
    ensures
        match info {
            Some(i) => uuid_in_name(file_name@) == Some(i.uuid@) && i.size == size && i.created_at
                == match created_at {
                Some(t) => t,
                None => 0,
            },
            None => uuid_in_name(file_name@).is_none(),
        },
{
    match backup_uuid_of(file_name) {
        Some(uuid) => Some(
            BackupInfo {
                uuid,
                size,
                created_at: match created_at {
                    Some(t) => t,
                    None => 0,
                },
            },
        ),
        None => None,
    }
}

/// The result of a backup whose archive holds `archive`: its size and checksum
/// are those of the bytes written.
pub fn backup_result(path: String, archive: &[u8]) -> (r: BackupResult)
    ensures
        r.path == path,
        r.size == archive@.len(),
        r.checksum@ == checksum_of(archive@),
{
    BackupResult { path, size: archive.len() as u64, checksum: calculate_checksum(archive) }
}

/// What `glob::Pattern` says of a pattern and a path: `None` when the pattern
/// does not compile, else whether the compiled pattern matches the path.
pub uninterp spec fn glob_filter(pattern: Seq<char>, path: Seq<char>) -> Option<bool>;

/// Compiles the pattern with `glob::Pattern::new` and matches the path against
/// it with `Pattern::matches`, under the crate's default match options.
#[verifier::external_body]
fn glob_matches(pattern: &str, path: &str) -> (r: Option<bool>)
    ensures
        r == glob_filter(pattern@, path@),
{
    match glob::Pattern::new(pattern) {
        Ok(p) => Some(p.matches(path)),
        Err(_) => None,
    }
}

/// Whether some pattern that compiles matches the path.
pub open spec fn ignored_by(verdicts: Seq<Option<bool>>) -> bool {
    exists|i: int| 0 <= i < verdicts.len() && #[trigger] verdicts[i] == Some(true)
}

/// Decides from the verdict of each pattern whether a path is left out of an
/// archive: patterns that do not compile are skipped.
pub fn any_pattern_matches(verdicts: &Vec<Option<bool>>) -> (r: bool)
    ensures
        r == ignored_by(verdicts@),
{
    let mut i: usize = 0;
    while i < verdicts.len()
        invariant
            i <= verdicts@.len(),
            forall|j: int| 0 <= j < i ==> verdicts@[j] != Some(true),
        decreases verdicts@.len() - i,
    {
        match verdicts[i] {
            Some(true) => {
                return true;
            },
            _ => {},
        }
        i = i + 1;
    }
    false
}

/// The verdict of each ignore pattern on a path.
pub open spec fn verdicts_of(patterns: Seq<String>, path: Seq<char>) -> Seq<Option<bool>> {
    Seq::new(patterns.len(), |i: int| glob_filter(patterns[i]@, path))
}

/// Whether a path, relative to the data directory, is left out of an archive.
pub fn is_ignored(ignore_patterns: &Vec<String>, relative_path: &str) -> (r: bool)
    ensures
        r == ignored_by(verdicts_of(ignore_patterns@, relative_path@)),
{
    let mut verdicts: Vec<Option<bool>> = Vec::new();
    let mut i: usize = 0;
    while i < ignore_patterns.len()
        invariant
            i <= ignore_patterns@.len(),
            verdicts@ == verdicts_of(ignore_patterns@, relative_path@).subrange(0, i as int),
        decreases ignore_patterns@.len() - i,
    {
        let v = glob_matches(ignore_patterns[i].as_str(), relative_path);
        verdicts.push(v);
        i = i + 1;
        assert(verdicts@ =~= verdicts_of(ignore_patterns@, relative_path@).subrange(0, i as int));
    }
    assert(verdicts@ =~= verdicts_of(ignore_patterns@, relative_path@));
    any_pattern_matches(&verdicts)
}

/// Whether the path has a component `..` starting at `i`.
pub open spec fn parent_component_at(p: Seq<u8>, i: int) -> bool {
    0 <= i && i + 2 <= p.len() && p[i] == DOT && p[i + 1] == DOT && (i == 0 || p[i - 1] == SLASH)
        && (i + 2 == p.len() || p[i + 2] == SLASH)
}

/// Whether some component of the path is `..`.
pub open spec fn has_parent_component(p: Seq<u8>) -> bool {
    exists|i: int| parent_component_at(p, i)
}

/// Whether an archive entry may be unpacked as far as its name goes: the path
/// is not absolute and none of its components is `..`.
pub open spec fn entry_name_is_safe(p: Seq<u8>) -> bool {
    !(p.len() > 0 && p[0] == SLASH) && !has_parent_component(p)
}

/// Checks the name of an archive entry.
pub fn entry_is_safe(entry_path: &[u8]) -> (r: bool)
    ensures
        r == entry_name_is_safe(entry_path@),
{
    let n: usize = entry_path.len();
    if n > 0 && entry_path[0] == SLASH {
        return false;
    }
    if n < 2 {
        return true;
    }
    let mut i: usize = 0;
    while i < n - 1
        invariant
            n == entry_path@.len(),
            n >= 2,
            i <= n - 1,
            forall|j: int| 0 <= j < i ==> !parent_component_at(entry_path@, j),
        decreases n - 1 - i,
    {
        if entry_path[i] == DOT && entry_path[i + 1] == DOT && (i == 0 || entry_path[i - 1] == SLASH)
            && (i + 2 == n || entry_path[i + 2] == SLASH) {
            assert(parent_component_at(entry_path@, i as int));
            return false;
        }
        i = i + 1;
    }
    true
}

/// Whether a canonical path is an acceptable destination below the canonical
/// target directory. The path of an existing target must lie strictly below
/// the directory; where the target does not exist yet it is its parent that
/// is checked, and the parent may be the directory itself.
pub open spec fn destination_ok(target_dir: Seq<u8>, checked: Seq<u8>, is_parent: bool) -> bool {
    if is_parent {
        is_within(target_dir, checked)
    } else {
        crate::path::is_strictly_within(target_dir, checked)
    }
}

/// Checks the canonical destination of an entry whose name is safe, or the
/// canonical parent of a destination that does not exist yet.
pub fn destination_is_safe(target_dir: &[u8], checked: &[u8], is_parent: bool) -> (r: bool)
    ensures
        r == destination_ok(target_dir@, checked@, is_parent),
{
    if is_parent {
        within(target_dir, checked)
    } else {
        within(target_dir, checked) && checked.len() > target_dir.len()
    }
}

/// Counts of a safe extraction.
#[derive(Debug, Clone, Copy, PartialEq, Eq, Structural)]
pub struct ExtractionReport {
    /// Entries seen.
    pub entries: u64,
    /// Entries unpacked.
    pub extracted: u64,
    /// Entries skipped because they would leave the target directory.
    pub rejected: u64,
}

impl ExtractionReport {
    /// Every entry seen was either unpacked or rejected.
    pub open spec fn balanced(self) -> bool {
        self.extracted + self.rejected == self.entries
    }

    /// A report of an extraction that has seen no entry.
    pub fn new() -> (r: Self)
        ensures
            r.balanced(),
            r.entries == 0,
            r.extracted == 0,
            r.rejected == 0,
    {
        ExtractionReport { entries: 0, extracted: 0, rejected: 0 }
    }

    /// Counts one entry: unpacked when both its name and its destination are
    /// safe, rejected otherwise. A rejected entry never ends the extraction.
    pub fn record(self, name_safe: bool, destination_safe: bool) -> (r: Self)
        requires
            self.balanced(),
            self.entries < u64::MAX,
        ensures
            r.balanced(),
            r.entries == self.entries + 1,
            r.extracted == self.extracted + if name_safe && destination_safe {
                1int
            } else {
                0int
            },
            r.rejected == self.rejected + if name_safe && destination_safe {
                0int
            } else {
                1int
            },
    {
        if name_safe && destination_safe {
            ExtractionReport {
                entries: self.entries + 1,
                extracted: self.extracted + 1,
                rejected: self.rejected,
            }
        } else {
            ExtractionReport {
                entries: self.entries + 1,
                extracted: self.extracted,
                rejected: self.rejected + 1,
            }
        }
    }
}

/// The report after the entries with the given verdicts (name safe,
/// destination safe) were handled in order.
pub open spec fn report_of(verdicts: Seq<(bool, bool)>) -> ExtractionReport
    decreases verdicts.len(),
{
    if verdicts.len() == 0 {
        ExtractionReport { entries: 0, extracted: 0, rejected: 0 }
    } else {
        let r = report_of(verdicts.drop_last());
        let ok = verdicts.last().0 && verdicts.last().1;
        ExtractionReport {
            entries: (r.entries + 1) as u64,
            extracted: (r.extracted + if ok { 1int } else { 0int }) as u64,
            rejected: (r.rejected + if ok { 0int } else { 1int }) as u64,
        }
    }
}

/// Whatever the archive holds, the number of entries unpacked is the number
/// of entries minus the number rejected, and an entry whose name is not safe
/// is among the rejected.
pub proof fn lemma_extraction_counts(verdicts: Seq<(bool, bool)>)
    requires
        verdicts.len() <= u64::MAX,
    ensures
        report_of(verdicts).entries == verdicts.len(),
        report_of(verdicts).extracted == report_of(verdicts).entries - report_of(verdicts).rejected,
        (exists|i: int| 0 <= i < verdicts.len() && !(#[trigger] verdicts[i]).0) ==> report_of(
            verdicts,
        ).rejected >= 1,
    decreases verdicts.len(),
{
    if verdicts.len() > 0 {
        lemma_extraction_counts(verdicts.drop_last());
        if exists|i: int| 0 <= i < verdicts.len() && !(#[trigger] verdicts[i]).0 {
            let i = choose|i: int| 0 <= i < verdicts.len() && !(#[trigger] verdicts[i]).0;
            if i < verdicts.len() - 1 {
                assert(!verdicts.drop_last()[i].0);
            }
        }
    }
}

/// Handles the verdicts of an archive's entries in order.
pub fn tally(verdicts: &Vec<(bool, bool)>) -> (r: ExtractionReport)
    requires
        verdicts@.len() <= u64::MAX,
    ensures
        r == report_of(verdicts@),
        r.balanced(),
{
    let mut r = ExtractionReport::new();
    let mut i: usize = 0;
    assert(verdicts@.subrange(0, 0) =~= Seq::<(bool, bool)>::empty());
    while i < verdicts.len()
        invariant
            i <= verdicts@.len(),
            verdicts@.len() <= u64::MAX,
            r == report_of(verdicts@.subrange(0, i as int)),
            r.balanced(),
            r.entries == i,
        decreases verdicts@.len() - i,
    {
        proof {
            assert(verdicts@.subrange(0, i + 1).drop_last() =~= verdicts@.subrange(0, i as int));
        }
        r = r.record(verdicts[i].0, verdicts[i].1);
        i = i + 1;
    }
    assert(verdicts@.subrange(0, verdicts@.len() as int) =~= verdicts@);
    r
}

/// An entry with an absolute path or a `..` component is never unpacked:
/// its name is not safe, whatever its destination.
pub proof fn lemma_escaping_entry_rejected(p: Seq<u8>)
    requires
        (p.len() > 0 && p[0] == SLASH) || has_parent_component(p),
    ensures
        !entry_name_is_safe(p),
{
}

} // verus!
