//! The per-session request handler: framing, permission decisions, the handle
//! table and the responses.
//!
//! Filesystem work is done by the caller. For each request the handler says
//! what is to be done ([`SftpFileHandler::plan`]); the caller performs it and
//! hands the outcome to the matching completion function, which returns the
//! response bytes.

use vstd::prelude::*;
use vstd::string::StringSliceAdditionalSpecFns;
use crate::bytes::{append_bytes, be32, copy_range, u32_at};
use crate::path::{normalize, virtual_path};
use crate::sftp::handles::{
    find_slot, lemma_position_of, lemma_position_of_unique, lemma_token_injective, make_token,
    position_of, slots_wf, token_of, HandleSlot, HandleState, OpenFlags,
};
use crate::sftp::request::{decode_packet, decode_spec, Decoded, HandleOp, PathOp, Request, RequestModel};
use crate::sftp::wire::{
    build_attrs, build_data, build_handle, build_name, build_name_range, build_status, build_version, encode_name_entries,
    encode_string, packet, status_payload, FileAttributes, NameEntry, FXP_ATTRS, FXP_DATA, FXP_HANDLE,
    FXP_NAME, FXP_STATUS, FXP_VERSION,
};

verus! {

/// Largest number of bytes returned by one READ.
pub const MAX_READ_LEN: u32 = 65536;

/// Largest number of entries returned by one READDIR.
pub const READDIR_BATCH: usize = 100;

/// What a user may do.
#[derive(Debug, Clone, Copy, PartialEq, Eq)]
pub struct Permissions {
    pub read: bool,
    pub write: bool,
    pub delete: bool,
    pub create_dir: bool,
}

/// How a file is to be opened.
#[derive(Debug, Clone, Copy, PartialEq, Eq)]
pub struct OpenOptions {
    pub read: bool,
    pub write: bool,
    pub create: bool,
    pub truncate: bool,
    pub append: bool,
}

/// Why a request is refused before any filesystem work.
#[derive(Debug, Clone, Copy, PartialEq, Eq)]
pub enum Denial {
    ReadOnlyMode,
    CannotWrite,
    CannotRead,
    PermissionDenied,
    SymlinksDisabled,
}

/// The classes of I/O error that the status mapping tells apart.
#[derive(Debug, Clone, Copy, PartialEq, Eq)]
pub enum IoFailure {
    NotFound,
    PermissionDenied,
    AlreadyExists,
    InvalidInput,
    Other,
}

/// The filesystem operations whose errors are mapped to a status.
#[derive(Debug, Clone, Copy, PartialEq, Eq)]
pub enum IoOp {
    Open,
    Stat,
    Remove,
    Rename,
    Opendir,
    Rmdir,
    Mkdir,
    Readlink,
}

/// What is to be done for a request.
#[derive(Debug, Clone, Copy, PartialEq, Eq)]
pub enum Plan {
    /// Reply with the protocol version.
    Version,
    /// Reply with status OK; nothing is changed.
    Acknowledge,
    /// Reply with a permission-denied status.
    Deny(Denial),
    /// Close or read a directory handle: answered from the handle table.
    Table(HandleOp),
    /// Resolve the path and open the file with these options.
    Open(OpenOptions),
    /// Read at most `len` bytes from the file behind the handle.
    Read { len: u32 },
    /// Write the data to the file behind the handle.
    Write,
    /// Report the attributes of the file behind the handle.
    Fstat,
    /// Report the attributes of the path.
    Stat { follow_links: bool },
    /// Snapshot the directory at the path.
    Opendir,
    /// Remove the file at the path.
    Remove,
    /// Create a directory at the path.
    Mkdir,
    /// Remove the directory at the path.
    Rmdir,
    /// Rename within the sandbox.
    Rename,
    /// Read the target of the symbolic link at the path.
    Readlink,
    /// Normalise the path virtually and report it.
    Realpath,
}

/// Whether `bit` is set in `pflags`.
pub open spec fn has_flag(pflags: u32, bit: u32) -> bool {
    pflags & bit != 0
}

/// Whether an OPEN with these flags changes the filesystem.
pub open spec fn is_write_open(pflags: u32) -> bool {
    has_flag(pflags, OpenFlags::WRITE) || has_flag(pflags, OpenFlags::CREAT) || has_flag(
        pflags,
        OpenFlags::TRUNC,
    )
}

/// The open options that the flag bits ask for.
pub open spec fn options_of(pflags: u32) -> OpenOptions {
    OpenOptions {
        read: has_flag(pflags, OpenFlags::READ),
        write: has_flag(pflags, OpenFlags::WRITE),
        create: has_flag(pflags, OpenFlags::CREAT),
        truncate: has_flag(pflags, OpenFlags::TRUNC),
        append: has_flag(pflags, OpenFlags::APPEND),
    }
}

/// The plan for an OPEN: write opens need a writable server and the write
/// permission, read opens the read permission.
pub open spec fn open_plan(read_only: bool, p: Permissions, pflags: u32) -> Plan {
    if is_write_open(pflags) {
        if read_only {
            Plan::Deny(Denial::ReadOnlyMode)
        } else if !p.write {
            Plan::Deny(Denial::CannotWrite)
        } else {
            Plan::Open(options_of(pflags))
        }
    } else if !p.read {
        Plan::Deny(Denial::CannotRead)
    } else {
        Plan::Open(options_of(pflags))
    }
}

/// The plan for a request that names one path.
pub open spec fn path_plan(read_only: bool, p: Permissions, op: PathOp) -> Plan {
    match op {
        PathOp::Lstat => Plan::Stat { follow_links: false },
        PathOp::Stat => Plan::Stat { follow_links: true },
        PathOp::Setstat => Plan::Acknowledge,
        PathOp::Opendir => if p.read {
            Plan::Opendir
        } else {
            Plan::Deny(Denial::PermissionDenied)
        },
        PathOp::Remove => if read_only || !p.delete {
            Plan::Deny(Denial::PermissionDenied)
        } else {
            Plan::Remove
        },
        PathOp::Rmdir => if read_only || !p.delete {
            Plan::Deny(Denial::PermissionDenied)
        } else {
            Plan::Rmdir
        },
        PathOp::Mkdir => if read_only || !p.create_dir {
            Plan::Deny(Denial::PermissionDenied)
        } else {
            Plan::Mkdir
        },
        PathOp::Realpath => Plan::Realpath,
        PathOp::Readlink => Plan::Readlink,
    }
}

/// The request length clamped to the largest READ.
pub open spec fn clamped_len(len: u32) -> u32 {
    if len < MAX_READ_LEN {
        len
    } else {
        MAX_READ_LEN
    }
}

/// The plan for any request.
pub open spec fn plan_of(read_only: bool, p: Permissions, r: RequestModel) -> Plan {
    match r {
        RequestModel::Init => Plan::Version,
        RequestModel::Open { pflags, .. } => open_plan(read_only, p, pflags),
        RequestModel::Read { len, .. } => Plan::Read { len: clamped_len(len) },
        RequestModel::Write { .. } => if read_only || !p.write {
            Plan::Deny(Denial::PermissionDenied)
        } else {
            Plan::Write
        },
        RequestModel::Path { op, .. } => path_plan(read_only, p, op),
        RequestModel::Handle { op, .. } => match op {
            HandleOp::Fstat => Plan::Fstat,
            HandleOp::Fsetstat => Plan::Acknowledge,
            HandleOp::Close => Plan::Table(HandleOp::Close),
            HandleOp::Readdir => Plan::Table(HandleOp::Readdir),
        },
        RequestModel::Rename { .. } => if read_only || !p.write {
            Plan::Deny(Denial::PermissionDenied)
        } else {
            Plan::Rename
        },
        RequestModel::Symlink { .. } => Plan::Deny(Denial::SymlinksDisabled),
    }
}

/// A STATUS response carrying a text message.
pub open spec fn status_reply(id: u32, code: u32, message: Seq<char>) -> Seq<u8> {
    packet(FXP_STATUS, status_payload(id, code, vstd::utf8::encode_utf8(message)))
}

/// The message sent with a denial.
pub open spec fn denial_text(d: Denial) -> Seq<char> {
    match d {
        Denial::ReadOnlyMode => "Server is in read-only mode"@,
        Denial::CannotWrite => "Permission denied: cannot write"@,
        Denial::CannotRead => "Permission denied: cannot read"@,
        Denial::PermissionDenied => "Permission denied"@,
        Denial::SymlinksDisabled => "Symlinks are disabled"@,
    }
}

/// The status code of a failed filesystem operation: missing things are 2,
/// refused access is 3, everything else is 4.
pub open spec fn failure_code(f: IoFailure) -> u32 {
    match f {
        IoFailure::NotFound => 2,
        IoFailure::PermissionDenied => 3,
        _ => 4,
    }
}

/// The message of a failed filesystem operation.
pub open spec fn failure_text(op: IoOp, f: IoFailure) -> Seq<char> {
    match f {
        IoFailure::NotFound => match op {
            IoOp::Opendir => "No such directory"@,
            IoOp::Rmdir => "No such directory"@,
            IoOp::Mkdir => "Parent directory not found"@,
            _ => "No such file"@,
        },
        IoFailure::PermissionDenied => "Permission denied"@,
        IoFailure::AlreadyExists => if op == IoOp::Mkdir {
            "Directory already exists"@
        } else {
            "Failure"@
        },
        IoFailure::InvalidInput => if op == IoOp::Readlink {
            "Not a symlink"@
        } else {
            "Failure"@
        },
        IoFailure::Other => "Failure"@,
    }
}

/// A STATUS response with a text message.
pub fn status(id: u32, code: u32, message: &str) -> (r: Vec<u8>)
    ensures
        r@ == status_reply(id, code, message@),
{
    build_status(id, code, message.as_bytes())
}

/// The response to a request refused before any filesystem work: status 3.
pub fn denial_reply(id: u32, d: Denial) -> (r: Vec<u8>)
    ensures
        r@ == status_reply(id, 3, denial_text(d)),
{
    match d {
        Denial::ReadOnlyMode => status(id, 3, "Server is in read-only mode"),
        Denial::CannotWrite => status(id, 3, "Permission denied: cannot write"),
        Denial::CannotRead => status(id, 3, "Permission denied: cannot read"),
        Denial::PermissionDenied => status(id, 3, "Permission denied"),
        Denial::SymlinksDisabled => status(id, 3, "Symlinks are disabled"),
    }
}

/// The response to a path that escapes the sandbox: status 3.
pub fn escape_reply(id: u32) -> (r: Vec<u8>)
    ensures
        r@ == status_reply(id, 3, "Permission denied"@),
{
    status(id, 3, "Permission denied")
}

/// The status code for a failed filesystem operation.
pub fn failure_status(f: IoFailure) -> (code: u32)
    ensures
        code == failure_code(f),
{
    match f {
        IoFailure::NotFound => 2,
        IoFailure::PermissionDenied => 3,
        _ => 4,
    }
}

/// The response to a failed filesystem operation.
pub fn failure_reply(id: u32, op: IoOp, f: IoFailure) -> (r: Vec<u8>)
    ensures
        r@ == status_reply(id, failure_code(f), failure_text(op, f)),
{
    match f {
        IoFailure::NotFound => match op {
            IoOp::Opendir => status(id, 2, "No such directory"),
            IoOp::Rmdir => status(id, 2, "No such directory"),
            IoOp::Mkdir => status(id, 2, "Parent directory not found"),
            _ => status(id, 2, "No such file"),
        },
        IoFailure::PermissionDenied => status(id, 3, "Permission denied"),
        IoFailure::AlreadyExists => match op {
            IoOp::Mkdir => status(id, 4, "Directory already exists"),
            _ => status(id, 4, "Failure"),
        },
        IoFailure::InvalidInput => match op {
            IoOp::Readlink => status(id, 4, "Not a symlink"),
            _ => status(id, 4, "Failure"),
        },
        IoFailure::Other => status(id, 4, "Failure"),
    }
}

/// The response to a completed operation that returns no data: status 0.
pub fn ok_reply(id: u32) -> (r: Vec<u8>)
    ensures
        r@ == status_reply(id, 0, "OK"@),
{
    status(id, 0, "OK")
}

/// The response to a handle that is not open, or not of the kind asked for.
pub fn invalid_handle_reply(id: u32) -> (r: Vec<u8>)
    ensures
        r@ == status_reply(id, 4, "Invalid handle"@),
{
    status(id, 4, "Invalid handle")
}

/// The response to a failed seek, read, write or stat on an open file:
/// status 4 with the caller's description of the error.
pub fn file_error_reply(id: u32, description: &str) -> (r: Vec<u8>)
    ensures
        r@ == status_reply(id, 4, description@),
{
    status(id, 4, description)
}

/// The response to a READ that returned `data`: end-of-file status when no
/// byte was read, the bytes otherwise.
pub fn read_reply(id: u32, data: &[u8]) -> (r: Vec<u8>)
    ensures
        data@.len() == 0 ==> r@ == status_reply(id, 1, "EOF"@),
        data@.len() > 0 ==> r@ == packet(FXP_DATA, be32(id) + encode_string(data@)),
{
    if data.len() == 0 {
        status(id, 1, "EOF")
    } else {
        build_data(id, data)
    }
}

/// The response to STAT, LSTAT or FSTAT.
pub fn attrs_reply(id: u32, attrs: &FileAttributes) -> (r: Vec<u8>)
    ensures
        r@ == packet(FXP_ATTRS, be32(id) + attrs.encoding()),
{
    build_attrs(id, attrs)
}

/// A NAME response with a single entry.
pub open spec fn single_name(id: u32, name: Seq<u8>, attrs: FileAttributes) -> Seq<u8> {
    packet(
        FXP_NAME,
        be32(id) + be32(1) + crate::sftp::wire::encode_name_entry(name, attrs),
    )
}

fn single_name_reply(id: u32, name: Vec<u8>, attrs: FileAttributes) -> (r: Vec<u8>)
    ensures
        r@ == single_name(id, name@, attrs),
{
    let mut entries: Vec<NameEntry> = Vec::new();
    entries.push(NameEntry { name, attrs });
    proof {
        assert(entries@.drop_last() =~= Seq::<NameEntry>::empty());
        assert(encode_name_entries(entries@.drop_last()) =~= Seq::<u8>::empty());
        assert(encode_name_entries(entries@) =~= crate::sftp::wire::encode_name_entry(
            name@,
            attrs,
        ));
    }
    build_name(id, &entries)
}

/// The virtual absolute path a REALPATH request names.
pub fn realpath(path: &[u8]) -> (out: Vec<u8>)
    ensures
        out@ == virtual_path(path@),
{
    normalize(path)
}

/// The response to REALPATH: the normalised path with the attributes the
/// caller found for it (the defaults when it does not exist).
pub fn realpath_reply(id: u32, path: &[u8], attrs: FileAttributes) -> (r: Vec<u8>)
    ensures
        r@ == single_name(id, virtual_path(path@), attrs),
{
    single_name_reply(id, normalize(path), attrs)
}

/// The response to READLINK: the link target with default attributes.
pub fn readlink_reply(id: u32, target: Vec<u8>) -> (r: Vec<u8>)
    ensures
        r@ == single_name(id, target@, FileAttributes::empty()),
{
    single_name_reply(id, target, FileAttributes::default())
}

/// Where a complete packet at the head of `buf` ends, if one is there: at
/// least five bytes must be buffered, and all the bytes the length announces.
pub open spec fn frame_end(buf: Seq<u8>) -> Option<int> {
    if buf.len() >= 5 && 4 + u32_at(buf, 0) <= buf.len() {
        Some(4 + u32_at(buf, 0))
    } else {
        None
    }
}

/// The number of entries a READDIR returns from a snapshot of `total`
/// entries of which `position` were already returned.
pub open spec fn batch_len(total: int, position: int) -> int {
    if total - position < 100 {
        total - position
    } else {
        100
    }
}

/// SFTP request handler for one authenticated session.
pub struct SftpFileHandler {
    permissions: Permissions,
    read_only: bool,
    handles: Vec<HandleSlot>,
    handle_counter: u64,
    buffer: Vec<u8>,
}

impl SftpFileHandler {
    /// The handle table and the counter agree.
    pub closed spec fn wf(&self) -> bool {
        slots_wf(self.handles@, self.handle_counter as nat)
    }

    /// The user's permissions.
    pub closed spec fn permissions(&self) -> Permissions {
        self.permissions
    }

    /// Whether the server is in read-only mode.
    pub closed spec fn read_only(&self) -> bool {
        self.read_only
    }

    /// The open handles.
    pub closed spec fn slots(&self) -> Seq<HandleSlot> {
        self.handles@
    }

    /// The number of handles issued so far.
    pub closed spec fn issued(&self) -> nat {
        self.handle_counter as nat
    }

    /// The bytes received and not yet consumed as packets.
    pub closed spec fn buffered(&self) -> Seq<u8> {
        self.buffer@
    }

    /// The slot a token refers to, if it is open.
    pub open spec fn slot(&self, token: Seq<u8>) -> Option<HandleSlot> {
        match position_of(self.slots(), token) {
            Some(i) => Some(self.slots()[i]),
            None => None,
        }
    }

    /// A handler with no open handle and an empty buffer.
    pub fn new(permissions: Permissions, read_only: bool) -> (h: Self)
        ensures
            h.wf(),
            h.permissions() == permissions,
            h.read_only() == read_only,
            h.slots().len() == 0,
            h.issued() == 0,
            h.buffered().len() == 0,
    {
        SftpFileHandler {
            permissions,
            read_only,
            handles: Vec::new(),
            handle_counter: 0,
            buffer: Vec::new(),
        }
    }

    /// The number of handles issued so far.
    pub fn handles_issued(&self) -> (n: u64)
        ensures
            n == self.issued(),
    {
        self.handle_counter
    }

    /// The number of handles open.
    pub fn open_handles(&self) -> (n: usize)
        ensures
            n == self.slots().len(),
    {
        self.handles.len()
    }

    /// Appends received bytes to the packet buffer.
    pub fn feed(&mut self, data: &[u8])
        ensures
            final(self).buffered() == old(self).buffered() + data@,
            final(self).slots() == old(self).slots(),
            final(self).issued() == old(self).issued(),
            final(self).permissions() == old(self).permissions(),
            final(self).read_only() == old(self).read_only(),
            final(self).wf() == old(self).wf(),
    {
        append_bytes(&mut self.buffer, data);
    }

    /// Takes the next complete packet off the buffer and decodes it. `None`,
    /// with the buffer untouched, when no complete packet is buffered.
    pub fn next_packet(&mut self) -> (r: Option<Decoded>)
        ensures
            match frame_end(old(self).buffered()) {
                Some(end) => r.is_some() && r.unwrap()@ == decode_spec(
                    old(self).buffered().subrange(4, end),
                ) && final(self).buffered() == old(self).buffered().subrange(
                    end,
                    old(self).buffered().len() as int,
                ),
                None => r.is_none() && final(self).buffered() == old(self).buffered(),
            },
            final(self).slots() == old(self).slots(),
            final(self).issued() == old(self).issued(),
            final(self).permissions() == old(self).permissions(),
            final(self).read_only() == old(self).read_only(),
            final(self).wf() == old(self).wf(),
    {
        let total: usize = self.buffer.len();
        if total < 5 {
            return None;
        }
        let mut offset: usize = 0;
        let length: u32 = match crate::sftp::wire::read_u32(self.buffer.as_slice(), &mut offset) {
            Some(n) => n,
            None => {
                return None;
            },
        };
        let available: u64 = (total - 4) as u64;
        let wanted: u64 = length as u64;
        if available < wanted {
            return None;
        }
        let end: usize = 4 + length as usize;
        let decoded = decode_packet(vstd::slice::slice_subrange(self.buffer.as_slice(), 4, end));
        let rest = copy_range(self.buffer.as_slice(), end, total);
        self.buffer = rest;
        Some(decoded)
    }

    /// What is to be done for a request.
    pub fn plan(&self, request: &Request) -> (p: Plan)
        ensures
            p == plan_of(self.read_only(), self.permissions(), request@),
    {
        match request {
            Request::Init => Plan::Version,
            Request::Open { pflags, .. } => {
                let flags: u32 = *pflags;
                let options = OpenOptions {
                    read: flags & OpenFlags::READ != 0,
                    write: flags & OpenFlags::WRITE != 0,
                    create: flags & OpenFlags::CREAT != 0,
                    truncate: flags & OpenFlags::TRUNC != 0,
                    append: flags & OpenFlags::APPEND != 0,
                };
                if options.write || options.create || options.truncate {
                    if self.read_only {
                        Plan::Deny(Denial::ReadOnlyMode)
                    } else if !self.permissions.write {
                        Plan::Deny(Denial::CannotWrite)
                    } else {
                        Plan::Open(options)
                    }
                } else if !self.permissions.read {
                    Plan::Deny(Denial::CannotRead)
                } else {
                    Plan::Open(options)
                }
            },
            Request::Read { len, .. } => {
                let n: u32 = *len;
                Plan::Read { len: if n < MAX_READ_LEN { n } else { MAX_READ_LEN } }
            },
            Request::Write { .. } => {
                if self.read_only || !self.permissions.write {
                    Plan::Deny(Denial::PermissionDenied)
                } else {
                    Plan::Write
                }
            },
            Request::Path { op, .. } => match op {
                PathOp::Lstat => Plan::Stat { follow_links: false },
                PathOp::Stat => Plan::Stat { follow_links: true },
                PathOp::Setstat => Plan::Acknowledge,
                PathOp::Opendir => {
                    if self.permissions.read {
                        Plan::Opendir
                    } else {
                        Plan::Deny(Denial::PermissionDenied)
                    }
                },
                PathOp::Remove => {
                    if self.read_only || !self.permissions.delete {
                        Plan::Deny(Denial::PermissionDenied)
                    } else {
                        Plan::Remove
                    }
                },
                PathOp::Rmdir => {
                    if self.read_only || !self.permissions.delete {
                        Plan::Deny(Denial::PermissionDenied)
                    } else {
                        Plan::Rmdir
                    }
                },
                PathOp::Mkdir => {
                    if self.read_only || !self.permissions.create_dir {
                        Plan::Deny(Denial::PermissionDenied)
                    } else {
                        Plan::Mkdir
                    }
                },
                PathOp::Realpath => Plan::Realpath,
                PathOp::Readlink => Plan::Readlink,
            },
            Request::Handle { op, .. } => match op {
                HandleOp::Fstat => Plan::Fstat,
                HandleOp::Fsetstat => Plan::Acknowledge,
                HandleOp::Close => Plan::Table(HandleOp::Close),
                HandleOp::Readdir => Plan::Table(HandleOp::Readdir),
            },
            Request::Rename { .. } => {
                if self.read_only || !self.permissions.write {
                    Plan::Deny(Denial::PermissionDenied)
                } else {
                    Plan::Rename
                }
            },
            Request::Symlink { .. } => Plan::Deny(Denial::SymlinksDisabled),
        }
    }

    /// The response to INIT.
    pub fn version_reply() -> (r: Vec<u8>)
        ensures
            r@ == packet(FXP_VERSION, be32(3)),
    {
        build_version()
    }

    fn issue(&mut self, state: HandleState) -> (token: Vec<u8>)
        requires
            old(self).wf(),
            old(self).issued() < u64::MAX,
            match state {
                HandleState::Directory { entries, position } => position <= entries@.len(),
                HandleState::File { .. } => true,
            },
        ensures
            final(self).wf(),
            final(self).issued() == old(self).issued() + 1,
            token@ == token_of(final(self).issued()),
            final(self).slots().len() == old(self).slots().len() + 1,
            final(self).slots().drop_last() == old(self).slots(),
            final(self).slot(token@).is_some(),
            final(self).slot(token@).unwrap().state == state,
            final(self).buffered() == old(self).buffered(),
            final(self).permissions() == old(self).permissions(),
            final(self).read_only() == old(self).read_only(),
    {
        self.handle_counter = self.handle_counter + 1;
        let token = make_token(self.handle_counter);
        let kept = copy_range(token.as_slice(), 0, token.len());
        assert(token@.subrange(0, token@.len() as int) =~= token@);
        self.handles.push(HandleSlot { token: kept, number: self.handle_counter, state });
        proof {
            let slots = self.handles@;
            let last = slots.len() - 1;
            assert(slots.drop_last() =~= old(self).handles@);
            assert(forall|i: int| 0 <= i < last ==> slots[i] == old(self).handles@[i]);
            lemma_position_of_unique(slots, self.handle_counter as nat, last);
        }
        token
    }

    /// Records a file the caller has opened and answers with its new handle.
    /// Returns the handle token and the HANDLE response.
    pub fn open_file(&mut self, id: u32, pflags: u32) -> (r: (Vec<u8>, Vec<u8>))
        requires
            old(self).wf(),
            old(self).issued() < u64::MAX,
        ensures
            final(self).wf(),
            final(self).issued() == old(self).issued() + 1,
            r.0@ == token_of(final(self).issued()),
            r.1@ == packet(FXP_HANDLE, be32(id) + encode_string(r.0@)),
            final(self).slots().len() == old(self).slots().len() + 1,
            final(self).slots().drop_last() == old(self).slots(),
            final(self).slot(r.0@).is_some(),
            final(self).slot(r.0@).unwrap().state == (HandleState::File {
                flags: OpenFlags(pflags),
            }),
            final(self).buffered() == old(self).buffered(),
            final(self).permissions() == old(self).permissions(),
            final(self).read_only() == old(self).read_only(),
    {
        let token = self.issue(HandleState::File { flags: OpenFlags::from_bits_truncate(pflags) });
        let response = build_handle(id, token.as_slice());
        (token, response)
    }

    /// Records a directory snapshot the caller has taken and answers with its
    /// new handle. Returns the handle token and the HANDLE response.
    pub fn open_directory(&mut self, id: u32, entries: Vec<NameEntry>) -> (r: (Vec<u8>, Vec<u8>))
        requires
            old(self).wf(),
            old(self).issued() < u64::MAX,
        ensures
            final(self).wf(),
            final(self).issued() == old(self).issued() + 1,
            r.0@ == token_of(final(self).issued()),
            r.1@ == packet(FXP_HANDLE, be32(id) + encode_string(r.0@)),
            final(self).slots().len() == old(self).slots().len() + 1,
            final(self).slots().drop_last() == old(self).slots(),
            final(self).slot(r.0@).is_some(),
            final(self).slot(r.0@).unwrap().state == (HandleState::Directory {
                entries,
                position: 0,
            }),
            final(self).buffered() == old(self).buffered(),
            final(self).permissions() == old(self).permissions(),
            final(self).read_only() == old(self).read_only(),
    {
        let token = self.issue(HandleState::Directory { entries, position: 0 });
        let response = build_handle(id, token.as_slice());
        (token, response)
    }

    /// Whether the token names an open file handle.
    pub fn is_file_handle(&self, token: &[u8]) -> (r: bool)
        ensures
            r == match self.slot(token@) {
                Some(s) => s.state is File,
                None => false,
            },
    {
        match find_slot(&self.handles, token) {
            Some(i) => match &self.handles[i].state {
                HandleState::File { .. } => true,
                HandleState::Directory { .. } => false,
            },
            None => false,
        }
    }

    /// Closes a handle: status OK when it was open, and it is open no more;
    /// status 4 "Invalid handle" otherwise, with the table unchanged.
    pub fn close(&mut self, id: u32, token: &[u8]) -> (r: Vec<u8>)
        requires
            old(self).wf(),
        ensures
            final(self).wf(),
            final(self).issued() == old(self).issued(),
            final(self).buffered() == old(self).buffered(),
            final(self).permissions() == old(self).permissions(),
            final(self).read_only() == old(self).read_only(),
            closed_by(*old(self), *final(self), id, token@, r@),
    {
        match find_slot(&self.handles, token) {
            Some(i) => {
                self.handles.remove(i);
                proof {
                    let before = old(self).handles@;
                    let after = self.handles@;
                    assert(after =~= before.remove(i as int));
                    lemma_position_of(before, token@);
                    lemma_position_of(after, token@);
                    if position_of(after, token@).is_some() {
                        let j = position_of(after, token@).unwrap();
                        let k = if j < i { j } else { j + 1 };
                        assert(after[j] == before[k]);
                        lemma_token_injective(before[k].number as nat, before[i as int].number as nat);
                    }
                }
                ok_reply(id)
            },
            None => invalid_handle_reply(id),
        }
    }

    /// Answers READDIR from the snapshot behind the handle: the next batch of
    /// at most 100 entries, advancing the cursor past them; end-of-file status
    /// once the snapshot is exhausted; status 4 for anything but an open
    /// directory handle.
    pub fn readdir(&mut self, id: u32, token: &[u8]) -> (r: Vec<u8>)
        requires
            old(self).wf(),
        ensures
            final(self).wf(),
            final(self).issued() == old(self).issued(),
            final(self).buffered() == old(self).buffered(),
            final(self).permissions() == old(self).permissions(),
            final(self).read_only() == old(self).read_only(),
            listed_by(*old(self), *final(self), id, token@, r@),
    {
        let found = find_slot(&self.handles, token);
        let i: usize = match found {
            Some(i) => i,
            None => {
                return invalid_handle_reply(id);
            },
        };
        let slot = self.handles.remove(i);
        let ghost before = old(self).handles@;
        assert(slot == before[i as int]);
        proof {
            lemma_position_of(before, token@);
        }
        match slot.state {
            HandleState::File { flags } => {
                self.handles.insert(
                    i,
                    HandleSlot { token: slot.token, number: slot.number, state: HandleState::File { flags } },
                );
                assert(self.handles@ =~= before);
                invalid_handle_reply(id)
            },
            HandleState::Directory { entries, position } => {
                if position >= entries.len() {
                    self.handles.insert(
                        i,
                        HandleSlot {
                            token: slot.token,
                            number: slot.number,
                            state: HandleState::Directory { entries, position },
                        },
                    );
                    assert(self.handles@ =~= before);
                    return status(id, 1, "EOF");
                }
                let remaining: usize = entries.len() - position;
                let n: usize = if remaining < READDIR_BATCH { remaining } else { READDIR_BATCH };
                let response = build_name_range(id, &entries, position, position + n);
                let ghost new_slot = HandleSlot {
                    token: slot.token,
                    number: slot.number,
                    state: HandleState::Directory { entries, position: (position + n) as usize },
                };
                self.handles.insert(
                    i,
                    HandleSlot {
                        token: slot.token,
                        number: slot.number,
                        state: HandleState::Directory { entries, position: position + n },
                    },
                );
                proof {
                    let after = self.handles@;
                    assert(after =~= before.update(i as int, new_slot));
                    assert(slots_wf(after, self.handle_counter as nat));
                    assert(after[i as int].token@ == token@);
                    assert(forall|j: int| 0 <= j < after.len() ==> after[j].number == before[j].number);
                    assert(forall|j: int| 0 <= j < after.len() ==> after[j].token == before[j].token);
                    lemma_position_of_unique(after, self.handle_counter as nat, i as int);
                }
                response
            },
        }
    }

    /// Answers a request that needs no filesystem work: INIT, the
    /// acknowledged no-ops, refusals, CLOSE and READDIR. For every other
    /// request nothing is answered and nothing changes: the caller does the
    /// work that `plan` names.
    pub fn answer(&mut self, request: &Request) -> (r: Option<Vec<u8>>)
        requires
            old(self).wf(),
        ensures
            final(self).wf(),
            final(self).issued() == old(self).issued(),
            final(self).buffered() == old(self).buffered(),
            final(self).permissions() == old(self).permissions(),
            final(self).read_only() == old(self).read_only(),
            answered_by(
                *old(self),
                *final(self),
                request@,
                match r {
                    Some(b) => Some(b@),
                    None => None,
                },
            ),
    {
        let id = id_of(request);
        match self.plan(request) {
            Plan::Version => Some(build_version()),
            Plan::Acknowledge => Some(ok_reply(id)),
            Plan::Deny(d) => Some(denial_reply(id, d)),
            Plan::Table(op) => match request {
                Request::Handle { handle, .. } => match op {
                    HandleOp::Close => Some(self.close(id, handle.as_slice())),
                    HandleOp::Readdir => Some(self.readdir(id, handle.as_slice())),
                    _ => None,
                },
                _ => None,
            },
            _ => None,
        }
    }
}

/// What closing `token` does: status OK when it was open, and it is open no
/// more; status 4 otherwise, with the table unchanged.
pub open spec fn closed_by(
    pre: SftpFileHandler,
    post: SftpFileHandler,
    id: u32,
    token: Seq<u8>,
    reply: Seq<u8>,
) -> bool {
    match position_of(pre.slots(), token) {
        Some(i) => reply == status_reply(id, 0, "OK"@) && post.slots() == pre.slots().remove(i)
            && post.slot(token).is_none(),
        None => reply == status_reply(id, 4, "Invalid handle"@) && post.slots() == pre.slots(),
    }
}

/// What READDIR on `token` does: the next batch of the snapshot with the
/// cursor moved past it, end-of-file once the snapshot is exhausted, status 4
/// for anything but an open directory handle.
pub open spec fn listed_by(
    pre: SftpFileHandler,
    post: SftpFileHandler,
    id: u32,
    token: Seq<u8>,
    reply: Seq<u8>,
) -> bool {
    &&& post.slots().len() == pre.slots().len()
    &&& match pre.slot(token) {
        Some(s) => match s.state {
            HandleState::Directory { entries, position } => {
                if position >= entries@.len() {
                    reply == status_reply(id, 1, "EOF"@) && post.slots() == pre.slots()
                } else {
                    let n = batch_len(entries@.len() as int, position as int);
                    &&& reply == packet(
                        FXP_NAME,
                        be32(id) + be32(crate::bytes::wire_len(n)) + encode_name_entries(
                            entries@.subrange(position as int, position + n),
                        ),
                    )
                    &&& post.slot(token).is_some()
                    &&& post.slot(token).unwrap().state == (HandleState::Directory {
                        entries,
                        position: (position + n) as usize,
                    })
                }
            },
            HandleState::File { .. } => reply == status_reply(id, 4, "Invalid handle"@)
                && post.slots() == pre.slots(),
        },
        None => reply == status_reply(id, 4, "Invalid handle"@) && post.slots() == pre.slots(),
    }
}

/// The response to a request that is answered without filesystem work.
pub open spec fn answered_by(
    pre: SftpFileHandler,
    post: SftpFileHandler,
    request: RequestModel,
    reply: Option<Seq<u8>>,
) -> bool {
    match (plan_of(pre.read_only(), pre.permissions(), request), request) {
        (Plan::Version, _) => reply == Some(packet(FXP_VERSION, be32(3))) && post.slots()
            == pre.slots(),
        (Plan::Acknowledge, RequestModel::Path { id, .. }) => reply == Some(
            status_reply(id, 0, "OK"@),
        ) && post.slots() == pre.slots(),
        (Plan::Acknowledge, RequestModel::Handle { id, .. }) => reply == Some(
            status_reply(id, 0, "OK"@),
        ) && post.slots() == pre.slots(),
        (Plan::Deny(d), r) => reply == Some(status_reply(request_id(r), 3, denial_text(d)))
            && post.slots() == pre.slots(),
        (Plan::Table(HandleOp::Close), RequestModel::Handle { id, handle, .. }) => reply.is_some()
            && closed_by(pre, post, id, handle, reply.unwrap()),
        (Plan::Table(HandleOp::Readdir), RequestModel::Handle { id, handle, .. }) => reply.is_some()
            && listed_by(pre, post, id, handle, reply.unwrap()),
        _ => reply.is_none() && post.slots() == pre.slots(),
    }
}

/// The request id of a request; zero for INIT, which carries none.
pub open spec fn request_id(r: RequestModel) -> u32 {
    match r {
        RequestModel::Init => 0,
        RequestModel::Open { id, .. } => id,
        RequestModel::Read { id, .. } => id,
        RequestModel::Write { id, .. } => id,
        RequestModel::Path { id, .. } => id,
        RequestModel::Handle { id, .. } => id,
        RequestModel::Rename { id, .. } => id,
        RequestModel::Symlink { id } => id,
    }
}

/// The request id of a request.
pub fn id_of(request: &Request) -> (id: u32)
    ensures
        id == request_id(request@),
{
    match request {
        Request::Init => 0,
        Request::Open { id, .. } => *id,
        Request::Read { id, .. } => *id,
        Request::Write { id, .. } => *id,
        Request::Path { id, .. } => *id,
        Request::Handle { id, .. } => *id,
        Request::Rename { id, .. } => *id,
        Request::Symlink { id } => *id,
    }
}

} // verus!
