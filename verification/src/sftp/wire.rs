//! Field readers and response builders for the SFTP version 3 wire format.
//!
//! Every packet is a 32-bit big-endian length, one type byte and a payload.

use vstd::prelude::*;
use crate::bytes::{append_bytes, be32, be64, len_plus_one_to_wire, len_to_wire, put_u32, put_u64, u32_at, u64_at, wire_len};

verus! {

pub const FXP_VERSION: u8 = 2;
pub const FXP_STATUS: u8 = 101;
pub const FXP_HANDLE: u8 = 102;
pub const FXP_DATA: u8 = 103;
pub const FXP_NAME: u8 = 104;
pub const FXP_ATTRS: u8 = 105;

pub const FX_OK: u32 = 0;
pub const FX_EOF: u32 = 1;
pub const FX_NO_SUCH_FILE: u32 = 2;
pub const FX_PERMISSION_DENIED: u32 = 3;
pub const FX_FAILURE: u32 = 4;

pub const ATTR_SIZE: u32 = 1;
pub const ATTR_UIDGID: u32 = 2;
pub const ATTR_PERMISSIONS: u32 = 4;
pub const ATTR_ACMODTIME: u32 = 8;

/// File attributes as carried in ATTRS and NAME responses.
#[derive(Debug, Clone, Copy, PartialEq, Eq)]
pub struct FileAttributes {
    pub size: Option<u64>,
    pub uid: Option<u32>,
    pub gid: Option<u32>,
    pub permissions: Option<u32>,
    pub atime: Option<u32>,
    pub mtime: Option<u32>,
}

impl Default for FileAttributes {
    fn default() -> (a: Self)
        ensures
            a == FileAttributes::empty(),
    {
        FileAttributes { size: None, uid: None, gid: None, permissions: None, atime: None, mtime: None }
    }
}

impl FileAttributes {
    /// Attributes with no field present.
    pub open spec fn empty() -> FileAttributes {
        FileAttributes { size: None, uid: None, gid: None, permissions: None, atime: None, mtime: None }
    }

    /// The flag word announcing which attribute groups follow.
    pub open spec fn flags(self) -> u32 {
        ((if self.size.is_some() { 1int } else { 0 })
            + (if self.uid.is_some() && self.gid.is_some() { 2int } else { 0 })
            + (if self.permissions.is_some() { 4int } else { 0 })
            + (if self.atime.is_some() && self.mtime.is_some() { 8int } else { 0 })) as u32
    }

    /// The size group: eight bytes when a size is present.
    pub open spec fn size_part(self) -> Seq<u8> {
        if self.size.is_some() {
            be64(self.size.unwrap())
        } else {
            Seq::empty()
        }
    }

    /// The owner group: uid then gid, when both are present.
    pub open spec fn owner_part(self) -> Seq<u8> {
        if self.uid.is_some() && self.gid.is_some() {
            be32(self.uid.unwrap()) + be32(self.gid.unwrap())
        } else {
            Seq::empty()
        }
    }

    /// The permission group.
    pub open spec fn permission_part(self) -> Seq<u8> {
        if self.permissions.is_some() {
            be32(self.permissions.unwrap())
        } else {
            Seq::empty()
        }
    }

    /// The time group: atime then mtime, when both are present.
    pub open spec fn time_part(self) -> Seq<u8> {
        if self.atime.is_some() && self.mtime.is_some() {
            be32(self.atime.unwrap()) + be32(self.mtime.unwrap())
        } else {
            Seq::empty()
        }
    }

    /// The wire form: the flag word, then each present group in flag order.
    pub open spec fn encoding(self) -> Seq<u8> {
        be32(self.flags()) + self.size_part() + self.owner_part() + self.permission_part()
            + self.time_part()
    }
}

/// One entry of a NAME response.
#[derive(Debug, Clone)]
pub struct NameEntry {
    pub name: Vec<u8>,
    pub attrs: FileAttributes,
}

/// A length-prefixed byte string.
pub open spec fn encode_string(s: Seq<u8>) -> Seq<u8> {
    be32(wire_len(s.len() as int)) + s
}

/// A NAME entry: the file name, the long name (the same bytes), the attributes.
pub open spec fn encode_name_entry(name: Seq<u8>, attrs: FileAttributes) -> Seq<u8> {
    encode_string(name) + encode_string(name) + attrs.encoding()
}

/// The entries of a NAME response, in order.
pub open spec fn encode_name_entries(entries: Seq<NameEntry>) -> Seq<u8>
    decreases entries.len(),
{
    if entries.len() == 0 {
        Seq::empty()
    } else {
        encode_name_entries(entries.drop_last()) + encode_name_entry(
            entries.last().name@,
            entries.last().attrs,
        )
    }
}

/// A framed packet: length of type byte plus payload, the type byte, the payload.
pub open spec fn packet(packet_type: u8, payload: Seq<u8>) -> Seq<u8> {
    be32(wire_len(payload.len() as int + 1)) + seq![packet_type] + payload
}

/// Payload of a STATUS response: request id, code, message, empty language tag.
pub open spec fn status_payload(request_id: u32, code: u32, message: Seq<u8>) -> Seq<u8> {
    be32(request_id) + be32(code) + encode_string(message) + be32(0)
}

/// Reads a big-endian `u32` at `*offset` and advances past it; `None`, with the
/// offset unchanged, when fewer than four bytes remain.
pub fn read_u32(data: &[u8], offset: &mut usize) -> (r: Option<u32>)
    ensures
        *old(offset) + 4 <= data@.len() ==> r == Some(u32_at(data@, *old(offset) as int) as u32)
            && *final(offset) == *old(offset) + 4,
        *old(offset) + 4 > data@.len() ==> r.is_none() && *final(offset) == *old(offset),
{
    let at: usize = *offset;
    if data.len() < 4 || at > data.len() - 4 {
        return None;
    }
    let b0: u32 = data[at] as u32;
    let b1: u32 = data[at + 1] as u32;
    let b2: u32 = data[at + 2] as u32;
    let b3: u32 = data[at + 3] as u32;
    *offset = at + 4;
    Some(b0 * 16777216 + b1 * 65536 + b2 * 256 + b3)
}

/// Reads a big-endian `u64` at `*offset` and advances past it; `None`, with the
/// offset unchanged, when fewer than eight bytes remain.
pub fn read_u64(data: &[u8], offset: &mut usize) -> (r: Option<u64>)
    ensures
        *old(offset) + 8 <= data@.len() ==> r == Some(u64_at(data@, *old(offset) as int) as u64)
            && *final(offset) == *old(offset) + 8,
        *old(offset) + 8 > data@.len() ==> r.is_none() && *final(offset) == *old(offset),
{
    let at: usize = *offset;
    if data.len() < 8 || at > data.len() - 8 {
        return None;
    }
    let hi: Option<u32> = read_u32(data, offset);
    let lo: Option<u32> = read_u32(data, offset);
    match (hi, lo) {
        (Some(h), Some(l)) => Some((h as u64) * 4294967296 + (l as u64)),
        _ => None,
    }
}

/// What `read_bytes` yields on `data` from offset `at`: the slice bounds of the
/// length-prefixed string there, if it is complete.
pub open spec fn string_at(data: Seq<u8>, at: int) -> Option<Seq<u8>> {
    if at + 4 <= data.len() && at + 4 + u32_at(data, at) <= data.len() {
        Some(data.subrange(at + 4, at + 4 + u32_at(data, at)))
    } else {
        None
    }
}

/// Where the offset stands after `read_bytes` from `at`: past the string when
/// it is complete, past the length field when only that was there, else unmoved.
pub open spec fn offset_after_string(data: Seq<u8>, at: int) -> int {
    if at + 4 <= data.len() {
        if at + 4 + u32_at(data, at) <= data.len() {
            at + 4 + u32_at(data, at)
        } else {
            at + 4
        }
    } else {
        at
    }
}

/// Reads a length-prefixed byte string at `*offset`.
pub fn read_bytes<'a>(data: &'a [u8], offset: &mut usize) -> (r: Option<&'a [u8]>)
    ensures
        match r {
            Some(b) => string_at(data@, *old(offset) as int) == Some(b@),
            None => string_at(data@, *old(offset) as int).is_none(),
        },
        *final(offset) == offset_after_string(data@, *old(offset) as int),
{
    let len: usize = match read_u32(data, offset) {
        Some(n) => n as usize,
        None => {
            return None;
        },
    };
    let at: usize = *offset;
    if len > data.len() - at {
        return None;
    }
    *offset = at + len;
    Some(vstd::slice::slice_subrange(data, at, at + len))
}

/// Checks with `core::str::from_utf8` whether the bytes are well-formed UTF-8,
/// which is what that function's documentation says its `Ok` means.
#[verifier::external_body]
pub(crate) fn is_utf8(bytes: &[u8]) -> (ok: bool)
    ensures
        ok == vstd::utf8::valid_utf8(bytes@),
{
    core::str::from_utf8(bytes).is_ok()
}

/// Reads a length-prefixed string at `*offset`, accepting it only when it is
/// complete and well-formed UTF-8. The offset moves as in `read_bytes`, except
/// that it stays before the contents of a string that is not UTF-8.
pub fn read_string<'a>(data: &'a [u8], offset: &mut usize) -> (r: Option<&'a [u8]>)
    ensures
        match r {
            Some(b) => string_at(data@, *old(offset) as int) == Some(b@) && vstd::utf8::valid_utf8(b@)
                && *final(offset) == offset_after_string(data@, *old(offset) as int),
            None => match string_at(data@, *old(offset) as int) {
                Some(b) => !vstd::utf8::valid_utf8(b) && *final(offset) == *old(offset) + 4,
                None => *final(offset) == offset_after_string(data@, *old(offset) as int),
            },
        },
{
    let start: usize = *offset;
    match read_bytes(data, offset) {
        Some(b) => {
            if is_utf8(b) {
                Some(b)
            } else {
                *offset = start + 4;
                None
            }
        },
        None => None,
    }
}

/// Frames a payload as a packet of the given type.
pub fn build_response(packet_type: u8, data: &[u8]) -> (r: Vec<u8>)
    ensures
        r@ == packet(packet_type, data@),
{
    let length: u32 = len_plus_one_to_wire(data.len());
    let mut response: Vec<u8> = Vec::new();
    put_u32(&mut response, length);
    response.push(packet_type);
    append_bytes(&mut response, data);
    assert(response@ =~= packet(packet_type, data@));
    response
}

/// Appends a length-prefixed byte string.
pub fn put_string(out: &mut Vec<u8>, s: &[u8])
    ensures
        final(out)@ == old(out)@ + encode_string(s@),
{
    put_u32(out, len_to_wire(s.len()));
    append_bytes(out, s);
    assert(out@ =~= old(out)@ + encode_string(s@));
}

/// A STATUS response.
pub fn build_status(request_id: u32, code: u32, message: &[u8]) -> (r: Vec<u8>)
    ensures
        r@ == packet(FXP_STATUS, status_payload(request_id, code, message@)),
{
    let mut data: Vec<u8> = Vec::new();
    put_u32(&mut data, request_id);
    put_u32(&mut data, code);
    put_string(&mut data, message);
    put_u32(&mut data, 0);
    assert(data@ =~= status_payload(request_id, code, message@));
    build_response(FXP_STATUS, data.as_slice())
}

/// A HANDLE response.
pub fn build_handle(request_id: u32, handle: &[u8]) -> (r: Vec<u8>)
    ensures
        r@ == packet(FXP_HANDLE, be32(request_id) + encode_string(handle@)),
{
    let mut data: Vec<u8> = Vec::new();
    put_u32(&mut data, request_id);
    put_string(&mut data, handle);
    assert(data@ =~= be32(request_id) + encode_string(handle@));
    build_response(FXP_HANDLE, data.as_slice())
}

/// A DATA response.
pub fn build_data(request_id: u32, bytes: &[u8]) -> (r: Vec<u8>)
    ensures
        r@ == packet(FXP_DATA, be32(request_id) + encode_string(bytes@)),
{
    let mut data: Vec<u8> = Vec::new();
    put_u32(&mut data, request_id);
    put_string(&mut data, bytes);
    assert(data@ =~= be32(request_id) + encode_string(bytes@));
    build_response(FXP_DATA, data.as_slice())
}

fn put_flags(data: &mut Vec<u8>, attrs: &FileAttributes)
    ensures
        final(data)@ == old(data)@ + be32(attrs.flags()),
{
    let mut flags: u32 = 0;
    if attrs.size.is_some() {
        flags = flags + ATTR_SIZE;
    }
    if attrs.uid.is_some() && attrs.gid.is_some() {
        flags = flags + ATTR_UIDGID;
    }
    if attrs.permissions.is_some() {
        flags = flags + ATTR_PERMISSIONS;
    }
    if attrs.atime.is_some() && attrs.mtime.is_some() {
        flags = flags + ATTR_ACMODTIME;
    }
    put_u32(data, flags);
}

fn put_size_part(data: &mut Vec<u8>, attrs: &FileAttributes)
    ensures
        final(data)@ == old(data)@ + attrs.size_part(),
{
    if let Some(size) = attrs.size {
        put_u64(data, size);
    }
    assert(data@ =~= old(data)@ + attrs.size_part());
}

fn put_owner_part(data: &mut Vec<u8>, attrs: &FileAttributes)
    ensures
        final(data)@ == old(data)@ + attrs.owner_part(),
{
    if let (Some(uid), Some(gid)) = (attrs.uid, attrs.gid) {
        put_u32(data, uid);
        put_u32(data, gid);
    }
    assert(data@ =~= old(data)@ + attrs.owner_part());
}

fn put_permission_part(data: &mut Vec<u8>, attrs: &FileAttributes)
    ensures
        final(data)@ == old(data)@ + attrs.permission_part(),
{
    if let Some(perms) = attrs.permissions {
        put_u32(data, perms);
    }
    assert(data@ =~= old(data)@ + attrs.permission_part());
}

fn put_time_part(data: &mut Vec<u8>, attrs: &FileAttributes)
    ensures
        final(data)@ == old(data)@ + attrs.time_part(),
{
    if let (Some(atime), Some(mtime)) = (attrs.atime, attrs.mtime) {
        put_u32(data, atime);
        put_u32(data, mtime);
    }
    assert(data@ =~= old(data)@ + attrs.time_part());
}

/// Appends the wire form of the attributes.
pub fn write_attrs(data: &mut Vec<u8>, attrs: &FileAttributes)
    ensures
        final(data)@ == old(data)@ + attrs.encoding(),
{
    put_flags(data, attrs);
    put_size_part(data, attrs);
    put_owner_part(data, attrs);
    put_permission_part(data, attrs);
    put_time_part(data, attrs);
    assert(data@ =~= old(data)@ + attrs.encoding());
}

/// An ATTRS response.
pub fn build_attrs(request_id: u32, attrs: &FileAttributes) -> (r: Vec<u8>)
    ensures
        r@ == packet(FXP_ATTRS, be32(request_id) + attrs.encoding()),
{
    let mut data: Vec<u8> = Vec::new();
    put_u32(&mut data, request_id);
    write_attrs(&mut data, attrs);
    build_response(FXP_ATTRS, data.as_slice())
}

/// A NAME response listing `entries[from..to]` in order.
pub fn build_name_range(request_id: u32, entries: &Vec<NameEntry>, from: usize, to: usize) -> (r: Vec<u8>)
    requires
        from <= to <= entries@.len(),
    ensures
        r@ == packet(
            FXP_NAME,
            be32(request_id) + be32(wire_len(to - from)) + encode_name_entries(
                entries@.subrange(from as int, to as int),
            ),
        ),
{
    let mut data: Vec<u8> = Vec::new();
    put_u32(&mut data, request_id);
    put_u32(&mut data, len_to_wire(to - from));
    let ghost head: Seq<u8> = data@;
    let mut i: usize = from;
    assert(entries@.subrange(from as int, from as int) =~= Seq::<NameEntry>::empty());
    while i < to
        invariant
            from <= i <= to <= entries@.len(),
            head == be32(request_id) + be32(wire_len(to - from)),
            data@ == head + encode_name_entries(entries@.subrange(from as int, i as int)),
        decreases to - i,
    {
        let ghost before: Seq<u8> = data@;
        let entry: &NameEntry = &entries[i];
        put_string(&mut data, entry.name.as_slice());
        put_string(&mut data, entry.name.as_slice());
        write_attrs(&mut data, &entry.attrs);
        i = i + 1;
        proof {
            let next = entries@.subrange(from as int, i as int);
            assert(next.drop_last() =~= entries@.subrange(from as int, i - 1));
            assert(next.last() == entries@[i - 1]);
            assert(data@ =~= before + encode_name_entry(entry.name@, entry.attrs));
            assert(data@ =~= head + encode_name_entries(next));
        }
    }
    build_response(FXP_NAME, data.as_slice())
}

/// A NAME response listing the entries in order.
pub fn build_name(request_id: u32, entries: &Vec<NameEntry>) -> (r: Vec<u8>)
    ensures
        r@ == packet(
            FXP_NAME,
            be32(request_id) + be32(wire_len(entries@.len() as int)) + encode_name_entries(entries@),
        ),
{
    assert(entries@.subrange(0, entries@.len() as int) =~= entries@);
    build_name_range(request_id, entries, 0, entries.len())
}

/// The VERSION response announcing protocol version 3.
pub fn build_version() -> (r: Vec<u8>)
    ensures
        r@ == packet(FXP_VERSION, be32(3)),
{
    let mut data: Vec<u8> = Vec::new();
    put_u32(&mut data, 3);
    build_response(FXP_VERSION, data.as_slice())
}

} // verus!
