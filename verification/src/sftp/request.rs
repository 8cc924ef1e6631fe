//! Decoding of client packets into typed requests.

use vstd::prelude::*;
use crate::bytes::{copy_range, u32_at, u64_at};
use crate::sftp::wire::{read_bytes, read_string, read_u32, read_u64, string_at};

verus! {

/// Requests that name a path and nothing else.
#[derive(Debug, Clone, Copy, PartialEq, Eq, Structural)]
pub enum PathOp {
    Lstat,
    Setstat,
    Opendir,
    Remove,
    Mkdir,
    Rmdir,
    Realpath,
    Stat,
    Readlink,
}

/// Requests that name an open handle and nothing else.
#[derive(Debug, Clone, Copy, PartialEq, Eq, Structural)]
pub enum HandleOp {
    Close,
    Fstat,
    Fsetstat,
    Readdir,
}

/// A decoded client request. Paths and handles are the bytes of UTF-8 strings.
#[derive(Debug, Clone)]
pub enum Request {
    Init,
    Open { id: u32, path: Vec<u8>, pflags: u32 },
    Read { id: u32, handle: Vec<u8>, offset: u64, len: u32 },
    Write { id: u32, handle: Vec<u8>, offset: u64, data: Vec<u8> },
    Path { op: PathOp, id: u32, path: Vec<u8> },
    Handle { op: HandleOp, id: u32, handle: Vec<u8> },
    Rename { id: u32, from: Vec<u8>, to: Vec<u8> },
    Symlink { id: u32 },
}

/// The outcome of decoding one packet body (type byte and payload).
#[derive(Debug, Clone)]
pub enum Decoded {
    /// An empty body or an unknown packet type: no response is sent.
    Ignored,
    /// A known packet type whose fields are missing or not UTF-8.
    Invalid,
    /// A well-formed request.
    Request(Request),
}

/// Mathematical form of a request.
pub enum RequestModel {
    Init,
    Open { id: u32, path: Seq<u8>, pflags: u32 },
    Read { id: u32, handle: Seq<u8>, offset: u64, len: u32 },
    Write { id: u32, handle: Seq<u8>, offset: u64, data: Seq<u8> },
    Path { op: PathOp, id: u32, path: Seq<u8> },
    Handle { op: HandleOp, id: u32, handle: Seq<u8> },
    Rename { id: u32, from: Seq<u8>, to: Seq<u8> },
    Symlink { id: u32 },
}

/// Mathematical form of a decoding outcome.
pub enum DecodedModel {
    Ignored,
    Invalid,
    Request(RequestModel),
}

impl View for Request {
    type V = RequestModel;

    open spec fn view(&self) -> RequestModel {
        match *self {
            Request::Init => RequestModel::Init,
            Request::Open { id, path, pflags } => RequestModel::Open { id, path: path@, pflags },
            Request::Read { id, handle, offset, len } => RequestModel::Read {
                id,
                handle: handle@,
                offset,
                len,
            },
            Request::Write { id, handle, offset, data } => RequestModel::Write {
                id,
                handle: handle@,
                offset,
                data: data@,
            },
            Request::Path { op, id, path } => RequestModel::Path { op, id, path: path@ },
            Request::Handle { op, id, handle } => RequestModel::Handle { op, id, handle: handle@ },
            Request::Rename { id, from, to } => RequestModel::Rename { id, from: from@, to: to@ },
            Request::Symlink { id } => RequestModel::Symlink { id },
        }
    }
}

impl View for Decoded {
    type V = DecodedModel;

    open spec fn view(&self) -> DecodedModel {
        match *self {
            Decoded::Ignored => DecodedModel::Ignored,
            Decoded::Invalid => DecodedModel::Invalid,
            Decoded::Request(r) => DecodedModel::Request(r@),
        }
    }
}

/// The path operation a packet type stands for, if it is one.
pub open spec fn path_op_of(packet_type: u8) -> Option<PathOp> {
    if packet_type == 7 {
        Some(PathOp::Lstat)
    } else if packet_type == 9 {
        Some(PathOp::Setstat)
    } else if packet_type == 11 {
        Some(PathOp::Opendir)
    } else if packet_type == 13 {
        Some(PathOp::Remove)
    } else if packet_type == 14 {
        Some(PathOp::Mkdir)
    } else if packet_type == 15 {
        Some(PathOp::Rmdir)
    } else if packet_type == 16 {
        Some(PathOp::Realpath)
    } else if packet_type == 17 {
        Some(PathOp::Stat)
    } else if packet_type == 19 {
        Some(PathOp::Readlink)
    } else {
        None
    }
}

/// The handle operation a packet type stands for, if it is one.
pub open spec fn handle_op_of(packet_type: u8) -> Option<HandleOp> {
    if packet_type == 4 {
        Some(HandleOp::Close)
    } else if packet_type == 8 {
        Some(HandleOp::Fstat)
    } else if packet_type == 10 {
        Some(HandleOp::Fsetstat)
    } else if packet_type == 12 {
        Some(HandleOp::Readdir)
    } else {
        None
    }
}

/// A complete, well-formed UTF-8 string field at `at`.
pub open spec fn text_at(p: Seq<u8>, at: int) -> Option<Seq<u8>> {
    match string_at(p, at) {
        Some(s) => if vstd::utf8::valid_utf8(s) {
            Some(s)
        } else {
            None
        },
        None => None,
    }
}

/// The position just past the string field at `at`.
pub open spec fn past(p: Seq<u8>, at: int) -> int {
    at + 4 + u32_at(p, at)
}

/// A `u32` field at `at`, if four bytes are there.
pub open spec fn word_at(p: Seq<u8>, at: int) -> Option<u32> {
    if at + 4 <= p.len() {
        Some(u32_at(p, at) as u32)
    } else {
        None
    }
}

/// A `u64` field at `at`, if eight bytes are there.
pub open spec fn long_at(p: Seq<u8>, at: int) -> Option<u64> {
    if at + 8 <= p.len() {
        Some(u64_at(p, at) as u64)
    } else {
        None
    }
}

/// The request that a payload of an OPEN packet holds.
pub open spec fn parse_open(p: Seq<u8>) -> Option<RequestModel> {
    if word_at(p, 0).is_some() && text_at(p, 4).is_some() && word_at(p, past(p, 4)).is_some() {
        Some(
            RequestModel::Open {
                id: word_at(p, 0).unwrap(),
                path: text_at(p, 4).unwrap(),
                pflags: word_at(p, past(p, 4)).unwrap(),
            },
        )
    } else {
        None
    }
}

/// The request that a payload of a READ packet holds.
pub open spec fn parse_read(p: Seq<u8>) -> Option<RequestModel> {
    if word_at(p, 0).is_some() && text_at(p, 4).is_some() && long_at(p, past(p, 4)).is_some()
        && word_at(p, past(p, 4) + 8).is_some() {
        Some(
            RequestModel::Read {
                id: word_at(p, 0).unwrap(),
                handle: text_at(p, 4).unwrap(),
                offset: long_at(p, past(p, 4)).unwrap(),
                len: word_at(p, past(p, 4) + 8).unwrap(),
            },
        )
    } else {
        None
    }
}

/// The request that a payload of a WRITE packet holds.
pub open spec fn parse_write(p: Seq<u8>) -> Option<RequestModel> {
    if word_at(p, 0).is_some() && text_at(p, 4).is_some() && long_at(p, past(p, 4)).is_some()
        && string_at(p, past(p, 4) + 8).is_some() {
        Some(
            RequestModel::Write {
                id: word_at(p, 0).unwrap(),
                handle: text_at(p, 4).unwrap(),
                offset: long_at(p, past(p, 4)).unwrap(),
                data: string_at(p, past(p, 4) + 8).unwrap(),
            },
        )
    } else {
        None
    }
}

/// The request that a payload of a RENAME packet holds.
pub open spec fn parse_rename(p: Seq<u8>) -> Option<RequestModel> {
    if word_at(p, 0).is_some() && text_at(p, 4).is_some() && text_at(p, past(p, 4)).is_some() {
        Some(
            RequestModel::Rename {
                id: word_at(p, 0).unwrap(),
                from: text_at(p, 4).unwrap(),
                to: text_at(p, past(p, 4)).unwrap(),
            },
        )
    } else {
        None
    }
}

/// The request id followed by one string field.
pub open spec fn parse_id_text(p: Seq<u8>) -> Option<(u32, Seq<u8>)> {
    if word_at(p, 0).is_some() && text_at(p, 4).is_some() {
        Some((word_at(p, 0).unwrap(), text_at(p, 4).unwrap()))
    } else {
        None
    }
}

/// The fields of a packet of a known type, if they are all there.
pub open spec fn parse_fields(packet_type: u8, p: Seq<u8>) -> Option<RequestModel> {
    if packet_type == 1 {
        Some(RequestModel::Init)
    } else if packet_type == 3 {
        parse_open(p)
    } else if packet_type == 5 {
        parse_read(p)
    } else if packet_type == 6 {
        parse_write(p)
    } else if packet_type == 18 {
        parse_rename(p)
    } else if packet_type == 20 {
        match word_at(p, 0) {
            Some(id) => Some(RequestModel::Symlink { id }),
            None => None,
        }
    } else if path_op_of(packet_type).is_some() {
        match parse_id_text(p) {
            Some((id, path)) => Some(
                RequestModel::Path { op: path_op_of(packet_type).unwrap(), id, path },
            ),
            None => None,
        }
    } else if handle_op_of(packet_type).is_some() {
        match parse_id_text(p) {
            Some((id, handle)) => Some(
                RequestModel::Handle { op: handle_op_of(packet_type).unwrap(), id, handle },
            ),
            None => None,
        }
    } else {
        None
    }
}

/// Whether the packet type is one the handler implements.
pub open spec fn known_type(packet_type: u8) -> bool {
    packet_type == 1 || (3 <= packet_type <= 20)
}

/// What a packet body decodes to.
pub open spec fn decode_spec(body: Seq<u8>) -> DecodedModel {
    if body.len() == 0 || !known_type(body[0]) {
        DecodedModel::Ignored
    } else {
        match parse_fields(body[0], body.subrange(1, body.len() as int)) {
            Some(r) => DecodedModel::Request(r),
            None => DecodedModel::Invalid,
        }
    }
}

fn to_vec(s: &[u8]) -> (v: Vec<u8>)
    ensures
        v@ == s@,
{
    let v = copy_range(s, 0, s.len());
    assert(s@.subrange(0, s@.len() as int) =~= s@);
    v
}

fn path_op(packet_type: u8) -> (op: Option<PathOp>)
    ensures
        op == path_op_of(packet_type),
{
    match packet_type {
        7 => Some(PathOp::Lstat),
        9 => Some(PathOp::Setstat),
        11 => Some(PathOp::Opendir),
        13 => Some(PathOp::Remove),
        14 => Some(PathOp::Mkdir),
        15 => Some(PathOp::Rmdir),
        16 => Some(PathOp::Realpath),
        17 => Some(PathOp::Stat),
        19 => Some(PathOp::Readlink),
        _ => None,
    }
}

fn handle_op(packet_type: u8) -> (op: Option<HandleOp>)
    ensures
        op == handle_op_of(packet_type),
{
    match packet_type {
        4 => Some(HandleOp::Close),
        8 => Some(HandleOp::Fstat),
        10 => Some(HandleOp::Fsetstat),
        12 => Some(HandleOp::Readdir),
        _ => None,
    }
}

fn decode_open(p: &[u8]) -> (r: Option<Request>)
    ensures
        match r {
            Some(q) => parse_open(p@) == Some(q@),
            None => parse_open(p@).is_none(),
        },
{
    let mut offset: usize = 0;
    let id = read_u32(p, &mut offset)?;
    let path = read_string(p, &mut offset)?;
    let pflags = read_u32(p, &mut offset)?;
    Some(Request::Open { id, path: to_vec(path), pflags })
}

fn decode_read(p: &[u8]) -> (r: Option<Request>)
    ensures
        match r {
            Some(q) => parse_read(p@) == Some(q@),
            None => parse_read(p@).is_none(),
        },
{
    let mut offset: usize = 0;
    let id = read_u32(p, &mut offset)?;
    let handle = read_string(p, &mut offset)?;
    let file_offset = read_u64(p, &mut offset)?;
    let len = read_u32(p, &mut offset)?;
    Some(Request::Read { id, handle: to_vec(handle), offset: file_offset, len })
}

fn decode_write(p: &[u8]) -> (r: Option<Request>)
    ensures
        match r {
            Some(q) => parse_write(p@) == Some(q@),
            None => parse_write(p@).is_none(),
        },
{
    let mut offset: usize = 0;
    let id = read_u32(p, &mut offset)?;
    let handle = read_string(p, &mut offset)?;
    let file_offset = read_u64(p, &mut offset)?;
    let data = read_bytes(p, &mut offset)?;
    Some(Request::Write { id, handle: to_vec(handle), offset: file_offset, data: to_vec(data) })
}

fn decode_rename(p: &[u8]) -> (r: Option<Request>)
    ensures
        match r {
            Some(q) => parse_rename(p@) == Some(q@),
            None => parse_rename(p@).is_none(),
        },
{
    let mut offset: usize = 0;
    let id = read_u32(p, &mut offset)?;
    let from = read_string(p, &mut offset)?;
    let to = read_string(p, &mut offset)?;
    Some(Request::Rename { id, from: to_vec(from), to: to_vec(to) })
}

fn decode_id_text(p: &[u8]) -> (r: Option<(u32, Vec<u8>)>)
    ensures
        match r {
            Some((id, text)) => parse_id_text(p@) == Some((id, text@)),
            None => parse_id_text(p@).is_none(),
        },
{
    let mut offset: usize = 0;
    let id = read_u32(p, &mut offset)?;
    let text = read_string(p, &mut offset)?;
    Some((id, to_vec(text)))
}

fn decode_fields(packet_type: u8, p: &[u8]) -> (r: Option<Request>)
    ensures
        match r {
            Some(q) => parse_fields(packet_type, p@) == Some(q@),
            None => parse_fields(packet_type, p@).is_none(),
        },
{
    if packet_type == 1 {
        Some(Request::Init)
    } else if packet_type == 3 {
        decode_open(p)
    } else if packet_type == 5 {
        decode_read(p)
    } else if packet_type == 6 {
        decode_write(p)
    } else if packet_type == 18 {
        decode_rename(p)
    } else if packet_type == 20 {
        let mut offset: usize = 0;
        match read_u32(p, &mut offset) {
            Some(id) => Some(Request::Symlink { id }),
            None => None,
        }
    } else if let Some(op) = path_op(packet_type) {
        match decode_id_text(p) {
            Some((id, path)) => Some(Request::Path { op, id, path }),
            None => None,
        }
    } else if let Some(op) = handle_op(packet_type) {
        match decode_id_text(p) {
            Some((id, handle)) => Some(Request::Handle { op, id, handle }),
            None => None,
        }
    } else {
        None
    }
}

/// Decodes one packet body: the type byte followed by the payload.
pub fn decode_packet(body: &[u8]) -> (r: Decoded)
    ensures
        r@ == decode_spec(body@),
{
    if body.len() == 0 {
        return Decoded::Ignored;
    }
    let packet_type: u8 = body[0];
    if !(packet_type == 1 || (3 <= packet_type && packet_type <= 20)) {
        return Decoded::Ignored;
    }
    let payload = vstd::slice::slice_subrange(body, 1, body.len());
    match decode_fields(packet_type, payload) {
        Some(q) => Decoded::Request(q),
        None => Decoded::Invalid,
    }
}

} // verus!
