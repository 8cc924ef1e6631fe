//! Figures of the host's resources as they are logged.

use vstd::prelude::*;
use vstd::string::{StringExecFns, StringSliceAdditionalSpecFns};
use crate::bytes::starts_with;
use crate::numbers::{number_of, parse_number};
use crate::path::views;
use crate::text::{decimal_text, padded_decimal, push_decimal, push_padded};

verus! {

/// Switch of the periodic resource log.
#[derive(Debug, Clone, Copy)]
pub struct SystemMonitor {
    enabled: bool,
}

impl SystemMonitor {
    /// Whether resources are logged.
    pub closed spec fn on(&self) -> bool {
        self.enabled
    }

    /// A monitor that is switched off.
    pub fn new() -> (m: Self)
        ensures
            !m.on(),
    {
        SystemMonitor { enabled: false }
    }

    /// Switches logging on.
    pub fn enable(&mut self)
        ensures
            final(self).on(),
    {
        self.enabled = true;
    }

    /// Switches logging off.
    pub fn disable(&mut self)
        ensures
            !final(self).on(),
    {
        self.enabled = false;
    }

    /// Whether resources are logged.
    pub fn is_enabled(&self) -> (r: bool)
        ensures
            r == self.on(),
    {
        self.enabled
    }
}

impl Default for SystemMonitor {
    fn default() -> (m: Self)
        ensures
            !m.on(),
    {
        SystemMonitor::new()
    }
}

/// The index of the unit a size is shown in: bytes below 1024, then KB, MB,
/// and GB for everything from 1024 cubed on.
pub open spec fn unit_index(bytes: u64) -> int {
    if bytes < 1024 {
        0
    } else if bytes < 1048576 {
        1
    } else if bytes < 1073741824 {
        2
    } else {
        3
    }
}

/// The number of bytes in one unit.
pub open spec fn unit_size(index: int) -> int {
    if index == 0 {
        1
    } else if index == 1 {
        1024
    } else if index == 2 {
        1048576
    } else {
        1073741824
    }
}

/// The name of a unit.
pub open spec fn unit_name(index: int) -> Seq<char> {
    if index == 0 {
        "B"@
    } else if index == 1 {
        "KB"@
    } else if index == 2 {
        "MB"@
    } else {
        "GB"@
    }
}

/// `num / den` rounded to the nearest integer, exact halves to the even one.
pub open spec fn round_half_even(num: int, den: int) -> int {
    let q = num / den;
    let r = num % den;
    if 2 * r > den || (2 * r == den && q % 2 == 1) {
        q + 1
    } else {
        q
    }
}

/// The size in hundredths of its unit.
pub open spec fn hundredths(bytes: u64) -> int {
    round_half_even(bytes * 100, unit_size(unit_index(bytes)))
}

/// A size with two decimals and its unit, as in `1.50KB`.
pub open spec fn formatted_bytes(bytes: u64) -> Seq<char> {
    decimal_text((hundredths(bytes) / 100) as nat) + "."@ + padded_decimal(
        (hundredths(bytes) % 100) as nat,
        2,
    ) + unit_name(unit_index(bytes))
}

/// Formats a size with two decimals in the largest unit, up to GB, in which
/// it is at least one.
pub fn format_bytes(bytes: u64) -> (text: String)
    ensures
        text@ == formatted_bytes(bytes),
{
    let index: u8 = if bytes < 1024 {
        0
    } else if bytes < 1048576 {
        1
    } else if bytes < 1073741824 {
        2
    } else {
        3
    };
    let den: u128 = if index == 0 {
        1
    } else if index == 1 {
        1024
    } else if index == 2 {
        1048576
    } else {
        1073741824
    };
    let num: u128 = (bytes as u128) * 100;
    let q: u128 = num / den;
    let r: u128 = num % den;
    let h: u128 = if 2 * r > den || (2 * r == den && q % 2 == 1) { q + 1 } else { q };
    assert(h == hundredths(bytes));
    let whole: u64 = (h / 100) as u64;
    let frac: u64 = (h % 100) as u64;
    let mut text = String::new();
    push_decimal(&mut text, whole);
    text.append(".");
    push_padded(&mut text, frac, 2);
    if index == 0 {
        text.append("B");
    } else if index == 1 {
        text.append("KB");
    } else if index == 2 {
        text.append("MB");
    } else {
        text.append("GB");
    }
    assert(text@ =~= formatted_bytes(bytes));
    text
}

/// Free and total space in MiB of a filesystem given its block counts;
/// `None` when a product does not fit 64 bits.
pub fn get_disk_usage(block_size: u64, blocks_available: u64, blocks_total: u64) -> (r: Option<
    (u64, u64),
>)
    ensures
        match r {
            Some((available, total)) => available == blocks_available * block_size / 1048576
                && total == blocks_total * block_size / 1048576 && blocks_available * block_size
                <= u64::MAX && blocks_total * block_size <= u64::MAX,
            None => blocks_available * block_size > u64::MAX || blocks_total * block_size
                > u64::MAX,
        },
{
    match (blocks_available.checked_mul(block_size), blocks_total.checked_mul(block_size)) {
        (Some(a), Some(t)) => Some((a / 1024 / 1024, t / 1024 / 1024)),
        _ => None,
    }
}

/// Whether a block device counts towards disk I/O: loop devices and RAM disks
/// do not.
pub open spec fn counts_device(name: Seq<u8>) -> bool {
    !"loop".spec_bytes().is_prefix_of(name) && !"ram".spec_bytes().is_prefix_of(name)
}

/// Decides whether a block device counts towards disk I/O.
pub fn device_counts(name: &str) -> (r: bool)
    ensures
        r == counts_device(name.spec_bytes()),
{
    !starts_with(name.as_bytes(), "loop".as_bytes()) && !starts_with(name.as_bytes(), "ram".as_bytes())
}

/// Adds the sectors of one device, at 512 bytes each, to the running totals
/// of bytes read and written; `None` when a total does not fit 64 bits.
pub fn get_disk_io(totals: (u64, u64), read_sectors: u64, write_sectors: u64) -> (r: Option<(u64, u64)>)
    ensures
        match r {
            Some((read, written)) => read == totals.0 + read_sectors * 512 && written == totals.1
                + write_sectors * 512,
            None => totals.0 + read_sectors * 512 > u64::MAX || totals.1 + write_sectors * 512
                > u64::MAX,
        },
{
    let read: Option<u64> = match read_sectors.checked_mul(512) {
        Some(b) => totals.0.checked_add(b),
        None => None,
    };
    let written: Option<u64> = match write_sectors.checked_mul(512) {
        Some(b) => totals.1.checked_add(b),
        None => None,
    };
    match (read, written) {
        (Some(a), Some(b)) => Some((a, b)),
        _ => None,
    }
}

/// Whether a byte separates fields: a space, a tab or another ASCII blank.
pub open spec fn is_blank(b: u8) -> bool {
    b == 32 || (9 <= b && b <= 13)
}

/// The fields with one more, unless it is empty.
pub open spec fn with_field(fields: Seq<Seq<u8>>, field: Seq<u8>) -> Seq<Seq<u8>> {
    if field.len() > 0 {
        fields.push(field)
    } else {
        fields
    }
}

/// The complete fields and the unfinished field after reading `s`.
pub open spec fn field_scan(s: Seq<u8>) -> (Seq<Seq<u8>>, Seq<u8>)
    decreases s.len(),
{
    if s.len() == 0 {
        (Seq::empty(), Seq::empty())
    } else {
        let prev = field_scan(s.drop_last());
        if is_blank(s.last()) {
            (with_field(prev.0, prev.1), Seq::empty())
        } else {
            (prev.0, prev.1.push(s.last()))
        }
    }
}

/// The fields of a line: its maximal runs of bytes that are not blank.
pub open spec fn fields_of(line: Seq<u8>) -> Seq<Seq<u8>> {
    with_field(field_scan(line).0, field_scan(line).1)
}

/// The sectors read and written that a line of the kernel's disk statistics
/// reports: its sixth and tenth fields, when the line has at least fourteen
/// fields, both are numbers and the device in the third field counts.
pub open spec fn line_sectors(line: Seq<u8>) -> Option<(u64, u64)> {
    let f = fields_of(line);
    if f.len() >= 14 && counts_device(f[2]) && number_of(f[5], 10, u64::MAX as int).is_some()
        && number_of(f[9], 10, u64::MAX as int).is_some() {
        Some(
            (number_of(f[5], 10, u64::MAX as int).unwrap(), number_of(f[9], 10, u64::MAX as int).unwrap()),
        )
    } else {
        None
    }
}

/// Running totals of bytes with the sectors of one more line, at 512 bytes
/// each. Totals that no longer fit 64 bits stay lost.
pub open spec fn add_sectors(totals: Option<(u64, u64)>, sectors: Option<(u64, u64)>) -> Option<
    (u64, u64),
> {
    match (totals, sectors) {
        (None, _) => None,
        (Some(t), None) => Some(t),
        (Some(t), Some(s)) => if t.0 + s.0 * 512 <= u64::MAX && t.1 + s.1 * 512 <= u64::MAX {
            Some(((t.0 + s.0 * 512) as u64, (t.1 + s.1 * 512) as u64))
        } else {
            None
        },
    }
}

/// The totals over the complete lines and the unfinished line after reading `s`.
pub open spec fn stats_scan(s: Seq<u8>) -> (Option<(u64, u64)>, Seq<u8>)
    decreases s.len(),
{
    if s.len() == 0 {
        (Some((0u64, 0u64)), Seq::empty())
    } else {
        let prev = stats_scan(s.drop_last());
        if s.last() == 10 {
            (add_sectors(prev.0, line_sectors(prev.1)), Seq::empty())
        } else {
            (prev.0, prev.1.push(s.last()))
        }
    }
}

/// Bytes read and written over all counted devices of the kernel's disk
/// statistics; `None` when a total does not fit 64 bits.
pub open spec fn disk_io_of(text: Seq<u8>) -> Option<(u64, u64)> {
    add_sectors(stats_scan(text).0, line_sectors(stats_scan(text).1))
}

fn push_field(fields: &mut Vec<Vec<u8>>, field: Vec<u8>)
    ensures
        views(final(fields)@) == with_field(views(old(fields)@), field@),
{
    if field.len() > 0 {
        fields.push(field);
        assert(views(fields@) =~= views(old(fields)@).push(field@));
    }
}

/// Splits a line into its fields.
pub fn split_fields(line: &[u8]) -> (fields: Vec<Vec<u8>>)
    ensures
        views(fields@) == fields_of(line@),
{
    let mut fields: Vec<Vec<u8>> = Vec::new();
    let mut cur: Vec<u8> = Vec::new();
    let mut i: usize = 0;
    assert(line@.subrange(0, 0) =~= Seq::<u8>::empty());
    assert(views(fields@) =~= Seq::<Seq<u8>>::empty());
    while i < line.len()
        invariant
            i <= line@.len(),
            views(fields@) == field_scan(line@.subrange(0, i as int)).0,
            cur@ == field_scan(line@.subrange(0, i as int)).1,
        decreases line@.len() - i,
    {
        let b: u8 = line[i];
        proof {
            let next = line@.subrange(0, i + 1);
            assert(next.drop_last() =~= line@.subrange(0, i as int));
            assert(next.last() == b);
        }
        if b == 32 || (9 <= b && b <= 13) {
            push_field(&mut fields, cur);
            cur = Vec::new();
        } else {
            cur.push(b);
        }
        i = i + 1;
    }
    assert(line@.subrange(0, line@.len() as int) =~= line@);
    push_field(&mut fields, cur);
    fields
}

fn device_counts_bytes(name: &[u8]) -> (r: bool)
    ensures
        r == counts_device(name@),
{
    !starts_with(name, "loop".as_bytes()) && !starts_with(name, "ram".as_bytes())
}

fn sectors_of_line(line: &[u8]) -> (r: Option<(u64, u64)>)
    ensures
        r == line_sectors(line@),
{
    let fields = split_fields(line);
    if fields.len() < 14 {
        return None;
    }
    assert(views(fields@)[2] == fields@[2]@);
    assert(views(fields@)[5] == fields@[5]@);
    assert(views(fields@)[9] == fields@[9]@);
    if !device_counts_bytes(fields[2].as_slice()) {
        return None;
    }
    match (
        parse_number(fields[5].as_slice(), 10, u64::MAX),
        parse_number(fields[9].as_slice(), 10, u64::MAX),
    ) {
        (Some(r), Some(w)) => Some((r, w)),
        _ => None,
    }
}

fn add_line(totals: Option<(u64, u64)>, line: &[u8]) -> (r: Option<(u64, u64)>)
    ensures
        r == add_sectors(totals, line_sectors(line@)),
{
    match totals {
        None => None,
        Some(t) => match sectors_of_line(line) {
            None => Some(t),
            Some((read, written)) => get_disk_io(t, read, written),
        },
    }
}

/// Sums the bytes read and written over the counted devices of the kernel's
/// disk statistics.
pub fn parse_disk_io(text: &[u8]) -> (r: Option<(u64, u64)>)
    ensures
        r == disk_io_of(text@),
{
    let mut totals: Option<(u64, u64)> = Some((0, 0));
    let mut line: Vec<u8> = Vec::new();
    let mut i: usize = 0;
    assert(text@.subrange(0, 0) =~= Seq::<u8>::empty());
    while i < text.len()
        invariant
            i <= text@.len(),
            totals == stats_scan(text@.subrange(0, i as int)).0,
            line@ == stats_scan(text@.subrange(0, i as int)).1,
        decreases text@.len() - i,
    {
        let b: u8 = text[i];
        proof {
            let next = text@.subrange(0, i + 1);
            assert(next.drop_last() =~= text@.subrange(0, i as int));
            assert(next.last() == b);
        }
        if b == 10 {
            totals = add_line(totals, line.as_slice());
            line = Vec::new();
        } else {
            line.push(b);
        }
        i = i + 1;
    }
    assert(text@.subrange(0, text@.len() as int) =~= text@);
    add_line(totals, line.as_slice())
}

/// The transfer rate between two readings of a byte counter taken
/// `elapsed_secs` apart; nothing when no whole second has passed or the
/// counter went back.
pub fn io_rate(previous: u64, current: u64, elapsed_secs: u64) -> (r: Option<u64>)
    ensures
        r == if elapsed_secs > 0 && current >= previous {
            Some(((current - previous) / (elapsed_secs as int)) as u64)
        } else {
            None
        },
{
    if elapsed_secs > 0 && current >= previous {
        Some((current - previous) / elapsed_secs)
    } else {
        None
    }
}

} // verus!
