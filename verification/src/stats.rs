//! Resource figures computed from the raw statistics of the container runtime.

use vstd::prelude::*;
use vstd::string::StringSliceAdditionalSpecFns;
use crate::bytes::contains;
use crate::events::{NetworkStats, Stats};

verus! {

/// Memory usage as the runtime reports it; zero when it reports none.
pub fn calculate_memory(usage: Option<u64>) -> (m: u64)
    ensures
        m == match usage {
            Some(u) => u,
            None => 0,
        },
{
    match usage {
        Some(u) => u,
        None => 0,
    }
}

/// The number of CPUs to scale by: the online count, else the number of
/// per-CPU samples, else one.
pub open spec fn cpu_count(online_cpus: Option<u32>, percpu_len: Option<usize>) -> nat {
    match online_cpus {
        Some(n) => n as nat,
        None => match percpu_len {
            Some(n) => n as nat,
            None => 1,
        },
    }
}

/// The number of CPUs to scale by.
pub fn effective_cpus(online_cpus: Option<u32>, percpu_len: Option<usize>) -> (n: u64)
    ensures
        n == cpu_count(online_cpus, percpu_len),
{
    match online_cpus {
        Some(n) => n as u64,
        None => match percpu_len {
            Some(n) => n as u64,
            None => 1,
        },
    }
}

/// A difference that stops at zero.
pub open spec fn delta(current: u64, previous: u64) -> nat {
    if current >= previous {
        (current - previous) as nat
    } else {
        0
    }
}

/// `num / den` rounded to the nearest integer, halves upward.
pub open spec fn div_round(num: int, den: int) -> int {
    (2 * num + den) / (2 * den)
}

/// CPU use in thousandths of a percent: the share of the system's CPU time
/// delta that the container used, times one hundred and the number of CPUs,
/// rounded to three decimals. Zero without a previous sample or without
/// progress on either counter.
pub open spec fn cpu_milli_percent(
    current_cpu: u64,
    current_system: u64,
    prev_cpu: Option<u64>,
    prev_system: Option<u64>,
    cpus: u64,
) -> int {
    if prev_cpu.is_some() && prev_system.is_some() && delta(current_cpu, prev_cpu.unwrap()) > 0
        && delta(current_system, prev_system.unwrap()) > 0 {
        div_round(
            delta(current_cpu, prev_cpu.unwrap()) * cpus * 100000,
            delta(current_system, prev_system.unwrap()) as int,
        )
    } else {
        0
    }
}

/// CPU use of one sample, in thousandths of a percent.
pub fn calculate_cpu(
    current_cpu: u64,
    current_system: Option<u64>,
    prev_cpu: Option<u64>,
    prev_system: Option<u64>,
    cpus: u64,
) -> (milli: u128)
    requires
        cpus <= u32::MAX,
    ensures
        milli == cpu_milli_percent(
            current_cpu,
            match current_system {
                Some(s) => s,
                None => 0,
            },
            prev_cpu,
            prev_system,
            cpus,
        ),
{
    let system: u64 = match current_system {
        Some(s) => s,
        None => 0,
    };
    match (prev_cpu, prev_system) {
        (Some(pc), Some(ps)) => {
            let cpu_delta: u64 = if current_cpu >= pc { current_cpu - pc } else { 0 };
            let system_delta: u64 = if system >= ps { system - ps } else { 0 };
            if system_delta > 0 && cpu_delta > 0 {
                let a: u128 = cpu_delta as u128;
                let c: u128 = cpus as u128;
                let d: u128 = system_delta as u128;
                assert(a * c <= 0xFFFF_FFFF_FFFF_FFFF * 0xFFFF_FFFF) by (nonlinear_arith)
                    requires
                        a <= 0xFFFF_FFFF_FFFF_FFFF,
                        c <= 0xFFFF_FFFF,
                ;
                let scaled: u128 = a * c * 100000;
                assert(a * c * 100000 == (a as nat) * (c as nat) * 100000);
                (2 * scaled + d) / (2 * d)
            } else {
                0
            }
        },
        _ => 0,
    }
}

/// The sum of the receive counters of the interfaces.
pub open spec fn total_rx(nets: Seq<NetworkStats>) -> int
    decreases nets.len(),
{
    if nets.len() == 0 {
        0
    } else {
        total_rx(nets.drop_last()) + nets.last().rx_bytes
    }
}

/// The sum of the transmit counters of the interfaces.
pub open spec fn total_tx(nets: Seq<NetworkStats>) -> int
    decreases nets.len(),
{
    if nets.len() == 0 {
        0
    } else {
        total_tx(nets.drop_last()) + nets.last().tx_bytes
    }
}

proof fn lemma_totals_monotone(nets: Seq<NetworkStats>, i: int)
    requires
        0 <= i <= nets.len(),
    ensures
        total_rx(nets.subrange(0, i)) <= total_rx(nets),
        total_tx(nets.subrange(0, i)) <= total_tx(nets),
    decreases nets.len() - i,
{
    if i < nets.len() {
        lemma_totals_monotone(nets, i + 1);
        assert(nets.subrange(0, i + 1).drop_last() =~= nets.subrange(0, i));
    } else {
        assert(nets.subrange(0, i) =~= nets);
    }
}

/// Network counters summed over all interfaces.
pub fn calculate_network(networks: &Vec<NetworkStats>) -> (total: NetworkStats)
    requires
        total_rx(networks@) <= u64::MAX,
        total_tx(networks@) <= u64::MAX,
    ensures
        total.rx_bytes == total_rx(networks@),
        total.tx_bytes == total_tx(networks@),
{
    let mut rx_bytes: u64 = 0;
    let mut tx_bytes: u64 = 0;
    let mut i: usize = 0;
    assert(networks@.subrange(0, 0) =~= Seq::<NetworkStats>::empty());
    while i < networks.len()
        invariant
            i <= networks@.len(),
            total_rx(networks@) <= u64::MAX,
            total_tx(networks@) <= u64::MAX,
            rx_bytes == total_rx(networks@.subrange(0, i as int)),
            tx_bytes == total_tx(networks@.subrange(0, i as int)),
        decreases networks@.len() - i,
    {
        proof {
            lemma_totals_monotone(networks@, i + 1);
            assert(networks@.subrange(0, i + 1).drop_last() =~= networks@.subrange(0, i as int));
        }
        rx_bytes = rx_bytes + networks[i].rx_bytes;
        tx_bytes = tx_bytes + networks[i].tx_bytes;
        i = i + 1;
    }
    assert(networks@.subrange(0, networks@.len() as int) =~= networks@);
    NetworkStats { rx_bytes, tx_bytes }
}

/// Adds one interface's counters to a running total, if both sums fit.
pub fn add_interface(total: NetworkStats, interface: NetworkStats) -> (r: Option<NetworkStats>)
    ensures
        match r {
            Some(t) => t.rx_bytes == total.rx_bytes + interface.rx_bytes && t.tx_bytes
                == total.tx_bytes + interface.tx_bytes,
            None => total.rx_bytes + interface.rx_bytes > u64::MAX || total.tx_bytes
                + interface.tx_bytes > u64::MAX,
        },
{
    match (total.rx_bytes.checked_add(interface.rx_bytes), total.tx_bytes.checked_add(interface.tx_bytes)) {
        (Some(rx_bytes), Some(tx_bytes)) => Some(NetworkStats { rx_bytes, tx_bytes }),
        _ => None,
    }
}

/// Whether the text of a stream error says that the container has stopped.
pub open spec fn says_stopped(message: Seq<u8>) -> bool {
    crate::bytes::has_subslice(message, "container is stopped".spec_bytes())
        || crate::bytes::has_subslice(message, "not running".spec_bytes())
        || crate::bytes::has_subslice(message, "No such container".spec_bytes())
}

/// Whether the text of a stream error says that a truncated frame arrived.
pub open spec fn says_truncated(message: Seq<u8>) -> bool {
    crate::bytes::has_subslice(message, "missing field".spec_bytes())
        || crate::bytes::has_subslice(message, "Failed to deserialize".spec_bytes())
}

/// Whether an error on the statistics stream is a normal stop: the runtime
/// answered 404 or 409, a frame could not be decoded, or the error text says
/// that the container is gone or the frame was cut short.
pub open spec fn is_normal_stop(status_code: Option<u16>, decode_error: bool, message: Seq<u8>) -> bool {
    status_code == Some(404u16) || status_code == Some(409u16) || says_stopped(message)
        || decode_error || says_truncated(message)
}

/// Decides whether an error on the statistics stream ends polling quietly.
pub fn stream_error_is_stop(status_code: Option<u16>, decode_error: bool, message: &str) -> (r: bool)
    ensures
        r == is_normal_stop(status_code, decode_error, message.spec_bytes()),
{
    let text = message.as_bytes();
    let by_status: bool = match status_code {
        Some(code) => code == 404 || code == 409,
        None => false,
    };
    by_status || contains(text, "container is stopped".as_bytes()) || contains(
        text,
        "not running".as_bytes(),
    ) || contains(text, "No such container".as_bytes()) || decode_error || contains(
        text,
        "missing field".as_bytes(),
    ) || contains(text, "Failed to deserialize".as_bytes())
}

/// One sample of the runtime's statistics stream, as plain values.
#[derive(Debug, Clone, Copy, PartialEq, Eq, Structural)]
pub struct RawSample {
    pub memory_usage: Option<u64>,
    pub memory_limit: Option<u64>,
    pub cpu_total_usage: u64,
    pub system_cpu_usage: Option<u64>,
    pub cpus: u64,
    pub network: NetworkStats,
    pub uptime: u64,
    pub disk_bytes: u64,
    pub disk_limit_bytes: u64,
}

/// The CPU counters of the previous sample.
#[derive(Debug, Clone, Copy, PartialEq, Eq, Structural)]
pub struct StatsPoller {
    pub prev_cpu: Option<u64>,
    pub prev_system: Option<u64>,
}

/// A value that is zero when absent.
pub open spec fn or_zero(v: Option<u64>) -> u64 {
    match v {
        Some(x) => x,
        None => 0,
    }
}

/// The snapshot published for a sample, given the counters of the one before.
pub open spec fn snapshot_of(poller: StatsPoller, sample: RawSample) -> Stats {
    Stats {
        memory_bytes: or_zero(sample.memory_usage),
        memory_limit_bytes: or_zero(sample.memory_limit),
        cpu_absolute_milli: cpu_milli_percent(
            sample.cpu_total_usage,
            or_zero(sample.system_cpu_usage),
            poller.prev_cpu,
            poller.prev_system,
            sample.cpus,
        ) as u128,
        network: sample.network,
        uptime: sample.uptime,
        disk_bytes: sample.disk_bytes,
        disk_limit_bytes: sample.disk_limit_bytes,
    }
}

impl StatsPoller {
    /// A poller that has seen no sample.
    pub fn new() -> (p: Self)
        ensures
            p.prev_cpu.is_none(),
            p.prev_system.is_none(),
    {
        StatsPoller { prev_cpu: None, prev_system: None }
    }

    /// Turns a sample into the snapshot to publish and remembers its CPU
    /// counters for the next one.
    pub fn on_sample(&mut self, sample: RawSample) -> (stats: Stats)
        requires
            sample.cpus <= u32::MAX,
        ensures
            stats == snapshot_of(*old(self), sample),
            final(self).prev_cpu == Some(sample.cpu_total_usage),
            final(self).prev_system == sample.system_cpu_usage,
    {
        let cpu = calculate_cpu(
            sample.cpu_total_usage,
            sample.system_cpu_usage,
            self.prev_cpu,
            self.prev_system,
            sample.cpus,
        );
        self.prev_cpu = Some(sample.cpu_total_usage);
        self.prev_system = sample.system_cpu_usage;
        Stats {
            memory_bytes: calculate_memory(sample.memory_usage),
            memory_limit_bytes: calculate_memory(sample.memory_limit),
            cpu_absolute_milli: cpu,
            network: sample.network,
            uptime: sample.uptime,
            disk_bytes: sample.disk_bytes,
            disk_limit_bytes: sample.disk_limit_bytes,
        }
    }
}

} // verus!
