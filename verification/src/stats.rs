//! One sample of a container's resource usage, reduced to what the console
//! shows: the load behind the CPU percentage, memory usage and limit, and
//! the bytes received and sent over all network interfaces.

use vstd::prelude::*;

verus! {

/// The byte counters of one network interface.
#[derive(Debug, Clone, Copy, PartialEq, Eq)]
pub struct InterfaceCounters {
    pub rx_bytes: u64,
    pub tx_bytes: u64,
}

/// One sample as the engine reports it.
#[derive(Debug, Clone, PartialEq, Eq)]
pub struct EngineStats {
    /// CPU time that the container has used, at this sample.
    pub cpu_total: u64,
    /// CPU time that the container had used at the sample before.
    pub precpu_total: u64,
    /// CPU time that the whole system has used, at this sample.
    pub system_cpu: Option<u64>,
    /// CPU time that the whole system had used at the sample before.
    pub presystem_cpu: Option<u64>,
    pub online_cpus: Option<u64>,
    pub memory_usage: Option<u64>,
    pub memory_limit: Option<u64>,
    pub networks: Option<Vec<InterfaceCounters>>,
}

/// The load of a container between two samples. Both differences are
/// positive. The percentage of CPU in use is
/// `cpu_delta / system_delta * cpus * 100`.
#[derive(Debug, Clone, Copy, PartialEq, Eq)]
pub struct CpuLoad {
    pub cpu_delta: u64,
    pub system_delta: u64,
    pub cpus: u64,
}

/// What is shown of one sample.
#[derive(Debug, Clone, Copy, PartialEq, Eq)]
pub struct StatsReading {
    /// The load, or nothing where the CPU percentage is 0.
    pub cpu: Option<CpuLoad>,
    pub memory_usage: u64,
    pub memory_limit: u64,
    pub network_rx: u64,
    pub network_tx: u64,
}

/// A counter, or `default` where the engine left it out.
pub open spec fn counter_or(counter: Option<u64>, default: u64) -> u64 {
    match counter {
        Some(value) => value,
        None => default,
    }
}

/// The load of a sample. There is none, and the CPU percentage is 0, unless
/// both the container's and the system's CPU time have grown since the
/// sample before. A system time that the engine left out counts as 0, a
/// number of CPUs that it left out as 1.
pub open spec fn cpu_load_of(stats: EngineStats) -> Option<CpuLoad> {
    let system = counter_or(stats.system_cpu, 0);
    let presystem = counter_or(stats.presystem_cpu, 0);
    if system > presystem && stats.cpu_total > stats.precpu_total {
        Some(
            CpuLoad {
                cpu_delta: (stats.cpu_total - stats.precpu_total) as u64,
                system_delta: (system - presystem) as u64,
                cpus: counter_or(stats.online_cpus, 1),
            },
        )
    } else {
        None
    }
}

/// A sample shows no load unless both the container's and the system's CPU
/// time have grown; where it shows one, both differences are positive, so
/// that the percentage is neither negative nor the result of a division by
/// zero.
pub proof fn lemma_load_needs_growth(stats: EngineStats)
    ensures
        stats.cpu_total <= stats.precpu_total ==> cpu_load_of(stats) is None,
        counter_or(stats.system_cpu, 0) <= counter_or(stats.presystem_cpu, 0) ==> cpu_load_of(
            stats,
        ) is None,
        cpu_load_of(stats) matches Some(load) ==> load.cpu_delta > 0 && load.system_delta > 0,
{
}

/// All bytes received over a list of interfaces.
pub open spec fn total_rx(interfaces: Seq<InterfaceCounters>) -> nat
    decreases interfaces.len(),
{
    if interfaces.len() == 0 {
        0
    } else {
        total_rx(interfaces.drop_last()) + interfaces.last().rx_bytes as nat
    }
}

/// All bytes sent over a list of interfaces.
pub open spec fn total_tx(interfaces: Seq<InterfaceCounters>) -> nat
    decreases interfaces.len(),
{
    if interfaces.len() == 0 {
        0
    } else {
        total_tx(interfaces.drop_last()) + interfaces.last().tx_bytes as nat
    }
}

/// The interfaces of a sample; none where the engine left them out.
pub open spec fn interfaces_of(stats: EngineStats) -> Seq<InterfaceCounters> {
    match stats.networks {
        Some(list) => list@,
        None => Seq::empty(),
    }
}

/// What is shown of a sample, where both byte totals fit in 64 bits. Memory
/// usage that the engine left out counts as 0, a memory limit as 1.
pub open spec fn reading_of(stats: EngineStats) -> Option<StatsReading> {
    let rx = total_rx(interfaces_of(stats));
    let tx = total_tx(interfaces_of(stats));
    if rx <= u64::MAX && tx <= u64::MAX {
        Some(
            StatsReading {
                cpu: cpu_load_of(stats),
                memory_usage: counter_or(stats.memory_usage, 0),
                memory_limit: counter_or(stats.memory_limit, 1),
                network_rx: rx as u64,
                network_tx: tx as u64,
            },
        )
    } else {
        None
    }
}

/// A total over a list is at least the total over any of its prefixes.
pub proof fn lemma_totals_grow(interfaces: Seq<InterfaceCounters>, k: int)
    requires
        0 <= k <= interfaces.len(),
    ensures
        total_rx(interfaces.take(k)) <= total_rx(interfaces),
        total_tx(interfaces.take(k)) <= total_tx(interfaces),
    decreases interfaces.len(),
{
    if k == interfaces.len() {
        assert(interfaces.take(k) == interfaces);
    } else {
        lemma_totals_grow(interfaces.drop_last(), k);
        assert(interfaces.drop_last().take(k) == interfaces.take(k));
    }
}

/// Works out the load of a sample.
pub fn cpu_load(stats: &EngineStats) -> (r: Option<CpuLoad>)
    ensures
        r == cpu_load_of(*stats),
        r matches Some(load) ==> load.cpu_delta > 0 && load.system_delta > 0,
{
    let system = match stats.system_cpu {
        Some(value) => value,
        None => 0,
    };
    let presystem = match stats.presystem_cpu {
        Some(value) => value,
        None => 0,
    };
    if system > presystem && stats.cpu_total > stats.precpu_total {
        Some(
            CpuLoad {
                cpu_delta: stats.cpu_total - stats.precpu_total,
                system_delta: system - presystem,
                cpus: match stats.online_cpus {
                    Some(value) => value,
                    None => 1,
                },
            },
        )
    } else {
        None
    }
}

/// The bytes received and sent over all interfaces, where both totals fit
/// in 64 bits.
pub fn network_totals(interfaces: &Vec<InterfaceCounters>) -> (r: Option<(u64, u64)>)
    ensures
        r == if total_rx(interfaces@) <= u64::MAX && total_tx(interfaces@) <= u64::MAX {
            Some((total_rx(interfaces@) as u64, total_tx(interfaces@) as u64))
        } else {
            None
        },
{
    let mut rx: u64 = 0;
    let mut tx: u64 = 0;
    let n = interfaces.len();
    let mut i: usize = 0;
    assert(interfaces@.take(0) =~= Seq::<InterfaceCounters>::empty());
    while i < n
        invariant
            n == interfaces.len(),
            i <= n,
            rx == total_rx(interfaces@.take(i as int)),
            tx == total_tx(interfaces@.take(i as int)),
        decreases n - i,
    {
        proof {
            let next = interfaces@.take(i + 1);
            assert(next.drop_last() =~= interfaces@.take(i as int));
            assert(next.last() == interfaces@[i as int]);
            lemma_totals_grow(interfaces@, i + 1);
        }
        let next_rx = rx.checked_add(interfaces[i].rx_bytes);
        let next_tx = tx.checked_add(interfaces[i].tx_bytes);
        match (next_rx, next_tx) {
            (Some(a), Some(b)) => {
                rx = a;
                tx = b;
            },
            _ => {
                return None;
            },
        }
        i += 1;
    }
    assert(interfaces@.take(n as int) == interfaces@);
    Some((rx, tx))
}

/// Reduces a sample to what is shown of it. There is a reading unless a
/// byte total passes 64 bits.
pub fn read_stats(stats: &EngineStats) -> (r: Option<StatsReading>)
    ensures
        r == reading_of(*stats),
{
    let totals = match &stats.networks {
        Some(list) => network_totals(list),
        None => Some((0, 0)),
    };
    match totals {
        Some((rx, tx)) => Some(
            StatsReading {
                cpu: cpu_load(stats),
                memory_usage: match stats.memory_usage {
                    Some(value) => value,
                    None => 0,
                },
                memory_limit: match stats.memory_limit {
                    Some(value) => value,
                    None => 1,
                },
                network_rx: rx,
                network_tx: tx,
            },
        ),
        None => None,
    }
}

} // verus!
