//! Continuous sampling of system and per-process metrics.
//!
//! `SystemMonitor` owns a toolkit and two bounded history buffers. One
//! `tick` performs a single sampling step: it collects a system-wide
//! snapshot and a per-process snapshot through the toolkit and appends each
//! to its buffer. A failed collection is swallowed for that buffer only, so
//! one bad sample never halts continuous monitoring; the embedding
//! application drives `tick` on its chosen interval and may share the
//! monitor behind a lock, since readers only ever receive copies.
use vstd::prelude::*;
use crate::{OsToolkit, OsToolkitError, PlatformOps, ProcessInfo, SystemResources};
use crate::history::{fifo_push, HistoryBuffer};

verus! {

/// Disk I/O rates at one instant. The snapshots the toolkit takes carry no
/// rate information yet, so collectors fill these with zeroes.
#[derive(Debug, Clone, Copy, PartialEq, Eq, Structural)]
pub struct DiskMetrics {
    pub reads_per_sec: u64,
    pub writes_per_sec: u64,
    pub read_bytes_per_sec: u64,
    pub write_bytes_per_sec: u64,
}

/// Network I/O counters at one instant. The snapshots the toolkit takes
/// carry no counter information yet, so collectors fill these with zeroes.
#[derive(Debug, Clone, Copy, PartialEq, Eq, Structural)]
pub struct NetworkMetrics {
    pub bytes_received: u64,
    pub bytes_sent: u64,
    pub packets_received: u64,
    pub packets_sent: u64,
}

/// One timestamped system-wide sample. Percentages are whole percent;
/// the load averages are in hundredths. Immutable once stored.
#[derive(Debug, Clone, Copy, PartialEq, Eq, Structural)]
pub struct SystemMetrics {
    pub timestamp: u64,
    pub cpu_usage: u64,
    pub memory_usage: u64,
    pub disk_io: DiskMetrics,
    pub network_io: NetworkMetrics,
    pub process_count: usize,
    pub load_one: u64,
    pub load_five: u64,
    pub load_fifteen: u64,
}

/// The per-process record within one process snapshot. `cpu_usage` is in
/// hundredths of a percent, `memory_usage` in bytes.
#[derive(Debug, Clone)]
pub struct ProcessMetrics {
    pub pid: u32,
    pub name: String,
    pub cpu_usage: u64,
    pub memory_usage: u64,
    pub disk_io: DiskMetrics,
    pub network_io: NetworkMetrics,
}

pub open spec fn zero_disk_metrics() -> DiskMetrics {
    DiskMetrics { reads_per_sec: 0, writes_per_sec: 0, read_bytes_per_sec: 0, write_bytes_per_sec: 0 }
}

pub open spec fn zero_network_metrics() -> NetworkMetrics {
    NetworkMetrics { bytes_received: 0, bytes_sent: 0, packets_received: 0, packets_sent: 0 }
}

impl ProcessMetrics {
    /// An equal copy of this record.
    pub fn duplicate(&self) -> (r: Self)
        ensures
            r == *self,
    {
        ProcessMetrics {
            pid: self.pid,
            name: self.name.clone(),
            cpu_usage: self.cpu_usage,
            memory_usage: self.memory_usage,
            disk_io: self.disk_io,
            network_io: self.network_io,
        }
    }
}

/// Memory usage as a whole percentage of `total`, where `available` bytes
/// are still free: `(total - available) * 100 / total`. Degenerate native
/// data (a zero total, or more available than total) counts as 0.
pub open spec fn spec_memory_usage_percent(total: u64, available: u64) -> u64 {
    if total == 0 || available > total {
        0
    } else {
        (((total - available) * 100) / (total as int)) as u64
    }
}

/// Aggregate memory usage percentage from a total and an available byte
/// count, as reported by the extended resource view.
pub fn calculate_memory_usage(total: u64, available: u64) -> (r: u64)
    ensures
        r == spec_memory_usage_percent(total, available),
        r <= 100,
{
    if total == 0 || available > total {
        0
    } else {
        let used: u64 = total - available;
        let pct: u128 = (used as u128) * 100 / (total as u128);
        proof {
            assert((used as int) * 100 / (total as int) <= 100) by (nonlinear_arith)
                requires
                    0 < total <= u64::MAX,
                    0 <= used <= total,
            ;
        }
        pct as u64
    }
}

/// The system-wide sample assembled from one collection: the caller's
/// timestamp, the process count, and the memory figures and load averages
/// of the extended resource view where the backend offers one. Aggregate
/// CPU usage and the I/O figures are not derivable from a single snapshot
/// and are recorded as zero.
pub fn build_system_metrics(
    now_secs: u64,
    process_count: usize,
    resources: Option<SystemResources>,
) -> (r: SystemMetrics)
    ensures
        r.timestamp == now_secs,
        r.cpu_usage == 0,
        r.memory_usage == match resources {
            Some(res) => spec_memory_usage_percent(res.mem_total, res.mem_available),
            None => 0,
        },
        r.disk_io == zero_disk_metrics(),
        r.network_io == zero_network_metrics(),
        r.process_count == process_count,
        r.load_one == match resources {
            Some(res) => res.load_one,
            None => 0,
        },
        r.load_five == match resources {
            Some(res) => res.load_five,
            None => 0,
        },
        r.load_fifteen == match resources {
            Some(res) => res.load_fifteen,
            None => 0,
        },
{
    let (memory_usage, load_one, load_five, load_fifteen): (u64, u64, u64, u64) = match resources {
        Some(res) => (
            calculate_memory_usage(res.mem_total, res.mem_available),
            res.load_one,
            res.load_five,
            res.load_fifteen,
        ),
        None => (0, 0, 0, 0),
    };
    SystemMetrics {
        timestamp: now_secs,
        cpu_usage: 0,
        memory_usage,
        disk_io: DiskMetrics {
            reads_per_sec: 0,
            writes_per_sec: 0,
            read_bytes_per_sec: 0,
            write_bytes_per_sec: 0,
        },
        network_io: NetworkMetrics {
            bytes_received: 0,
            bytes_sent: 0,
            packets_received: 0,
            packets_sent: 0,
        },
        process_count,
        load_one,
        load_five,
        load_fifteen,
    }
}

/// One `ProcessMetrics` record per observed process, in order: identity and
/// usage copied from the snapshot, I/O figures zero.
pub fn build_process_metrics(processes: &Vec<ProcessInfo>) -> (r: Vec<ProcessMetrics>)
    ensures
        r@.len() == processes@.len(),
        forall|i: int|
            0 <= i < r@.len() ==> {
                &&& (#[trigger] r@[i]).pid == processes@[i].pid
                &&& r@[i].name@ == processes@[i].name@
                &&& r@[i].cpu_usage == processes@[i].cpu_usage
                &&& r@[i].memory_usage == processes@[i].memory_usage
                &&& r@[i].disk_io == zero_disk_metrics()
                &&& r@[i].network_io == zero_network_metrics()
            },
{
    let mut out: Vec<ProcessMetrics> = Vec::new();
    let mut i: usize = 0;
    while i < processes.len()
        invariant
            i <= processes@.len(),
            out@.len() == i,
            forall|j: int|
                0 <= j < i ==> {
                    &&& (#[trigger] out@[j]).pid == processes@[j].pid
                    &&& out@[j].name@ == processes@[j].name@
                    &&& out@[j].cpu_usage == processes@[j].cpu_usage
                    &&& out@[j].memory_usage == processes@[j].memory_usage
                    &&& out@[j].disk_io == zero_disk_metrics()
                    &&& out@[j].network_io == zero_network_metrics()
                },
        decreases processes@.len() - i,
    {
        let p = &processes[i];
        out.push(
            ProcessMetrics {
                pid: p.pid,
                name: p.name.clone(),
                cpu_usage: p.cpu_usage,
                memory_usage: p.memory_usage,
                disk_io: DiskMetrics {
                    reads_per_sec: 0,
                    writes_per_sec: 0,
                    read_bytes_per_sec: 0,
                    write_bytes_per_sec: 0,
                },
                network_io: NetworkMetrics {
                    bytes_received: 0,
                    bytes_sent: 0,
                    packets_received: 0,
                    packets_sent: 0,
                },
            },
        );
        i = i + 1;
    }
    out
}

/// What one sampling step observed: the system-wide sample that was
/// recorded (or why none was), and how many per-process records were
/// recorded (or why none were).
pub struct TickReport {
    pub system_result: Result<SystemMetrics, OsToolkitError>,
    pub process_result: Result<usize, OsToolkitError>,
}

/// The sampling scheduler's state: one toolkit and the two independent
/// bounded history buffers, both of capacity `history_size`. The monitor is
/// the sole writer of the buffers; readers receive point-in-time copies.
pub struct SystemMonitor<B: PlatformOps> {
    pub toolkit: OsToolkit<B>,
    pub metrics_history: HistoryBuffer<SystemMetrics>,
    pub process_metrics: HistoryBuffer<Vec<ProcessMetrics>>,
    pub history_size: usize,
}

impl<B: PlatformOps> SystemMonitor<B> {
    /// Both buffers within bounds and sized by `history_size`.
    pub open spec fn wf(&self) -> bool {
        &&& self.metrics_history.wf()
        &&& self.process_metrics.wf()
        &&& self.metrics_history.spec_capacity() == self.history_size
        &&& self.process_metrics.spec_capacity() == self.history_size
    }

    /// A monitor over `toolkit` whose buffers hold at most `history_size`
    /// samples each, both initially empty.
    pub fn new(toolkit: OsToolkit<B>, history_size: usize) -> (r: Self)
        ensures
            r.wf(),
            r.toolkit == toolkit,
            r.history_size == history_size,
            r.metrics_history@ == Seq::<SystemMetrics>::empty(),
            r.process_metrics@ == Seq::<Vec<ProcessMetrics>>::empty(),
    {
        SystemMonitor {
            toolkit,
            metrics_history: HistoryBuffer::new(history_size),
            process_metrics: HistoryBuffer::new(history_size),
            history_size,
        }
    }

    /// One sampling step, stamped with the caller's clock reading.
    ///
    /// Collects a system snapshot and a process snapshot through the
    /// toolkit. If system-wide collection succeeds its sample is appended
    /// to the system history; if process collection succeeds its records
    /// are appended to the process history; each failure leaves exactly its
    /// own buffer unchanged, so the two buffers advance independently.
    pub fn tick(&mut self, now_secs: u64) -> (r: TickReport)
        requires
            old(self).wf(),
        ensures
            final(self).wf(),
            final(self).history_size == old(self).history_size,
            final(self).toolkit.config == old(self).toolkit.config,
            r.system_result matches Ok(m) ==> (m.timestamp == now_secs
                && final(self).metrics_history@ == fifo_push(
                old(self).metrics_history@,
                m,
                old(self).history_size as nat,
            )),
            r.system_result is Err ==> final(self).metrics_history@ == old(self).metrics_history@,
            r.process_result matches Ok(n) ==> ((old(self).history_size > 0
                ==> (final(self).process_metrics@ == fifo_push(
                old(self).process_metrics@,
                final(self).process_metrics@.last(),
                old(self).history_size as nat,
            ) && final(self).process_metrics@.last()@.len() == n)) && (old(self).history_size == 0
                ==> final(self).process_metrics@ == old(self).process_metrics@)),
            r.process_result is Err ==> final(self).process_metrics@ == old(self).process_metrics@,
    {
        let info_result = self.toolkit.get_system_info();
        let procs_result = self.toolkit.enumerate_processes();
        let resources_result = self.toolkit.get_system_resources();

        let system_result: Result<SystemMetrics, OsToolkitError> = match info_result {
            Ok(_info) => {
                let count: usize = match &procs_result {
                    Ok(procs) => procs.len(),
                    Err(_) => 0,
                };
                let resources: Option<SystemResources> = match &resources_result {
                    Ok(res) => Some(*res),
                    Err(_) => None,
                };
                Ok(build_system_metrics(now_secs, count, resources))
            },
            Err(e) => Err(e),
        };
        match &system_result {
            Ok(m) => self.metrics_history.push(*m),
            Err(_) => (),
        }

        let process_result: Result<usize, OsToolkitError> = match procs_result {
            Ok(procs) => {
                let metrics = build_process_metrics(&procs);
                let n = metrics.len();
                self.process_metrics.push(metrics);
                Ok(n)
            },
            Err(e) => Err(e),
        };

        TickReport { system_result, process_result }
    }

    /// A point-in-time copy of the system history, oldest first. Empty
    /// while no sample has ever been recorded.
    pub fn get_metrics_history(&self) -> (r: Vec<SystemMetrics>)
        ensures
            r@ == self.metrics_history@,
    {
        self.metrics_history.snapshot()
    }

    /// A point-in-time copy of the process history, oldest first.
    pub fn get_process_metrics_history(&self) -> (r: Vec<Vec<ProcessMetrics>>)
        ensures
            r@.len() == self.process_metrics@.len(),
            forall|i: int| 0 <= i < r@.len() ==> (#[trigger] r@[i])@ == self.process_metrics@[i]@,
    {
        let mut out: Vec<Vec<ProcessMetrics>> = Vec::new();
        let mut i: usize = 0;
        while i < self.process_metrics.len()
            invariant
                i <= self.process_metrics@.len(),
                out@.len() == i,
                forall|j: int|
                    0 <= j < i ==> (#[trigger] out@[j])@ == self.process_metrics@[j]@,
            decreases self.process_metrics@.len() - i,
        {
            out.push(duplicate_process_list(self.process_metrics.get(i)));
            i = i + 1;
        }
        out
    }

    /// The most recently recorded system sample, or `None` before the
    /// first successfully recorded one.
    pub fn get_latest_metrics(&self) -> (r: Option<SystemMetrics>)
        ensures
            match r {
                Some(m) => self.metrics_history@.len() > 0 && m == self.metrics_history@.last(),
                None => self.metrics_history@.len() == 0,
            },
    {
        match self.metrics_history.latest() {
            Some(m) => Some(*m),
            None => None,
        }
    }

    /// The most recently recorded process snapshot, or `None` before the
    /// first successfully recorded one.
    pub fn get_latest_process_metrics(&self) -> (r: Option<Vec<ProcessMetrics>>)
        ensures
            match r {
                Some(v) => self.process_metrics@.len() > 0 && v@ == self.process_metrics@.last()@,
                None => self.process_metrics@.len() == 0,
            },
    {
        match self.process_metrics.latest() {
            Some(v) => Some(duplicate_process_list(v)),
            None => None,
        }
    }
}

/// An elementwise-equal copy of one process snapshot.
pub fn duplicate_process_list(v: &Vec<ProcessMetrics>) -> (r: Vec<ProcessMetrics>)
    ensures
        r@ == v@,
{
    let mut out: Vec<ProcessMetrics> = Vec::new();
    let mut i: usize = 0;
    while i < v.len()
        invariant
            i <= v@.len(),
            out@ == v@.take(i as int),
        decreases v@.len() - i,
    {
        out.push(v[i].duplicate());
        i = i + 1;
        proof {
            assert(out@ =~= v@.take(i as int));
        }
    }
    proof {
        assert(out@ =~= v@);
    }
    out
}

} // verus!
