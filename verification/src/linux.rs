//! The proc-filesystem kernel backend.
//!
//! System facts come from the kernel's resource files, read through the
//! procfs crate: CPU description and memory figures are cached at
//! construction (as the toolkit has always done), the kernel version is
//! read once, and process enumeration walks the live process table on every
//! call. The architecture name and the distribution label cannot be read
//! from the proc filesystem; the embedding application supplies them at
//! construction. Memory protection is the one operation this backend cannot
//! perform itself: the `mprotect` system call is unsafe to issue, which
//! verified code refuses, so the backend reports `PlatformNotSupported` and
//! the embedding application binds the call with the flag word that
//! `protection_flags` translates from the boolean intent.
use vstd::prelude::*;
use vstd::string::StringExecFns;
use procfs::Current;
use crate::{OsToolkitError, PlatformOps, ProcessInfo, SystemInfo, SystemResources};
use crate::text::spec_decimal;
use crate::text::append_decimal;

verus! {

#[verifier::external_type_specification]
#[verifier::external_body]
pub struct ExCpuInfo(procfs::CpuInfo);

#[verifier::external_type_specification]
#[verifier::external_body]
pub struct ExMeminfo(procfs::Meminfo);

#[verifier::external_type_specification]
#[verifier::external_body]
pub struct ExProcess(procfs::process::Process);

#[verifier::external_type_specification]
#[verifier::external_body]
pub struct ExProcError(procfs::ProcError);

/// Relies on procfs::CpuInfo::current: parses the kernel's CPU description
/// file; what it holds depends on the machine, so nothing is promised of
/// the value.
#[verifier::external_body]
fn cpu_info_current() -> (r: Result<procfs::CpuInfo, procfs::ProcError>) {
    procfs::CpuInfo::current()
}

/// Relies on procfs::Meminfo::current: parses the kernel's memory figures
/// (sizes in bytes); what it holds depends on the machine.
#[verifier::external_body]
fn meminfo_current() -> (r: Result<procfs::Meminfo, procfs::ProcError>) {
    procfs::Meminfo::current()
}

/// Relies on procfs::CpuInfo::num_cores: the number of logical cores the
/// description lists.
#[verifier::external_body]
fn cpu_num_cores(c: &procfs::CpuInfo) -> (r: usize) {
    c.num_cores()
}

/// Relies on procfs::CpuInfo::flags for the first core: the feature names
/// the kernel lists, handed out as owned strings; an absent list counts as
/// empty.
#[verifier::external_body]
fn cpu_feature_flags(c: &procfs::CpuInfo) -> (r: Vec<String>) {
    c.flags(0).unwrap_or_default().iter().map(|s| (*s).to_owned()).collect()
}

/// Relies on the `mem_total` field of procfs::Meminfo: total usable RAM in
/// bytes.
#[verifier::external_body]
fn meminfo_total(m: &procfs::Meminfo) -> (r: u64) {
    m.mem_total
}

/// Relies on the `mem_available` field of procfs::Meminfo: the kernel's
/// estimate of memory available for new workloads, absent on old kernels.
#[verifier::external_body]
fn meminfo_available(m: &procfs::Meminfo) -> (r: Option<u64>) {
    m.mem_available
}

/// Relies on the `mem_free` field of procfs::Meminfo: currently free
/// memory in bytes.
#[verifier::external_body]
fn meminfo_free(m: &procfs::Meminfo) -> (r: u64) {
    m.mem_free
}

/// Relies on procfs::KernelVersion::current: the running kernel's major,
/// minor and patch numbers.
#[verifier::external_body]
fn kernel_version() -> (r: Result<(u8, u8, u16), procfs::ProcError>) {
    procfs::KernelVersion::current().map(|v| (v.major, v.minor, v.patch))
}

/// Relies on procfs::process::all_processes: one entry per directory of
/// the live process table, each either a handle or the error that made it
/// unreadable.
#[verifier::external_body]
fn all_procs() -> (r: Result<
    Vec<Result<procfs::process::Process, procfs::ProcError>>,
    procfs::ProcError,
>) {
    procfs::process::all_processes().map(|it| it.collect())
}

/// Relies on procfs::process::Process::stat: the process id, command name
/// and user-mode CPU time (in clock ticks) of one process.
#[verifier::external_body]
fn proc_stat_fields(p: &procfs::process::Process) -> (r: Result<
    (i32, String, u64),
    procfs::ProcError,
>) {
    p.stat().map(|s| (s.pid, s.comm, s.utime))
}

/// Relies on procfs::process::Process::statm: the resident set size in
/// pages; an unreadable file counts as 0.
#[verifier::external_body]
fn proc_resident_pages(p: &procfs::process::Process) -> (r: u64) {
    p.statm().map(|s| s.resident).unwrap_or(0)
}

/// Relies on procfs::page_size: the size of one memory page in bytes.
#[verifier::external_body]
fn proc_page_size() -> (r: u64) {
    procfs::page_size()
}

/// Relies on procfs::ticks_per_second: the clock ticks in one second.
#[verifier::external_body]
fn proc_ticks_per_second() -> (r: u64) {
    procfs::ticks_per_second()
}

/// Relies on procfs::process::Process::new: a handle on the live process
/// with the given id, or the error that made it unreachable.
#[verifier::external_body]
fn proc_open(pid: i32) -> (r: Result<procfs::process::Process, procfs::ProcError>) {
    procfs::process::Process::new(pid)
}

/// Relies on procfs::process::Process::cgroups: the control groups the
/// process belongs to, each converted to its plain fields (hierarchy id,
/// controller names, pathname).
#[verifier::external_body]
fn proc_cgroups(p: &procfs::process::Process) -> (r: Result<Vec<CGroupEntry>, procfs::ProcError>) {
    p.cgroups().map(
        |gs|
            gs.0.into_iter().map(
                |g| CGroupEntry {
                    hierarchy: g.hierarchy,
                    controllers: g.controllers,
                    pathname: g.pathname,
                },
            ).collect(),
    )
}

/// Relies on procfs::process::Process::namespaces: one label per namespace
/// the process is in, `type:[identifier]`, in no particular order (the
/// crate hands them out as a hash map).
#[verifier::external_body]
fn proc_namespaces(p: &procfs::process::Process) -> (r: Result<Vec<String>, procfs::ProcError>) {
    p.namespaces().map(
        |ns|
            ns.0.values().map(
                |n| format!("{}:[{}]", n.ns_type.to_string_lossy(), n.identifier),
            ).collect(),
    )
}

/// Relies on procfs::process::Process::status: the inheritable, permitted
/// and effective capability sets of the process.
#[verifier::external_body]
fn proc_capability_sets(p: &procfs::process::Process) -> (r: Result<
    (u64, u64, u64),
    procfs::ProcError,
>) {
    p.status().map(|s| (s.capinh, s.capprm, s.capeff))
}

/// Relies on procfs::process::Process::exe: the path of the executable,
/// rendered as a string.
#[verifier::external_body]
fn proc_exe(p: &procfs::process::Process) -> (r: Result<String, procfs::ProcError>) {
    p.exe().map(|path| path.to_string_lossy().into_owned())
}

/// Relies on procfs::process::Process::root: the process's root
/// directory, rendered as a string.
#[verifier::external_body]
fn proc_root(p: &procfs::process::Process) -> (r: Result<String, procfs::ProcError>) {
    p.root().map(|path| path.to_string_lossy().into_owned())
}

/// Relies on procfs::process::Process::cwd: the process's working
/// directory, rendered as a string.
#[verifier::external_body]
fn proc_cwd(p: &procfs::process::Process) -> (r: Result<String, procfs::ProcError>) {
    p.cwd().map(|path| path.to_string_lossy().into_owned())
}

/// One control-group membership of a process, as plain values.
#[derive(Debug, Clone)]
pub struct CGroupEntry {
    pub hierarchy: u32,
    pub controllers: Vec<String>,
    pub pathname: String,
}

/// The capability sets of one process.
#[derive(Debug, Clone, Copy, PartialEq, Eq, Structural)]
pub struct ProcessCapabilities {
    pub inheritable: u64,
    pub permitted: u64,
    pub effective: u64,
}

/// Rich per-process facts the proc filesystem offers beyond the basic
/// snapshot: control groups, namespaces, capability sets, and the
/// executable, root and working-directory paths.
#[derive(Debug, Clone)]
pub struct ProcessDetails {
    pub cgroups: Vec<CGroupEntry>,
    pub namespaces: Vec<String>,
    pub capabilities: ProcessCapabilities,
    pub exe_path: String,
    pub root_dir: String,
    pub cwd: String,
}

/// `mprotect`'s PROT_READ bit.
pub const PROT_READ: i32 = 1;

/// `mprotect`'s PROT_WRITE bit.
pub const PROT_WRITE: i32 = 2;

/// `mprotect`'s PROT_EXEC bit.
pub const PROT_EXEC: i32 = 4;

/// The protection-flag word realizing a boolean intent: protected is
/// read-only, permissive is read, write and execute.
pub open spec fn spec_protection_flags(protect: bool) -> i32 {
    if protect {
        1
    } else {
        7
    }
}

/// Translate the boolean protection intent into the flag word for the
/// native `mprotect` call, which the embedding application issues.
pub fn protection_flags(protect: bool) -> (r: i32)
    ensures
        r == spec_protection_flags(protect),
{
    if protect {
        PROT_READ
    } else {
        // the three bits are disjoint, so their sum is their union
        PROT_READ + PROT_WRITE + PROT_EXEC
    }
}

/// `a * b`, saturating at the largest representable value.
pub open spec fn spec_saturating_mul_u64(a: u64, b: u64) -> u64 {
    if a * b > u64::MAX {
        u64::MAX
    } else {
        (a * b) as u64
    }
}

fn saturating_mul_u64(a: u64, b: u64) -> (r: u64)
    ensures
        r == spec_saturating_mul_u64(a, b),
{
    proof {
        assert((a as int) * (b as int) <= u128::MAX) by (nonlinear_arith)
            requires
                0 <= a <= u64::MAX,
                0 <= b <= u64::MAX,
        ;
    }
    let wide: u128 = (a as u128) * (b as u128);
    if wide > u64::MAX as u128 {
        u64::MAX
    } else {
        wide as u64
    }
}

/// CPU time in hundredths of a second: `ticks * 100 / ticks_per_second`,
/// saturating, and 0 under a degenerate tick rate.
pub open spec fn spec_cpu_hundredths(ticks: u64, tps: u64) -> u64 {
    if tps == 0 {
        0
    } else if ticks * 100 / (tps as int) > u64::MAX {
        u64::MAX
    } else {
        (ticks * 100 / (tps as int)) as u64
    }
}

fn cpu_hundredths(ticks: u64, tps: u64) -> (r: u64)
    ensures
        r == spec_cpu_hundredths(ticks, tps),
{
    if tps == 0 {
        0
    } else {
        let wide: u128 = (ticks as u128) * 100 / (tps as u128);
        if wide > u64::MAX as u128 {
            u64::MAX
        } else {
            wide as u64
        }
    }
}

/// The proc-filesystem backend: the CPU description and memory figures
/// cached at construction, the kernel version read once, and the
/// caller-supplied architecture and distribution labels.
pub struct LinuxOps {
    pub cpu_info: procfs::CpuInfo,
    pub meminfo: procfs::Meminfo,
    pub architecture: String,
    pub os_label: String,
    pub kernel_major: u8,
    pub kernel_minor: u8,
    pub kernel_patch: u16,
}

impl LinuxOps {
    /// The `os_type` label this backend reports: the distribution label,
    /// one space, and the dotted kernel version.
    pub open spec fn spec_os_type(&self) -> Seq<char> {
        self.os_label@ + " "@ + spec_decimal(self.kernel_major as u64) + "."@ + spec_decimal(
            self.kernel_minor as u64,
        ) + "."@ + spec_decimal(self.kernel_patch as u64)
    }

    /// Read the CPU description, the memory figures and the kernel version
    /// from the proc filesystem. `architecture` and `os_label` are the
    /// facts the proc filesystem cannot supply: the target architecture
    /// name and the distribution's description, as the embedding
    /// application knows them.
    pub fn new(architecture: String, os_label: String) -> (r: Result<LinuxOps, OsToolkitError>)
        ensures
            r matches Ok(ops) ==> (ops.architecture@ == architecture@ && ops.os_label@
                == os_label@),
            r matches Err(e) ==> e is HardwareError,
    {
        let cpu_info = match cpu_info_current() {
            Ok(c) => c,
            Err(_) => {
                return Err(OsToolkitError::HardwareError("Failed to get CPU info".to_owned()));
            },
        };
        let meminfo = match meminfo_current() {
            Ok(m) => m,
            Err(_) => {
                return Err(OsToolkitError::HardwareError("Failed to get memory info".to_owned()));
            },
        };
        let (kernel_major, kernel_minor, kernel_patch) = match kernel_version() {
            Ok(v) => v,
            Err(_) => {
                return Err(
                    OsToolkitError::HardwareError("Failed to get kernel version".to_owned()),
                );
            },
        };
        Ok(
            LinuxOps {
                cpu_info,
                meminfo,
                architecture,
                os_label,
                kernel_major,
                kernel_minor,
                kernel_patch,
            },
        )
    }
}

impl LinuxOps {
    /// The rich per-process facts for one live process: control groups,
    /// namespaces, capability sets and the process's principal paths. Any
    /// unreadable source fails the whole call with `HardwareError`.
    pub fn get_process_details(&self, pid: i32) -> (r: Result<ProcessDetails, OsToolkitError>)
        ensures
            r matches Err(e) ==> e is HardwareError,
    {
        let p = match proc_open(pid) {
            Ok(p) => p,
            Err(_) => {
                return Err(OsToolkitError::HardwareError("Failed to access process".to_owned()));
            },
        };
        let cgroups = match proc_cgroups(&p) {
            Ok(v) => v,
            Err(_) => {
                return Err(OsToolkitError::HardwareError("Failed to get cgroups".to_owned()));
            },
        };
        let namespaces = match proc_namespaces(&p) {
            Ok(v) => v,
            Err(_) => {
                return Err(OsToolkitError::HardwareError("Failed to get namespaces".to_owned()));
            },
        };
        let (inheritable, permitted, effective) = match proc_capability_sets(&p) {
            Ok(v) => v,
            Err(_) => {
                return Err(
                    OsToolkitError::HardwareError("Failed to read process status".to_owned()),
                );
            },
        };
        let exe_path = match proc_exe(&p) {
            Ok(v) => v,
            Err(_) => {
                return Err(
                    OsToolkitError::HardwareError("Failed to get executable path".to_owned()),
                );
            },
        };
        let root_dir = match proc_root(&p) {
            Ok(v) => v,
            Err(_) => {
                return Err(
                    OsToolkitError::HardwareError("Failed to get root directory".to_owned()),
                );
            },
        };
        let cwd = match proc_cwd(&p) {
            Ok(v) => v,
            Err(_) => {
                return Err(
                    OsToolkitError::HardwareError("Failed to get working directory".to_owned()),
                );
            },
        };
        Ok(
            ProcessDetails {
                cgroups,
                namespaces,
                capabilities: ProcessCapabilities { inheritable, permitted, effective },
                exe_path,
                root_dir,
                cwd,
            },
        )
    }
}

/// The control-group directory the toolkit manages for one process.
pub open spec fn spec_cgroup_dir(pid: u64) -> Seq<char> {
    "/sys/fs/cgroup/cpu/ghost/"@ + spec_decimal(pid)
}

/// The file writes that apply the requested resource limits to a process:
/// under the process's control-group directory, the optional CPU share and
/// memory limit figures, then the process id into the task list. Paths
/// first, contents second; the embedding application performs the writes.
pub open spec fn spec_resource_writes(
    pid: u64,
    cpu_shares: Option<u64>,
    memory_limit: Option<u64>,
) -> Seq<(Seq<char>, Seq<char>)> {
    let dir = spec_cgroup_dir(pid);
    let s0 = Seq::<(Seq<char>, Seq<char>)>::empty();
    let s1 = match cpu_shares {
        Some(shares) => s0.push((dir + "/cpu.shares"@, spec_decimal(shares))),
        None => s0,
    };
    let s2 = match memory_limit {
        Some(limit) => s1.push((dir + "/memory.limit_in_bytes"@, spec_decimal(limit))),
        None => s1,
    };
    s2.push((dir + "/tasks"@, spec_decimal(pid)))
}

/// Plan the file writes for `spec_resource_writes`, in order.
pub fn resource_writes(pid: u64, cpu_shares: Option<u64>, memory_limit: Option<u64>) -> (r: Vec<
    (String, String),
>)
    ensures
        r@.map_values(|p: (String, String)| (p.0@, p.1@)) == spec_resource_writes(
            pid,
            cpu_shares,
            memory_limit,
        ),
{
    let mut dir = "/sys/fs/cgroup/cpu/ghost/".to_owned();
    append_decimal(&mut dir, pid);
    let mut writes: Vec<(String, String)> = Vec::new();
    if let Some(shares) = cpu_shares {
        let mut path = dir.clone();
        path.append("/cpu.shares");
        writes.push((path, crate::text::decimal_string(shares)));
    }
    if let Some(limit) = memory_limit {
        let mut path = dir.clone();
        path.append("/memory.limit_in_bytes");
        writes.push((path, crate::text::decimal_string(limit)));
    }
    let mut tasks_path = dir;
    tasks_path.append("/tasks");
    writes.push((tasks_path, crate::text::decimal_string(pid)));
    proof {
        assert(writes@.map_values(|p: (String, String)| (p.0@, p.1@)) =~= spec_resource_writes(
            pid,
            cpu_shares,
            memory_limit,
        ));
    }
    writes
}

impl PlatformOps for LinuxOps {
    open spec fn info_post(pre: Self, post: Self, r: Result<SystemInfo, OsToolkitError>) -> bool {
        &&& post == pre
        &&& r matches Ok(info) && {
            &&& info.architecture@ == pre.architecture@
            &&& info.os_type@ == pre.spec_os_type()
        }
    }

    open spec fn protect_post(
        pre: Self,
        post: Self,
        addr: usize,
        size: usize,
        protect: bool,
        r: Result<(), OsToolkitError>,
    ) -> bool {
        &&& post == pre
        &&& r matches Err(e) && e is PlatformNotSupported
    }

    open spec fn list_post(pre: Self, post: Self, r: Result<Vec<ProcessInfo>, OsToolkitError>) -> bool {
        &&& post == pre
        &&& r matches Err(e) ==> e is HardwareError
    }

    open spec fn resources_post(
        pre: Self,
        post: Self,
        r: Result<SystemResources, OsToolkitError>,
    ) -> bool {
        &&& post == pre
        &&& r matches Ok(res) && {
            &&& res.load_one == 0
            &&& res.load_five == 0
            &&& res.load_fifteen == 0
        }
    }

    fn get_system_info(&mut self) -> (r: Result<SystemInfo, OsToolkitError>) {
        let mut os_type = self.os_label.clone();
        os_type.append(" ");
        append_decimal(&mut os_type, self.kernel_major as u64);
        os_type.append(".");
        append_decimal(&mut os_type, self.kernel_minor as u64);
        os_type.append(".");
        append_decimal(&mut os_type, self.kernel_patch as u64);
        let cores = cpu_num_cores(&self.cpu_info);
        Ok(
            SystemInfo {
                architecture: self.architecture.clone(),
                os_type,
                memory_total: meminfo_total(&self.meminfo),
                cpu_cores: #[verifier::truncate] (cores as u32),
                cpu_features: cpu_feature_flags(&self.cpu_info),
            },
        )
    }

    fn modify_memory_protection(&mut self, addr: usize, size: usize, protect: bool) -> (r: Result<
        (),
        OsToolkitError,
    >) {
        // The mprotect syscall is unsafe to issue, which verified code
        // refuses; the embedding application binds it, translating the
        // intent with protection_flags.
        Err(
            OsToolkitError::PlatformNotSupported(
                "memory protection must be bound by the embedding application".to_owned(),
            ),
        )
    }

    fn enumerate_processes(&mut self) -> (r: Result<Vec<ProcessInfo>, OsToolkitError>) {
        let rows = match all_procs() {
            Ok(rows) => rows,
            Err(_) => {
                return Err(
                    OsToolkitError::HardwareError("Failed to enumerate processes".to_owned()),
                );
            },
        };
        let page = proc_page_size();
        let tps = proc_ticks_per_second();
        let mut processes: Vec<ProcessInfo> = Vec::new();
        let mut i: usize = 0;
        while i < rows.len()
            decreases rows.len() - i,
        {
            match &rows[i] {
                Ok(p) => {
                    match proc_stat_fields(p) {
                        Ok((pid, comm, utime)) => {
                            let resident = proc_resident_pages(p);
                            processes.push(
                                ProcessInfo {
                                    pid: #[verifier::truncate] (pid as u32),
                                    name: comm,
                                    memory_usage: saturating_mul_u64(resident, page),
                                    cpu_usage: cpu_hundredths(utime, tps),
                                },
                            );
                        },
                        Err(_) => (),
                    }
                },
                Err(_) => (),
            }
            i = i + 1;
        }
        Ok(processes)
    }

    fn get_system_resources(&mut self) -> (r: Result<SystemResources, OsToolkitError>) {
        let mem_total = meminfo_total(&self.meminfo);
        let mem_available = match meminfo_available(&self.meminfo) {
            Some(a) => a,
            None => meminfo_free(&self.meminfo),
        };
        // The kernel reports load averages only as floating-point figures,
        // which this library does not consume; they are recorded as zero.
        Ok(
            SystemResources {
                mem_total,
                mem_available,
                load_one: 0,
                load_five: 0,
                load_fifteen: 0,
            },
        )
    }
}

} // verus!
