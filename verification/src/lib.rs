//! Cross-platform system toolkit: query host information, toggle memory
//! protection, enumerate processes, and sample these facts into bounded,
//! insertion-ordered history buffers.
//!
//! A `PlatformOps` backend supplies the native facilities for one target;
//! the `OsToolkit` dispatcher owns exactly one backend and enforces the
//! capability gates of its `OsToolkitConfig` before forwarding privileged
//! operations.
pub mod arm;
pub mod history;
pub mod integrity;
pub mod linux;
pub mod mock;
pub mod monitor;
pub mod os_release;
pub mod port_scanner;
pub mod text;
pub mod windows;

use vstd::prelude::*;

verus! {

/// The error taxonomy of the toolkit.
///
/// `PlatformNotSupported`: the capability or the whole platform is
/// unavailable on this target. `HardwareError`: a native call executed but
/// reported failure. `PermissionDenied`: a capability gate in
/// `OsToolkitConfig` disallowed the operation. Each variant carries a
/// human-readable description.
#[derive(Debug, Clone, PartialEq, Eq)]
pub enum OsToolkitError {
    PlatformNotSupported(String),
    HardwareError(String),
    PermissionDenied(String),
}

impl OsToolkitError {
    /// The description carried by the error, for display by callers.
    pub fn message(&self) -> (r: String)
        ensures
            r@ == self.spec_message(),
    {
        match self {
            OsToolkitError::PlatformNotSupported(s) => s.clone(),
            OsToolkitError::HardwareError(s) => s.clone(),
            OsToolkitError::PermissionDenied(s) => s.clone(),
        }
    }

    pub open spec fn spec_message(&self) -> Seq<char> {
        match self {
            OsToolkitError::PlatformNotSupported(s) => s@,
            OsToolkitError::HardwareError(s) => s@,
            OsToolkitError::PermissionDenied(s) => s@,
        }
    }
}

/// System information across platforms: an immutable snapshot, recreated on
/// every query. `memory_total` is in bytes and is 0 where the platform
/// cannot know it (for example bare metal). `cpu_features` is a list of
/// feature names with no duplicates.
#[derive(Debug, Clone)]
pub struct SystemInfo {
    pub architecture: String,
    pub os_type: String,
    pub memory_total: u64,
    pub cpu_cores: u32,
    pub cpu_features: Vec<String>,
}

/// One live process at snapshot time. `memory_usage` is resident memory in
/// bytes. `cpu_usage` is CPU utilization in hundredths of a percent over a
/// platform-defined sampling window.
#[derive(Debug, Clone)]
pub struct ProcessInfo {
    pub pid: u32,
    pub name: String,
    pub memory_usage: u64,
    pub cpu_usage: u64,
}

/// Configuration for the toolkit: three independent capability gates, read
/// once at dispatcher construction and immutable afterwards.
#[derive(Debug, Clone, Copy, PartialEq, Eq, Structural)]
pub struct OsToolkitConfig {
    pub enable_hardware_access: bool,
    pub enable_process_manipulation: bool,
    pub enable_memory_manipulation: bool,
}

impl Default for OsToolkitConfig {
    /// All gates disabled.
    fn default() -> (r: Self)
        ensures
            !r.enable_hardware_access,
            !r.enable_process_manipulation,
            !r.enable_memory_manipulation,
    {
        OsToolkitConfig {
            enable_hardware_access: false,
            enable_process_manipulation: false,
            enable_memory_manipulation: false,
        }
    }
}

/// Richer platform resource data, as plain values: total and available
/// memory in bytes, and the three load-average figures (1/5/15-minute
/// windows) in hundredths. A backend that cannot supply these reports
/// `PlatformNotSupported` from its `get_system_resources`.
#[derive(Debug, Clone, Copy, PartialEq, Eq, Structural)]
pub struct SystemResources {
    pub mem_total: u64,
    pub mem_available: u64,
    pub load_one: u64,
    pub load_five: u64,
    pub load_fifteen: u64,
}

/// The capability set that every platform backend implements.
///
/// Each backend describes what its operations guarantee through the four
/// `*_post` relations over the backend state before and after the call and
/// the returned value; the exec methods promise exactly those relations, so
/// one uniform contract covers backends as different as bare-metal register
/// access and a proc-filesystem reader.
pub trait PlatformOps: Sized {
    /// What `get_system_info` guarantees.
    spec fn info_post(pre: Self, post: Self, r: Result<SystemInfo, OsToolkitError>) -> bool;

    /// What `modify_memory_protection` guarantees.
    spec fn protect_post(
        pre: Self,
        post: Self,
        addr: usize,
        size: usize,
        protect: bool,
        r: Result<(), OsToolkitError>,
    ) -> bool;

    /// What `enumerate_processes` guarantees.
    spec fn list_post(pre: Self, post: Self, r: Result<Vec<ProcessInfo>, OsToolkitError>) -> bool;

    /// What `get_system_resources` guarantees.
    spec fn resources_post(
        pre: Self,
        post: Self,
        r: Result<SystemResources, OsToolkitError>,
    ) -> bool;

    /// Gather architecture, feature flags, memory and core counts from
    /// native sources. Never partially populated: on failure of any
    /// required sub-field the whole call fails.
    fn get_system_info(&mut self) -> (r: Result<SystemInfo, OsToolkitError>)
        ensures
            Self::info_post(*old(self), *final(self), r),
    ;

    /// Toggle a region between a protected mode and a permissive mode. The
    /// backend only translates the boolean intent into native protection
    /// flags and propagates native failures; it does not validate the
    /// address range.
    fn modify_memory_protection(&mut self, addr: usize, size: usize, protect: bool) -> (r: Result<
        (),
        OsToolkitError,
    >)
        ensures
            Self::protect_post(*old(self), *final(self), addr, size, protect, r),
    ;

    /// Enumerate the currently live processes. A target without process
    /// enumeration reports `PlatformNotSupported`, never an empty success,
    /// so callers can tell "no processes" from "not implemented here".
    fn enumerate_processes(&mut self) -> (r: Result<Vec<ProcessInfo>, OsToolkitError>)
        ensures
            Self::list_post(*old(self), *final(self), r),
    ;

    /// The optional extended capability: richer resource data for
    /// platforms that have it. Backends without it report
    /// `PlatformNotSupported`.
    fn get_system_resources(&mut self) -> (r: Result<SystemResources, OsToolkitError>)
        ensures
            Self::resources_post(*old(self), *final(self), r),
    ;
}

/// The main toolkit interface: owns exactly one backend, selected once at
/// construction and never switched, plus the capability gates. Every public
/// operation routes to the backend; mutating or privileged operations are
/// rejected with `PermissionDenied` before reaching the backend unless the
/// corresponding gate is enabled.
pub struct OsToolkit<B: PlatformOps> {
    pub config: OsToolkitConfig,
    pub backend: Option<B>,
}

impl<B: PlatformOps> OsToolkit<B> {
    /// A toolkit for a target with no available backend: every operation
    /// that would reach a backend fails with `PlatformNotSupported`.
    pub fn new(config: OsToolkitConfig) -> (r: Self)
        ensures
            r.config == config,
            r.backend is None,
    {
        OsToolkit { config, backend: None }
    }

    /// A toolkit over the backend selected for the current target.
    pub fn with_backend(config: OsToolkitConfig, backend: B) -> (r: Self)
        ensures
            r.config == config,
            r.backend == Some(backend),
    {
        OsToolkit { config, backend: Some(backend) }
    }

    /// Query system information. Read-only, so no capability gate: the
    /// call is unconditionally forwarded to the backend.
    pub fn get_system_info(&mut self) -> (r: Result<SystemInfo, OsToolkitError>)
        ensures
            final(self).config == old(self).config,
            old(self).backend is None ==> (*final(self) == *old(self) && (r matches Err(e)
                && e is PlatformNotSupported)),
            old(self).backend matches Some(b) ==> (final(self).backend matches Some(b2)
                && B::info_post(b, b2, r)),
    {
        match &mut self.backend {
            Some(ops) => ops.get_system_info(),
            None => Err(
                OsToolkitError::PlatformNotSupported("Current platform not supported".to_owned()),
            ),
        }
    }

    /// Toggle memory protection, if the memory-manipulation gate allows
    /// it. While the configuration disallows memory manipulation the result
    /// is always `PermissionDenied`, and nothing is forwarded to the
    /// backend.
    pub fn modify_memory_protection(&mut self, addr: usize, size: usize, protect: bool) -> (r:
        Result<(), OsToolkitError>)
        ensures
            final(self).config == old(self).config,
            !old(self).config.enable_memory_manipulation ==> (*final(self) == *old(self)
                && (r matches Err(e) && e is PermissionDenied)),
            old(self).config.enable_memory_manipulation && old(self).backend is None ==> (*final(self)
                == *old(self) && (r matches Err(e) && e is PlatformNotSupported)),
            old(self).config.enable_memory_manipulation ==> (old(self).backend matches Some(b)
                ==> (final(self).backend matches Some(b2) && B::protect_post(
                b,
                b2,
                addr,
                size,
                protect,
                r,
            ))),
    {
        if !self.config.enable_memory_manipulation {
            return Err(
                OsToolkitError::PermissionDenied("Memory manipulation not enabled".to_owned()),
            );
        }
        match &mut self.backend {
            Some(ops) => ops.modify_memory_protection(addr, size, protect),
            None => Err(
                OsToolkitError::PlatformNotSupported("Current platform not supported".to_owned()),
            ),
        }
    }

    /// Enumerate processes, if the process-manipulation gate allows it.
    /// While the configuration disallows process manipulation the result is
    /// always `PermissionDenied`, and nothing is forwarded to the backend.
    pub fn enumerate_processes(&mut self) -> (r: Result<Vec<ProcessInfo>, OsToolkitError>)
        ensures
            final(self).config == old(self).config,
            !old(self).config.enable_process_manipulation ==> (*final(self) == *old(self)
                && (r matches Err(e) && e is PermissionDenied)),
            old(self).config.enable_process_manipulation && old(self).backend is None ==> (*final(self)
                == *old(self) && (r matches Err(e) && e is PlatformNotSupported)),
            old(self).config.enable_process_manipulation ==> (old(self).backend matches Some(b)
                ==> (final(self).backend matches Some(b2) && B::list_post(b, b2, r))),
    {
        if !self.config.enable_process_manipulation {
            return Err(
                OsToolkitError::PermissionDenied("Process manipulation not enabled".to_owned()),
            );
        }
        match &mut self.backend {
            Some(ops) => ops.enumerate_processes(),
            None => Err(
                OsToolkitError::PlatformNotSupported("Current platform not supported".to_owned()),
            ),
        }
    }

    /// Request the extended resource view. Read-only like
    /// `get_system_info`, so unconditionally forwarded.
    pub fn get_system_resources(&mut self) -> (r: Result<SystemResources, OsToolkitError>)
        ensures
            final(self).config == old(self).config,
            old(self).backend is None ==> (*final(self) == *old(self) && (r matches Err(e)
                && e is PlatformNotSupported)),
            old(self).backend matches Some(b) ==> (final(self).backend matches Some(b2)
                && B::resources_post(b, b2, r)),
    {
        match &mut self.backend {
            Some(ops) => ops.get_system_resources(),
            None => Err(
                OsToolkitError::PlatformNotSupported("Current platform not supported".to_owned()),
            ),
        }
    }
}

} // verus!
