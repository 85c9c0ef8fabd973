//! A scripted backend test double.
//!
//! `MockOps` answers each operation from a script consumed front-first and
//! records how often every operation was invoked, so callers can check both
//! what the toolkit returned and whether a call ever reached the backend.
//! An exhausted script answers `PlatformNotSupported`, like a target that
//! lacks the capability.
use vstd::prelude::*;
use crate::{OsToolkitError, PlatformOps, ProcessInfo, SystemInfo, SystemResources};

verus! {

/// An invocation counter that sticks at its maximum instead of wrapping.
pub open spec fn bumped(c: u64) -> u64 {
    if c == u64::MAX {
        c
    } else {
        (c + 1) as u64
    }
}

fn bump(c: u64) -> (r: u64)
    ensures
        r == bumped(c),
{
    if c == u64::MAX {
        c
    } else {
        c + 1
    }
}

/// A backend whose answers are scripted: each successful call consumes the
/// front entry of the matching script, and every call is counted.
pub struct MockOps {
    pub info_script: Vec<SystemInfo>,
    pub process_script: Vec<Vec<ProcessInfo>>,
    pub resources_script: Vec<SystemResources>,
    pub protect_succeeds: bool,
    pub info_calls: u64,
    pub protect_calls: u64,
    pub list_calls: u64,
    pub resources_calls: u64,
}

impl MockOps {
    /// A double with empty scripts (every query reports
    /// `PlatformNotSupported`), successful protection calls, and all
    /// counters at zero.
    pub fn new() -> (r: Self)
        ensures
            r.info_script@ == Seq::<SystemInfo>::empty(),
            r.process_script@ == Seq::<Vec<ProcessInfo>>::empty(),
            r.resources_script@ == Seq::<SystemResources>::empty(),
            r.protect_succeeds,
            r.info_calls == 0,
            r.protect_calls == 0,
            r.list_calls == 0,
            r.resources_calls == 0,
    {
        MockOps {
            info_script: Vec::new(),
            process_script: Vec::new(),
            resources_script: Vec::new(),
            protect_succeeds: true,
            info_calls: 0,
            protect_calls: 0,
            list_calls: 0,
            resources_calls: 0,
        }
    }
}

impl PlatformOps for MockOps {
    open spec fn info_post(pre: Self, post: Self, r: Result<SystemInfo, OsToolkitError>) -> bool {
        &&& post.info_calls == bumped(pre.info_calls)
        &&& post.protect_calls == pre.protect_calls
        &&& post.list_calls == pre.list_calls
        &&& post.resources_calls == pre.resources_calls
        &&& post.process_script == pre.process_script
        &&& post.resources_script == pre.resources_script
        &&& post.protect_succeeds == pre.protect_succeeds
        &&& if pre.info_script@.len() > 0 {
            &&& r matches Ok(info) && info == pre.info_script@[0]
            &&& post.info_script@ == pre.info_script@.skip(1)
        } else {
            &&& r matches Err(e) && e is PlatformNotSupported
            &&& post.info_script == pre.info_script
        }
    }

    open spec fn protect_post(
        pre: Self,
        post: Self,
        addr: usize,
        size: usize,
        protect: bool,
        r: Result<(), OsToolkitError>,
    ) -> bool {
        &&& post.protect_calls == bumped(pre.protect_calls)
        &&& post.info_calls == pre.info_calls
        &&& post.list_calls == pre.list_calls
        &&& post.resources_calls == pre.resources_calls
        &&& post.info_script == pre.info_script
        &&& post.process_script == pre.process_script
        &&& post.resources_script == pre.resources_script
        &&& post.protect_succeeds == pre.protect_succeeds
        &&& if pre.protect_succeeds {
            r is Ok
        } else {
            r matches Err(e) && e is HardwareError
        }
    }

    open spec fn list_post(pre: Self, post: Self, r: Result<Vec<ProcessInfo>, OsToolkitError>) -> bool {
        &&& post.list_calls == bumped(pre.list_calls)
        &&& post.info_calls == pre.info_calls
        &&& post.protect_calls == pre.protect_calls
        &&& post.resources_calls == pre.resources_calls
        &&& post.info_script == pre.info_script
        &&& post.resources_script == pre.resources_script
        &&& post.protect_succeeds == pre.protect_succeeds
        &&& if pre.process_script@.len() > 0 {
            &&& r matches Ok(procs) && procs == pre.process_script@[0]
            &&& post.process_script@ == pre.process_script@.skip(1)
        } else {
            &&& r matches Err(e) && e is PlatformNotSupported
            &&& post.process_script == pre.process_script
        }
    }

    open spec fn resources_post(
        pre: Self,
        post: Self,
        r: Result<SystemResources, OsToolkitError>,
    ) -> bool {
        &&& post.resources_calls == bumped(pre.resources_calls)
        &&& post.info_calls == pre.info_calls
        &&& post.protect_calls == pre.protect_calls
        &&& post.list_calls == pre.list_calls
        &&& post.info_script == pre.info_script
        &&& post.process_script == pre.process_script
        &&& post.protect_succeeds == pre.protect_succeeds
        &&& if pre.resources_script@.len() > 0 {
            &&& r matches Ok(res) && res == pre.resources_script@[0]
            &&& post.resources_script@ == pre.resources_script@.skip(1)
        } else {
            &&& r matches Err(e) && e is PlatformNotSupported
            &&& post.resources_script == pre.resources_script
        }
    }

    fn get_system_info(&mut self) -> (r: Result<SystemInfo, OsToolkitError>) {
        self.info_calls = bump(self.info_calls);
        if self.info_script.len() > 0 {
            Ok(self.info_script.remove(0))
        } else {
            Err(
                OsToolkitError::PlatformNotSupported(
                    "scripted backend: no system info entry".to_owned(),
                ),
            )
        }
    }

    fn modify_memory_protection(&mut self, addr: usize, size: usize, protect: bool) -> (r: Result<
        (),
        OsToolkitError,
    >) {
        self.protect_calls = bump(self.protect_calls);
        if self.protect_succeeds {
            Ok(())
        } else {
            Err(
                OsToolkitError::HardwareError(
                    "scripted backend: protection change scripted to fail".to_owned(),
                ),
            )
        }
    }

    fn enumerate_processes(&mut self) -> (r: Result<Vec<ProcessInfo>, OsToolkitError>) {
        self.list_calls = bump(self.list_calls);
        if self.process_script.len() > 0 {
            Ok(self.process_script.remove(0))
        } else {
            Err(
                OsToolkitError::PlatformNotSupported(
                    "scripted backend: no process list entry".to_owned(),
                ),
            )
        }
    }

    fn get_system_resources(&mut self) -> (r: Result<SystemResources, OsToolkitError>) {
        self.resources_calls = bump(self.resources_calls);
        if self.resources_script.len() > 0 {
            Ok(self.resources_script.remove(0))
        } else {
            Err(
                OsToolkitError::PlatformNotSupported(
                    "scripted backend: no resources entry".to_owned(),
                ),
            )
        }
    }
}

} // verus!
