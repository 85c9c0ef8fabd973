//! The desktop-OS backend without native bindings.
//!
//! The toolkit does not bind to the desktop OS's native system services on
//! the targets it is built for, so this backend answers every operation
//! with `PlatformNotSupported`: callers can tell that the capability is
//! absent here, as opposed to present but empty.
use vstd::prelude::*;
use crate::{OsToolkitError, PlatformOps, ProcessInfo, SystemInfo, SystemResources};

verus! {

/// The desktop backend without native bindings: stateless, and every
/// operation reports `PlatformNotSupported`.
pub struct WindowsOps;

impl WindowsOps {
    pub fn new() -> (r: Self) {
        WindowsOps
    }
}

impl PlatformOps for WindowsOps {
    open spec fn info_post(pre: Self, post: Self, r: Result<SystemInfo, OsToolkitError>) -> bool {
        &&& post == pre
        &&& r matches Err(e) && e is PlatformNotSupported
    }

    open spec fn protect_post(
        pre: Self,
        post: Self,
        addr: usize,
        size: usize,
        protect: bool,
        r: Result<(), OsToolkitError>,
    ) -> bool {
        &&& post == pre
        &&& r matches Err(e) && e is PlatformNotSupported
    }

    open spec fn list_post(pre: Self, post: Self, r: Result<Vec<ProcessInfo>, OsToolkitError>) -> bool {
        &&& post == pre
        &&& r matches Err(e) && e is PlatformNotSupported
    }

    open spec fn resources_post(
        pre: Self,
        post: Self,
        r: Result<SystemResources, OsToolkitError>,
    ) -> bool {
        &&& post == pre
        &&& r matches Err(e) && e is PlatformNotSupported
    }

    fn get_system_info(&mut self) -> (r: Result<SystemInfo, OsToolkitError>) {
        Err(
            OsToolkitError::PlatformNotSupported(
                "desktop system services are not bound on this target".to_owned(),
            ),
        )
    }

    fn modify_memory_protection(&mut self, addr: usize, size: usize, protect: bool) -> (r: Result<
        (),
        OsToolkitError,
    >) {
        Err(
            OsToolkitError::PlatformNotSupported(
                "desktop system services are not bound on this target".to_owned(),
            ),
        )
    }

    fn enumerate_processes(&mut self) -> (r: Result<Vec<ProcessInfo>, OsToolkitError>) {
        Err(
            OsToolkitError::PlatformNotSupported(
                "desktop system services are not bound on this target".to_owned(),
            ),
        )
    }

    fn get_system_resources(&mut self) -> (r: Result<SystemResources, OsToolkitError>) {
        Err(
            OsToolkitError::PlatformNotSupported(
                "desktop system services are not bound on this target".to_owned(),
            ),
        )
    }
}

} // verus!
