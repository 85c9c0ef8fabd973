//! The bare-metal embedded backend.
//!
//! On a Cortex-M target the CPU identification registers supply the
//! architecture variant and instruction-set features; there is no operating
//! system, so total memory is reported as zero (it would have to be
//! configured per device), there is exactly one logical core, and process
//! enumeration reports the single running firmware image. Memory protection
//! on these parts is a matter of switching the MPU between its protected
//! and permissive configurations: the backend records the translated
//! intent, and the embedding firmware applies it with its privileged
//! register writes, which cannot be issued from verified code.
use vstd::prelude::*;
use crate::{OsToolkitError, PlatformOps, ProcessInfo, SystemInfo, SystemResources};

verus! {

#[verifier::external_type_specification]
#[verifier::external_body]
pub struct ExPeripherals(cortex_m::Peripherals);

#[verifier::external_type_specification]
#[verifier::external_body]
pub struct ExCpuid(cortex_m::peripheral::CPUID);

/// Relies on cortex_m::Peripherals::take: hands out the core peripherals
/// once per program and `None` on every later call. Only functional on
/// Cortex-M targets; elsewhere the underlying critical section does not
/// return normally.
#[verifier::external_body]
fn take_peripherals() -> (r: Option<cortex_m::Peripherals>) {
    cortex_m::Peripherals::take()
}

/// Relies on the `CPUID` field of cortex_m::Peripherals: moves the CPUID
/// peripheral out of the owned set.
#[verifier::external_body]
fn peripherals_cpuid(p: cortex_m::Peripherals) -> (r: cortex_m::peripheral::CPUID) {
    p.CPUID
}

/// Relies on the CPUID base register (volatile_register::RO::read): the
/// implementer, variant, architecture, part number and revision fields of
/// the part, packed as documented by ARM. The value depends on the machine
/// alone, so nothing is promised of it.
#[verifier::external_body]
fn read_cpuid_base(c: &cortex_m::peripheral::CPUID) -> (r: u32) {
    c.base.read()
}

/// Relies on the first Instruction Set Attribute register
/// (volatile_register::RO::read). The value depends on the machine alone,
/// so nothing is promised of it.
#[verifier::external_body]
fn read_cpuid_isar0(c: &cortex_m::peripheral::CPUID) -> (r: u32) {
    c.isar[0].read()
}

/// The instruction-set feature names encoded by an ISA attribute word:
/// bit 4 is Thumb, bit 5 Thumb-2, bit 6 Jazelle.
pub open spec fn spec_arm_features(isa: u32) -> Seq<Seq<char>> {
    let s0 = Seq::<Seq<char>>::empty();
    let s1 = if isa & 0x10 != 0 {
        s0.push("thumb"@)
    } else {
        s0
    };
    let s2 = if isa & 0x20 != 0 {
        s1.push("thumb2"@)
    } else {
        s1
    };
    if isa & 0x40 != 0 {
        s2.push("jazelle"@)
    } else {
        s2
    }
}

/// The feature names encoded by an ISA attribute word, in bit order.
pub fn decode_arm_features(isa: u32) -> (r: Vec<String>)
    ensures
        r.deep_view() == spec_arm_features(isa),
{
    let mut features: Vec<String> = Vec::new();
    if isa & 0x10 != 0 {
        features.push("thumb".to_owned());
    }
    if isa & 0x20 != 0 {
        features.push("thumb2".to_owned());
    }
    if isa & 0x40 != 0 {
        features.push("jazelle".to_owned());
    }
    proof {
        assert(features.deep_view() =~= spec_arm_features(isa));
    }
    features
}

/// The architecture label for a CPUID variant field: `ARMv<variant>-M`.
pub open spec fn spec_arm_arch_label(variant: u32) -> Seq<char> {
    if variant == 0 {
        "ARMv0-M"@
    } else if variant == 1 {
        "ARMv1-M"@
    } else if variant == 2 {
        "ARMv2-M"@
    } else if variant == 3 {
        "ARMv3-M"@
    } else if variant == 4 {
        "ARMv4-M"@
    } else if variant == 5 {
        "ARMv5-M"@
    } else if variant == 6 {
        "ARMv6-M"@
    } else if variant == 7 {
        "ARMv7-M"@
    } else if variant == 8 {
        "ARMv8-M"@
    } else if variant == 9 {
        "ARMv9-M"@
    } else if variant == 10 {
        "ARMv10-M"@
    } else if variant == 11 {
        "ARMv11-M"@
    } else if variant == 12 {
        "ARMv12-M"@
    } else if variant == 13 {
        "ARMv13-M"@
    } else if variant == 14 {
        "ARMv14-M"@
    } else {
        "ARMv15-M"@
    }
}

/// The architecture label for a CPUID variant field (0 to 15).
pub fn arm_arch_label(variant: u32) -> (r: String)
    requires
        variant < 16,
    ensures
        r@ == spec_arm_arch_label(variant),
{
    let label: &str = if variant == 0 {
        "ARMv0-M"
    } else if variant == 1 {
        "ARMv1-M"
    } else if variant == 2 {
        "ARMv2-M"
    } else if variant == 3 {
        "ARMv3-M"
    } else if variant == 4 {
        "ARMv4-M"
    } else if variant == 5 {
        "ARMv5-M"
    } else if variant == 6 {
        "ARMv6-M"
    } else if variant == 7 {
        "ARMv7-M"
    } else if variant == 8 {
        "ARMv8-M"
    } else if variant == 9 {
        "ARMv9-M"
    } else if variant == 10 {
        "ARMv10-M"
    } else if variant == 11 {
        "ARMv11-M"
    } else if variant == 12 {
        "ARMv12-M"
    } else if variant == 13 {
        "ARMv13-M"
    } else if variant == 14 {
        "ARMv14-M"
    } else {
        "ARMv15-M"
    };
    label.to_owned()
}

/// The embedded backend: owns the CPU identification peripheral and the
/// protection intent most recently translated for the MPU.
pub struct ArmOps {
    pub cpuid: cortex_m::peripheral::CPUID,
    pub mpu_protected: bool,
}

impl ArmOps {
    /// Take ownership of the core peripherals. Fails with `HardwareError`
    /// when they were already taken by the embedding firmware; the MPU
    /// intent starts permissive.
    pub fn new() -> (r: Result<ArmOps, OsToolkitError>)
        ensures
            r matches Ok(ops) ==> !ops.mpu_protected,
            r matches Err(e) ==> e is HardwareError,
    {
        match take_peripherals() {
            Some(p) => Ok(ArmOps { cpuid: peripherals_cpuid(p), mpu_protected: false }),
            None => Err(
                OsToolkitError::HardwareError("core peripherals already taken".to_owned()),
            ),
        }
    }
}

impl PlatformOps for ArmOps {
    open spec fn info_post(pre: Self, post: Self, r: Result<SystemInfo, OsToolkitError>) -> bool {
        &&& post == pre
        &&& r matches Ok(info) && {
            &&& info.os_type@ == "Bare Metal ARM"@
            &&& info.memory_total == 0
            &&& info.cpu_cores == 1
        }
    }

    open spec fn protect_post(
        pre: Self,
        post: Self,
        addr: usize,
        size: usize,
        protect: bool,
        r: Result<(), OsToolkitError>,
    ) -> bool {
        &&& post.cpuid == pre.cpuid
        &&& post.mpu_protected == protect
        &&& r is Ok
    }

    open spec fn list_post(pre: Self, post: Self, r: Result<Vec<ProcessInfo>, OsToolkitError>) -> bool {
        &&& post == pre
        &&& r matches Ok(procs) && {
            &&& procs@.len() == 1
            &&& procs@[0].pid == 1
            &&& procs@[0].name@ == "main"@
            &&& procs@[0].memory_usage == 0
            &&& procs@[0].cpu_usage == 10000
        }
    }

    open spec fn resources_post(
        pre: Self,
        post: Self,
        r: Result<SystemResources, OsToolkitError>,
    ) -> bool {
        &&& post == pre
        &&& r matches Err(e) && e is PlatformNotSupported
    }

    fn get_system_info(&mut self) -> (r: Result<SystemInfo, OsToolkitError>) {
        let isa = read_cpuid_isar0(&self.cpuid);
        let base = read_cpuid_base(&self.cpuid);
        let variant = (base >> 20) & 0xF;
        proof {
            assert(variant < 16) by (bit_vector)
                requires
                    variant == (base >> 20) & 0xF,
            ;
        }
        Ok(
            SystemInfo {
                architecture: arm_arch_label(variant),
                os_type: "Bare Metal ARM".to_owned(),
                memory_total: 0,  // would have to be configured per device
                cpu_cores: 1,  // Cortex-M parts are single core
                cpu_features: decode_arm_features(isa),
            },
        )
    }

    fn modify_memory_protection(&mut self, addr: usize, size: usize, protect: bool) -> (r: Result<
        (),
        OsToolkitError,
    >) {
        self.mpu_protected = protect;
        Ok(())
    }

    fn enumerate_processes(&mut self) -> (r: Result<Vec<ProcessInfo>, OsToolkitError>) {
        // Bare metal runs a single image: report it as one synthetic
        // process owning the whole CPU.
        let mut procs: Vec<ProcessInfo> = Vec::new();
        procs.push(
            ProcessInfo {
                pid: 1,
                name: "main".to_owned(),
                memory_usage: 0,
                cpu_usage: 10000,
            },
        );
        Ok(procs)
    }

    fn get_system_resources(&mut self) -> (r: Result<SystemResources, OsToolkitError>) {
        Err(
            OsToolkitError::PlatformNotSupported(
                "resource figures are not available on bare metal".to_owned(),
            ),
        )
    }
}

} // verus!
