//! Bringing up the local APIC.
//!
//! The library decides which registers get which values; the caller, who may
//! touch model-specific registers and I/O ports, writes them.

use vstd::prelude::*;

verus! {

/// Physical address at which the local APIC is to be mapped.
pub const APIC_BASE: u64 = 0xfee0_0000;

/// The APIC global enable bit of the APIC base register.
pub const APIC_ENABLE: u64 = 0x800;

/// The bits of the APIC base register below the base address.
pub const APIC_OFFSET_MASK: u64 = 0xfff;

/// Number of the APIC base model-specific register.
pub const IA32_APIC_BASE: u32 = 0x1b;

/// Data port of the first legacy interrupt controller.
pub const PIC_MASTER_DATA: u16 = 0x21;

/// Data port of the second legacy interrupt controller.
pub const PIC_SLAVE_DATA: u16 = 0xa1;

/// The value that masks all eight lines of a legacy interrupt controller.
pub const PIC_MASK_ALL: u8 = 0xff;

/// Why the local APIC cannot be brought up.
#[derive(Debug, Clone, Copy, PartialEq, Eq, Structural)]
pub enum Error {
    /// The processor has no local APIC.
    NoApicSupport,
    /// The processor has no x2APIC.
    Nox2ApicSupport,
}

/// The feature flags of the processor that bring-up looks at.
#[derive(Debug, Clone, Copy, PartialEq, Eq, Structural)]
pub struct CpuFeatures {
    /// The processor has a local APIC.
    pub apic: bool,
    /// The local APIC can run in x2APIC mode.
    pub x2apic: bool,
}

/// A byte to write to an I/O port.
#[derive(Debug, Clone, Copy, PartialEq, Eq, Structural)]
pub struct PortWrite {
    pub port: u16,
    pub value: u8,
}

/// The writes that bring up the local APIC, in the order they are made:
/// first the two port writes that silence the legacy interrupt controllers,
/// then the new value of the APIC base register.
#[derive(Debug, Clone, Copy, PartialEq, Eq, Structural)]
pub struct ApicSetup {
    pub mask_slave: PortWrite,
    pub mask_master: PortWrite,
    pub apic_base: u64,
    /// Whether x2APIC mode is available. Where it is not, the APIC is
    /// addressed in xAPIC mode.
    pub x2apic: bool,
}

/// The local APIC of the executing processor.
pub struct Apic {}

/// The physical base address in a value of the APIC base register.
pub open spec fn apic_base_of(apic_base_msr: u64) -> u64 {
    apic_base_msr & !APIC_OFFSET_MASK
}

/// The bits below the base address in a value of the APIC base register.
pub open spec fn apic_offset_of(apic_base_msr: u64) -> u64 {
    apic_base_msr & APIC_OFFSET_MASK
}

/// The value that bring-up writes to the APIC base register: the wanted
/// base, the low bits as they were, and the enable bit.
pub open spec fn enabled_apic_base(apic_base_msr: u64) -> u64 {
    APIC_BASE | apic_offset_of(apic_base_msr) | APIC_ENABLE
}

/// What bring-up comes to, given the feature flags, if the processor
/// reported any, and the value of the APIC base register.
pub open spec fn setup_for(features: Option<CpuFeatures>, apic_base_msr: u64) -> Result<
    ApicSetup,
    Error,
> {
    match features {
        Some(f) if f.apic => Ok(
            ApicSetup {
                mask_slave: PortWrite { port: PIC_SLAVE_DATA, value: PIC_MASK_ALL },
                mask_master: PortWrite { port: PIC_MASTER_DATA, value: PIC_MASK_ALL },
                apic_base: enabled_apic_base(apic_base_msr),
                x2apic: f.x2apic,
            },
        ),
        _ => Err(Error::NoApicSupport),
    }
}

/// The physical base address of the local APIC's registers, from the value
/// of the APIC base register.
pub fn get_apic_base(apic_base_msr: u64) -> (base: u64)
    ensures
        base == apic_base_of(apic_base_msr),
        base % 0x1000 == 0,
        base + apic_offset_of(apic_base_msr) == apic_base_msr,
{
    assert((apic_base_msr & !0xfffu64) % 0x1000 == 0) by (bit_vector);
    assert((apic_base_msr & !0xfffu64) + (apic_base_msr & 0xfffu64) == apic_base_msr)
        by (bit_vector);
    apic_base_msr & !APIC_OFFSET_MASK
}

/// The bits below the base address, from the value of the APIC base
/// register.
pub fn get_apic_offset(apic_base_msr: u64) -> (offset: u64)
    ensures
        offset == apic_offset_of(apic_base_msr),
        offset < 0x1000,
{
    assert(apic_base_msr & 0xfffu64 < 0x1000) by (bit_vector);
    apic_base_msr & APIC_OFFSET_MASK
}

/// Asks the processor for its feature flags, through
/// `x86::cpuid::CpuId::get_feature_info`. The answer depends on the
/// processor, so nothing is claimed of it.
#[verifier::external_body]
fn cpu_features() -> Option<CpuFeatures> {
    match x86::cpuid::CpuId::new().get_feature_info() {
        Some(info) => Some(CpuFeatures { apic: info.has_apic(), x2apic: info.has_x2apic() }),
        None => None,
    }
}

impl Apic {
    /// Works out the writes that bring up the local APIC.
    ///
    /// `features` are the processor's feature flags, if it reported any, and
    /// `apic_base_msr` is the current value of the APIC base register.
    /// Without a local APIC there is nothing to bring up. A missing x2APIC is
    /// no error.
    pub fn init(features: Option<CpuFeatures>, apic_base_msr: u64) -> (r: Result<ApicSetup, Error>)
        ensures
            r == setup_for(features, apic_base_msr),
            r matches Ok(setup) ==> {
                &&& apic_base_of(setup.apic_base) == APIC_BASE
                &&& setup.apic_base & APIC_ENABLE == APIC_ENABLE
                &&& setup.apic_base & 0x7ff == apic_base_msr & 0x7ff
            },
    {
        let features = match features {
            Some(f) => f,
            None => {
                return Err(Error::NoApicSupport);
            },
        };
        if !features.apic {
            return Err(Error::NoApicSupport);
        }
        let apic_offset = get_apic_offset(apic_base_msr);
        let new_apic = APIC_BASE | apic_offset;
        let new_apic = new_apic | APIC_ENABLE;
        assert((0xfee0_0000u64 | (apic_base_msr & 0xfffu64) | 0x800u64) & !0xfffu64 == 0xfee0_0000u64)
            by (bit_vector);
        assert((0xfee0_0000u64 | (apic_base_msr & 0xfffu64) | 0x800u64) & 0x800u64 == 0x800u64)
            by (bit_vector);
        assert((0xfee0_0000u64 | (apic_base_msr & 0xfffu64) | 0x800u64) & 0x7ffu64 == apic_base_msr
            & 0x7ffu64) by (bit_vector);
        Ok(
            ApicSetup {
                mask_slave: PortWrite { port: PIC_SLAVE_DATA, value: PIC_MASK_ALL },
                mask_master: PortWrite { port: PIC_MASTER_DATA, value: PIC_MASK_ALL },
                apic_base: new_apic,
                x2apic: features.x2apic,
            },
        )
    }

    /// Asks the processor whether it has a local APIC.
    ///
    /// Whatever the processor answers, the flags that come back say that it
    /// has one, and the only error is `NoApicSupport`.
    pub fn probe() -> (r: Result<CpuFeatures, Error>)
        ensures
            match r {
                Ok(features) => features.apic,
                Err(e) => e == Error::NoApicSupport,
            },
    {
        Apic::supported(cpu_features())
    }

    /// Whether the feature flags, if the processor reported any, allow the
    /// local APIC to be brought up.
    pub fn supported(features: Option<CpuFeatures>) -> (r: Result<CpuFeatures, Error>)
        ensures
            r == match features {
                Some(f) if f.apic => Ok::<CpuFeatures, Error>(f),
                _ => Err::<CpuFeatures, Error>(Error::NoApicSupport),
            },
    {
        match features {
            Some(f) => if f.apic {
                Ok(f)
            } else {
                Err(Error::NoApicSupport)
            },
            None => Err(Error::NoApicSupport),
        }
    }
}

} // verus!
