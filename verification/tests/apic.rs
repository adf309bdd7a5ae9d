use bootloader::apic::{
    get_apic_base, get_apic_offset, Apic, ApicSetup, CpuFeatures, Error, PortWrite, APIC_BASE,
};
use bootloader::mm::{E820Entry, MemLayout, MMU};

#[test]
fn apic_base_and_offset_split_the_register() {
    assert_eq!(get_apic_base(0xfee0_0900), 0xfee0_0000);
    assert_eq!(get_apic_offset(0xfee0_0900), 0x900);
    assert_eq!(get_apic_base(0x0000_0001_2345_6123), 0x0000_0001_2345_6000);
    assert_eq!(get_apic_offset(0x0000_0001_2345_6123), 0x123);
    assert_eq!(get_apic_base(0xfff), 0);
    assert_eq!(get_apic_offset(u64::MAX), 0xfff);
}

#[test]
fn init_without_feature_info_fails() {
    assert_eq!(Apic::init(None, 0xfee0_0900), Err(Error::NoApicSupport));
}

#[test]
fn init_without_local_apic_fails() {
    let features = CpuFeatures { apic: false, x2apic: true };
    assert_eq!(Apic::init(Some(features), 0xfee0_0900), Err(Error::NoApicSupport));
}

#[test]
fn init_masks_the_pic_and_enables_the_apic() {
    let features = CpuFeatures { apic: true, x2apic: true };
    let setup = Apic::init(Some(features), 0x0000_0001_2345_6123).unwrap();
    assert_eq!(
        setup,
        ApicSetup {
            mask_slave: PortWrite { port: 0xa1, value: 0xff },
            mask_master: PortWrite { port: 0x21, value: 0xff },
            apic_base: 0xfee0_0923,
            x2apic: true,
        }
    );
    assert_eq!(get_apic_base(setup.apic_base), APIC_BASE);
}

#[test]
fn init_without_x2apic_still_succeeds() {
    let features = CpuFeatures { apic: true, x2apic: false };
    let setup = Apic::init(Some(features), 0xfee0_0100).unwrap();
    assert_eq!(setup.apic_base, 0xfee0_0900);
    assert!(!setup.x2apic);
}

#[test]
fn init_keeps_an_enable_bit_that_is_set() {
    let features = CpuFeatures { apic: true, x2apic: false };
    let setup = Apic::init(Some(features), 0xfee0_0d00).unwrap();
    assert_eq!(setup.apic_base, 0xfee0_0d00);
}

#[test]
fn supported_passes_the_flags_on() {
    let features = CpuFeatures { apic: true, x2apic: false };
    assert_eq!(Apic::supported(Some(features)), Ok(features));
    assert_eq!(Apic::supported(Some(CpuFeatures { apic: false, x2apic: false })), Err(Error::NoApicSupport));
    assert_eq!(Apic::supported(None), Err(Error::NoApicSupport));
}

#[test]
fn probe_reports_a_local_apic_or_its_absence() {
    match Apic::probe() {
        Ok(features) => assert!(features.apic),
        Err(e) => assert_eq!(e, Error::NoApicSupport),
    }
}

#[test]
fn the_allocator_is_not_there_yet() {
    assert!(MMU::init(0).is_none());
    assert!(MMU::init(0x7c00).is_none());
}

#[test]
fn a_memory_layout_holds_fewer_than_32_entries() {
    let mut layout = MemLayout { num_entries: 0, mem_layout: [E820Entry::default(); 32] };
    assert!(layout.is_valid());
    layout.num_entries = 31;
    assert!(layout.is_valid());
    layout.num_entries = 32;
    assert!(!layout.is_valid());
}

#[test]
fn the_default_memory_map_entry_is_empty() {
    let entry = E820Entry::default();
    assert_eq!(entry.base, 0);
    assert_eq!(entry.length, 0);
    assert_eq!(entry.typ, 0);
}
