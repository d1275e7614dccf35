use boros::control_regs::cr0::{self, CR0};
use boros::control_regs::cr3::{is_table_address, p4_table_address, set_p4_table_address};
use boros::control_regs::cr4::{self, CR4};
use boros::control_regs::cr8::{get_task_priority_level, set_task_priority_level};
use boros::control_regs::efer::{self, join_halves, split_halves, Efer};
use boros::control_regs::rflags::{self, RFlags};
use boros::cpuid::{
    feature_word, get_features, get_vendor, vendor_name, CpuIdResult, Features, Vendor, APIC,
    FPU_PRESENT, IS_HYPERVISOR, SSE3_INSTRUCTIONS,
};

#[test]
fn efer_flags() {
    assert_eq!(
        efer::ALL,
        efer::SYSCALL_ENABLED
            | efer::LONG_MODE_ENABLED
            | efer::IS_LONG_MODE_ENABLED
            | efer::EXECUTE_DISABLE_BIT_ENABLED
    );
    let flags = Efer::load(0x501);
    assert_eq!(flags.bits(), 0x501);
    assert_eq!(flags.store(), 0x501);
    assert!(flags.contains(efer::LONG_MODE_ENABLED | efer::SYSCALL_ENABLED));
    assert!(!flags.contains(efer::EXECUTE_DISABLE_BIT_ENABLED));
    assert_eq!(Efer::from_bits(0x501), Some(flags));
    assert_eq!(Efer::from_bits(0x2), None);
    assert_eq!(Efer::from_bits(0x1000), None);
    assert_eq!(Efer::from_bits(0).unwrap().store(), 0);
}

#[test]
fn halves_of_the_efer_register() {
    assert_eq!(join_halves(0, 0), 0);
    assert_eq!(join_halves(0x1234_5678, 0x9abc_def0), 0x1234_5678_9abc_def0);
    assert_eq!(join_halves(u32::MAX, u32::MAX), u64::MAX);
    assert_eq!(split_halves(0x1234_5678_9abc_def0), (0x1234_5678, 0x9abc_def0));
    assert_eq!(split_halves(0xd01), (0, 0xd01));
    assert_eq!(split_halves(u64::MAX), (u32::MAX, u32::MAX));
}

#[test]
fn rflags_without_the_bit_that_is_always_set() {
    let flags = RFlags::load(0x202);
    assert_eq!(flags.bits(), 0x200);
    assert!(flags.contains(rflags::HARDWARE_INTERRUPTS));
    assert_eq!(flags.store(), 0x202);
    assert_eq!(RFlags::load(0x2).bits(), 0);
    assert_eq!(RFlags::from_bits(0x2), None);
    assert_eq!(RFlags::from_bits(0x4000), None);
    assert_eq!(RFlags::from_bits(rflags::ALL).unwrap().store(), rflags::ALL | 2);
    assert_eq!(
        rflags::ALL,
        rflags::CARRY
            | rflags::PARITY
            | rflags::AUXILLARY
            | rflags::ZERO
            | rflags::NEGATIVE
            | rflags::SINGLE_STEP
            | rflags::HARDWARE_INTERRUPTS
            | rflags::IOPL_0
            | rflags::IOPL_3
            | rflags::INSTRUCTION_BREAKPOINTS_DISABLED
            | rflags::ACCESS_CONTROL_ALIGNMENT_CHECK
            | rflags::VIRTUAL_INTERRUPTS
            | rflags::VIRTUAL_INTERRUPT_PENDING
            | rflags::CPUID
    );
}

#[test]
fn io_privilege_level() {
    assert_eq!(RFlags::load(0x0002).get_io_privilege_level(), 0);
    assert_eq!(RFlags::load(0x1002).get_io_privilege_level(), 1);
    assert_eq!(RFlags::load(0x2002).get_io_privilege_level(), 2);
    assert_eq!(RFlags::load(0x3002).get_io_privilege_level(), 3);
    assert_eq!(RFlags::load(0x3202).get_io_privilege_level(), 3);
    assert_eq!(RFlags::load(0x20_02d7).get_io_privilege_level(), 0);
}

#[test]
fn cr0_and_cr4_flags() {
    let zero = CR0::load(0x8005_0033);
    assert!(zero.contains(cr0::PAGING | cr0::PROTECTED_MODE | cr0::WRITE_PROTECT));
    assert!(!zero.contains(cr0::CACHING_DISABLED));
    assert_eq!(zero.store(), 0x8005_0033);
    assert_eq!(CR0::from_bits(0x40), None);
    assert_eq!(CR0::from_bits(cr0::ALL).unwrap().bits(), 0xe005_003f);

    let four = CR4::load(0x6a0);
    assert!(four.contains(cr4::PHYSICAL_ADDRESS_EXTENSION | cr4::GLOBAL_PAGES));
    assert_eq!(four.store(), 0x6a0);
    assert_eq!(CR4::from_bits(0x1000), None);
    assert_eq!(CR4::from_bits(0x8_0000), None);
    assert_eq!(CR4::from_bits(cr4::ALL).unwrap().bits(), 0x77_6fff);
}

#[test]
fn address_of_the_root_table() {
    assert_eq!(p4_table_address(0x1234_5678), 0x1234_5000);
    assert_eq!(p4_table_address(0xfff), 0);
    assert_eq!(p4_table_address(u64::MAX), 0xffff_ffff_ffff_f000);
    assert_eq!(set_p4_table_address(0xabc000, 0x1234_5018), 0xabc018);
    assert_eq!(set_p4_table_address(0, 0xffff), 0xfff);
    assert_eq!(set_p4_table_address(0x7000, 0), 0x7000);
    assert!(is_table_address(0x7000));
    assert!(is_table_address(0));
    assert!(!is_table_address(0x7008));
    assert!(!is_table_address(0xfff));
}

#[test]
fn task_priority_level() {
    assert_eq!(get_task_priority_level(0), 0);
    assert_eq!(get_task_priority_level(0xf), 15);
    assert_eq!(get_task_priority_level(0x123), 3);
    assert_eq!(set_task_priority_level(5, 0), 5);
    assert_eq!(set_task_priority_level(5, 0x12f), 0x125);
    assert_eq!(set_task_priority_level(0, 0xf), 0);
    assert_eq!(set_task_priority_level(15, u64::MAX), u64::MAX);
}

fn registers_for(name: &[u8; 12]) -> CpuIdResult {
    CpuIdResult {
        eax: 0xd,
        ebx: u32::from_le_bytes([name[0], name[1], name[2], name[3]]),
        edx: u32::from_le_bytes([name[4], name[5], name[6], name[7]]),
        ecx: u32::from_le_bytes([name[8], name[9], name[10], name[11]]),
    }
}

#[test]
fn vendors_by_name() {
    let vendors = [
        (b"AMDisbetter!", Vendor::OLD_AMD),
        (b"AuthenticAMD", Vendor::AMD),
        (b"GenuineIntel", Vendor::INTEL),
        (b"CentaurHauls", Vendor::CENTAUR),
        (b"TransmetaCPU", Vendor::OLD_TRANSMETA),
        (b"GenuineTMx86", Vendor::TRANSMETA),
        (b"CyrixInstead", Vendor::CYRIX),
        (b"NexGenDriven", Vendor::NEXGEN),
        (b"UMC UMC UMC ", Vendor::UMC),
        (b"SiS SiS SiS ", Vendor::SIS),
        (b"Geode by NSC", Vendor::NSC),
        (b"RiseRiseRise", Vendor::RISE),
    ];
    for (name, vendor) in vendors {
        assert_eq!(Vendor::for_name(name), vendor);
        assert_eq!(Vendor::lookup(name), Some(vendor));
        assert_eq!(&vendor.name_bytes(), name);
        assert_eq!(get_vendor(&registers_for(name)), vendor);
    }
    assert_eq!(Vendor::lookup(b"GenuineIntex"), None);
    assert_eq!(Vendor::lookup(b"genuineIntel"), None);
    assert_eq!(Vendor::lookup(b"            "), None);
}

#[test]
fn vendor_name_in_the_registers() {
    let result = CpuIdResult { eax: 0, ebx: 0x756e_6547, ecx: 0x6c65_746e, edx: 0x4965_6e69 };
    assert_eq!(&vendor_name(&result), b"GenuineIntel");
    assert_eq!(get_vendor(&result), Vendor::INTEL);
}

#[test]
fn features_in_the_registers() {
    let result = CpuIdResult { eax: 0, ebx: 0, ecx: 0x8000_0001, edx: 0x0000_0201 };
    assert_eq!(feature_word(&result), 0x8000_0001_0000_0201);
    let features = get_features(&result);
    assert_eq!(features.bits(), 0x8000_0001_0000_0201);
    assert!(features.contains(APIC));
    assert!(features.contains(FPU_PRESENT | SSE3_INSTRUCTIONS | IS_HYPERVISOR));
    assert!(!features.contains(1 << 1));
    // Bits 10 and 20 of edx and bit 16 of ecx stand for nothing.
    assert_eq!(Features::from_bits(1 << 10), None);
    assert_eq!(Features::from_bits(1 << 20), None);
    assert_eq!(Features::from_bits(1 << 48), None);
    assert_eq!(
        Features::from_bits(!((1 << 10) | (1 << 20) | (1 << 48))).unwrap().bits(),
        0xfffe_ffff_ffef_fbff
    );
}
