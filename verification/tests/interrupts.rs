use boros::cpuid::{Features, APIC};
use boros::cpuio::interrupts::exceptions::{
    DescriptorTable, ErrorCode, PageFaultErrorCode, CAUSED_BY_WRITE, INSTRUCTION_FETCH,
    PROTECTION_VIOLATION, USER_MODE,
};
use boros::cpuio::interrupts::{Attributes, Idt, IdtEntry};
use boros::cpuio::{
    disable_8259_pic, enable_interrupts, map_apic_registers, setup_apic, Apic, PortWrite, SetupStep,
};
use boros::memory::area_frame_allocator::{AreaFrameAllocator, MemoryArea};
use boros::memory::paging::PageTableHead;

#[test]
fn attributes_of_a_descriptor() {
    assert_eq!(Attributes::clear().0, 0);
    assert_eq!(Attributes::empty().0, 0x0c00);
    assert_eq!(Attributes::new().0, 0x8e00);
    assert_eq!(Attributes::new().trap_gate().0, 0x8f00);
    assert_eq!(Attributes::new().trap_gate().interrupt_gate().0, 0x8e00);
    assert_eq!(Attributes::new().call_gate().0, 0x8c00);
    assert_eq!(Attributes::new().stack(5).0, 0x8e05);
    assert_eq!(Attributes::new().stack(5).stack(2).0, 0x8e02);
    assert_eq!(Attributes::new().stack(0).0, 0x8e00);
}

#[test]
fn access_level_keeps_only_the_present_bit() {
    assert_eq!(Attributes::new().access_level(3).0, 0xe000);
    assert_eq!(Attributes::new().access_level(0).0, 0x8000);
    assert_eq!(Attributes::new().stack(3).access_level(1).0, 0xa000);
    assert_eq!(Attributes::empty().access_level(2).0, 0x4000);
    assert_eq!(Attributes::new().access_level(3).access_level(1).0, 0xa000);
}

#[test]
fn attributes_are_changed_in_place() {
    let mut attributes = Attributes::new();
    attributes.trap_gate().stack(1);
    assert_eq!(attributes.0, 0x8f01);
}

#[test]
fn descriptor_holds_the_handler_in_three_parts() {
    let entry = IdtEntry::new(0x1234_5678_9abc_def0, Attributes::new());
    assert_eq!(entry.offset_low, 0xdef0);
    assert_eq!(entry.offset_middle, 0x9abc);
    assert_eq!(entry.offset_high, 0x1234_5678);
    assert_eq!(entry.selector, 0x08);
    assert_eq!(entry.attributes, Attributes(0x8e00));
    assert_eq!(entry.reserved, 0);

    assert_eq!(
        entry.to_bytes(),
        [
            0xf0, 0xde, 0x08, 0x00, 0x00, 0x8e, 0xbc, 0x9a, 0x78, 0x56, 0x34, 0x12, 0x00, 0x00, 0x00,
            0x00
        ]
    );

    let unset = IdtEntry::not_set();
    assert_eq!(unset.to_bytes(), [0; 16]);
    assert_eq!(
        (unset.offset_low, unset.offset_middle, unset.offset_high, unset.selector),
        (0, 0, 0, 0)
    );
    assert_eq!(unset.attributes, Attributes(0));
}

#[test]
fn table_of_descriptors() {
    let mut idt = Idt::new();
    for entry in idt.0.iter() {
        assert_eq!(*entry, IdtEntry::not_set());
    }
    idt.set_handler(14, 0xffff_8000_0010_2030).stack(2);
    assert_eq!(idt.0[14].offset_low, 0x2030);
    assert_eq!(idt.0[14].offset_middle, 0x0010);
    assert_eq!(idt.0[14].offset_high, 0xffff_8000);
    assert_eq!(idt.0[14].attributes, Attributes(0x8e02));
    assert_eq!(idt.0[13], IdtEntry::not_set());
    assert_eq!(idt.0[15], IdtEntry::not_set());

    let mut trap = Attributes::new();
    trap.trap_gate();
    idt.set_entry(255, IdtEntry::new(0x4000, trap)).access_level(3);
    assert_eq!(idt.0[255].offset_low, 0x4000);
    assert_eq!(idt.0[255].attributes, Attributes(0xe000));
    idt.set_handler(0, 1);
    assert_eq!(idt.0[0].offset_low, 1);
    assert_eq!(idt.0[14].offset_low, 0x2030);
}

#[test]
fn error_code_of_a_selector() {
    let code = ErrorCode(0);
    assert!(!code.external());
    assert!(code.has_location());
    assert_eq!(code.location(), DescriptorTable::GDT);
    assert_eq!(code.selector_index(), 0);

    let code = ErrorCode(0x53);
    assert!(code.external());
    assert_eq!(code.location(), DescriptorTable::IDT);
    assert_eq!(code.selector_index(), 10);

    let code = ErrorCode(0x1234);
    assert!(!code.external());
    assert_eq!(code.location(), DescriptorTable::LDT);
    assert_eq!(code.selector_index(), 0x246);

    assert!(!ErrorCode(6).has_location());
    assert!(!ErrorCode(0xff).has_location());
    assert_eq!(ErrorCode(u64::MAX).selector_index(), u64::MAX >> 3);
}

#[test]
fn error_code_of_a_page_fault() {
    let code = PageFaultErrorCode::from_bits(0x13).unwrap();
    assert_eq!(code.bits(), 0x13);
    assert!(code.contains(PROTECTION_VIOLATION | CAUSED_BY_WRITE | INSTRUCTION_FETCH));
    assert!(!code.contains(USER_MODE));
    assert_eq!(PageFaultErrorCode::from_bits(0x20), None);
    assert_eq!(PageFaultErrorCode::from_bits(0x1f).unwrap().bits(), 0x1f);
}

#[test]
fn bytes_that_silence_the_old_controllers() {
    let writes = disable_8259_pic();
    let expected = [
        (0x20, 0x11),
        (0xa0, 0x11),
        (0x21, 0xe0),
        (0xa1, 0xe8),
        (0x21, 0x04),
        (0xa1, 0x02),
        (0x21, 0x01),
        (0xa1, 0x01),
        (0x21, 0xff),
        (0xa1, 0xff),
    ];
    assert_eq!(writes.len(), expected.len());
    for (write, (port, value)) in writes.iter().zip(expected) {
        assert_eq!(*write, PortWrite { port, value });
    }
}

#[test]
fn steps_that_bring_up_the_local_controller() {
    let features = Features::from_bits(APIC | 1).unwrap();
    assert_eq!(
        setup_apic(&features),
        [
            SetupStep::DisablePic,
            SetupStep::MapApicRegisters,
            SetupStep::InitIdt,
            SetupStep::EnableInterrupts
        ]
    );
}

#[test]
fn registers_of_the_local_controller_are_mapped_to_themselves() {
    let mut head = PageTableHead::new();
    let mut allocator = AreaFrameAllocator::new(
        0,
        0,
        0,
        0,
        0xfee0_0000,
        vec![MemoryArea { base_addr: 0x10_0000, length: 0x10_0000 }],
    );
    assert_eq!(map_apic_registers(&mut head, &mut allocator), Ok(()));
    assert_eq!(head.translate(0xfee0_00f0), Some(0xfee0_00f0));
    assert_eq!(head.translate(0xfee0_1000), None);
}

#[test]
fn interrupts_are_enabled_in_the_spurious_vector_register() {
    let mut apic = Apic { registers: [0; 16] };
    apic.registers[2] = 7;
    apic.registers[15] = 0xabcd_0000;
    assert_eq!(apic.get_local_apic_id(), 7);
    assert_eq!(apic.get_spurious_interrupt_vector(), 0xabcd_0000);
    enable_interrupts(&mut apic);
    assert_eq!(apic.get_spurious_interrupt_vector(), 0xabcd_01ff);
    assert_eq!(apic.registers[2], 7);
    apic.set_spurious_interrupt_vector(0x0000_0e0f);
    enable_interrupts(&mut apic);
    assert_eq!(apic.registers[15], 0x0000_0fff);
    for index in (0..15).filter(|index| *index != 2) {
        assert_eq!(apic.registers[index], 0);
    }
}
