//! The interrupt controllers: the steps that bring up the local APIC, and the
//! values that these steps write.

use vstd::prelude::*;
use crate::cpuid::{Features, APIC};
use crate::memory::paging::entry::{entry_bits, PRESENT, WRITEABLE};
use crate::memory::paging::table::MapError;
use crate::memory::paging::page::Page;
use crate::memory::paging::{simple_id_map, PageTableHead};
use crate::memory::{Frame, FrameAllocator};

pub mod interrupts;

verus! {

/// Address of the registers of the local APIC.
pub const APIC_ADDRESS_BASE: u64 = 0xfee0_0000;

/// Number of the frame that holds the registers of the local APIC.
pub const APIC_FRAME: u64 = 0xf_ee00;

/// Index of the register that holds the number of the local APIC.
pub const LOCAL_APIC_ID: usize = 0x02;

/// Index of the register that ends an interrupt.
pub const END_OF_INTERRUPT: usize = 0x0b;

/// Index of the register that holds the spurious interrupt vector.
pub const SPURIOUS_INTERRUPT_VECTOR_REGISTER: usize = 0x0f;

/// The bits of the spurious interrupt vector register that enable the APIC
/// and make 255 the number of the spurious interrupt.
pub const APIC_ENABLE: u32 = 0x1ff;

/// The first sixteen registers of the local APIC, as values.
pub struct Apic {
    pub registers: [u32; 16],
}

impl Apic {
    /// The number of the local APIC.
    pub fn get_local_apic_id(&self) -> (id: u32)
        ensures
            id == self.registers[LOCAL_APIC_ID as int],
    {
        self.registers[LOCAL_APIC_ID]
    }

    /// What the spurious interrupt vector register holds.
    pub fn get_spurious_interrupt_vector(&self) -> (vector: u32)
        ensures
            vector == self.registers[SPURIOUS_INTERRUPT_VECTOR_REGISTER as int],
    {
        self.registers[SPURIOUS_INTERRUPT_VECTOR_REGISTER]
    }

    /// Puts `value` into the spurious interrupt vector register.
    pub fn set_spurious_interrupt_vector(&mut self, value: u32)
        ensures
            final(self).registers@ == old(self).registers@.update(
                SPURIOUS_INTERRUPT_VECTOR_REGISTER as int,
                value,
            ),
    {
        self.registers[SPURIOUS_INTERRUPT_VECTOR_REGISTER] = value;
    }
}

/// A byte to write to a port.
#[derive(Debug, Clone, Copy, PartialEq, Eq, Structural)]
pub struct PortWrite {
    pub port: u16,
    pub value: u8,
}

/// Command port of the first 8259 interrupt controller.
pub const PIC1_COMMAND: u16 = 0x20;

/// Data port of the first 8259 interrupt controller.
pub const PIC1_DATA: u16 = 0x21;

/// Command port of the second 8259 interrupt controller.
pub const PIC2_COMMAND: u16 = 0xa0;

/// Data port of the second 8259 interrupt controller.
pub const PIC2_DATA: u16 = 0xa1;

/// What silences the two 8259 interrupt controllers, in the order in which
/// it is written.
pub open spec fn pic_shutdown() -> Seq<PortWrite> {
    seq![
        // Start the initialisation of both controllers.
        PortWrite { port: PIC1_COMMAND, value: 0x11 },
        PortWrite { port: PIC2_COMMAND, value: 0x11 },
        // The interrupt numbers they start at.
        PortWrite { port: PIC1_DATA, value: 0xe0 },
        PortWrite { port: PIC2_DATA, value: 0xe8 },
        // How the two are wired to each other.
        PortWrite { port: PIC1_DATA, value: 0x04 },
        PortWrite { port: PIC2_DATA, value: 0x02 },
        // The mode they work in.
        PortWrite { port: PIC1_DATA, value: 0x01 },
        PortWrite { port: PIC2_DATA, value: 0x01 },
        // Every interrupt of both is masked.
        PortWrite { port: PIC1_DATA, value: 0xff },
        PortWrite { port: PIC2_DATA, value: 0xff },
    ]
}

/// The bytes that silence the two 8259 interrupt controllers, in the order in
/// which they are to be written to their ports.
pub fn disable_8259_pic() -> (writes: [PortWrite; 10])
    ensures
        writes@ == pic_shutdown(),
{
    let writes = [
        PortWrite { port: PIC1_COMMAND, value: 0x11 },
        PortWrite { port: PIC2_COMMAND, value: 0x11 },
        PortWrite { port: PIC1_DATA, value: 0xe0 },
        PortWrite { port: PIC2_DATA, value: 0xe8 },
        PortWrite { port: PIC1_DATA, value: 0x04 },
        PortWrite { port: PIC2_DATA, value: 0x02 },
        PortWrite { port: PIC1_DATA, value: 0x01 },
        PortWrite { port: PIC2_DATA, value: 0x01 },
        PortWrite { port: PIC1_DATA, value: 0xff },
        PortWrite { port: PIC2_DATA, value: 0xff },
    ];
    assert(writes@ =~= pic_shutdown());
    writes
}

/// A step on the way to a working local APIC.
#[derive(Debug, Clone, Copy, PartialEq, Eq, Structural)]
pub enum SetupStep {
    /// Write what `disable_8259_pic` gives to the ports.
    DisablePic,
    /// Call `map_apic_registers`.
    MapApicRegisters,
    /// Fill the interrupt descriptor table and hand it to the processor.
    InitIdt,
    /// Call `enable_interrupts` and write the register back.
    EnableInterrupts,
}

/// The steps that bring up the local APIC of a processor that has one, in
/// their order.
pub fn setup_apic(features: &Features) -> (steps: [SetupStep; 4])
    requires
        features@ & APIC == APIC,
    ensures
        steps@ == seq![
            SetupStep::DisablePic,
            SetupStep::MapApicRegisters,
            SetupStep::InitIdt,
            SetupStep::EnableInterrupts,
        ],
{
    let steps = [
        SetupStep::DisablePic,
        SetupStep::MapApicRegisters,
        SetupStep::InitIdt,
        SetupStep::EnableInterrupts,
    ];
    assert(steps@ =~= seq![
        SetupStep::DisablePic,
        SetupStep::MapApicRegisters,
        SetupStep::InitIdt,
        SetupStep::EnableInterrupts,
    ]);
    steps
}

/// Maps the page of the registers of the local APIC to their frame.
pub fn map_apic_registers<A: FrameAllocator>(table: &mut PageTableHead, allocator: &mut A) -> (result:
    Result<(), MapError>)
    requires
        old(table).wf(),
        old(table).mappable(Page { number: APIC_FRAME }),
    ensures
        final(table).wf(),
        final(table).remapped(*old(table), Page { number: APIC_FRAME }, if result is Ok {
            Some(Frame { number: APIC_FRAME })
        } else {
            None
        }),
        result is Ok ==> (final(table).leaf(Page { number: APIC_FRAME }) matches Some(e) && e@
            == entry_bits(Frame { number: APIC_FRAME }, PRESENT | WRITEABLE)),
        old(table).tables_exist(Page { number: APIC_FRAME }) ==> result is Ok,
{
    simple_id_map(table, Frame::for_address(APIC_ADDRESS_BASE), allocator)
}

/// Enables the local APIC: sets the enable bit of the spurious interrupt
/// vector register, and makes 255 the number of the spurious interrupt.
pub fn enable_interrupts(apic: &mut Apic)
    ensures
        final(apic).registers@ == old(apic).registers@.update(
            SPURIOUS_INTERRUPT_VECTOR_REGISTER as int,
            (old(apic).registers[SPURIOUS_INTERRUPT_VECTOR_REGISTER as int] / 512 * 512 + 511) as u32,
        ),
{
    let siv = apic.get_spurious_interrupt_vector();
    assert(siv | 1u32 << 8 | 0xff == siv / 512 * 512 + 511) by (bit_vector);
    apic.set_spurious_interrupt_vector(siv | 1u32 << 8 | 0xff);
}

} // verus!
