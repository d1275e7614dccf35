//! What the CPUID instruction reports: the vendor of the processor and the
//! features it has. The instruction is run elsewhere; here its result is read.

use vstd::prelude::*;

verus! {

/// The four registers that the CPUID instruction fills.
#[derive(Debug, Clone, Copy, PartialEq, Eq, Structural)]
pub struct CpuIdResult {
    pub eax: u32,
    pub ebx: u32,
    pub ecx: u32,
    pub edx: u32,
}

/// The maker of a processor.
#[derive(Debug, Clone, Copy, PartialEq, Eq, Structural)]
#[allow(non_camel_case_types)]
pub enum Vendor {
    /// "AMDisbetter!"
    OLD_AMD,
    /// "AuthenticAMD"
    AMD,
    /// "GenuineIntel"
    INTEL,
    /// "TransmetaCPU"
    OLD_TRANSMETA,
    /// "GenuineTMx86"
    TRANSMETA,
    /// "CyrixInstead"
    CYRIX,
    /// "CentaurHauls"
    CENTAUR,
    /// "NexGenDriven"
    NEXGEN,
    /// "UMC UMC UMC "
    UMC,
    /// "SiS SiS SiS "
    SIS,
    /// "Geode by NSC"
    NSC,
    /// "RiseRiseRise"
    RISE,
}

impl Vendor {
    /// The twelve bytes by which the processor names this vendor.
    pub open spec fn name(self) -> Seq<u8> {
        match self {
            Vendor::OLD_AMD => seq![65, 77, 68, 105, 115, 98, 101, 116, 116, 101, 114, 33],
            Vendor::AMD => seq![65, 117, 116, 104, 101, 110, 116, 105, 99, 65, 77, 68],
            Vendor::INTEL => seq![71, 101, 110, 117, 105, 110, 101, 73, 110, 116, 101, 108],
            Vendor::OLD_TRANSMETA => seq![84, 114, 97, 110, 115, 109, 101, 116, 97, 67, 80, 85],
            Vendor::TRANSMETA => seq![71, 101, 110, 117, 105, 110, 101, 84, 77, 120, 56, 54],
            Vendor::CYRIX => seq![67, 121, 114, 105, 120, 73, 110, 115, 116, 101, 97, 100],
            Vendor::CENTAUR => seq![67, 101, 110, 116, 97, 117, 114, 72, 97, 117, 108, 115],
            Vendor::NEXGEN => seq![78, 101, 120, 71, 101, 110, 68, 114, 105, 118, 101, 110],
            Vendor::UMC => seq![85, 77, 67, 32, 85, 77, 67, 32, 85, 77, 67, 32],
            Vendor::SIS => seq![83, 105, 83, 32, 83, 105, 83, 32, 83, 105, 83, 32],
            Vendor::NSC => seq![71, 101, 111, 100, 101, 32, 98, 121, 32, 78, 83, 67],
            Vendor::RISE => seq![82, 105, 115, 101, 82, 105, 115, 101, 82, 105, 115, 101],
        }
    }

    /// The twelve bytes by which the processor names this vendor.
    pub fn name_bytes(self) -> (bytes: [u8; 12])
        ensures
            bytes@ == self.name(),
    {
        let bytes: [u8; 12] = match self {
            Vendor::OLD_AMD => [65, 77, 68, 105, 115, 98, 101, 116, 116, 101, 114, 33],
            Vendor::AMD => [65, 117, 116, 104, 101, 110, 116, 105, 99, 65, 77, 68],
            Vendor::INTEL => [71, 101, 110, 117, 105, 110, 101, 73, 110, 116, 101, 108],
            Vendor::OLD_TRANSMETA => [84, 114, 97, 110, 115, 109, 101, 116, 97, 67, 80, 85],
            Vendor::TRANSMETA => [71, 101, 110, 117, 105, 110, 101, 84, 77, 120, 56, 54],
            Vendor::CYRIX => [67, 121, 114, 105, 120, 73, 110, 115, 116, 101, 97, 100],
            Vendor::CENTAUR => [67, 101, 110, 116, 97, 117, 114, 72, 97, 117, 108, 115],
            Vendor::NEXGEN => [78, 101, 120, 71, 101, 110, 68, 114, 105, 118, 101, 110],
            Vendor::UMC => [85, 77, 67, 32, 85, 77, 67, 32, 85, 77, 67, 32],
            Vendor::SIS => [83, 105, 83, 32, 83, 105, 83, 32, 83, 105, 83, 32],
            Vendor::NSC => [71, 101, 111, 100, 101, 32, 98, 121, 32, 78, 83, 67],
            Vendor::RISE => [82, 105, 115, 101, 82, 105, 115, 101, 82, 105, 115, 101],
        };
        assert(bytes@ =~= self.name());
        bytes
    }

    /// True if `name` is the name of a vendor.
    pub open spec fn known_name(name: Seq<u8>) -> bool {
        exists|vendor: Vendor| name == #[trigger] vendor.name()
    }

    /// The vendor with this name, if there is one.
    pub fn lookup(name: &[u8; 12]) -> (vendor: Option<Vendor>)
        ensures
            vendor matches Some(v) ==> name@ == v.name(),
            vendor is None ==> !Self::known_name(name@),
    {
        if same_bytes(name, &Vendor::OLD_AMD.name_bytes()) {
            return Some(Vendor::OLD_AMD);
        }
        if same_bytes(name, &Vendor::AMD.name_bytes()) {
            return Some(Vendor::AMD);
        }
        if same_bytes(name, &Vendor::INTEL.name_bytes()) {
            return Some(Vendor::INTEL);
        }
        if same_bytes(name, &Vendor::CENTAUR.name_bytes()) {
            return Some(Vendor::CENTAUR);
        }
        if same_bytes(name, &Vendor::OLD_TRANSMETA.name_bytes()) {
            return Some(Vendor::OLD_TRANSMETA);
        }
        if same_bytes(name, &Vendor::TRANSMETA.name_bytes()) {
            return Some(Vendor::TRANSMETA);
        }
        if same_bytes(name, &Vendor::CYRIX.name_bytes()) {
            return Some(Vendor::CYRIX);
        }
        if same_bytes(name, &Vendor::NEXGEN.name_bytes()) {
            return Some(Vendor::NEXGEN);
        }
        if same_bytes(name, &Vendor::UMC.name_bytes()) {
            return Some(Vendor::UMC);
        }
        if same_bytes(name, &Vendor::SIS.name_bytes()) {
            return Some(Vendor::SIS);
        }
        if same_bytes(name, &Vendor::NSC.name_bytes()) {
            return Some(Vendor::NSC);
        }
        if same_bytes(name, &Vendor::RISE.name_bytes()) {
            return Some(Vendor::RISE);
        }
        assert forall|vendor: Vendor| name@ != #[trigger] vendor.name() by {
            match vendor {
                Vendor::OLD_AMD => {},
                Vendor::AMD => {},
                Vendor::INTEL => {},
                Vendor::OLD_TRANSMETA => {},
                Vendor::TRANSMETA => {},
                Vendor::CYRIX => {},
                Vendor::CENTAUR => {},
                Vendor::NEXGEN => {},
                Vendor::UMC => {},
                Vendor::SIS => {},
                Vendor::NSC => {},
                Vendor::RISE => {},
            }
        }
        None
    }

    /// The vendor with this name.
    pub fn for_name(name: &[u8; 12]) -> (vendor: Vendor)
        requires
            Self::known_name(name@),
        ensures
            name@ == vendor.name(),
    {
        Self::lookup(name).unwrap()
    }
}

/// True if the two names are the same, byte by byte.
fn same_bytes(a: &[u8; 12], b: &[u8; 12]) -> (same: bool)
    ensures
        same == (a@ == b@),
{
    let mut i: usize = 0;
    while i < 12
        invariant
            i <= 12,
            forall|j: int| 0 <= j < i ==> a[j] == b[j],
        decreases 12 - i,
    {
        if a[i] != b[i] {
            return false;
        }
        i += 1;
    }
    assert(a@ =~= b@);
    true
}

/// Byte `index` of `word`, counted from the lowest.
pub open spec fn byte_of(word: u32, index: nat) -> u8 {
    if index == 0 {
        (word as int % 256) as u8
    } else if index == 1 {
        (word as int / 0x100 % 256) as u8
    } else if index == 2 {
        (word as int / 0x1_0000 % 256) as u8
    } else {
        (word as int / 0x100_0000 % 256) as u8
    }
}

/// The name that the registers hold after a query for the vendor: the bytes
/// of `ebx`, of `edx` and of `ecx`, each from the lowest byte on.
pub open spec fn vendor_bytes(result: CpuIdResult) -> Seq<u8> {
    seq![
        byte_of(result.ebx, 0),
        byte_of(result.ebx, 1),
        byte_of(result.ebx, 2),
        byte_of(result.ebx, 3),
        byte_of(result.edx, 0),
        byte_of(result.edx, 1),
        byte_of(result.edx, 2),
        byte_of(result.edx, 3),
        byte_of(result.ecx, 0),
        byte_of(result.ecx, 1),
        byte_of(result.ecx, 2),
        byte_of(result.ecx, 3),
    ]
}

/// The four bytes of `word`, from the lowest on.
fn bytes_of(word: u32) -> (bytes: (u8, u8, u8, u8))
    ensures
        bytes.0 == byte_of(word, 0),
        bytes.1 == byte_of(word, 1),
        bytes.2 == byte_of(word, 2),
        bytes.3 == byte_of(word, 3),
{
    assert(word & 0xff == word % 256 && (word >> 8) & 0xff == word / 0x100 % 256 && (word >> 16)
        & 0xff == word / 0x1_0000 % 256 && (word >> 24) & 0xff == word / 0x100_0000 % 256 && word
        & 0xff < 256 && (word >> 8) & 0xff < 256 && (word >> 16) & 0xff < 256 && (word >> 24) & 0xff
        < 256) by (bit_vector);
    (
        (word & 0xff) as u8,
        ((word >> 8) & 0xff) as u8,
        ((word >> 16) & 0xff) as u8,
        ((word >> 24) & 0xff) as u8,
    )
}

/// The name in `result`, the registers after a query for the vendor.
pub fn vendor_name(result: &CpuIdResult) -> (name: [u8; 12])
    ensures
        name@ == vendor_bytes(*result),
{
    let b = bytes_of(result.ebx);
    let d = bytes_of(result.edx);
    let c = bytes_of(result.ecx);
    let name = [b.0, b.1, b.2, b.3, d.0, d.1, d.2, d.3, c.0, c.1, c.2, c.3];
    assert(name@ =~= vendor_bytes(*result));
    name
}

/// The vendor that `result` names, the registers after a query for the vendor.
pub fn get_vendor(result: &CpuIdResult) -> (vendor: Vendor)
    requires
        Vendor::known_name(vendor_bytes(*result)),
    ensures
        vendor.name() == vendor_bytes(*result),
{
    let name = vendor_name(result);
    Vendor::for_name(&name)
}

/// The feature flags: bit n is bit n of `edx` for n below 32, and bit n - 32
/// of `ecx` from there on.
pub const FPU_PRESENT: u64 = 0x1;

pub const VIRT_MODE_EXTENSIONS: u64 = 0x2;

pub const DEBUGGING_EXTENSIONS: u64 = 0x4;

pub const PAGE_SIZE_EXTENSIONS: u64 = 0x8;

pub const TIMESTAMP_COUNTER: u64 = 0x10;

pub const MODEL_SPECIFIC_REGISTERS: u64 = 0x20;

pub const PHYSICAL_ADDR_EXTENSIONS: u64 = 0x40;

pub const MACHINE_CHECK_EXCEPTION: u64 = 0x80;

pub const COMPARE_AND_SWAP_8: u64 = 0x100;

pub const APIC: u64 = 0x200;

pub const SYSENTER: u64 = 0x800;

pub const MEMORY_TYPE_RANGE_REGS: u64 = 0x1000;

pub const PAGE_GLOBAL_ENABLE: u64 = 0x2000;

pub const MACHINE_CHECK_ARCHITECTURE: u64 = 0x4000;

pub const CONDITIONAL_MOVE: u64 = 0x8000;

pub const PAGE_ATTRIBUTE_TABLE: u64 = 0x1_0000;

pub const PAGE_SIZE_EXT_36_BITS: u64 = 0x2_0000;

pub const PROCESSOR_SERIAL_NUMBER: u64 = 0x4_0000;

pub const SSE2_CLFLUSH: u64 = 0x8_0000;

pub const DBUG_STORE: u64 = 0x20_0000;

pub const APIC_THERMAL_CONTROL: u64 = 0x40_0000;

pub const MMX_INSTRUCTIONS: u64 = 0x80_0000;

pub const FXSAVE_INSTRUCTIONS: u64 = 0x100_0000;

pub const SSE_INSTRUCTIONS: u64 = 0x200_0000;

pub const SSE2_INSTRUCTIONS: u64 = 0x400_0000;

pub const CACHE_SELF_SNOOP: u64 = 0x800_0000;

pub const HYPERTHREADING: u64 = 0x1000_0000;

pub const THERMAL_LIMITING: u64 = 0x2000_0000;

pub const IA64_EMULATING_X86: u64 = 0x4000_0000;

pub const PENDING_BREAK_ENABLE: u64 = 0x8000_0000;

pub const SSE3_INSTRUCTIONS: u64 = 0x1_0000_0000;

pub const PCLMULQDQ: u64 = 0x2_0000_0000;

pub const DEBUG_STORE_64BIT: u64 = 0x4_0000_0000;

pub const MONITOR_INSTRUCTIONS: u64 = 0x8_0000_0000;

pub const CPL_QUALIFIED_DEBUG_STORE: u64 = 0x10_0000_0000;

pub const VIRT_MACHINE_EXTENSIONS: u64 = 0x20_0000_0000;

pub const SAFER_MODE_EXTENSIONS: u64 = 0x40_0000_0000;

pub const ENHANCED_SPEED_STEP: u64 = 0x80_0000_0000;

pub const THERMAL_MONITOR_2: u64 = 0x100_0000_0000;

pub const SUPPLEMENTAL_SSE3: u64 = 0x200_0000_0000;

pub const L1_CONTEXT_ID: u64 = 0x400_0000_0000;

pub const SILICON_DEBUG_INTERFACE: u64 = 0x800_0000_0000;

pub const FUSED_MULTIPLY_ADD: u64 = 0x1000_0000_0000;

pub const COMPARE_AND_SWAP_16: u64 = 0x2000_0000_0000;

pub const DISABLE_TASK_PRIORITY_MSG: u64 = 0x4000_0000_0000;

pub const PERFMON_AND_DEBUG_CAPAB: u64 = 0x8000_0000_0000;

pub const PROCESS_CONTEXT_IDS: u64 = 0x2_0000_0000_0000;

pub const DMA_DIRECT_CACHE_ACCESS: u64 = 0x4_0000_0000_0000;

pub const SSE41: u64 = 0x8_0000_0000_0000;

pub const SSE42: u64 = 0x10_0000_0000_0000;

pub const X2APIC: u64 = 0x20_0000_0000_0000;

pub const MOVE_BIGENDIAN: u64 = 0x40_0000_0000_0000;

pub const POPCNT: u64 = 0x80_0000_0000_0000;

pub const TSC_DEADLINE: u64 = 0x100_0000_0000_0000;

pub const AES_INSTRUCTIONS: u64 = 0x200_0000_0000_0000;

pub const XSAVE_INSTRUCTIONS: u64 = 0x400_0000_0000_0000;

pub const OS_XSAVE_ENABLED: u64 = 0x800_0000_0000_0000;

pub const ADV_VECTOR_EXTENSIONS: u64 = 0x1000_0000_0000_0000;

pub const HALF_PRECISION_FP: u64 = 0x2000_0000_0000_0000;

pub const RDRAND: u64 = 0x4000_0000_0000_0000;

pub const IS_HYPERVISOR: u64 = 0x8000_0000_0000_0000;

/// Every bit that is a feature flag.
pub const ALL_FEATURES: u64 = 0xfffe_ffff_ffef_fbff;

/// True if `bits` has no bit outside the feature flags.
pub open spec fn known_features(bits: u64) -> bool {
    bits & !ALL_FEATURES == 0
}

/// The features of a processor.
#[derive(Debug, Clone, Copy, PartialEq, Eq, Structural)]
pub struct Features {
    bits: u64,
}

impl View for Features {
    type V = u64;

    closed spec fn view(&self) -> u64 {
        self.bits
    }
}

impl Features {
    #[verifier::type_invariant]
    spec fn well_formed(self) -> bool {
        known_features(self.bits)
    }

    /// The features that `bits` stands for, unless `bits` has a bit that is
    /// no feature flag.
    pub fn from_bits(bits: u64) -> (features: Option<Features>)
        ensures
            features is Some <==> known_features(bits),
            features matches Some(f) ==> f@ == bits,
    {
        if bits & !ALL_FEATURES == 0 {
            Some(Features { bits })
        } else {
            None
        }
    }

    pub fn bits(&self) -> (bits: u64)
        ensures
            bits == self@,
            known_features(bits),
    {
        proof {
            use_type_invariant(self);
        }
        self.bits
    }

    /// True if the processor has every feature of `mask`.
    pub fn contains(&self, mask: u64) -> (b: bool)
        ensures
            b == (self@ & mask == mask),
    {
        self.bits & mask == mask
    }
}

/// The flags that the registers hold after a query for the features: `edx`
/// in the lower half and `ecx` in the upper half.
pub open spec fn feature_bits(result: CpuIdResult) -> u64 {
    (result.ecx as int * 0x1_0000_0000 + result.edx as int) as u64
}

/// The flags in `result`, the registers after a query for the features.
pub fn feature_word(result: &CpuIdResult) -> (bits: u64)
    ensures
        bits == feature_bits(*result),
{
    let ecx = result.ecx;
    let edx = result.edx;
    assert((ecx as u64) << 32 | (edx as u64) == ecx as u64 * 0x1_0000_0000 + edx as u64)
        by (bit_vector);
    (ecx as u64) << 32 | (edx as u64)
}

/// The features in `result`, the registers after a query for the features.
pub fn get_features(result: &CpuIdResult) -> (features: Features)
    requires
        known_features(feature_bits(*result)),
    ensures
        features@ == feature_bits(*result),
{
    Features::from_bits(feature_word(result)).unwrap()
}

} // verus!
