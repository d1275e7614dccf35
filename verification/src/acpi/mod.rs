//! The tables by which the firmware describes the machine, read from the
//! bytes that hold them: the root pointer, the header that every table starts
//! with, and the checksums that guard them.

use vstd::prelude::*;
use vstd::slice::slice_subrange;
use vstd::string::StringSliceAdditionalSpecFns;
use vstd::utf8::valid_utf8;
use crate::acpi::apic::ApicSdt;
use crate::acpi::root::AcpiRootSdt;
use crate::bytes::{le32, le64, read_u32, read_u64};

pub mod apic;
pub mod root;

verus! {

/// First address of the memory in which the root pointer is looked for.
pub const RSDP_SEARCH_START: u64 = 0xe0000;

/// Where the search for the root pointer ends.
pub const RSDP_SEARCH_END: u64 = 0xfffff;

/// The sum of the bytes.
pub open spec fn byte_sum(bytes: Seq<u8>) -> int
    decreases bytes.len(),
{
    if bytes.len() == 0 {
        0
    } else {
        byte_sum(bytes.drop_last()) + bytes.last()
    }
}

/// True if the bytes add up to a multiple of 256, as the bytes of a table do
/// that has not been damaged.
pub open spec fn sums_to_zero(bytes: Seq<u8>) -> bool {
    byte_sum(bytes) % 256 == 0
}

/// The sum of the bytes, modulo 256.
pub fn checksum(bytes: &[u8]) -> (sum: u8)
    ensures
        sum == byte_sum(bytes@) % 256,
{
    let mut sum: u8 = 0;
    let mut i: usize = 0;
    while i < bytes.len()
        invariant
            i <= bytes.len(),
            sum == byte_sum(bytes@.take(i as int)) % 256,
        decreases bytes.len() - i,
    {
        sum = sum.wrapping_add(bytes[i]);
        i += 1;
        assert(bytes@.take(i as int).drop_last() =~= bytes@.take(i as int - 1));
    }
    assert(bytes@.take(i as int) =~= bytes@);
    sum
}

/// The eight bytes that the root pointer starts with: `RSD PTR `.
pub open spec fn rsdp_signature() -> Seq<u8> {
    seq![0x52, 0x53, 0x44, 0x20, 0x50, 0x54, 0x52, 0x20]
}

/// Why no root pointer could be had.
#[derive(Debug, Clone, Copy, PartialEq, Eq, Structural)]
pub enum RsdpError {
    NotFound,
    ValidationFailed,
}

/// The root pointer of the first version of the tables: 20 bytes.
#[derive(Debug, Clone, Copy, PartialEq, Eq)]
pub struct RsdpV1 {
    /// Bytes 0 to 7.
    pub signature: [u8; 8],
    /// Byte 8: makes the 20 bytes add up to zero.
    pub checksum: u8,
    /// Bytes 9 to 14.
    pub oem_id: [u8; 6],
    /// Byte 15.
    pub revision: u8,
    /// Bytes 16 to 19: the address of the root table.
    pub address: u32,
}

/// Size of the root pointer of the first version, in bytes.
pub const RSDP_V1_SIZE: usize = 20;

/// Size of the root pointer of later versions, in bytes.
pub const RSDP_V2_SIZE: usize = 36;

impl RsdpV1 {
    /// True if `this` is what the first 20 bytes hold.
    pub open spec fn holds(bytes: Seq<u8>, this: RsdpV1) -> bool {
        &&& this.signature@ == bytes.subrange(0, 8)
        &&& this.checksum == bytes[8]
        &&& this.oem_id@ == bytes.subrange(9, 15)
        &&& this.revision == bytes[15]
        &&& this.address == le32(bytes, 16)
    }

    /// The root pointer that the first 20 bytes hold.
    pub fn read(bytes: &[u8]) -> (this: RsdpV1)
        requires
            bytes@.len() >= RSDP_V1_SIZE,
        ensures
            Self::holds(bytes@, this),
    {
        let this = RsdpV1 {
            signature: [
                bytes[0],
                bytes[1],
                bytes[2],
                bytes[3],
                bytes[4],
                bytes[5],
                bytes[6],
                bytes[7],
            ],
            checksum: bytes[8],
            oem_id: [bytes[9], bytes[10], bytes[11], bytes[12], bytes[13], bytes[14]],
            revision: bytes[15],
            address: read_u32(bytes, 16),
        };
        assert(this.signature@ =~= bytes@.subrange(0, 8));
        assert(this.oem_id@ =~= bytes@.subrange(9, 15));
        this
    }

    /// True if the root pointer passes its check: the first 20 bytes add up
    /// to zero.
    pub open spec fn valid(bytes: Seq<u8>) -> bool {
        sums_to_zero(bytes.subrange(0, RSDP_V1_SIZE as int))
    }

    pub fn validate(bytes: &[u8]) -> (valid: bool)
        requires
            bytes@.len() >= RSDP_V1_SIZE,
        ensures
            valid == Self::valid(bytes@),
    {
        checksum(slice_subrange(bytes, 0, RSDP_V1_SIZE)) == 0
    }
}

/// The root pointer of later versions of the tables: 36 bytes, of which the
/// first 20 are laid out as in the first version.
#[derive(Debug, Clone, Copy, PartialEq, Eq)]
pub struct RsdpV2 {
    pub signature: [u8; 8],
    pub checksum: u8,
    pub oem_id: [u8; 6],
    pub revision: u8,
    pub short_address: u32,
    /// Bytes 20 to 23: the length of the whole root pointer.
    pub length: u32,
    /// Bytes 24 to 31: the address of the extended root table.
    pub long_address: u64,
    /// Byte 32.
    pub extended_checksum: u8,
    /// Bytes 33 to 35.
    pub reserved: [u8; 3],
}

impl RsdpV2 {
    /// True if `this` is what the first 36 bytes hold.
    pub open spec fn holds(bytes: Seq<u8>, this: RsdpV2) -> bool {
        &&& this.signature@ == bytes.subrange(0, 8)
        &&& this.checksum == bytes[8]
        &&& this.oem_id@ == bytes.subrange(9, 15)
        &&& this.revision == bytes[15]
        &&& this.short_address == le32(bytes, 16)
        &&& this.length == le32(bytes, 20)
        &&& this.long_address == le64(bytes, 24)
        &&& this.extended_checksum == bytes[32]
        &&& this.reserved@ == bytes.subrange(33, 36)
    }

    /// The root pointer that the first 36 bytes hold.
    pub fn read(bytes: &[u8]) -> (this: RsdpV2)
        requires
            bytes@.len() >= RSDP_V2_SIZE,
        ensures
            Self::holds(bytes@, this),
    {
        let v1 = RsdpV1::read(bytes);
        let this = RsdpV2 {
            signature: v1.signature,
            checksum: v1.checksum,
            oem_id: v1.oem_id,
            revision: v1.revision,
            short_address: v1.address,
            length: read_u32(bytes, 20),
            long_address: read_u64(bytes, 24),
            extended_checksum: bytes[32],
            reserved: [bytes[33], bytes[34], bytes[35]],
        };
        assert(this.reserved@ =~= bytes@.subrange(33, 36));
        this
    }

    /// True if the root pointer passes its two checks: the first 20 bytes
    /// add up to zero, and so does their sum with the last of the 36 bytes.
    pub open spec fn valid(bytes: Seq<u8>) -> bool {
        &&& sums_to_zero(bytes.subrange(0, RSDP_V1_SIZE as int))
        &&& (byte_sum(bytes.subrange(0, RSDP_V1_SIZE as int)) + bytes[RSDP_V2_SIZE - 1]) % 256 == 0
    }

    pub fn validate(bytes: &[u8]) -> (valid: bool)
        requires
            bytes@.len() >= RSDP_V2_SIZE,
        ensures
            valid == Self::valid(bytes@),
    {
        let sum = checksum(slice_subrange(bytes, 0, RSDP_V1_SIZE));
        let ext_sum = sum.wrapping_add(bytes[RSDP_V2_SIZE - 1]);
        sum == 0 && ext_sum == 0
    }
}

/// A root pointer of either version.
#[derive(Debug, Clone, Copy, PartialEq, Eq)]
pub enum Rsdp {
    V1(RsdpV1),
    V2(RsdpV2),
}

/// True if the signature of a root pointer stands at `offset` in `memory`.
pub open spec fn signature_at(memory: Seq<u8>, offset: int) -> bool {
    0 <= offset && offset + 8 <= memory.len() && memory.subrange(offset, offset + 8)
        == rsdp_signature()
}

/// True if `offset` is the first even offset in `memory` at which the
/// signature of a root pointer stands.
pub open spec fn located_at(memory: Seq<u8>, offset: int) -> bool {
    &&& offset % 2 == 0
    &&& signature_at(memory, offset)
    &&& forall|o: int| 0 <= o < offset && o % 2 == 0 ==> !#[trigger] signature_at(memory, o)
}

/// True if the signature of a root pointer stands at no even offset in `memory`.
pub open spec fn nowhere(memory: Seq<u8>) -> bool {
    forall|o: int| o % 2 == 0 ==> !#[trigger] signature_at(memory, o)
}

/// True if the signature of a root pointer stands at `offset` in `memory`.
fn has_signature(memory: &[u8], offset: usize) -> (b: bool)
    requires
        offset + 8 <= memory.len(),
    ensures
        b == signature_at(memory@, offset as int),
{
    let signature: [u8; 8] = [0x52, 0x53, 0x44, 0x20, 0x50, 0x54, 0x52, 0x20];
    assert(signature@ =~= rsdp_signature());
    let mut i: usize = 0;
    while i < 8
        invariant
            i <= 8,
            offset + 8 <= memory.len(),
            signature@ == rsdp_signature(),
            forall|j: int| 0 <= j < i ==> memory@[offset + j] == signature@[j],
        decreases 8 - i,
    {
        if memory[offset + i] != signature[i] {
            assert(memory@.subrange(offset as int, offset + 8)[i as int] != rsdp_signature()[i as int]);
            return false;
        }
        i += 1;
    }
    assert(memory@.subrange(offset as int, offset + 8) =~= rsdp_signature());
    true
}

impl Rsdp {
    /// The first even offset in `memory` at which the signature of a root
    /// pointer stands.
    pub fn locate(memory: &[u8]) -> (found: Option<usize>)
        ensures
            found matches Some(offset) ==> located_at(memory@, offset as int),
            found is None ==> nowhere(memory@),
    {
        let mut offset: usize = 0;
        while offset < memory.len() && memory.len() - offset >= 8
            invariant
                offset % 2 == 0,
                forall|o: int| 0 <= o < offset && o % 2 == 0 ==> !#[trigger] signature_at(memory@, o),
            decreases memory@.len() - offset,
        {
            if has_signature(memory, offset) {
                return Some(offset);
            }
            offset += 2;
        }
        None
    }

    /// What `try_load` gives for the bytes from the signature on.
    pub open spec fn checked(found: Seq<u8>, result: Result<Rsdp, RsdpError>) -> bool {
        if found.len() < RSDP_V1_SIZE {
            result == Err::<Rsdp, RsdpError>(RsdpError::ValidationFailed)
        } else if found[15] == 0 {
            if RsdpV1::valid(found) {
                result matches Ok(Rsdp::V1(v1)) && RsdpV1::holds(found, v1)
            } else {
                result == Err::<Rsdp, RsdpError>(RsdpError::ValidationFailed)
            }
        } else if found.len() >= RSDP_V2_SIZE && RsdpV2::valid(found) {
            result matches Ok(Rsdp::V2(v2)) && RsdpV2::holds(found, v2)
        } else {
            result == Err::<Rsdp, RsdpError>(RsdpError::ValidationFailed)
        }
    }

    /// The root pointer in `memory`: the one at the first even offset at
    /// which its signature stands, if it passes the checks of its version.
    /// A root pointer with revision 0 is of the first version.
    pub fn try_load(memory: &[u8]) -> (result: Result<Rsdp, RsdpError>)
        ensures
            nowhere(memory@) ==> result == Err::<Rsdp, RsdpError>(RsdpError::NotFound),
            forall|offset: int|
                located_at(memory@, offset) ==> Self::checked(
                    memory@.subrange(offset, memory@.len() as int),
                    result,
                ),
    {
        match Rsdp::locate(memory) {
            None => Err(RsdpError::NotFound),
            Some(offset) => {
                assert forall|o: int| located_at(memory@, o) implies o == offset by {
                    if o < offset {
                        assert(signature_at(memory@, o));
                    } else if offset < o {
                        assert(signature_at(memory@, offset as int));
                    }
                }
                let found = slice_subrange(memory, offset, memory.len());
                if found.len() < RSDP_V1_SIZE {
                    return Err(RsdpError::ValidationFailed);
                }
                let v1 = RsdpV1::read(found);
                if v1.revision == 0 {
                    if RsdpV1::validate(found) {
                        return Ok(Rsdp::V1(v1));
                    }
                } else if found.len() >= RSDP_V2_SIZE {
                    if RsdpV2::validate(found) {
                        return Ok(Rsdp::V2(RsdpV2::read(found)));
                    }
                }
                Err(RsdpError::ValidationFailed)
            },
        }
    }
}

/// Why a table could not be had.
#[derive(Debug, Clone, Copy, PartialEq, Eq, Structural)]
pub enum SdtError {
    UnknownType,
    ValidationFailed,
}

/// Size of the header of a table, in bytes.
pub const SDT_HEADER_SIZE: usize = 36;

/// The header that every table starts with: 36 bytes.
#[derive(Debug, Clone, Copy, PartialEq, Eq)]
pub struct AcpiSdtHeader {
    /// Bytes 0 to 3: the kind of table.
    pub signature: [u8; 4],
    /// Bytes 4 to 7: the length of the table, header included.
    pub length: u32,
    /// Byte 8.
    pub revision: u8,
    /// Byte 9: makes the bytes of the table add up to zero.
    pub checksum: u8,
    /// Bytes 10 to 15.
    pub oem_id: [u8; 6],
    /// Bytes 16 to 23.
    pub oem_table_id: [u8; 8],
    /// Bytes 24 to 27.
    pub oem_revision: u32,
    /// Bytes 28 to 31.
    pub creator_id: u32,
    /// Bytes 32 to 35.
    pub creator_revision: u32,
}

/// The signature of the table of interrupt controllers: `APIC`.
pub open spec fn apic_signature() -> Seq<u8> {
    seq![0x41, 0x50, 0x49, 0x43]
}

/// The signature of the root table: `RSDT`.
pub open spec fn root_signature() -> Seq<u8> {
    seq![0x52, 0x53, 0x44, 0x54]
}

/// The text that the bytes hold, if they are text.
///
/// This is `core::str::from_utf8` of the standard library: it gives a string
/// slice with the same bytes where the bytes are well-formed UTF-8, and an
/// error, here `None`, where they are not.
#[verifier::external_body]
fn text_of(bytes: &[u8]) -> (text: Option<&str>)
    ensures
        text is Some <==> valid_utf8(bytes@),
        text matches Some(s) ==> s.spec_bytes() == bytes@,
{
    core::str::from_utf8(bytes).ok()
}

impl AcpiSdtHeader {
    /// True if `this` is what the first 36 bytes hold.
    pub open spec fn holds(bytes: Seq<u8>, this: AcpiSdtHeader) -> bool {
        &&& this.signature@ == bytes.subrange(0, 4)
        &&& this.length == le32(bytes, 4)
        &&& this.revision == bytes[8]
        &&& this.checksum == bytes[9]
        &&& this.oem_id@ == bytes.subrange(10, 16)
        &&& this.oem_table_id@ == bytes.subrange(16, 24)
        &&& this.oem_revision == le32(bytes, 24)
        &&& this.creator_id == le32(bytes, 28)
        &&& this.creator_revision == le32(bytes, 32)
    }

    /// The header that the first 36 bytes hold.
    pub fn read(bytes: &[u8]) -> (this: AcpiSdtHeader)
        requires
            bytes@.len() >= SDT_HEADER_SIZE,
        ensures
            Self::holds(bytes@, this),
    {
        let this = AcpiSdtHeader {
            signature: [bytes[0], bytes[1], bytes[2], bytes[3]],
            length: read_u32(bytes, 4),
            revision: bytes[8],
            checksum: bytes[9],
            oem_id: [bytes[10], bytes[11], bytes[12], bytes[13], bytes[14], bytes[15]],
            oem_table_id: [
                bytes[16],
                bytes[17],
                bytes[18],
                bytes[19],
                bytes[20],
                bytes[21],
                bytes[22],
                bytes[23],
            ],
            oem_revision: read_u32(bytes, 24),
            creator_id: read_u32(bytes, 28),
            creator_revision: read_u32(bytes, 32),
        };
        assert(this.signature@ =~= bytes@.subrange(0, 4));
        assert(this.oem_id@ =~= bytes@.subrange(10, 16));
        assert(this.oem_table_id@ =~= bytes@.subrange(16, 24));
        this
    }

    /// True if `table` holds a whole table that has not been damaged: it has
    /// as many bytes as the table's length says, and those add up to zero.
    pub open spec fn valid(table: Seq<u8>) -> bool {
        &&& table.len() >= SDT_HEADER_SIZE
        &&& le32(table, 4) <= table.len()
        &&& sums_to_zero(table.subrange(0, le32(table, 4)))
    }

    /// True if `table`, the bytes from the header on, holds the whole table
    /// of this header and the table has not been damaged.
    pub fn validate(&self, table: &[u8]) -> (valid: bool)
        requires
            table@.len() >= SDT_HEADER_SIZE,
            Self::holds(table@, *self),
        ensures
            valid == Self::valid(table@),
    {
        let length = self.length as usize;
        if length > table.len() {
            return false;
        }
        checksum(slice_subrange(table, 0, length)) == 0
    }

    /// What `to_full_table` gives for the bytes of a table.
    pub open spec fn parsed(table: Seq<u8>, result: Result<AcpiSdt, SdtError>) -> bool {
        if !Self::valid(table) {
            result == Err::<AcpiSdt, SdtError>(SdtError::ValidationFailed)
        } else if table.subrange(0, 4) == apic_signature() {
            if le32(table, 4) < apic::APIC_SDT_SIZE {
                result == Err::<AcpiSdt, SdtError>(SdtError::ValidationFailed)
            } else {
                result matches Ok(AcpiSdt::Apic(sdt)) && ApicSdt::holds(table, sdt)
            }
        } else if table.subrange(0, 4) == root_signature() {
            if le32(table, 4) < SDT_HEADER_SIZE {
                result == Err::<AcpiSdt, SdtError>(SdtError::ValidationFailed)
            } else {
                result matches Ok(AcpiSdt::Root(sdt)) && AcpiRootSdt::holds(table, sdt)
            }
        } else {
            result == Err::<AcpiSdt, SdtError>(SdtError::UnknownType)
        }
    }

    /// The table that `table` holds, the bytes from the table's header on:
    /// the table of interrupt controllers or the root table, if the table is
    /// whole and has not been damaged.
    pub fn to_full_table(table: &[u8]) -> (result: Result<AcpiSdt, SdtError>)
        ensures
            Self::parsed(table@, result),
    {
        if table.len() < SDT_HEADER_SIZE {
            return Err(SdtError::ValidationFailed);
        }
        let header = AcpiSdtHeader::read(table);
        if !header.validate(table) {
            return Err(SdtError::ValidationFailed);
        }
        let is_apic = header.signature[0] == 0x41 && header.signature[1] == 0x50
            && header.signature[2] == 0x49 && header.signature[3] == 0x43;
        let is_root = header.signature[0] == 0x52 && header.signature[1] == 0x53
            && header.signature[2] == 0x44 && header.signature[3] == 0x54;
        assert(is_apic == (table@.subrange(0, 4) == apic_signature())) by {
            if is_apic {
                assert(table@.subrange(0, 4) =~= apic_signature());
            } else {
                assert(header.signature@[0] == table@.subrange(0, 4)[0]);
                assert(header.signature@[1] == table@.subrange(0, 4)[1]);
                assert(header.signature@[2] == table@.subrange(0, 4)[2]);
                assert(header.signature@[3] == table@.subrange(0, 4)[3]);
            }
        }
        assert(is_root == (table@.subrange(0, 4) == root_signature())) by {
            if is_root {
                assert(table@.subrange(0, 4) =~= root_signature());
            } else {
                assert(header.signature@[0] == table@.subrange(0, 4)[0]);
                assert(header.signature@[1] == table@.subrange(0, 4)[1]);
                assert(header.signature@[2] == table@.subrange(0, 4)[2]);
                assert(header.signature@[3] == table@.subrange(0, 4)[3]);
            }
        }
        if is_apic {
            if (header.length as usize) < apic::APIC_SDT_SIZE {
                return Err(SdtError::ValidationFailed);
            }
            Ok(AcpiSdt::Apic(ApicSdt::read(table)))
        } else if is_root {
            if (header.length as usize) < SDT_HEADER_SIZE {
                return Err(SdtError::ValidationFailed);
            }
            Ok(AcpiSdt::Root(AcpiRootSdt::read(table)))
        } else {
            Err(SdtError::UnknownType)
        }
    }

    /// The signature as text.
    pub fn signature_as_str(&self) -> (text: &str)
        requires
            valid_utf8(self.signature@),
        ensures
            text.spec_bytes() == self.signature@,
    {
        text_of(self.signature.as_slice()).unwrap()
    }
}

/// A table.
#[derive(Debug, Clone, PartialEq, Eq)]
pub enum AcpiSdt {
    Root(AcpiRootSdt),
    Apic(ApicSdt),
}

} // verus!
