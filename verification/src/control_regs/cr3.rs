//! Control register 3: the address of the root page table.

use vstd::prelude::*;

verus! {

/// The bits of the register that hold the table's address: all but the lowest 12.
pub const P4_TABLE_MASK: u64 = 0xffff_ffff_ffff_f000;

/// The address of the root page table in `register`, the value read from
/// the register.
pub fn p4_table_address(register: u64) -> (table: u64)
    ensures
        table == register & P4_TABLE_MASK,
        table == register - register % 4096,
{
    assert(register & P4_TABLE_MASK == register - register % 4096) by (bit_vector);
    register & P4_TABLE_MASK
}

/// The value to write to the register to make `table` the root page table:
/// `table`, with the lowest 12 bits of `register`, the value that the
/// register holds.
pub fn set_p4_table_address(table: u64, register: u64) -> (value: u64)
    requires
        table % 4096 == 0,
    ensures
        value == table | (register & !P4_TABLE_MASK),
        value == table + register % 4096,
{
    assert(table | (register & !P4_TABLE_MASK) == table + register % 4096) by (bit_vector)
        requires
            table % 4096 == 0,
    ;
    table | (register & !P4_TABLE_MASK)
}

/// True if `table` can be the address of a root page table: it is a multiple
/// of the page size.
pub fn is_table_address(table: u64) -> (b: bool)
    ensures
        b == (table % 4096 == 0),
{
    assert((table & !P4_TABLE_MASK == 0) == (table % 4096 == 0)) by (bit_vector);
    table & !P4_TABLE_MASK == 0
}

} // verus!
