//! Control register 8: the task priority level.

use vstd::prelude::*;

verus! {

/// The bits of the register that hold the level.
pub const TASK_PRIORITY_LEVEL_MASK: u64 = 0xf;

/// The task priority level in `register`, the value read from the register.
pub fn get_task_priority_level(register: u64) -> (level: u8)
    ensures
        level == register % 16,
{
    assert(register & TASK_PRIORITY_LEVEL_MASK == register % 16) by (bit_vector);
    (register & TASK_PRIORITY_LEVEL_MASK) as u8
}

/// The value to write to the register to set the task priority level to
/// `tpl`: `tpl`, with the other bits of `register`, the value that the
/// register holds.
pub fn set_task_priority_level(tpl: u64, register: u64) -> (value: u64)
    requires
        tpl <= TASK_PRIORITY_LEVEL_MASK,
    ensures
        value == tpl | (register & !TASK_PRIORITY_LEVEL_MASK),
        value == register - register % 16 + tpl,
{
    assert(tpl | (register & !TASK_PRIORITY_LEVEL_MASK) == register - register % 16 + tpl)
        by (bit_vector)
        requires
            tpl <= TASK_PRIORITY_LEVEL_MASK,
    ;
    tpl | (register & !TASK_PRIORITY_LEVEL_MASK)
}

} // verus!
