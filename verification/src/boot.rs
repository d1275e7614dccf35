//! What the boot information says about the kernel image: where its sections
//! lie, and from that where the image starts and ends.

use vstd::prelude::*;

verus! {

/// A section of the kernel image in memory.
#[derive(Debug, Clone, Copy, PartialEq, Eq, Structural)]
pub struct Section {
    pub addr: u64,
    pub size: u64,
}

impl Section {
    /// The address behind the last byte of the section.
    pub open spec fn end(&self) -> int {
        self.addr + self.size
    }
}

/// The start and the end of an image, in bytes.
#[derive(Debug, Clone, Copy, PartialEq, Eq, Structural)]
pub struct Bounds {
    pub start: u64,
    pub end: u64,
}

/// True if `bounds` are the bounds of the image made of `sections`: the
/// lowest address of a section, and the highest end of one.
pub open spec fn bounds_of(sections: Seq<Section>, bounds: Bounds) -> bool {
    &&& exists|i: int| 0 <= i < sections.len() && (#[trigger] sections[i]).addr == bounds.start
    &&& exists|i: int| 0 <= i < sections.len() && (#[trigger] sections[i]).end() == bounds.end
    &&& forall|i: int|
        0 <= i < sections.len() ==> bounds.start <= (#[trigger] sections[i]).addr
            && sections[i].end() <= bounds.end
}

/// Where the image made of `sections` starts and ends; `None` for an image
/// without sections.
pub fn kernel_bounds(sections: &[Section]) -> (bounds: Option<Bounds>)
    requires
        forall|i: int| 0 <= i < sections@.len() ==> (#[trigger] sections@[i]).end() <= u64::MAX,
    ensures
        bounds is None <==> sections@.len() == 0,
        bounds matches Some(b) ==> bounds_of(sections@, b),
{
    if sections.len() == 0 {
        return None;
    }
    let mut start = sections[0].addr;
    let mut end = sections[0].addr + sections[0].size;
    let mut i: usize = 1;
    assert(sections@.take(1)[0] == sections@[0]);
    while i < sections.len()
        invariant
            1 <= i <= sections.len(),
            forall|j: int| 0 <= j < sections@.len() ==> (#[trigger] sections@[j]).end() <= u64::MAX,
            bounds_of(sections@.take(i as int), Bounds { start, end }),
        decreases sections.len() - i,
    {
        let ghost before = Bounds { start, end };
        let ghost lowest = choose|k: int|
            0 <= k < i && (#[trigger] sections@.take(i as int)[k]).addr == start;
        let ghost highest = choose|k: int|
            0 <= k < i && (#[trigger] sections@.take(i as int)[k]).end() == end;
        let section = sections[i];
        if section.addr < start {
            start = section.addr;
        }
        if section.addr + section.size > end {
            end = section.addr + section.size;
        }
        i += 1;
        proof {
            let taken = sections@.take(i as int);
            assert(taken[i - 1] == section);
            assert(taken[lowest] == sections@.take(i - 1)[lowest]);
            assert(taken[highest] == sections@.take(i - 1)[highest]);
            assert forall|j: int| 0 <= j < taken.len() implies start <= (#[trigger] taken[j]).addr
                && taken[j].end() <= end by {
                if j < i - 1 {
                    assert(taken[j] == sections@.take(i - 1)[j]);
                }
            }
        }
    }
    assert(sections@.take(i as int) =~= sections@);
    Some(Bounds { start, end })
}

/// The size of the image in KiB, rounded down.
pub fn size_in_kib(bounds: &Bounds) -> (size: u64)
    requires
        bounds.start <= bounds.end,
    ensures
        size == (bounds.end - bounds.start) / 1024,
{
    (bounds.end - bounds.start) / 1024
}

} // verus!
