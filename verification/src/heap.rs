//! Bounded heap growth policy.
//!
//! The kernel heap starts at a fixed address with a capacity chosen at build
//! time from a small enumerated set. It may grow while its capacity is still
//! below the machine's total physical RAM; each growth step adds one tenth of
//! total physical RAM, rounded toward zero. Growing a heap that has already
//! reached the physical ceiling is a fatal condition: the allocator cannot
//! safely back any larger allocation, so the caller aborts. The unsafe
//! extension of the real allocator happens at the edge; this module owns the
//! growth rule itself.

use vstd::prelude::*;

verus! {

pub const KB: u64 = 1024;

pub const MB: u64 = KB * 1024;

pub const GB: u64 = MB * 1024;

/// Fixed base address of the kernel heap region.
pub const HEAP_START: u64 = 0x4444_4444_0000;

/// Ceiling on byte counts this model admits; any physical memory size a
/// machine can report fits well below it, and it keeps every growth step
/// free of overflow.
pub const MAX_BYTES: u64 = 0x4000_0000_0000_0000;

/// The build-time choice of initial heap capacity.
#[derive(Clone, Copy, Debug, PartialEq, Eq, Structural)]
pub enum HeapSize {
    Mb2,
    Mb16,
    Mb32,
    Mb128,
}

/// Bytes of the chosen initial capacity.
pub open spec fn spec_initial_capacity(size: HeapSize) -> int {
    match size {
        HeapSize::Mb2 => 2 * MB,
        HeapSize::Mb16 => 16 * MB,
        HeapSize::Mb32 => 32 * MB,
        HeapSize::Mb128 => 128 * MB,
    }
}

pub fn initial_capacity(size: HeapSize) -> (bytes: u64)
    ensures
        bytes == spec_initial_capacity(size),
{
    match size {
        HeapSize::Mb2 => 2 * MB,
        HeapSize::Mb16 => 16 * MB,
        HeapSize::Mb32 => 32 * MB,
        HeapSize::Mb128 => 128 * MB,
    }
}

/// The allocator's growth state: its current total capacity and the total
/// physical RAM of the machine, both in bytes.
#[derive(Clone, Copy, Debug, PartialEq, Eq, Structural)]
pub struct Heap {
    pub capacity: u64,
    pub total_ram: u64,
}

/// Reported when the heap has already reached the physical ceiling; the
/// kernel treats it as unrecoverable and aborts.
#[derive(Clone, Copy, Debug, PartialEq, Eq, Structural)]
pub enum HeapError {
    AtPhysicalCeiling,
}

/// Bytes added by one growth step: a tenth of total physical RAM, rounded
/// toward zero.
pub open spec fn spec_growth_step(total_ram: u64) -> int {
    total_ram as int / 10
}

impl Heap {
    /// Byte counts a real machine can hold; keeps growth free of overflow.
    pub open spec fn wf(&self) -> bool {
        self.capacity <= MAX_BYTES && self.total_ram <= MAX_BYTES
    }

    /// A heap of the build-time initial capacity on a machine with
    /// `total_ram` bytes of physical memory.
    pub fn new(size: HeapSize, total_ram: u64) -> (heap: Heap)
        requires
            total_ram <= MAX_BYTES,
        ensures
            heap.wf(),
            heap.capacity == spec_initial_capacity(size),
            heap.total_ram == total_ram,
    {
        Heap { capacity: initial_capacity(size), total_ram }
    }
}

/// Extend the heap by one growth step. The caller must have checked that the
/// capacity is still below total physical RAM; a heap already at that
/// ceiling is a fatal condition the kernel aborts on, so that input is
/// excluded here — `try_grow_heap` folds the check in and reports it.
pub fn grow_heap(heap: &mut Heap)
    requires
        old(heap).wf(),
        old(heap).capacity < old(heap).total_ram,
    ensures
        final(heap).capacity == old(heap).capacity + spec_growth_step(old(heap).total_ram),
        final(heap).total_ram == old(heap).total_ram,
{
    heap.capacity = heap.capacity + heap.total_ram / 10;
}

/// Growth with the ceiling check folded in: grows exactly when capacity is
/// still below total physical RAM, and otherwise reports the fatal condition
/// leaving the heap untouched.
pub fn try_grow_heap(heap: &mut Heap) -> (r: Result<(), HeapError>)
    requires
        old(heap).wf(),
    ensures
        old(heap).capacity < old(heap).total_ram ==> r is Ok && final(heap).capacity == old(
            heap,
        ).capacity + spec_growth_step(old(heap).total_ram),
        old(heap).capacity >= old(heap).total_ram ==> r == Result::<(), HeapError>::Err(
            HeapError::AtPhysicalCeiling,
        ) && *final(heap) == *old(heap),
        final(heap).total_ram == old(heap).total_ram,
{
    if heap.capacity < heap.total_ram {
        grow_heap(heap);
        Ok(())
    } else {
        Err(HeapError::AtPhysicalCeiling)
    }
}

} // verus!
