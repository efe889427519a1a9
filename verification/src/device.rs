//! Device-context decisions: which queue family carries graphics work and
//! which memory type backs the host-visible vertex buffer.
//!
//! The surrounding executable enumerates queue families and memory types
//! through the graphics API and passes their capability bits here as plain
//! integers; the selection rules themselves are verified.

use vstd::prelude::*;

verus! {

/// Bit that marks a queue family as graphics-capable.
pub const QUEUE_GRAPHICS_BIT: u32 = 0x1;

/// Largest number of memory types a device may report.
pub const MAX_MEMORY_TYPES: usize = 32;

/// True when the queue family with capability bits `flags` can run graphics
/// commands.
pub open spec fn supports_graphics(flags: u32) -> bool {
    flags & QUEUE_GRAPHICS_BIT != 0
}

/// Picks the first queue family whose capability bits include graphics,
/// as the startup sequence requires; `None` means the device is unusable.
pub fn select_queue_family(queue_flags: &Vec<u32>) -> (r: Option<usize>)
    ensures
        match r {
            Some(i) => i < queue_flags@.len() && supports_graphics(queue_flags@[i as int])
                && (forall|j: int| 0 <= j < i ==> !supports_graphics(queue_flags@[j])),
            None => forall|j: int|
                0 <= j < queue_flags@.len() ==> !supports_graphics(queue_flags@[j]),
        },
{
    let mut i: usize = 0;
    while i < queue_flags.len()
        invariant
            i <= queue_flags@.len(),
            forall|j: int| 0 <= j < i ==> !supports_graphics(queue_flags@[j]),
        decreases queue_flags@.len() - i,
    {
        if queue_flags[i] & QUEUE_GRAPHICS_BIT != 0 {
            return Some(i);
        }
        i = i + 1;
    }
    None
}

/// True when memory type `i` is admissible: the buffer's requirement mask
/// allows it and its property bits include everything `required` asks for.
pub open spec fn memory_type_suits(
    type_filter: u32,
    property_flags: Seq<u32>,
    required: u32,
    i: int,
) -> bool {
    type_filter & (1u32 << i) != 0 && property_flags[i] & required == required
}

/// Picks the first memory type that the buffer's requirement mask
/// `type_filter` allows and whose property bits include `required`.
/// `property_flags` holds the property bits of each memory type the device
/// reports, in order; `None` means no suitable type exists.
pub fn find_memory_type(type_filter: u32, property_flags: &Vec<u32>, required: u32) -> (r: Option<
    usize,
>)
    requires
        property_flags@.len() <= MAX_MEMORY_TYPES,
    ensures
        match r {
            Some(i) => i < property_flags@.len() && memory_type_suits(
                type_filter,
                property_flags@,
                required,
                i as int,
            ) && (forall|j: int|
                0 <= j < i ==> !memory_type_suits(type_filter, property_flags@, required, j)),
            None => forall|j: int|
                0 <= j < property_flags@.len() ==> !memory_type_suits(
                    type_filter,
                    property_flags@,
                    required,
                    j,
                ),
        },
{
    let mut i: usize = 0;
    while i < property_flags.len()
        invariant
            i <= property_flags@.len(),
            property_flags@.len() <= MAX_MEMORY_TYPES,
            forall|j: int|
                0 <= j < i ==> !memory_type_suits(type_filter, property_flags@, required, j),
        decreases property_flags@.len() - i,
    {
        if type_filter & (1u32 << i) != 0 && property_flags[i] & required == required {
            return Some(i);
        }
        i = i + 1;
    }
    None
}

} // verus!
