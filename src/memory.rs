//! Choice of a device memory type for an imported buffer.
use vstd::prelude::*;

verus! {

/// The property bit of memory types that are local to the device.
pub const MEMORY_PROPERTY_DEVICE_LOCAL: u32 = 1;

/// A device has at most this many memory types.
pub const MAX_MEMORY_TYPES: usize = 32;

/// Whether memory type `i`, with property bits `flags`, is allowed by the
/// bit mask `type_filter` and has every bit of `properties`.
pub open spec fn accepts(type_filter: u32, flags: u32, properties: u32, i: u32) -> bool {
    type_filter & (1u32 << i) != 0 && flags & properties == properties
}

/// The first memory type that `accepts` takes, if any.
pub open spec fn is_first_match(
    type_filter: u32,
    type_flags: Seq<u32>,
    properties: u32,
    r: Option<u32>,
) -> bool {
    match r {
        Some(i) => {
            &&& i < type_flags.len()
            &&& accepts(type_filter, type_flags[i as int], properties, i)
            &&& forall|j: u32| j < i ==> !accepts(type_filter, #[trigger] type_flags[j as int], properties, j)
        },
        None => forall|j: u32| j < type_flags.len() ==> !accepts(type_filter, #[trigger] type_flags[j as int], properties, j),
    }
}

/// The index of the first memory type that `type_filter` allows and that
/// has all of `properties`, among types whose property bits are `type_flags`.
pub fn find_memory_type(type_filter: u32, type_flags: &[u32], properties: u32) -> (r: Option<u32>)
    requires
        type_flags@.len() <= MAX_MEMORY_TYPES,
    ensures
        is_first_match(type_filter, type_flags@, properties, r),
{
    let n: u32 = type_flags.len() as u32;
    let mut i: u32 = 0;
    while i < n
        invariant
            n == type_flags@.len(),
            n <= 32,
            i <= n,
            forall|j: u32| j < i ==> !accepts(type_filter, #[trigger] type_flags@[j as int], properties, j),
        decreases n - i,
    {
        if type_filter & (1u32 << i) != 0 && type_flags[i as usize] & properties == properties {
            return Some(i);
        }
        i = i + 1;
    }
    None
}

/// The memory type to bind an imported image to: the first allowed one that
/// is local to the device, else the first allowed one.
pub fn select_memory_type(type_filter: u32, type_flags: &[u32]) -> (r: Option<u32>)
    requires
        type_flags@.len() <= MAX_MEMORY_TYPES,
    ensures
        r is Some ==> r.unwrap() < type_flags@.len(),
        is_first_match(type_filter, type_flags@, MEMORY_PROPERTY_DEVICE_LOCAL, r)
            || (is_first_match(type_filter, type_flags@, MEMORY_PROPERTY_DEVICE_LOCAL, None)
            && is_first_match(type_filter, type_flags@, 0, r)),
{
    match find_memory_type(type_filter, type_flags, MEMORY_PROPERTY_DEVICE_LOCAL) {
        Some(i) => Some(i),
        None => find_memory_type(type_filter, type_flags, 0),
    }
}

} // verus!
