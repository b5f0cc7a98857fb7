//! Typed context-creation options and their flattening into the
//! null-terminated property array the native context call takes.

use vstd::prelude::*;

verus! {

/// One typed context-creation option. Each variant carries one scalar,
/// convertible to a pointer-width signed integer: a platform under its
/// pointer-sized handle, the interop-sync and terminate flags as the native
/// 32-bit booleans, the display handles as pointer-width integers, and the
/// memory-initialize flags as the native 64-bit bitfield.
#[derive(Clone, Copy, Debug, PartialEq, Eq, Structural)]
pub enum ContextProperties {
    ClContextPlatform(usize),
    ClContextInteropUserSync(u32),
    ClGlContextKhr(isize),
    ClEglDisplayKhr(isize),
    ClGlxDisplayKhr(isize),
    ClContextMemoryInitializeKhr(u64),
    ClContextTerminateKhr(u32),
}

/// The pointer-width signed integer a property contributes to the native
/// property array: its scalar payload, converted.
pub open spec fn spec_property_value(p: ContextProperties) -> isize {
    match p {
        ContextProperties::ClContextPlatform(y) => y as isize,
        ContextProperties::ClContextInteropUserSync(y) => y as isize,
        ContextProperties::ClGlContextKhr(y) => y,
        ContextProperties::ClEglDisplayKhr(y) => y,
        ContextProperties::ClGlxDisplayKhr(y) => y,
        ContextProperties::ClContextMemoryInitializeKhr(y) => y as isize,
        ContextProperties::ClContextTerminateKhr(y) => y as isize,
    }
}

/// The native property array: every property's payload in order, then the
/// zero sentinel that marks the end of the list.
pub open spec fn spec_property_array(props: Seq<ContextProperties>) -> Seq<isize> {
    props.map_values(|p: ContextProperties| spec_property_value(p)).push(0isize)
}

/// Flattens the typed options into the null-terminated native property
/// array: each payload in order, then the zero terminator.
pub fn context_properties_to_array(props: &Vec<ContextProperties>) -> (r: Vec<isize>)
    ensures
        r@ == spec_property_array(props@),
{
    let ghost value_of = |p: ContextProperties| spec_property_value(p);
    let mut r: Vec<isize> = Vec::new();
    let mut i: usize = 0;
    while i < props.len()
        invariant
            0 <= i <= props@.len(),
            r@ == props@.subrange(0, i as int).map_values(value_of),
            value_of == (|p: ContextProperties| spec_property_value(p)),
        decreases props@.len() - i,
    {
        let v: isize = match props[i] {
            ContextProperties::ClContextPlatform(y) => y as isize,
            ContextProperties::ClContextInteropUserSync(y) => y as isize,
            ContextProperties::ClGlContextKhr(y) => y,
            ContextProperties::ClEglDisplayKhr(y) => y,
            ContextProperties::ClGlxDisplayKhr(y) => y,
            ContextProperties::ClContextMemoryInitializeKhr(y) => y as isize,
            ContextProperties::ClContextTerminateKhr(y) => y as isize,
        };
        r.push(v);
        proof {
            assert(props@.subrange(0, i as int + 1).map_values(value_of) =~= props@.subrange(
                0,
                i as int,
            ).map_values(value_of).push(spec_property_value(props@[i as int])));
        }
        i = i + 1;
    }
    r.push(0);
    proof {
        assert(props@.subrange(0, props@.len() as int) =~= props@);
    }
    r
}

} // verus!
