//! Registration of the cancellation classes on a global object.
use vstd::prelude::*;

verus! {

/// Registers the classes `AbortController` and `AbortSignal` on `global`, the
/// list of class names that the global object exposes, in that order.
pub fn define(global: &mut Vec<String>) -> (r: bool)
    ensures
        r,
        final(global)@.len() == old(global)@.len() + 2,
        final(global)@.subrange(0, old(global)@.len() as int) == old(global)@,
        final(global)@[old(global)@.len() as int]@ == "AbortController"@,
        final(global)@[old(global)@.len() + 1int]@ == "AbortSignal"@,
{
    global.push(String::from_str("AbortController"));
    global.push(String::from_str("AbortSignal"));
    proof {
        assert(global@.subrange(0, old(global)@.len() as int) =~= old(global)@);
    }
    true
}

} // verus!
