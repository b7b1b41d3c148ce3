use vstd::prelude::*;
use vstd::string::StringExecFns;

verus! {

/// Appends the greeting tail `, how do you do?` to `s` in place.
pub fn append_world(s: &mut String)
    ensures
        final(s)@ == old(s)@ + ", how do you do?"@,
{
    s.append(", how do you do?");
}

/// A string that lives for the whole program.
pub fn static_ref() -> (r: &'static str)
    ensures
        r@ == "hello!"@,
{
    "hello!"
}

} // verus!
