use vstd::prelude::*;

verus! {

/// Returns a string that lives as long as the caller wants, whatever the
/// input: the borrow of `input` and that of the result are unrelated.
pub fn life<'a, 'b>(input: &'a str) -> (r: &'b str)
    ensures
        r@ == "world"@,
{
    "world"
}

} // verus!
