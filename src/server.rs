use vstd::prelude::*;

verus! {

/// The body that the root route answers with.
pub fn root_body() -> (r: String)
    ensures
        r@ == "hello world"@,
{
    "hello world".to_owned()
}

} // verus!
