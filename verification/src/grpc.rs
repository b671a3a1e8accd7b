//! gRPC support: not there yet.
use vstd::prelude::*;

verus! {

/// The text that stands for the gRPC layer until there is one.
pub fn placeholder() -> (r: &'static str)
    ensures
        r@ == "gewe-grpc placeholder"@,
{
    "gewe-grpc placeholder"
}

} // verus!
