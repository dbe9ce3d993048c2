//! The computations that the demonstration program declares and leaves
//! unimplemented. No computation is supplied, so neither may be called: each
//! requires that one be supplied, which never holds.
use futures::future::Ready;
use vstd::prelude::*;

verus! {

#[verifier::external_type_specification]
#[verifier::external_body]
#[verifier::reject_recursive_types(T)]
pub struct ExReady<T>(Ready<T>);

/// Whether the demonstration program supplies its computations. It does not:
/// they are declared and left unimplemented.
pub open spec fn computation_supplied() -> bool {
    false
}

/// A computation with no output; left unimplemented, so it may not be called.
pub fn computation() -> Ready<()>
    requires
        computation_supplied(),
{
    vstd::pervasive::unreached()
}

/// A computation that can fail with a message; left unimplemented, so it may
/// not be called.
pub fn computation_res() -> Ready<Result<(), String>>
    requires
        computation_supplied(),
{
    vstd::pervasive::unreached()
}

} // verus!
