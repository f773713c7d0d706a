use vstd::prelude::*;

verus! {

/// Closes a public trait to impls outside this crate: the trait is public,
/// the module that holds it is not.
pub trait Sealed {}

} // verus!
