use vstd::prelude::*;

verus! {

/// `std::time::Instant` is carried through events as an opaque timestamp;
/// nothing in this crate reads it.
#[verifier::external_type_specification]
#[verifier::external_body]
pub struct ExInstant(std::time::Instant);

} // verus!
