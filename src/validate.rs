use vstd::prelude::*;

verus! {

/// Instruction input that can be checked before any state is read.
pub trait Validate {
    type Error;

    /// The input is acceptable.
    spec fn spec_valid(&self) -> bool;

    /// The error that invalid input is refused with.
    spec fn spec_error(&self) -> Self::Error;

    fn validate(&self) -> (r: Result<(), Self::Error>)
        ensures
            r is Ok <==> self.spec_valid(),
            r is Err ==> r == Err::<(), Self::Error>(self.spec_error()),
    ;
}

} // verus!
