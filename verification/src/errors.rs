use vstd::prelude::*;

verus! {

/// The ways a host primitive can refuse a guest's request.
#[derive(Clone, Copy, Debug, PartialEq, Eq)]
pub enum HostError {
    /// A buffer primitive addressed bytes outside the guest memory's
    /// current size or outside the transfer buffer's current contents.
    OutOfBounds,
    /// Bytes that were expected to be UTF-8 text were not.
    InvalidEncoding,
    /// The format primitive was invoked before an active file path was set.
    MissingPrecondition,
}

impl HostError {
    /// A short description, for surfacing the failure to a caller.
    pub fn message(&self) -> (r: &'static str)
        ensures
            self is OutOfBounds ==> r@ == "out of bounds"@,
            self is InvalidEncoding ==> r@ == "invalid encoding"@,
            self is MissingPrecondition ==> r@ == "missing precondition"@,
    {
        match self {
            HostError::OutOfBounds => "out of bounds",
            HostError::InvalidEncoding => "invalid encoding",
            HostError::MissingPrecondition => "missing precondition",
        }
    }
}

} // verus!
