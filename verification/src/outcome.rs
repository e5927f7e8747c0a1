//! Conversion of buffer-level outcomes into the crate-level error type.

use crate::nominalstring::OutOfMemoryError;
use crate::Error;
use vstd::prelude::*;

verus! {

/// Converts a result from an [`OutOfMemoryError`] to an [`Error`] carrying
/// the nominal that was being formatted.
pub trait WithNominal<R>: Sized {
    /// True when `self` is the failed outcome.
    spec fn spec_err(self) -> bool;

    /// The value `self` holds when it is the successful outcome.
    spec fn spec_value(self) -> R;

    /// Returns the result with an updated error containing `nominal`.
    ///
    /// # Errors
    ///
    /// Returns [`Error::OutOfMemory`] holding `nominal` if `self` is the
    /// failed outcome.
    fn with_nominal<N>(self, nominal: N) -> (r: Result<R, Error<N>>)
        ensures
            self.spec_err() ==> (r matches Err(e) && e == Error::<N>::OutOfMemory(nominal)),
            !self.spec_err() ==> (r matches Ok(v) && v == self.spec_value()),
    ;
}

impl<R> WithNominal<R> for Result<R, OutOfMemoryError> {
    open spec fn spec_err(self) -> bool {
        self is Err
    }

    open spec fn spec_value(self) -> R {
        self->Ok_0
    }

    fn with_nominal<N>(self, nominal: N) -> (r: Result<R, Error<N>>) {
        match self {
            Ok(v) => Ok(v),
            Err(_) => Err(Error::OutOfMemory(nominal)),
        }
    }
}

} // verus!
