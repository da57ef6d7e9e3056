use vstd::prelude::*;

use crate::error::Error;
use crate::status::{Status, StatusCode};

verus! {

/// A transient bundle of a status and a value that exists only when the status
/// is a success. It is converted exactly once, by `into_result`.
pub trait IntoResult<T>: Sized {
    /// The status this carrier holds.
    spec fn carried_status(&self) -> Status;

    /// Reads the status without consuming the carrier.
    fn status(&self) -> (r: &Status)
        ensures
            *r == self.carried_status(),
    ;

    /// Moves the produced value out. The value slot is only initialised when the
    /// status is a success, so it may be read then and only then.
    fn get_value(&mut self) -> T
        requires
            old(self).carried_status().code == StatusCode::Success,
    ;

    /// Success gives the value; failure gives the status as an error, and the
    /// value slot is never touched.
    fn into_result(self) -> (r: Result<T, Error>)
        ensures
            r is Ok <==> self.carried_status().code == StatusCode::Success,
            r matches Err(e) ==> e.is_projection_of(self.carried_status()),
    {
        let mut carrier = self;
        if carrier.status().ok() {
            Ok(carrier.get_value())
        } else {
            Err(Error::from(carrier.status()))
        }
    }
}

/// A bare status carries nothing besides itself.
impl IntoResult<()> for Status {
    open spec fn carried_status(&self) -> Status {
        *self
    }

    fn status(&self) -> (r: &Status) {
        self
    }

    fn get_value(&mut self) {
    }
}

} // verus!
