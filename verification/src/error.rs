//! The common error type: a firmware status code plus optional
//! caller-chosen payload data.

use vstd::prelude::*;

verus! {

/// Status code returned by firmware interfaces.
#[derive(Clone, Copy, Debug, PartialEq, Eq, Structural)]
pub struct Status(pub usize);

impl Status {
    /// Raw value of the status that reports success.
    pub const SUCCESS: usize = 0;
}

/// Errors emitted from an entry point must propagate erroneous statuses,
/// and may optionally propagate additional entry-point-specific data.
#[derive(Debug, PartialEq, Eq)]
pub struct Error<Data> {
    status: Status,
    data: Data,
}

impl<Data> Error<Data> {
    /// The status this error carries.
    pub closed spec fn spec_status(&self) -> Status {
        self.status
    }

    /// The payload data this error carries.
    pub closed spec fn spec_data(&self) -> Data {
        self.data
    }

    /// Create an `Error`.
    pub fn new(status: Status, data: Data) -> (r: Self)
        ensures
            r.spec_status() == status,
            r.spec_data() == data,
    {
        Self { status, data }
    }

    /// Get the error `Status`.
    pub fn status(&self) -> (r: Status)
        ensures
            r == self.spec_status(),
    {
        self.status
    }

    /// Get the error data.
    pub fn data(&self) -> (r: &Data)
        ensures
            *r == self.spec_data(),
    {
        &self.data
    }

    /// Split this error into its inner status and error data.
    pub fn split(self) -> (r: (Status, Data))
        ensures
            r.0 == self.spec_status(),
            r.1 == self.spec_data(),
    {
        (self.status, self.data)
    }
}

} // verus!
