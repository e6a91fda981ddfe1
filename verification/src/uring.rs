//! Block devices backed by a file that the runtime reads and writes through
//! io_uring.

use crate::device::{spec_nul_free, DeviceHandle};
use vstd::prelude::*;

verus! {

/// Why a block device could not be made.
#[derive(Debug, PartialEq, Eq)]
pub enum SpdkError {
    /// The runtime made no uring device of this name.
    UringCreateFailed { name: String },
}

/// A block device of the runtime.
#[derive(Debug, PartialEq, Eq)]
pub struct Bdev {
    handle: DeviceHandle,
}

impl Bdev {
    /// The runtime's reference to the device.
    pub closed spec fn spec_handle(&self) -> DeviceHandle {
        self.handle
    }

    pub fn handle(&self) -> (handle: DeviceHandle)
        ensures
            handle == self.spec_handle(),
    {
        self.handle
    }

    /// The device that the create call for `name` returned, or the error
    /// where it returned none. The call has been made, so the name is one
    /// that the runtime can take.
    pub fn create_uring_bdev(name: &str, created: Option<DeviceHandle>) -> (bdev: Result<
        Bdev,
        SpdkError,
    >)
        requires
            spec_nul_free(name@),
        ensures
            match created {
                Some(handle) => bdev matches Ok(b) && b.spec_handle() == handle,
                None => bdev matches Err(SpdkError::UringCreateFailed { name: failed }) && failed@
                    == name@,
            },
    {
        match created {
            Some(handle) => Ok(Bdev { handle }),
            None => Err(SpdkError::UringCreateFailed { name: name.to_owned() }),
        }
    }
}

} // verus!
