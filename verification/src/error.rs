//! The errors a device operation can end in.

use vstd::prelude::*;

verus! {

/// Why a device could not be described, created or destroyed.
///
/// The first four are found while a descriptor is read, `AlreadyExists` and
/// `NotFound` when the runtime's registry is consulted; neither kind has
/// caused a construct or destroy call. The status errors repeat a code that
/// the runtime reported, and `BridgeAbandoned` says that it never reported.
#[derive(Debug, PartialEq, Eq)]
pub enum BdevError {
    /// The descriptor is no URI, or its path names no device.
    UriInvalid { uri: String, message: String },
    /// A required query parameter is absent.
    MissingParameter { name: String },
    /// A query parameter is present but its value cannot be read.
    InvalidParameter { name: String, value: String },
    /// A query parameter that the device kind does not know.
    UnknownParameter { name: String },
    /// A device of this name is already registered.
    AlreadyExists { name: String },
    /// No device of this name is registered.
    NotFound { name: String },
    /// The construct call completed with a status other than zero.
    ConstructionFailed { status: i32 },
    /// The destroy call was turned down as it was issued.
    DestructionRejected { status: i32 },
    /// The destroy call was accepted and later completed with a failure.
    DestructionFailed { status: i32 },
    /// The completion was never delivered.
    BridgeAbandoned,
}

/// `BdevError` with its strings as sequences of characters.
pub enum BdevErrorView {
    UriInvalid { uri: Seq<char>, message: Seq<char> },
    MissingParameter { name: Seq<char> },
    InvalidParameter { name: Seq<char>, value: Seq<char> },
    UnknownParameter { name: Seq<char> },
    AlreadyExists { name: Seq<char> },
    NotFound { name: Seq<char> },
    ConstructionFailed { status: i32 },
    DestructionRejected { status: i32 },
    DestructionFailed { status: i32 },
    BridgeAbandoned,
}

impl View for BdevError {
    type V = BdevErrorView;

    open spec fn view(&self) -> BdevErrorView {
        match self {
            BdevError::UriInvalid { uri, message } => BdevErrorView::UriInvalid {
                uri: uri@,
                message: message@,
            },
            BdevError::MissingParameter { name } => BdevErrorView::MissingParameter { name: name@ },
            BdevError::InvalidParameter { name, value } => BdevErrorView::InvalidParameter {
                name: name@,
                value: value@,
            },
            BdevError::UnknownParameter { name } => BdevErrorView::UnknownParameter { name: name@ },
            BdevError::AlreadyExists { name } => BdevErrorView::AlreadyExists { name: name@ },
            BdevError::NotFound { name } => BdevErrorView::NotFound { name: name@ },
            BdevError::ConstructionFailed { status } => BdevErrorView::ConstructionFailed {
                status: *status,
            },
            BdevError::DestructionRejected { status } => BdevErrorView::DestructionRejected {
                status: *status,
            },
            BdevError::DestructionFailed { status } => BdevErrorView::DestructionFailed {
                status: *status,
            },
            BdevError::BridgeAbandoned => BdevErrorView::BridgeAbandoned,
        }
    }
}

} // verus!
