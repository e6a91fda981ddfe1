//! Control-plane logic for virtual block devices that live in a polled,
//! natively implemented storage runtime.
//!
//! Everything here is pure: the runtime itself is never called. The caller
//! performs each native operation and reports what came back; the library
//! decides what to do next and which error, if any, the operation ends in.
//!
//! - `uri`, `decimal` and `ocf` read a device descriptor into a validated
//!   description of an OCF device.
//! - `lifecycle` takes the creation and the destruction of such a device
//!   step by step, and `registry` says what follows for two operations on
//!   one name.
//! - `bridge` is the one-shot cell between a completion callback and the
//!   caller that waits for it.
//! - `placement` assigns cores in turn, `vhostblk` describes, makes and tears
//!   down vhost-blk controllers, `uring` and `device` hold what is left of a
//!   device once it is constructed.
//! - `json` is the JSON-RPC proxy's share.

pub mod bridge;
pub mod decimal;
pub mod device;
pub mod error;
pub mod json;
pub mod lifecycle;
pub mod ocf;
pub mod placement;
pub mod registry;
pub mod uri;
pub mod uring;
pub mod vhostblk;
