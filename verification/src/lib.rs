//! Synchronisation engine for shared media albums.
//!
//! The engine compares two album listings by content checksum, plans the
//! transfer of what the destination lacks, and drives each transfer through
//! download, staging, upload and attachment with a bounded number of
//! transfers in flight.  Everything here is pure: the network and the file
//! system are driven by the caller, which performs the actions that the
//! engine hands out and reports back what happened.

pub mod answer;
pub mod asset;
pub mod error;
pub mod filename;
pub mod link;
pub mod peers;
pub mod pipeline;
pub mod status;
pub mod sync;
pub mod text;
pub mod transfer;
