//! Verified core of a photo-ingest pipeline for PTP cameras.
//!
//! The library holds the decision logic of the pipeline: filtering
//! non-file objects, parsing capture timestamps, resolving a
//! date-bucketed destination path with collision probing, planning and
//! reassembling chunked transfers, and classifying errors for
//! containment.  Device discovery, the USB protocol calls and the
//! filesystem writes are collaborators that a thin unverified shell
//! drives, feeding their observations to the functions here.

pub mod date;
pub mod numerals;
pub mod object;
pub mod orchestrate;
pub mod paths;
pub mod resolve;
pub mod transfer;
