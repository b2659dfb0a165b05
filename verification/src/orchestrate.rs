//! Error containment for the session orchestrator.
//!
//! The pipeline walks devices, their storage volumes and their
//! objects strictly in order.  Every failure is tagged with where it
//! arose, and a single rule says how far it reaches: a device-level
//! failure skips that device, a volume-level failure that volume, an
//! object-level failure that object alone — enumeration always goes
//! on — while a failure to close a session is fatal, since it leaves
//! the device in an inconsistent state.

use vstd::prelude::*;

verus! {

/// Every failure the pipeline contains, tagged by the stage it arose
/// in.
#[derive(Clone, Copy, PartialEq, Eq, Structural, Debug)]
pub enum PipelineError {
    /// The device's information block could not be read.
    DeviceInfoFetch,
    /// No session could be opened on the device.
    SessionOpen,
    /// The device's storage volumes could not be listed.
    StorageEnumeration,
    /// A volume's object handles could not be listed.
    HandleEnumeration,
    /// An object's metadata snapshot could not be fetched.
    ObjectInfoFetch,
    /// An object's capture date did not parse.
    DateParse,
    /// A retrieval call failed mid-transfer.
    TransferIo,
    /// The assembled buffer's length differed from the expected size.
    SizeMismatch { expected: u64, actual: u64 },
    /// A filesystem probe of a candidate path failed outright.
    ExistenceProbe,
    /// Collision probing ran past its suffix cap.
    SuffixesExhausted,
    /// The destination file could not be created or written.
    FileWrite,
    /// The session could not be closed after processing.
    SessionClose,
}

/// How far a contained failure reaches.
#[derive(Clone, Copy, PartialEq, Eq, Structural, Debug)]
pub enum Disposition {
    /// Skip the rest of this device and move to the next one.
    SkipDevice,
    /// Skip this storage volume and move to the next one.
    SkipVolume,
    /// Skip this object and move to the next handle.
    SkipObject,
    /// Stop the whole run: the device is in an inconsistent state.
    Fatal,
}

/// The containment rule: which enclosing loop a failure at each stage
/// abandons.  Failing to list a device's volumes abandons the device;
/// failing to list a volume's handles abandons the volume; everything
/// that strikes one object abandons that object only; only a failed
/// session close stops the run.
pub open spec fn spec_disposition(e: PipelineError) -> Disposition {
    match e {
        PipelineError::DeviceInfoFetch => Disposition::SkipDevice,
        PipelineError::SessionOpen => Disposition::SkipDevice,
        PipelineError::StorageEnumeration => Disposition::SkipDevice,
        PipelineError::HandleEnumeration => Disposition::SkipVolume,
        PipelineError::ObjectInfoFetch => Disposition::SkipObject,
        PipelineError::DateParse => Disposition::SkipObject,
        PipelineError::TransferIo => Disposition::SkipObject,
        PipelineError::SizeMismatch { .. } => Disposition::SkipObject,
        PipelineError::ExistenceProbe => Disposition::SkipObject,
        PipelineError::SuffixesExhausted => Disposition::SkipObject,
        PipelineError::FileWrite => Disposition::SkipObject,
        PipelineError::SessionClose => Disposition::Fatal,
    }
}

/// Classifies a contained failure for the orchestrator's loops.
pub fn disposition(e: &PipelineError) -> (r: Disposition)
    ensures
        r == spec_disposition(*e),
{
    match e {
        PipelineError::DeviceInfoFetch => Disposition::SkipDevice,
        PipelineError::SessionOpen => Disposition::SkipDevice,
        PipelineError::StorageEnumeration => Disposition::SkipDevice,
        PipelineError::HandleEnumeration => Disposition::SkipVolume,
        PipelineError::ObjectInfoFetch => Disposition::SkipObject,
        PipelineError::DateParse => Disposition::SkipObject,
        PipelineError::TransferIo => Disposition::SkipObject,
        PipelineError::SizeMismatch { .. } => Disposition::SkipObject,
        PipelineError::ExistenceProbe => Disposition::SkipObject,
        PipelineError::SuffixesExhausted => Disposition::SkipObject,
        PipelineError::FileWrite => Disposition::SkipObject,
        PipelineError::SessionClose => Disposition::Fatal,
    }
}

/// An unparsable capture date never reaches past its own object: its
/// disposition moves to the next handle, so enumeration of the
/// remaining objects goes on.
pub proof fn lemma_bad_date_skips_object_only()
    ensures
        spec_disposition(PipelineError::DateParse) == Disposition::SkipObject,
{
}

/// No object-level failure stops the run: every failure that strikes
/// one object — metadata, date parse, transfer, size check, probing,
/// or the file write — is contained to that object.
pub proof fn lemma_object_failures_contained(e: PipelineError)
    requires
        e is ObjectInfoFetch || e is DateParse || e is TransferIo || e is SizeMismatch
            || e is ExistenceProbe || e is SuffixesExhausted || e is FileWrite,
    ensures
        spec_disposition(e) == Disposition::SkipObject,
{
}

} // verus!
