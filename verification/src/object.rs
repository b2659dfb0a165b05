//! Object metadata resolution.
//!
//! Each object handle on a storage volume yields a read-only metadata
//! snapshot.  Folders are filtered out, the capture timestamp is
//! parsed, and a human-readable size is derived for reporting.

use crate::date::Date;
use crate::date::spec_parse_capture_date;
use crate::date::parse_capture_date;
use crate::numerals::dec_digits;
use crate::numerals::digit_char;
use crate::numerals::u64_to_string;
use vstd::prelude::*;
use vstd::string::StringExecFns;

verus! {

/// The PTP object-format tag reserved for folder (association)
/// entries.
pub const FOLDER_OBJECT_FORMAT: u16 = 0x3001;

/// The metadata snapshot fetched for one object handle.
pub struct ObjectInfo {
    pub object_format: u16,
    pub filename: String,
    pub compressed_size_bytes: u64,
    pub capture_date: String,
}

/// An object that passed the metadata filters and is due a transfer.
pub struct ResolvedObject {
    pub filename: String,
    pub size_bytes: u64,
    pub date: Date,
}

/// What the metadata resolver decides for one object.
pub enum ObjectDecision {
    /// The format tag marks a folder: nothing is transferred and
    /// nothing is written.
    SkipFolder,
    /// The capture date does not parse: the object is skipped and
    /// enumeration goes on.
    SkipBadDate,
    /// A file object with a valid capture date: hand it on for
    /// destination resolution and transfer.
    Transfer(ResolvedObject),
}

/// Whether an object with this format tag and capture-date text is
/// due a transfer at all.
pub open spec fn spec_transfers(format: u16, capture_date: Seq<char>) -> bool {
    format != FOLDER_OBJECT_FORMAT && spec_parse_capture_date(capture_date) is Some
}

/// Filters one metadata snapshot: folders are dropped, the capture
/// timestamp must parse, and everything the later stages need is
/// carried over unchanged.
pub fn resolve_object(info: ObjectInfo) -> (r: ObjectDecision)
    ensures
        r is SkipFolder <==> info.object_format == FOLDER_OBJECT_FORMAT,
        r is SkipBadDate <==> (info.object_format != FOLDER_OBJECT_FORMAT
            && spec_parse_capture_date(info.capture_date@) is None),
        r is Transfer <==> spec_transfers(info.object_format, info.capture_date@),
        r matches ObjectDecision::Transfer(ro) ==> {
            &&& Some(ro.date) == spec_parse_capture_date(info.capture_date@)
            &&& ro.date.wf()
            &&& ro.filename@ == info.filename@
            &&& ro.size_bytes == info.compressed_size_bytes
        },
{
    if info.object_format == FOLDER_OBJECT_FORMAT {
        return ObjectDecision::SkipFolder;
    }
    match parse_capture_date(info.capture_date.as_str()) {
        None => ObjectDecision::SkipBadDate,
        Some(date) => ObjectDecision::Transfer(
            ResolvedObject {
                filename: info.filename,
                size_bytes: info.compressed_size_bytes,
                date,
            },
        ),
    }
}

/// A folder-format object is never transferred, whatever its capture
/// date says: the resolver never hands it on, so no retrieval and no
/// file write can occur for it.
pub proof fn lemma_folder_objects_never_transfer(format: u16, capture_date: Seq<char>)
    requires
        format == FOLDER_OBJECT_FORMAT,
    ensures
        !spec_transfers(format, capture_date),
{
}

/// The size of an object in hundredths of a mebibyte, rounded down:
/// the human-readable figure reported alongside a transfer.
pub fn size_mib_hundredths(bytes: u64) -> (r: u64)
    ensures
        r == (bytes as int) * 100 / (1024int * 1024),
{
    proof {
        assert((bytes as int) * 100 / (1024int * 1024) <= bytes as int) by (nonlinear_arith);
    }
    ((bytes as u128 * 100) / (1024 * 1024)) as u64
}

/// The decimal rendering `{whole}.{centi}` of a hundredths count,
/// the fraction always two digits wide.
pub open spec fn hundredths_display(h: nat) -> Seq<char> {
    dec_digits(h / 100) + seq!['.'] + (if h % 100 < 10 {
        seq![digit_char(0)]
    } else {
        Seq::<char>::empty()
    }) + dec_digits(h % 100)
}

/// Renders a mebibyte-hundredths count as `{whole}.{centi}`, for
/// reporting an object's size.
pub fn size_display(hundredths: u64) -> (r: String)
    ensures
        r@ == hundredths_display(hundredths as nat),
{
    let mut r = u64_to_string(hundredths / 100);
    r.append(".");
    if hundredths % 100 < 10 {
        r.append("0");
    }
    let frac = u64_to_string(hundredths % 100);
    r.append(frac.as_str());
    proof {
        reveal_strlit(".");
        reveal_strlit("0");
        assert(r@ =~= hundredths_display(hundredths as nat));
    }
    r
}

} // verus!
