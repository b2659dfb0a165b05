//! Destination paths.
//!
//! An object lands under a `{year}/{month}/{day}` bucket named after
//! its capture date, keeping its device filename; a `-{n}` suffix is
//! appended when probing has to step past colliding names.

use crate::date::Date;
use crate::numerals::dec_digits;
use crate::numerals::u64_to_string;
use vstd::prelude::*;
use vstd::string::StringExecFns;

verus! {

/// The bucket directory for a capture date: `{year}/{month}/{day}`,
/// each component a plain decimal numeral.
pub open spec fn bucket_of(d: Date) -> Seq<char> {
    dec_digits(d.year as nat) + seq!['/'] + dec_digits(d.month as nat) + seq!['/'] + dec_digits(
        d.day as nat,
    )
}

/// The `n`-th candidate inside a bucket: `{bucket}/{filename}` when
/// `n` is zero, `{bucket}/{filename}-{n}` afterwards.
pub open spec fn candidate_of(bucket: Seq<char>, filename: Seq<char>, n: nat) -> Seq<char> {
    bucket + seq!['/'] + filename + if n == 0 {
        Seq::<char>::empty()
    } else {
        seq!['-'] + dec_digits(n)
    }
}

/// Builds the bucket directory path for a capture date.
pub fn bucket_path(d: &Date) -> (r: String)
    ensures
        r@ == bucket_of(*d),
{
    let mut r = u64_to_string(d.year as u64);
    r.append("/");
    let m = u64_to_string(d.month as u64);
    r.append(m.as_str());
    r.append("/");
    let dd = u64_to_string(d.day as u64);
    r.append(dd.as_str());
    proof {
        reveal_strlit("/");
        assert(r@ =~= bucket_of(*d));
    }
    r
}

/// Builds the `n`-th candidate path for a filename inside a bucket.
pub fn candidate_path(bucket: &str, filename: &str, n: u64) -> (r: String)
    ensures
        r@ == candidate_of(bucket@, filename@, n as nat),
{
    let mut r = bucket.to_owned();
    r.append("/");
    r.append(filename);
    if n > 0 {
        r.append("-");
        let num = u64_to_string(n);
        r.append(num.as_str());
    }
    proof {
        reveal_strlit("/");
        reveal_strlit("-");
        assert(r@ =~= candidate_of(bucket@, filename@, n as nat));
    }
    r
}

} // verus!
