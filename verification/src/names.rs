//! Derivation of output file names, including the numbered candidates that
//! the collision-avoidance probing walks through.

use crate::numbers::{dec_rep, u64_to_string};
use crate::text::{strip_all_suffix, strip_mp3_suffix, strip_mp4_suffix};
use vstd::prelude::*;
use vstd::string::*;

verus! {

/// The name of the trimmed video clip, and so also of the intermediate file
/// that audio extraction consumes and finally removes: the input name with
/// `_out.mp4` appended.
pub open spec fn intermediate_name(f: Seq<char>) -> Seq<char> {
    f + "_out.mp4"@
}

/// Builds the intermediate clip name for an input file.
pub fn intermediate_name_of(f: &str) -> (r: String)
    ensures
        r@ == intermediate_name(f@),
{
    let mut r = String::from_str(f);
    r.append("_out.mp4");
    r
}

/// The `i`-th candidate name for the extracted audio file: the input name
/// with every trailing `.mp4` removed and `.mp3` appended, then the same with
/// `_1`, `_2`, … inserted before the extension.
pub open spec fn audio_candidate(f: Seq<char>, i: u64) -> Seq<char> {
    if i == 0 {
        strip_all_suffix(f, ".mp4"@) + ".mp3"@
    } else {
        strip_all_suffix(f, ".mp4"@) + "_"@ + dec_rep(i as nat) + ".mp3"@
    }
}

/// Builds the `i`-th candidate name for the extracted audio file.
pub fn audio_candidate_of(f: &str, i: u64) -> (r: String)
    ensures
        r@ == audio_candidate(f@, i),
{
    let mut r = strip_mp4_suffix(f);
    if i == 0 {
        r.append(".mp3");
    } else {
        r.append("_");
        let num = u64_to_string(i);
        r.append(num.as_str());
        r.append(".mp3");
    }
    r
}

/// The `i`-th candidate name for a trimmed audio file: the input name itself
/// first, then the input name with every trailing `.mp3` removed and `_1`,
/// `_2`, … plus the extension appended.
pub open spec fn mp3_candidate(f: Seq<char>, i: u64) -> Seq<char> {
    if i == 0 {
        f
    } else {
        strip_all_suffix(f, ".mp3"@) + "_"@ + dec_rep(i as nat) + ".mp3"@
    }
}

/// Builds the `i`-th candidate name for a trimmed audio file.
pub fn mp3_candidate_of(f: &str, i: u64) -> (r: String)
    ensures
        r@ == mp3_candidate(f@, i),
{
    if i == 0 {
        String::from_str(f)
    } else {
        let mut r = strip_mp3_suffix(f);
        r.append("_");
        let num = u64_to_string(i);
        r.append(num.as_str());
        r.append(".mp3");
        r
    }
}

} // verus!
