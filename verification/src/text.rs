//! Extension tests and suffix stripping on file names.

use vstd::prelude::*;
use vstd::string::*;

verus! {

/// Whether the name ends in `.mp4`, compared without regard to letter case.
pub open spec fn is_mp4_name(s: Seq<char>) -> bool {
    &&& s.len() >= 4
    &&& s[s.len() - 4] == '.'
    &&& (s[s.len() - 3] == 'm' || s[s.len() - 3] == 'M')
    &&& (s[s.len() - 2] == 'p' || s[s.len() - 2] == 'P')
    &&& s[s.len() - 1] == '4'
}

/// Whether the name ends in `.mp3`, compared without regard to letter case.
pub open spec fn is_mp3_name(s: Seq<char>) -> bool {
    &&& s.len() >= 4
    &&& s[s.len() - 4] == '.'
    &&& (s[s.len() - 3] == 'm' || s[s.len() - 3] == 'M')
    &&& (s[s.len() - 2] == 'p' || s[s.len() - 2] == 'P')
    &&& s[s.len() - 1] == '3'
}

/// Decides whether the name has a `.mp4` extension, in any letter case.
pub fn has_mp4_extension(s: &str) -> (r: bool)
    ensures
        r == is_mp4_name(s@),
{
    let n = s.unicode_len();
    if n < 4 {
        return false;
    }
    let a = s.get_char(n - 4);
    let b = s.get_char(n - 3);
    let c = s.get_char(n - 2);
    let d = s.get_char(n - 1);
    a == '.' && (b == 'm' || b == 'M') && (c == 'p' || c == 'P') && d == '4'
}

/// Decides whether the name has a `.mp3` extension, in any letter case.
pub fn has_mp3_extension(s: &str) -> (r: bool)
    ensures
        r == is_mp3_name(s@),
{
    let n = s.unicode_len();
    if n < 4 {
        return false;
    }
    let a = s.get_char(n - 4);
    let b = s.get_char(n - 3);
    let c = s.get_char(n - 2);
    let d = s.get_char(n - 1);
    a == '.' && (b == 'm' || b == 'M') && (c == 'p' || c == 'P') && d == '3'
}

/// Whether the sequence ends with the given suffix.
pub open spec fn ends_with_seq(s: Seq<char>, suffix: Seq<char>) -> bool {
    s.len() >= suffix.len() && s.subrange(s.len() - suffix.len(), s.len() as int) == suffix
}

/// The sequence with every trailing copy of the suffix removed.
pub open spec fn strip_all_suffix(s: Seq<char>, suffix: Seq<char>) -> Seq<char>
    decreases s.len(),
{
    if suffix.len() > 0 && ends_with_seq(s, suffix) {
        strip_all_suffix(s.subrange(0, s.len() - suffix.len()), suffix)
    } else {
        s
    }
}

/// Removes every trailing `.mp4` (exact case) from the name.
pub fn strip_mp4_suffix(s: &str) -> (r: String)
    ensures
        r@ == strip_all_suffix(s@, ".mp4"@),
    decreases s@.len(),
{
    proof {
        reveal_strlit(".mp4");
    }
    let n = s.unicode_len();
    if n >= 4 && s.get_char(n - 4) == '.' && s.get_char(n - 3) == 'm' && s.get_char(n - 2) == 'p'
        && s.get_char(n - 1) == '4' {
        proof {
            assert(s@.subrange(s@.len() - 4, s@.len() as int) =~= ".mp4"@);
            assert(ends_with_seq(s@, ".mp4"@));
        }
        let head = s.substring_char(0, n - 4);
        strip_mp4_suffix(head)
    } else {
        proof {
            if ends_with_seq(s@, ".mp4"@) {
                assert(s@[s@.len() - 4] == ".mp4"@[0]);
                assert(s@[s@.len() - 3] == ".mp4"@[1]);
                assert(s@[s@.len() - 2] == ".mp4"@[2]);
                assert(s@[s@.len() - 1] == ".mp4"@[3]);
            }
        }
        String::from_str(s)
    }
}

/// Removes every trailing `.mp3` (exact case) from the name.
pub fn strip_mp3_suffix(s: &str) -> (r: String)
    ensures
        r@ == strip_all_suffix(s@, ".mp3"@),
    decreases s@.len(),
{
    proof {
        reveal_strlit(".mp3");
    }
    let n = s.unicode_len();
    if n >= 4 && s.get_char(n - 4) == '.' && s.get_char(n - 3) == 'm' && s.get_char(n - 2) == 'p'
        && s.get_char(n - 1) == '3' {
        proof {
            assert(s@.subrange(s@.len() - 4, s@.len() as int) =~= ".mp3"@);
            assert(ends_with_seq(s@, ".mp3"@));
        }
        let head = s.substring_char(0, n - 4);
        strip_mp3_suffix(head)
    } else {
        proof {
            if ends_with_seq(s@, ".mp3"@) {
                assert(s@[s@.len() - 4] == ".mp3"@[0]);
                assert(s@[s@.len() - 3] == ".mp3"@[1]);
                assert(s@[s@.len() - 2] == ".mp3"@[2]);
                assert(s@[s@.len() - 1] == ".mp3"@[3]);
            }
        }
        String::from_str(s)
    }
}

} // verus!
