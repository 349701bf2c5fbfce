//! Text handling: whitespace trimming and the content fingerprint.
//!
//! The fingerprint is the change-detection key stored alongside an indexed
//! document.  It is a pure function of the trimmed text, so two documents
//! with identical trimmed text have identical fingerprints regardless of
//! where they live.

use vstd::prelude::*;
use vstd::string::*;

verus! {

/// 64-bit FNV-1a offset basis.
pub const FNV_OFFSET: u64 = 0xcbf29ce484222325;

/// 64-bit FNV-1a prime.
pub const FNV_PRIME: u64 = 0x100000001b3;

/// Whether `c` is a whitespace character (the Unicode white-space set).
pub open spec fn is_space_spec(c: char) -> bool {
    let u = c as u32;
    (0x09 <= u && u <= 0x0d) || u == 0x20 || u == 0x85 || u == 0xa0 || u == 0x1680 || (0x2000
        <= u && u <= 0x200a) || u == 0x2028 || u == 0x2029 || u == 0x202f || u == 0x205f || u
        == 0x3000
}

/// Whether `c` is a whitespace character (the Unicode white-space set).
pub fn is_space(c: char) -> (r: bool)
    ensures
        r == is_space_spec(c),
{
    let u = c as u32;
    (0x09 <= u && u <= 0x0d) || u == 0x20 || u == 0x85 || u == 0xa0 || u == 0x1680 || (0x2000 <= u
        && u <= 0x200a) || u == 0x2028 || u == 0x2029 || u == 0x202f || u == 0x205f || u == 0x3000
}

/// `s` with its leading whitespace removed.
pub open spec fn trim_start_spec(s: Seq<char>) -> Seq<char>
    decreases s.len(),
{
    if s.len() > 0 && is_space_spec(s[0]) {
        trim_start_spec(s.drop_first())
    } else {
        s
    }
}

/// `s` with its trailing whitespace removed.
pub open spec fn trim_end_spec(s: Seq<char>) -> Seq<char>
    decreases s.len(),
{
    if s.len() > 0 && is_space_spec(s.last()) {
        trim_end_spec(s.drop_last())
    } else {
        s
    }
}

/// `s` with leading and trailing whitespace removed.
pub open spec fn trim_spec(s: Seq<char>) -> Seq<char> {
    trim_end_spec(trim_start_spec(s))
}

/// Removes leading and trailing whitespace from `s`.
pub fn trim(s: &str) -> (t: &str)
    ensures
        t@ == trim_spec(s@),
{
    let n = s.unicode_len();
    let mut i: usize = 0;
    proof {
        assert(s@.skip(0) =~= s@);
    }
    while i < n && is_space(s.get_char(i))
        invariant
            i <= n,
            n == s@.len(),
            trim_start_spec(s@) == trim_start_spec(s@.skip(i as int)),
        decreases n - i,
    {
        proof {
            assert(s@.skip(i as int)[0] == s@[i as int]);
            assert(s@.skip(i as int).drop_first() =~= s@.skip(i as int + 1));
        }
        i = i + 1;
    }
    proof {
        if i < n {
            assert(s@.skip(i as int)[0] == s@[i as int]);
        }
        assert(trim_start_spec(s@) == s@.skip(i as int));
    }
    let mut j: usize = n;
    while j > i && is_space(s.get_char(j - 1))
        invariant
            i <= j <= n,
            n == s@.len(),
            trim_start_spec(s@) == s@.skip(i as int),
            trim_end_spec(s@.skip(i as int)) == trim_end_spec(s@.subrange(i as int, j as int)),
        decreases j,
    {
        proof {
            assert(s@.subrange(i as int, j as int).last() == s@[j - 1]);
            assert(s@.subrange(i as int, j as int).drop_last() =~= s@.subrange(
                i as int,
                j as int - 1,
            ));
        }
        j = j - 1;
    }
    proof {
        if j > i {
            assert(s@.subrange(i as int, j as int).last() == s@[j - 1]);
        }
        assert(trim_spec(s@) == s@.subrange(i as int, j as int));
    }
    s.substring_char(i, j)
}

/// One FNV-1a step: fold character `c` into the accumulator.
pub open spec fn fp_step(acc: u64, c: char) -> u64 {
    ((((acc ^ (c as u64)) as int) * (FNV_PRIME as int)) % 0x10000000000000000) as u64
}

/// FNV-1a over `s`, starting from accumulator `acc`.
pub open spec fn fp_acc(s: Seq<char>, acc: u64) -> u64
    decreases s.len(),
{
    if s.len() == 0 {
        acc
    } else {
        fp_acc(s.drop_first(), fp_step(acc, s[0]))
    }
}

/// The fingerprint of a document: FNV-1a over the trimmed text.
pub open spec fn fingerprint_of(text: Seq<char>) -> u64 {
    fp_acc(trim_spec(text), FNV_OFFSET)
}

/// Computes the FNV-1a hash of `text` as given (no trimming here; callers
/// hash already-trimmed content).
pub fn calculate_hash(text: &str) -> (h: u64)
    ensures
        h == fp_acc(text@, FNV_OFFSET),
{
    let n = text.unicode_len();
    let mut acc: u64 = FNV_OFFSET;
    let mut i: usize = 0;
    proof {
        assert(text@.skip(0) =~= text@);
    }
    while i < n
        invariant
            i <= n,
            n == text@.len(),
            fp_acc(text@, FNV_OFFSET) == fp_acc(text@.skip(i as int), acc),
        decreases n - i,
    {
        let c = text.get_char(i);
        proof {
            assert(text@.skip(i as int)[0] == text@[i as int]);
            assert(text@.skip(i as int).drop_first() =~= text@.skip(i as int + 1));
        }
        let x: u128 = (acc ^ (c as u64)) as u128;
        let p: u128 = x * (FNV_PRIME as u128);
        acc = (p % 0x10000000000000000u128) as u64;
        i = i + 1;
    }
    acc
}

/// Fingerprints depend on the trimmed text alone: two texts whose trimmed
/// forms are equal have equal fingerprints, whatever surrounds them.  The
/// fingerprint is deterministic by construction: it is a pure function of
/// its input.
pub proof fn lemma_fingerprint_respects_trim(t1: Seq<char>, t2: Seq<char>)
    requires
        trim_spec(t1) == trim_spec(t2),
    ensures
        fingerprint_of(t1) == fingerprint_of(t2),
{
}

} // verus!
