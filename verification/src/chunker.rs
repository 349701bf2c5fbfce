//! Splitting long passage text into bounded-size segments, each small
//! enough for one embedding call.
//!
//! Chunks are consecutive (non-overlapping) runs of at most
//! [`MAX_CHUNK_CHARS`] characters; each is emitted with the role prefix
//! prepended, so their order and content fully determine the text.

use vstd::prelude::*;
use vstd::string::*;

verus! {

/// Upper bound on the number of characters of text in one chunk, before
/// the role prefix is prepended.
pub const MAX_CHUNK_CHARS: usize = 512;

/// The consecutive pieces of `t`, each of at most [`MAX_CHUNK_CHARS`]
/// characters, in order; empty text yields no pieces.
pub open spec fn chunk_pieces(t: Seq<char>) -> Seq<Seq<char>>
    decreases t.len(),
{
    if t.len() == 0 {
        Seq::empty()
    } else if t.len() <= MAX_CHUNK_CHARS {
        seq![t]
    } else {
        seq![t.take(MAX_CHUNK_CHARS as int)] + chunk_pieces(t.skip(MAX_CHUNK_CHARS as int))
    }
}

/// The chunk strings for text `t`: each piece with `prefix` prepended.
pub open spec fn chunk_strings(t: Seq<char>, prefix: Seq<char>) -> Seq<Seq<char>> {
    chunk_pieces(t).map_values(|p: Seq<char>| prefix + p)
}

/// Splits `text` into consecutive segments of at most
/// [`MAX_CHUNK_CHARS`] characters and prepends `prefix` to each.
pub fn chunk_text(text: &str, prefix: &str) -> (r: Vec<String>)
    ensures
        r.deep_view() == chunk_strings(text@, prefix@),
        text@.len() == 0 ==> r@.len() == 0,
        text@.len() > 0 ==> r@.len() > 0,
{
    let n = text.unicode_len();
    let mut out: Vec<String> = Vec::new();
    let mut i: usize = 0;
    proof {
        assert(text@.skip(0) =~= text@);
        assert(out.deep_view() + chunk_strings(text@, prefix@) =~= chunk_strings(text@, prefix@));
    }
    while i < n
        invariant
            i <= n,
            n == text@.len(),
            chunk_strings(text@, prefix@) == out.deep_view() + chunk_strings(
                text@.skip(i as int),
                prefix@,
            ),
        decreases n - i,
    {
        let end = if n - i > MAX_CHUNK_CHARS {
            i + MAX_CHUNK_CHARS
        } else {
            n
        };
        let piece = text.substring_char(i, end);
        let mut s = String::from_str(prefix);
        s.append(piece);
        let ghost old_out = out.deep_view();
        out.push(s);
        proof {
            let rest = text@.skip(i as int);
            assert(out.deep_view() =~~= old_out.push(s@));
            if n - i > MAX_CHUNK_CHARS {
                assert(rest.take(MAX_CHUNK_CHARS as int) =~= piece@);
                assert(rest.skip(MAX_CHUNK_CHARS as int) =~= text@.skip(end as int));
                assert(chunk_strings(rest, prefix@) =~~= seq![prefix@ + piece@] + chunk_strings(
                    text@.skip(end as int),
                    prefix@,
                ));
            } else {
                assert(rest =~= piece@);
                assert(chunk_pieces(rest) == seq![rest]);
                assert(text@.skip(end as int) =~= Seq::<char>::empty());
                assert(chunk_strings(rest, prefix@) =~~= seq![prefix@ + piece@] + chunk_strings(
                    text@.skip(end as int),
                    prefix@,
                ));
            }
            assert(old_out.push(s@) + chunk_strings(text@.skip(end as int), prefix@) =~~= old_out
                + (seq![prefix@ + piece@] + chunk_strings(text@.skip(end as int), prefix@)));
        }
        i = end;
    }
    proof {
        assert(text@.skip(n as int) =~= Seq::<char>::empty());
        assert(out.deep_view() + chunk_strings(Seq::<char>::empty(), prefix@) =~~= out.deep_view());
        assert(out.deep_view().len() == out@.len());
    }
    out
}

} // verus!
