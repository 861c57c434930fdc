//! Separator splitting over strings, with its mathematical model: the
//! list of pieces between occurrences of a separator character. A string
//! with no separator is one piece, so splitting never yields an empty
//! list.

use vstd::prelude::*;

verus! {

/// The pieces of `s` split on `sep`, with `cur` the piece accumulated so
/// far: the model walks the string one character at a time.
pub open spec fn split_from(s: Seq<char>, sep: char, cur: Seq<char>) -> Seq<Seq<char>>
    decreases s.len(),
{
    if s.len() == 0 {
        seq![cur]
    } else if s[0] == sep {
        seq![cur] + split_from(s.skip(1), sep, Seq::empty())
    } else {
        split_from(s.skip(1), sep, cur.push(s[0]))
    }
}

/// The pieces of `s` split on the separator `sep`: one more piece than
/// there are separator occurrences.
pub open spec fn split_on(s: Seq<char>, sep: char) -> Seq<Seq<char>> {
    split_from(s, sep, Seq::empty())
}

/// The character sequences behind a list of strings.
pub open spec fn views_of(v: Seq<String>) -> Seq<Seq<char>> {
    v.map_values(|p: String| p@)
}

/// Splits a string on a separator character, yielding the pieces in
/// order; two adjacent separators yield an empty piece between them, and
/// the empty string yields one empty piece.
pub fn split_str(s: &str, sep: char) -> (pieces: Vec<String>)
    ensures
        views_of(pieces@) == split_on(s@, sep),
{
    let n: usize = s.unicode_len();
    let mut pieces: Vec<String> = Vec::new();
    let mut start: usize = 0;
    let mut i: usize = 0;
    proof {
        assert(s@.skip(0) =~= s@);
        assert(s@.subrange(0, 0) =~= Seq::<char>::empty());
        assert(views_of(pieces@) + split_from(s@, sep, Seq::empty()) =~= split_on(s@, sep));
    }
    while i < n
        invariant
            n == s@.len(),
            0 <= start <= i <= n,
            split_on(s@, sep) == views_of(pieces@) + split_from(
                s@.skip(i as int),
                sep,
                s@.subrange(start as int, i as int),
            ),
        decreases n - i,
    {
        let ghost cur = s@.subrange(start as int, i as int);
        proof {
            assert(s@.skip(i as int)[0] == s@[i as int]);
            assert(s@.skip(i as int).skip(1) =~= s@.skip(i + 1));
        }
        let c = s.get_char(i);
        if c == sep {
            let piece = s.substring_char(start, i).to_owned();
            proof {
                assert(split_from(s@.skip(i as int), sep, cur) == seq![cur] + split_from(
                    s@.skip(i + 1),
                    sep,
                    Seq::empty(),
                ));
                assert(views_of(pieces@.push(piece)) =~= views_of(pieces@).push(cur));
                assert(views_of(pieces@).push(cur) + split_from(s@.skip(i + 1), sep, Seq::empty())
                    =~= views_of(pieces@) + (seq![cur] + split_from(
                    s@.skip(i + 1),
                    sep,
                    Seq::empty(),
                )));
                assert(s@.subrange(i + 1, i + 1) =~= Seq::<char>::empty());
            }
            pieces.push(piece);
            start = i + 1;
        } else {
            proof {
                assert(split_from(s@.skip(i as int), sep, cur) == split_from(
                    s@.skip(i + 1),
                    sep,
                    cur.push(s@[i as int]),
                ));
                assert(cur.push(s@[i as int]) =~= s@.subrange(start as int, i + 1));
            }
        }
        i = i + 1;
    }
    let last = s.substring_char(start, n).to_owned();
    proof {
        assert(s@.skip(n as int) =~= Seq::<char>::empty());
        assert(split_from(s@.skip(n as int), sep, s@.subrange(start as int, n as int)) == seq![
            s@.subrange(start as int, n as int),
        ]);
        assert(views_of(pieces@.push(last)) =~= views_of(pieces@) + seq![
            s@.subrange(start as int, n as int),
        ]);
    }
    pieces.push(last);
    pieces
}

} // verus!
