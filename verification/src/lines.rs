//! Texts as lines.

use vstd::prelude::*;
use vstd::string::*;
use crate::text::{
    first_at,
    lemma_first_at,
    lemma_split,
    occurs,
    slices,
    split_once,
    strip_suffix,
};

verus! {

/// The lines of a text. A line ends at a line feed; a carriage return right
/// before the line feed belongs to the line ending. What follows the last
/// line feed is a line too, unless nothing follows it.
pub open spec fn lines_of(s: Seq<char>) -> Seq<Seq<char>>
    decreases s.len(),
{
    if s.len() == 0 {
        Seq::empty()
    } else if !occurs(s, "\n"@) {
        seq![s]
    } else {
        let i = first_at(s, "\n"@);
        let piece = s.take(i);
        let line = if "\r"@.is_suffix_of(piece) {
            piece.take(piece.len() - "\r"@.len())
        } else {
            piece
        };
        let rest = s.skip(i + "\n"@.len());
        if rest.len() < s.len() {
            seq![line] + lines_of(rest)
        } else {
            seq![line]
        }
    }
}

/// The lines of a text, in order.
pub fn lines<'a>(text: &'a str) -> (v: Vec<&'a str>)
    ensures
        slices(v@) == lines_of(text@),
{
    let mut v: Vec<&'a str> = Vec::new();
    let mut rem = text;
    proof {
        reveal_strlit("\n");
        reveal_strlit("\r");
        assert(slices(v@) + lines_of(rem@) =~= lines_of(text@));
    }
    loop
        invariant
            "\n"@.len() == 1,
            "\r"@.len() == 1,
            lines_of(text@) == slices(v@) + lines_of(rem@),
        decreases rem@.len(),
    {
        let ghost done = v@;
        if rem.is_empty() {
            proof {
                assert(slices(v@) + lines_of(rem@) =~= slices(v@));
            }
            return v;
        }
        match split_once(rem, "\n") {
            None => {
                v.push(rem);
                proof {
                    assert(slices(v@) =~= slices(done) + seq![rem@]);
                }
                return v;
            },
            Some((piece, rest)) => {
                proof {
                    lemma_split(piece@, "\n"@, rest@);
                    lemma_first_at(rem@, "\n"@, piece@.len() as int);
                }
                let line = match strip_suffix(piece, "\r") {
                    Some(l) => {
                        proof {
                            assert("\r"@.is_suffix_of(piece@));
                            assert(l@ =~= piece@.take(piece@.len() - 1));
                        }
                        l
                    },
                    None => piece,
                };
                v.push(line);
                proof {
                    assert(slices(v@) =~= slices(done) + seq![line@]);
                    assert(slices(done) + (seq![line@] + lines_of(rest@)) =~= slices(v@)
                        + lines_of(rest@));
                }
                rem = rest;
            },
        }
    }
}

} // verus!
