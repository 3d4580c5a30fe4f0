//! Documents with markers: what stands between a `GEN` marker and the next
//! `RESUME` marker is made anew from the table of versions.

use vstd::prelude::*;
use vstd::string::*;
use crate::lines::{lines, lines_of};
use crate::text::{
    first_at,
    lemma_first_at,
    lemma_split,
    occurs,
    occurs_at,
    slices,
    split_once,
    starts_with,
    strip_prefix,
    trim_end,
    trim_end_matches,
};
use crate::versions::{
    feature_flags_doc,
    flags_text,
    list_text,
    rows_of,
    table_text,
    version_list,
    version_table,
    well_formed,
    Table,
};

verus! {

/// What the first marker inside a line leads to.
pub enum Head {
    /// The line is finished: this is all of its text.
    Done(Seq<char>),
    /// The marker has no content at all: the line cannot be made anew.
    Fail,
    /// This text is made, and the rest of the line follows.
    More(Seq<char>, Seq<char>),
}

/// The first marker inside `rem`, made anew. The marker is kept; after a
/// marker for the list of versions comes `list`; what stood between the
/// marker and the next `RESUME` marker is left out, and that marker is kept.
/// A marker that is not closed is kept with all that follows it.
#[verifier::opaque]
pub open spec fn inline_head(rem: Seq<char>, list: Seq<char>) -> Head {
    if !occurs(rem, "<!-- GEN "@) {
        Head::Done(rem)
    } else {
        let i = first_at(rem, "<!-- GEN "@);
        let before = rem.take(i);
        let after = rem.skip(i + "<!-- GEN "@.len());
        if "-->"@.is_prefix_of(after) {
            Head::Fail
        } else if !occurs(after, " -->"@) {
            Head::Done(before + "<!-- GEN "@ + after)
        } else {
            let k = first_at(after, " -->"@);
            let marker = after.take(k);
            let rest = after.skip(k + " -->"@.len());
            let extra = if "LLVM_VERSION_LIST"@.is_prefix_of(marker) {
                list
            } else {
                Seq::empty()
            };
            let made = before + "<!-- GEN "@ + marker + " -->"@ + extra;
            if occurs(rest, "<!-- RESUME -->"@) {
                Head::More(
                    made + "<!-- RESUME -->"@,
                    rest.skip(first_at(rest, "<!-- RESUME -->"@) + "<!-- RESUME -->"@.len()),
                )
            } else {
                Head::More(made, rest)
            }
        }
    }
}

/// A line with markers inside it, made anew: marker after marker, up to the
/// end of the line. The result is nothing where a marker has no content at
/// all.
pub open spec fn inline_text(rem: Seq<char>, list: Seq<char>) -> Option<Seq<char>>
    decreases rem.len(),
{
    match inline_head(rem, list) {
        Head::Done(t) => Some(t),
        Head::Fail => None,
        Head::More(made, tail) => if tail.len() < rem.len() {
            match inline_text(tail, list) {
                Some(t) => Some(made + t),
                None => None,
            }
        } else {
            None
        },
    }
}

/// Whether a line has markers inside it: a `GEN` marker that does not open
/// the line, and a `RESUME` marker.
pub open spec fn is_inline(l: Seq<char>) -> bool {
    occurs(l, "<!-- GEN "@) && occurs(l, "<!-- RESUME -->"@) && !"<!-- GEN "@.is_prefix_of(l)
}

/// The texts that are made for the markers of a document.
pub struct Made {
    pub table: Seq<char>,
    pub list: Seq<char>,
    pub flags: Seq<char>,
}

/// One line of a document: whether the lines after it are left out, and
/// what the line contributes; nothing where the line cannot be made anew.
pub open spec fn step(in_block: bool, l: Seq<char>, m: Made) -> Option<(bool, Seq<char>)> {
    if is_inline(l) {
        match inline_text(l, m.list) {
            Some(t) => Some((in_block, t + "\n"@)),
            None => None,
        }
    } else if "<!-- GEN "@.is_prefix_of(l) {
        let kind = trim_end(l.skip("<!-- GEN "@.len() as int), " -->"@);
        Some(
            (
                true,
                l + "\n"@ + (if "LLVM_VERSION_TABLE"@.is_prefix_of(kind) {
                    m.table
                } else {
                    Seq::empty()
                }),
            ),
        )
    } else if "//! <!-- GEN "@.is_prefix_of(l) {
        let kind = trim_end(l.skip("//! <!-- GEN "@.len() as int), " -->"@);
        Some(
            (
                true,
                l + "\n"@ + (if "FEATURE_FLAGS"@.is_prefix_of(kind) {
                    m.flags + "\n"@
                } else {
                    Seq::empty()
                }),
            ),
        )
    } else if l == "<!-- RESUME -->"@ || l == "//! <!-- RESUME -->"@ {
        Some((false, l + "\n"@))
    } else if in_block {
        Some((true, Seq::empty()))
    } else {
        Some((false, l + "\n"@))
    }
}

/// The document after its first `n` lines.
pub open spec fn document_upto(lines: Seq<Seq<char>>, n: nat, m: Made) -> Option<
    (bool, Seq<char>),
>
    decreases n,
{
    if n == 0 {
        Some((false, Seq::empty()))
    } else {
        match document_upto(lines, (n - 1) as nat, m) {
            Some(prev) => match step(prev.0, lines[n - 1], m) {
                Some(next) => Some((next.0, prev.1 + next.1)),
                None => None,
            },
            None => None,
        }
    }
}

/// The document with the lines `lines`, made anew; nothing where one of its
/// lines cannot be made anew.
pub open spec fn document_text(lines: Seq<Seq<char>>, m: Made) -> Option<Seq<char>> {
    match document_upto(lines, lines.len(), m) {
        Some(d) => Some(d.1),
        None => None,
    }
}

/// Whether `l` is exactly `x`.
fn same(l: &str, x: &str) -> (b: bool)
    ensures
        b == (l@ == x@),
{
    match strip_prefix(l, x) {
        Some(rest) => {
            let b = rest.is_empty();
            proof {
                if b {
                    assert(l@ =~= x@);
                } else {
                    assert(l@.len() == x@.len() + rest@.len());
                }
            }
            b
        },
        None => {
            proof {
                if l@ == x@ {
                    assert(x@ =~= l@.subrange(0, x@.len() as int));
                }
            }
            false
        },
    }
}

/// Whether `p` stands somewhere in `s`.
fn contains(s: &str, p: &str) -> (b: bool)
    ensures
        b == occurs(s@, p@),
{
    match split_once(s, p) {
        Some((before, after)) => {
            proof {
                lemma_split(before@, p@, after@);
            }
            true
        },
        None => false,
    }
}

/// What the first marker inside a line leads to.
enum Piece<'a> {
    Done(String),
    Fail,
    More(String, &'a str),
}

impl<'a> Piece<'a> {
    spec fn head(self) -> Head {
        match self {
            Piece::Done(t) => Head::Done(t@),
            Piece::Fail => Head::Fail,
            Piece::More(made, tail) => Head::More(made@, tail@),
        }
    }
}

/// What follows the first marker of a line, once the marker is closed.
fn after_marker<'a>(before: &str, marker: &str, rest: &'a str, list: &str) -> (p: Piece<'a>)
    ensures
        p is More,
        p->More_1@.len() <= rest@.len(),
        p.head() == ({
            let extra = if "LLVM_VERSION_LIST"@.is_prefix_of(marker@) {
                list@
            } else {
                Seq::empty()
            };
            let made = before@ + "<!-- GEN "@ + marker@ + " -->"@ + extra;
            if occurs(rest@, "<!-- RESUME -->"@) {
                Head::More(
                    made + "<!-- RESUME -->"@,
                    rest@.skip(first_at(rest@, "<!-- RESUME -->"@) + "<!-- RESUME -->"@.len()),
                )
            } else {
                Head::More(made, rest@)
            }
        }),
{
    let mut out = String::new();
    out.append(before);
    out.append("<!-- GEN ");
    out.append(marker);
    out.append(" -->");
    if starts_with(marker, "LLVM_VERSION_LIST") {
        out.append(list);
    }
    let ghost made = out@;
    match split_once(rest, "<!-- RESUME -->") {
        Some((skipped, tail)) => {
            proof {
                lemma_split(skipped@, "<!-- RESUME -->"@, tail@);
                lemma_first_at(rest@, "<!-- RESUME -->"@, skipped@.len() as int);
            }
            out.append("<!-- RESUME -->");
            Piece::More(out, tail)
        },
        None => Piece::More(out, rest),
    }
}

/// The first marker inside a line, made anew.
fn inline_piece<'a>(rem: &'a str, list: &str) -> (p: Piece<'a>)
    ensures
        p.head() == inline_head(rem@, list@),
        p is More ==> p->More_1@.len() < rem@.len(),
{
    proof {
        reveal(inline_head);
        reveal_strlit("<!-- GEN ");
    }
    match split_once(rem, "<!-- GEN ") {
        None => {
            let mut out = String::new();
            out.append(rem);
            Piece::Done(out)
        },
        Some((before, after)) => {
            proof {
                lemma_split(before@, "<!-- GEN "@, after@);
                lemma_first_at(rem@, "<!-- GEN "@, before@.len() as int);
            }
            if starts_with(after, "-->") {
                return Piece::Fail;
            }
            match split_once(after, " -->") {
                None => {
                    let mut out = String::new();
                    out.append(before);
                    out.append("<!-- GEN ");
                    out.append(after);
                    Piece::Done(out)
                },
                Some((marker, rest)) => {
                    proof {
                        lemma_split(marker@, " -->"@, rest@);
                        lemma_first_at(after@, " -->"@, marker@.len() as int);
                    }
                    after_marker(before, marker, rest, list)
                },
            }
        },
    }
}

/// A line with markers inside it, made anew; nothing where a marker has no
/// content at all.
pub fn inline_line(l: &str, list: &str) -> (r: Option<String>)
    ensures
        r is Some <==> inline_text(l@, list@) is Some,
        r is Some ==> r->0@ == inline_text(l@, list@)->0,
{
    let mut out = String::new();
    let mut rem = l;
    loop
        invariant
            inline_text(l@, list@) == match inline_text(rem@, list@) {
                Some(t) => Some(out@ + t),
                None => None,
            },
        decreases rem@.len(),
    {
        let ghost start = out@;
        match inline_piece(rem, list) {
            Piece::Done(t) => {
                out.append(t.as_str());
                return Some(out);
            },
            Piece::Fail => {
                return None;
            },
            Piece::More(made, tail) => {
                out.append(made.as_str());
                proof {
                    match inline_text(tail@, list@) {
                        Some(t) => {
                            assert(start + (made@ + t) =~= out@ + t);
                        },
                        None => {},
                    }
                }
                rem = tail;
            },
        }
    }
}

/// The texts that are made for the markers of a document from a table of
/// versions.
pub open spec fn made_from(t: Table) -> Made {
    Made { table: table_text(t), list: list_text(t), flags: flags_text(t) }
}

/// What a marker line that opens a block contributes: the line `l` and,
/// if the marker is of kind `kind`, `block` and `close`. `p` is what follows
/// the opening of the marker in the line; its kind is what is left of it
/// when every ` -->` at its end is taken away.
pub fn block_start(l: &str, p: &str, kind: &str, block: &str, close: &str) -> (s: String)
    ensures
        s@ == l@ + "\n"@ + (if kind@.is_prefix_of(trim_end(p@, " -->"@)) {
            block@ + close@
        } else {
            Seq::empty()
        }),
{
    proof {
        reveal_strlit(" -->");
    }
    let mut s = String::new();
    s.append(l);
    s.append("\n");
    if starts_with(trim_end_matches(p, " -->"), kind) {
        s.append(block);
        s.append(close);
    }
    proof {
        assert(s@ =~= l@ + "\n"@ + (if kind@.is_prefix_of(trim_end(p@, " -->"@)) {
            block@ + close@
        } else {
            Seq::empty()
        }));
    }
    s
}

/// One line of a document: whether the lines after it are left out, and
/// what the line contributes; nothing where the line cannot be made anew.
fn document_line(in_block: bool, l: &str, table: &str, list: &str, flags: &str) -> (r: Option<
    (bool, String),
>)
    ensures
        match r {
            Some((b, t)) => step(
                in_block,
                l@,
                Made { table: table@, list: list@, flags: flags@ },
            ) == Some((b, t@)),
            None => step(in_block, l@, Made { table: table@, list: list@, flags: flags@ })
                is None,
        },
{
    if contains(l, "<!-- GEN ") && contains(l, "<!-- RESUME -->") && !starts_with(l, "<!-- GEN ") {
        return match inline_line(l, list) {
            Some(t) => {
                let mut t = t;
                t.append("\n");
                Some((in_block, t))
            },
            None => None,
        };
    }
    match strip_prefix(l, "<!-- GEN ") {
        Some(p) => {
            proof {
                assert(p@ =~= l@.skip("<!-- GEN "@.len() as int));
                assert("<!-- GEN "@.is_prefix_of(l@));
                reveal_strlit("");
                assert(table@ + ""@ =~= table@);
            }
            return Some((true, block_start(l, p, "LLVM_VERSION_TABLE", table, "")));
        },
        None => {},
    }
    match strip_prefix(l, "//! <!-- GEN ") {
        Some(p) => {
            proof {
                assert(p@ =~= l@.skip("//! <!-- GEN "@.len() as int));
                assert("//! <!-- GEN "@.is_prefix_of(l@));
            }
            return Some((true, block_start(l, p, "FEATURE_FLAGS", flags, "\n")));
        },
        None => {},
    }
    if in_block && !same(l, "<!-- RESUME -->") && !same(l, "//! <!-- RESUME -->") {
        return Some((true, String::new()));
    }
    let mut s = String::new();
    s.append(l);
    s.append("\n");
    Some((false, s))
}

/// A document made anew from its lines: the result holds each kept line and
/// each made text with a line break after it. The result is nothing where a
/// marker inside a line has no content at all.
pub fn process_lines(lines: &[&str], table: &[(&'static str, &'static str)]) -> (r: Option<
    String,
>)
    requires
        well_formed(table@),
    ensures
        match r {
            Some(t) => document_text(slices(lines@), made_from(rows_of(table@))) == Some(t@),
            None => document_text(slices(lines@), made_from(rows_of(table@))) is None,
        },
{
    let table_text = version_table(table);
    let list_text = version_list(table);
    let flags_text = feature_flags_doc(table);
    let ghost m = made_from(rows_of(table@));
    let mut s = String::new();
    let mut in_block = false;
    let mut i: usize = 0;
    while i < lines.len()
        invariant
            i <= lines@.len(),
            m == made_from(rows_of(table@)),
            m == (Made { table: table_text@, list: list_text@, flags: flags_text@ }),
            document_upto(slices(lines@), i as nat, m) == Some((in_block, s@)),
        decreases lines@.len() - i,
    {
        proof {
            assert(slices(lines@)[i as int] == lines@[i as int]@);
        }
        match document_line(
            in_block,
            lines[i],
            table_text.as_str(),
            list_text.as_str(),
            flags_text.as_str(),
        ) {
            Some((b, t)) => {
                in_block = b;
                s.append(t.as_str());
            },
            None => {
                proof {
                    assert(document_upto(slices(lines@), (i + 1) as nat, m) is None);
                    lemma_stays_none(slices(lines@), (i + 1) as nat, lines@.len() as nat, m);
                    assert(slices(lines@).len() == lines@.len());
                }
                return None;
            },
        }
        i = i + 1;
    }
    Some(s)
}

/// A document that cannot be made anew up to some line cannot be made anew
/// at all.
pub proof fn lemma_stays_none(lines: Seq<Seq<char>>, n: nat, k: nat, m: Made)
    requires
        n <= k,
        document_upto(lines, n, m) is None,
    ensures
        document_upto(lines, k, m) is None,
    decreases k,
{
    if n < k {
        lemma_stays_none(lines, n, (k - 1) as nat, m);
    }
}

/// A document made anew from its text; nothing where a marker inside a line
/// has no content at all.
pub fn process_markers(text: &str, table: &[(&'static str, &'static str)]) -> (r: Option<String>)
    requires
        well_formed(table@),
    ensures
        match r {
            Some(t) => document_text(lines_of(text@), made_from(rows_of(table@))) == Some(t@),
            None => document_text(lines_of(text@), made_from(rows_of(table@))) is None,
        },
{
    let ls = lines(text);
    process_lines(ls.as_slice(), table)
}

} // verus!
