//! Build manifests: the lines between a `# GEN` marker and the next
//! `# RESUME` marker are made anew from the table of versions.

use vstd::prelude::*;
use vstd::string::*;
use crate::lines::{lines, lines_of};
use crate::text::{join, joined, slices, starts_with, strip_prefix, texts};
use crate::versions::{rows_of, Table};

verus! {

/// The rows one after another.
pub open spec fn concat(rows: Seq<Seq<char>>) -> Seq<char>
    decreases rows.len(),
{
    if rows.len() == 0 {
        Seq::empty()
    } else {
        concat(rows.drop_last()) + rows.last()
    }
}

/// One more row at the end of a text of rows.
pub proof fn lemma_concat_take(rows: Seq<Seq<char>>, i: int)
    requires
        0 <= i < rows.len(),
    ensures
        concat(rows.take(i + 1)) == concat(rows.take(i)) + rows[i],
{
    assert(rows.take(i + 1).drop_last() =~= rows.take(i));
}

/// The dependency on the binding of one version, as the workspace states it.
pub open spec fn root_dep_row(v: (Seq<char>, Seq<char>)) -> Seq<char> {
    "llvm-sys-"@ + v.0 + "={version=\"^"@ + v.1 + "\",package=\"llvm-sys\"}\n"@
}

pub open spec fn root_dep_rows(t: Table) -> Seq<Seq<char>> {
    Seq::new(t.len(), |i: int| root_dep_row(t[i]))
}

/// The dependency on the binding of one version, as a member of the
/// workspace states it.
pub open spec fn member_dep_row(v: (Seq<char>, Seq<char>)) -> Seq<char> {
    "llvm-sys-"@ + v.0 + "={workspace=true,optional=true}\n"@
}

pub open spec fn member_dep_rows(t: Table) -> Seq<Seq<char>> {
    Seq::new(t.len(), |i: int| member_dep_row(t[i]))
}

/// What the feature switch of version `id` turns on: the binding of that
/// version, and the same switch in each crate of `deps`.
pub open spec fn feature_items(id: Seq<char>, deps: Seq<Seq<char>>) -> Seq<Seq<char>> {
    seq!["\"dep:llvm-sys-"@ + id + "\""@] + Seq::new(
        deps.len(),
        |i: int| deps[i] + "/llvm-sys-"@ + id,
    )
}

/// The feature switch of one version.
pub open spec fn feature_row(v: (Seq<char>, Seq<char>), deps: Seq<Seq<char>>) -> Seq<char> {
    "llvm-sys-"@ + v.0 + "=["@ + joined(feature_items(v.0, deps), ","@) + "]\n"@
}

pub open spec fn feature_rows(t: Table, deps: Seq<Seq<char>>) -> Seq<Seq<char>> {
    Seq::new(t.len(), |i: int| feature_row(t[i], deps))
}

/// The dependency on the sibling crate `d` at version `ver`.
pub open spec fn sibling_row(d: Seq<char>, ver: Seq<char>) -> Seq<char> {
    d + " = { version = \""@ + ver + "\", path = \"../"@ + d + "\", package = \"px-"@ + d
        + "\" }"@ + "\n"@
}

/// The sibling crates that a member depends on: those of `deps`, and the
/// crate of the version macros.
pub open spec fn siblings(deps: Seq<Seq<char>>) -> Seq<Seq<char>> {
    deps.push("llvm-codegen-utils-version-macros"@)
}

pub open spec fn sibling_rows(deps: Seq<Seq<char>>, ver: Seq<char>) -> Seq<Seq<char>> {
    Seq::new(siblings(deps).len(), |i: int| sibling_row(siblings(deps)[i], ver))
}

/// The line that states the version of a crate.
pub open spec fn version_row(ver: Seq<char>) -> Seq<char> {
    "version = \""@ + ver + "\"\n"@
}

/// What is made for a marker in the manifest of the workspace.
pub open spec fn root_block(marker: Seq<char>, t: Table) -> Seq<char> {
    if "LLVM"@.is_prefix_of(marker) {
        concat(root_dep_rows(t))
    } else {
        Seq::empty()
    }
}

/// What is made for a marker in the manifest of a member: each kind of
/// marker has its rows, and a marker of no known kind has none.
pub open spec fn member_block(
    marker: Seq<char>,
    t: Table,
    deps: Seq<Seq<char>>,
    ver: Seq<char>,
) -> Seq<char> {
    (if "LLVM"@.is_prefix_of(marker) {
        concat(member_dep_rows(t))
    } else {
        Seq::empty()
    }) + (if "LL_FEATURES"@.is_prefix_of(marker) {
        concat(feature_rows(t, deps))
    } else {
        Seq::empty()
    }) + (if "LL_DEPS"@.is_prefix_of(marker) {
        concat(sibling_rows(deps, ver))
    } else {
        Seq::empty()
    }) + (if "VERSION"@.is_prefix_of(marker) {
        version_row(ver)
    } else {
        Seq::empty()
    })
}

/// What follows `# GEN ` in a marker line.
pub open spec fn marker_of(line: Seq<char>) -> Seq<char> {
    line.skip("# GEN "@.len() as int)
}

/// One line of a manifest: whether the lines after it are left out, and what
/// the line contributes. A `# GEN` line is kept and followed by `block`, and
/// the lines after it are left out; a `# RESUME` line is kept and ends that;
/// any other line is kept unless it is left out.
pub open spec fn step(generating: bool, line: Seq<char>, block: Seq<char>) -> (bool, Seq<char>) {
    let is_gen = "# GEN "@.is_prefix_of(line);
    let head = if is_gen {
        line + "\n"@ + block
    } else {
        Seq::empty()
    };
    let g = if "# RESUME"@.is_prefix_of(line) {
        false
    } else {
        generating || is_gen
    };
    (
        g,
        head + (if g {
            Seq::empty()
        } else {
            line + "\n"@
        }),
    )
}

/// The manifest of the workspace after its first `n` lines.
pub open spec fn root_upto(lines: Seq<Seq<char>>, n: nat, t: Table) -> (bool, Seq<char>)
    decreases n,
{
    if n == 0 {
        (false, Seq::empty())
    } else {
        let prev = root_upto(lines, (n - 1) as nat, t);
        let line = lines[n - 1];
        let next = step(prev.0, line, root_block(marker_of(line), t));
        (next.0, prev.1 + next.1)
    }
}

/// The manifest of a member after its first `n` lines.
pub open spec fn member_upto(
    lines: Seq<Seq<char>>,
    n: nat,
    t: Table,
    deps: Seq<Seq<char>>,
    ver: Seq<char>,
) -> (bool, Seq<char>)
    decreases n,
{
    if n == 0 {
        (false, Seq::empty())
    } else {
        let prev = member_upto(lines, (n - 1) as nat, t, deps, ver);
        let line = lines[n - 1];
        let next = step(prev.0, line, member_block(marker_of(line), t, deps, ver));
        (next.0, prev.1 + next.1)
    }
}

/// The dependencies on the bindings of all versions, as the workspace
/// states them.
pub fn root_dep_text(table: &[(&'static str, &'static str)]) -> (s: String)
    ensures
        s@ == concat(root_dep_rows(rows_of(table@))),
{
    let ghost rows = root_dep_rows(rows_of(table@));
    let mut s = String::new();
    let mut i: usize = 0;
    while i < table.len()
        invariant
            i <= table@.len(),
            rows == root_dep_rows(rows_of(table@)),
            s@ == concat(rows.take(i as int)),
        decreases table@.len() - i,
    {
        let (a, b) = table[i];
        let ghost before = s@;
        s.append("llvm-sys-");
        s.append(a);
        s.append("={version=\"^");
        s.append(b);
        s.append("\",package=\"llvm-sys\"}\n");
        proof {
            lemma_concat_take(rows, i as int);
            assert(s@ =~= before + rows[i as int]);
        }
        i = i + 1;
    }
    proof {
        assert(rows.take(i as int) =~= rows);
    }
    s
}

/// The dependencies on the bindings of all versions, as a member of the
/// workspace states them.
pub fn member_dep_text(table: &[(&'static str, &'static str)]) -> (s: String)
    ensures
        s@ == concat(member_dep_rows(rows_of(table@))),
{
    let ghost rows = member_dep_rows(rows_of(table@));
    let mut s = String::new();
    let mut i: usize = 0;
    while i < table.len()
        invariant
            i <= table@.len(),
            rows == member_dep_rows(rows_of(table@)),
            s@ == concat(rows.take(i as int)),
        decreases table@.len() - i,
    {
        let ghost before = s@;
        s.append("llvm-sys-");
        s.append(table[i].0);
        s.append("={workspace=true,optional=true}\n");
        proof {
            lemma_concat_take(rows, i as int);
            assert(s@ =~= before + rows[i as int]);
        }
        i = i + 1;
    }
    proof {
        assert(rows.take(i as int) =~= rows);
    }
    s
}

/// The strings of `parts` in order, with `sep` between each two neighbours,
/// put together one by one.
pub fn join_one_by_one(parts: &Vec<String>, sep: &str) -> (s: String)
    ensures
        s@ == joined(texts(parts@), sep@),
{
    let ghost all = texts(parts@);
    let mut s = String::new();
    let mut i: usize = 0;
    while i < parts.len()
        invariant
            i <= parts@.len(),
            all == texts(parts@),
            s@ == joined(all.take(i as int), sep@),
        decreases parts@.len() - i,
    {
        let ghost before = s@;
        if i > 0 {
            s.append(sep);
        }
        s.append(parts[i].as_str());
        proof {
            assert(all.take(i + 1).drop_last() =~= all.take(i as int));
            assert(all.take(i + 1).last() == parts@[i as int]@);
            if i > 0 {
                assert(s@ =~= before + sep@ + parts@[i as int]@);
            } else {
                assert(s@ =~= parts@[0]@);
            }
        }
        i = i + 1;
    }
    proof {
        assert(all.take(i as int) =~= all);
    }
    s
}

/// The strings of `parts` in order, with commas between them. Lists of any
/// length that a machine can hold are joined in one go; a longer one would
/// be put together string by string.
fn join_with_commas(parts: &Vec<String>) -> (s: String)
    ensures
        s@ == joined(texts(parts@), ","@),
{
    if parts.len() <= isize::MAX as usize {
        proof {
            reveal_strlit(",");
            broadcast use is_ascii_spec_bytes;

            assert(",".is_ascii());
            assert(",".spec_bytes().len() == 1);
        }
        join(parts, ",")
    } else {
        join_one_by_one(parts, ",")
    }
}

/// What the feature switch of version `id` turns on.
fn feature_list(id: &str, deps: &[&str]) -> (parts: Vec<String>)
    ensures
        texts(parts@) == feature_items(id@, slices(deps@)),
{
    let ghost items = feature_items(id@, slices(deps@));
    let mut parts: Vec<String> = Vec::new();
    let mut first = String::new();
    first.append("\"dep:llvm-sys-");
    first.append(id);
    first.append("\"");
    proof {
        assert(first@ =~= items[0]);
    }
    parts.push(first);
    proof {
        assert(texts(parts@) =~= items.take(1));
    }
    let mut i: usize = 0;
    while i < deps.len()
        invariant
            i <= deps@.len(),
            items == feature_items(id@, slices(deps@)),
            items.len() == deps@.len() + 1,
            parts@.len() == i + 1,
            texts(parts@) == items.take(i + 1),
        decreases deps@.len() - i,
    {
        let mut item = String::new();
        item.append(deps[i]);
        item.append("/llvm-sys-");
        item.append(id);
        proof {
            assert(item@ =~= items[i + 1]);
        }
        let ghost earlier = parts@;
        parts.push(item);
        proof {
            assert forall|k: int| 0 <= k < i + 2 implies texts(parts@)[k] == items[k] by {
                if k <= i {
                    assert(texts(earlier)[k] == items.take(i + 1)[k]);
                }
            }
            assert(texts(parts@) =~= items.take(i + 2));
        }
        i = i + 1;
    }
    proof {
        assert(items.take(i + 1) =~= items);
        assert(texts(parts@).len() == parts@.len());
    }
    parts
}

/// The feature switches of all versions.
pub fn feature_text(table: &[(&'static str, &'static str)], deps: &[&str]) -> (s: String)
    ensures
        s@ == concat(feature_rows(rows_of(table@), slices(deps@))),
{
    let ghost rows = feature_rows(rows_of(table@), slices(deps@));
    let mut s = String::new();
    let mut i: usize = 0;
    while i < table.len()
        invariant
            i <= table@.len(),
            rows == feature_rows(rows_of(table@), slices(deps@)),
            s@ == concat(rows.take(i as int)),
        decreases table@.len() - i,
    {
        let a = table[i].0;
        let ghost before = s@;
        let parts = feature_list(a, deps);
        let x = join_with_commas(&parts);
        s.append("llvm-sys-");
        s.append(a);
        s.append("=[");
        s.append(x.as_str());
        s.append("]\n");
        proof {
            lemma_concat_take(rows, i as int);
            assert(s@ =~= before + rows[i as int]);
        }
        i = i + 1;
    }
    proof {
        assert(rows.take(i as int) =~= rows);
    }
    s
}

/// The dependency on one sibling crate.
fn sibling_line(d: &str, ver: &str) -> (s: String)
    ensures
        s@ == sibling_row(d@, ver@),
{
    let mut s = String::new();
    s.append(d);
    s.append(" = { version = \"");
    s.append(ver);
    s.append("\", path = \"../");
    s.append(d);
    s.append("\", package = \"px-");
    s.append(d);
    s.append("\" }");
    s.append("\n");
    proof {
        assert(s@ =~= sibling_row(d@, ver@));
    }
    s
}

/// The dependencies on the sibling crates: those of `deps`, then the crate
/// of the version macros.
pub fn sibling_text(deps: &[&str], ver: &str) -> (s: String)
    ensures
        s@ == concat(sibling_rows(slices(deps@), ver@)),
{
    let ghost rows = sibling_rows(slices(deps@), ver@);
    let mut s = String::new();
    let mut i: usize = 0;
    while i < deps.len()
        invariant
            i <= deps@.len(),
            rows == sibling_rows(slices(deps@), ver@),
            s@ == concat(rows.take(i as int)),
        decreases deps@.len() - i,
    {
        let ghost before = s@;
        let line = sibling_line(deps[i], ver);
        s.append(line.as_str());
        proof {
            lemma_concat_take(rows, i as int);
            assert(s@ =~= before + rows[i as int]);
        }
        i = i + 1;
    }
    let ghost before = s@;
    let line = sibling_line("llvm-codegen-utils-version-macros", ver);
    s.append(line.as_str());
    proof {
        lemma_concat_take(rows, i as int);
        assert(rows.take(i + 1) =~= rows);
    }
    s
}

/// The line that states the version of a crate.
pub fn version_line(ver: &str) -> (s: String)
    ensures
        s@ == version_row(ver@),
{
    let mut s = String::new();
    s.append("version = \"");
    s.append(ver);
    s.append("\"\n");
    proof {
        assert(s@ =~= version_row(ver@));
    }
    s
}

/// What is made for a marker in the manifest of a member.
fn member_block_text(
    marker: &str,
    table: &[(&'static str, &'static str)],
    deps: &[&str],
    ver: &str,
) -> (s: String)
    ensures
        s@ == member_block(marker@, rows_of(table@), slices(deps@), ver@),
{
    let mut s = String::new();
    if starts_with(marker, "LLVM") {
        s.append(member_dep_text(table).as_str());
    }
    if starts_with(marker, "LL_FEATURES") {
        s.append(feature_text(table, deps).as_str());
    }
    if starts_with(marker, "LL_DEPS") {
        s.append(sibling_text(deps, ver).as_str());
    }
    if starts_with(marker, "VERSION") {
        s.append(version_line(ver).as_str());
    }
    proof {
        assert(s@ =~= member_block(marker@, rows_of(table@), slices(deps@), ver@));
    }
    s
}

/// One line of a manifest, with `block` made for it if it is a marker line:
/// whether the lines after it are left out, and what the line contributes.
fn line_text(generating: bool, l: &str, is_gen: bool, block: &str) -> (r: (bool, String))
    requires
        is_gen == "# GEN "@.is_prefix_of(l@),
    ensures
        (r.0, r.1@) == step(generating, l@, block@),
{
    let mut s = String::new();
    let mut g = generating;
    if is_gen {
        g = true;
        s.append(l);
        s.append("\n");
        s.append(block);
    }
    if starts_with(l, "# RESUME") {
        g = false;
    }
    if !g {
        s.append(l);
        s.append("\n");
    }
    proof {
        assert(s@ =~= step(generating, l@, block@).1);
    }
    (g, s)
}

/// One line of the manifest of the workspace.
fn root_line(generating: bool, l: &str, table: &[(&'static str, &'static str)]) -> (r: (
    bool,
    String,
))
    ensures
        (r.0, r.1@) == step(generating, l@, root_block(marker_of(l@), rows_of(table@))),
{
    match strip_prefix(l, "# GEN ") {
        Some(p) => {
            proof {
                assert(p@ =~= marker_of(l@));
                assert("# GEN "@.is_prefix_of(l@));
            }
            let block = if starts_with(p, "LLVM") {
                root_dep_text(table)
            } else {
                String::new()
            };
            line_text(generating, l, true, block.as_str())
        },
        None => {
            let r = line_text(generating, l, false, "");
            proof {
                let b = root_block(marker_of(l@), rows_of(table@));
                assert(step(generating, l@, ""@).1 =~= step(generating, l@, b).1);
            }
            r
        },
    }
}

/// One line of the manifest of a member.
fn member_line(
    generating: bool,
    l: &str,
    deps: &[&str],
    ver: &str,
    table: &[(&'static str, &'static str)],
) -> (r: (bool, String))
    ensures
        (r.0, r.1@) == step(
            generating,
            l@,
            member_block(marker_of(l@), rows_of(table@), slices(deps@), ver@),
        ),
{
    match strip_prefix(l, "# GEN ") {
        Some(p) => {
            proof {
                assert(p@ =~= marker_of(l@));
                assert("# GEN "@.is_prefix_of(l@));
            }
            let block = member_block_text(p, table, deps, ver);
            line_text(generating, l, true, block.as_str())
        },
        None => {
            let r = line_text(generating, l, false, "");
            proof {
                let b = member_block(marker_of(l@), rows_of(table@), slices(deps@), ver@);
                assert(step(generating, l@, ""@).1 =~= step(generating, l@, b).1);
            }
            r
        },
    }
}

/// The manifest of the workspace, made anew from its lines: the result
/// holds each kept line and each made row with a line break after it.
pub fn regenerate_root_lines(lines: &[&str], table: &[(&'static str, &'static str)]) -> (s:
    String)
    ensures
        s@ == root_text(slices(lines@), rows_of(table@)),
{
    let mut s = String::new();
    let mut generating = false;
    let mut i: usize = 0;
    while i < lines.len()
        invariant
            i <= lines@.len(),
            (generating, s@) == root_upto(slices(lines@), i as nat, rows_of(table@)),
        decreases lines@.len() - i,
    {
        let (g, text) = root_line(generating, lines[i], table);
        proof {
            assert(slices(lines@)[i as int] == lines@[i as int]@);
        }
        generating = g;
        s.append(text.as_str());
        i = i + 1;
    }
    s
}

/// The manifest of a member of the workspace, made anew from its lines.
/// `deps` are the sibling crates that the member depends on and `ver` is
/// the version of the workspace.
pub fn regenerate_member_lines(
    lines: &[&str],
    deps: &[&str],
    ver: &str,
    table: &[(&'static str, &'static str)],
) -> (s: String)
    ensures
        s@ == member_text(slices(lines@), rows_of(table@), slices(deps@), ver@),
{
    let mut s = String::new();
    let mut generating = false;
    let mut i: usize = 0;
    while i < lines.len()
        invariant
            i <= lines@.len(),
            (generating, s@) == member_upto(
                slices(lines@),
                i as nat,
                rows_of(table@),
                slices(deps@),
                ver@,
            ),
        decreases lines@.len() - i,
    {
        let (g, text) = member_line(generating, lines[i], deps, ver, table);
        proof {
            assert(slices(lines@)[i as int] == lines@[i as int]@);
        }
        generating = g;
        s.append(text.as_str());
        i = i + 1;
    }
    s
}

/// The manifest of the workspace with the lines `lines`, made anew.
pub open spec fn root_text(lines: Seq<Seq<char>>, t: Table) -> Seq<char> {
    root_upto(lines, lines.len(), t).1
}

/// The manifest of a member with the lines `lines`, made anew.
pub open spec fn member_text(
    lines: Seq<Seq<char>>,
    t: Table,
    deps: Seq<Seq<char>>,
    ver: Seq<char>,
) -> Seq<char> {
    member_upto(lines, lines.len(), t, deps, ver).1
}

/// The manifest of the workspace, made anew from its text.
pub fn regenerate_root_manifest(text: &str, table: &[(&'static str, &'static str)]) -> (s: String)
    ensures
        s@ == root_text(lines_of(text@), rows_of(table@)),
{
    let ls = lines(text);
    proof {
        assert(slices(ls@).len() == ls@.len());
    }
    regenerate_root_lines(ls.as_slice(), table)
}

/// The manifest of a member of the workspace, made anew from its text.
/// `deps` is the list of sibling crates that the member depends on, one on
/// each line, and `ver` the version of the workspace.
pub fn regenerate_manifest(
    text: &str,
    deps: &str,
    ver: &str,
    table: &[(&'static str, &'static str)],
) -> (s: String)
    ensures
        s@ == member_text(lines_of(text@), rows_of(table@), lines_of(deps@), ver@),
{
    let ls = lines(text);
    let ds = lines(deps);
    proof {
        assert(slices(ls@).len() == ls@.len());
        assert(slices(ds@).len() == ds@.len());
    }
    regenerate_member_lines(ls.as_slice(), ds.as_slice(), ver, table)
}

} // verus!
