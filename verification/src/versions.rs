//! The backend versions that the layer is made for, and the texts that list
//! them: a table, a line and the documentation of the feature switches.

use vstd::prelude::*;
use vstd::string::*;
use crate::tags::Ver;

verus! {

/// A table of versions as mathematics: each row is the identifier of a
/// backend version and the version of the binding that goes with it.
pub type Table = Seq<(Seq<char>, Seq<char>)>;

/// The rows of an executable table.
pub open spec fn rows_of(t: Seq<(&'static str, &'static str)>) -> Table {
    Seq::new(t.len(), |i: int| (t[i].0@, t[i].1@))
}

/// Every identifier is made of ASCII characters, at least one.
pub open spec fn well_formed(t: Seq<(&'static str, &'static str)>) -> bool {
    forall|i: int| 0 <= i < t.len() ==> (#[trigger] t[i]).0.is_ascii() && t[i].0@.len() > 0
}

/// The supported versions.
pub open spec fn llvm_table() -> Table {
    seq![("190"@, "191"@), ("180"@, "181"@), ("200"@, "201"@), ("210"@, "211"@)]
}

/// The supported versions, in the order in which they are listed everywhere.
pub open spec fn supported() -> Seq<Ver> {
    seq![Ver::V190, Ver::V180, Ver::V200, Ver::V210]
}

impl Ver {
    /// The row of the version in the table: its identifier and the version
    /// of the binding that goes with it.
    pub open spec fn row_of(self) -> (Seq<char>, Seq<char>) {
        match self {
            Ver::V190 => ("190"@, "191"@),
            Ver::V180 => ("180"@, "181"@),
            Ver::V200 => ("200"@, "201"@),
            Ver::V210 => ("210"@, "211"@),
        }
    }

    /// The identifier of the version.
    pub fn id(self) -> (s: &'static str)
        ensures
            s@ == self.row_of().0,
    {
        match self {
            Ver::V190 => "190",
            Ver::V180 => "180",
            Ver::V200 => "200",
            Ver::V210 => "210",
        }
    }
}

/// The table of versions holds one row for each supported version, in
/// order.
pub proof fn lemma_table_of_supported()
    ensures
        llvm_table().len() == supported().len(),
        forall|i: int| 0 <= i < supported().len() ==> llvm_table()[i] == supported()[i].row_of(),
{
}

/// The supported versions: identifier and version of the binding, in the
/// order in which they are listed everywhere.
pub fn llvms() -> (t: Vec<(&'static str, &'static str)>)
    ensures
        rows_of(t@) == llvm_table(),
        t@.len() == 4,
        well_formed(t@),
{
    let t = vec![("190", "191"), ("180", "181"), ("200", "201"), ("210", "211")];
    proof {
        reveal_strlit("190");
        reveal_strlit("180");
        reveal_strlit("200");
        reveal_strlit("210");
        assert(rows_of(t@) =~= llvm_table());
    }
    t
}

/// The major version in an identifier: all of it but the last character.
pub open spec fn major(id: Seq<char>) -> Seq<char> {
    id.drop_last()
}

/// The major versions of the first `n` rows, separated by a comma and a
/// space.
pub open spec fn list_upto(t: Table, n: nat) -> Seq<char>
    decreases n,
{
    if n == 0 {
        Seq::empty()
    } else if n == 1 {
        major(t[0].0)
    } else {
        list_upto(t, (n - 1) as nat) + ", "@ + major(t[n - 1].0)
    }
}

/// One row of the table of versions.
pub open spec fn table_row(v: (Seq<char>, Seq<char>)) -> Seq<char> {
    "| LLVM "@ + major(v.0) + "      | `llvm-sys-"@ + v.0 + "` | ^"@ + v.1 + "           |\n"@
}

/// The head of the table of versions and its first `n` rows.
pub open spec fn table_upto(t: Table, n: nat) -> Seq<char>
    decreases n,
{
    if n == 0 {
        "| LLVM Version | Feature Flag | llvm-sys Version |\n"@
            + "|--------------|--------------|------------------|\n"@
    } else {
        table_upto(t, (n - 1) as nat) + table_row(t[n - 1])
    }
}

/// The documentation line of one feature switch.
pub open spec fn flag_line(v: (Seq<char>, Seq<char>)) -> Seq<char> {
    "//! - `llvm-sys-"@ + v.0 + "` - LLVM "@ + major(v.0)
}

/// The documentation lines of the first `n` feature switches, separated by
/// line breaks.
pub open spec fn flags_upto(t: Table, n: nat) -> Seq<char>
    decreases n,
{
    if n == 0 {
        Seq::empty()
    } else if n == 1 {
        flag_line(t[0])
    } else {
        flags_upto(t, (n - 1) as nat) + "\n"@ + flag_line(t[n - 1])
    }
}

/// The table of the versions in `t`, in Markdown: a head and one row for
/// each version.
pub open spec fn table_text(t: Table) -> Seq<char> {
    table_upto(t, t.len())
}

/// The major versions in `t`, separated by a comma and a space.
pub open spec fn list_text(t: Table) -> Seq<char> {
    list_upto(t, t.len())
}

/// The documentation lines of the feature switches of `t`, separated by
/// line breaks.
pub open spec fn flags_text(t: Table) -> Seq<char> {
    flags_upto(t, t.len())
}

/// The name of the feature switch of a version.
pub fn feature_flag(id: &str) -> (s: String)
    ensures
        s@ == "llvm-sys-"@ + id@,
{
    let mut s = String::new();
    s.append("llvm-sys-");
    s.append(id);
    proof {
        assert(s@ =~= "llvm-sys-"@ + id@);
    }
    s
}

/// The name under which the raw entry points of a version are reached.
pub fn namespace(id: &str) -> (s: String)
    ensures
        s@ == "llvm_sys_"@ + id@,
{
    let mut s = String::new();
    s.append("llvm_sys_");
    s.append(id);
    proof {
        assert(s@ =~= "llvm_sys_"@ + id@);
    }
    s
}

/// The major version in an identifier.
fn major_of(id: &'static str) -> (m: &'static str)
    requires
        id.is_ascii(),
        id@.len() > 0,
    ensures
        m@ == major(id@),
{
    let n = id.unicode_len();
    id.substring_ascii(0, n - 1)
}

/// The table of the versions in `table`, in Markdown.
pub fn version_table(table: &[(&'static str, &'static str)]) -> (s: String)
    requires
        well_formed(table@),
    ensures
        s@ == table_text(rows_of(table@)),
{
    let mut s = String::new();
    s.append("| LLVM Version | Feature Flag | llvm-sys Version |\n");
    s.append("|--------------|--------------|------------------|\n");
    let mut i: usize = 0;
    while i < table.len()
        invariant
            i <= table@.len(),
            well_formed(table@),
            s@ == table_upto(rows_of(table@), i as nat),
        decreases table@.len() - i,
    {
        let (id, sys) = table[i];
        let ghost before = s@;
        s.append("| LLVM ");
        s.append(major_of(id));
        s.append("      | `llvm-sys-");
        s.append(id);
        s.append("` | ^");
        s.append(sys);
        s.append("           |\n");
        proof {
            assert(s@ =~= before + table_row(rows_of(table@)[i as int]));
        }
        i = i + 1;
    }
    s
}

/// The major versions in `table`, separated by a comma and a space.
pub fn version_list(table: &[(&'static str, &'static str)]) -> (s: String)
    requires
        well_formed(table@),
    ensures
        s@ == list_text(rows_of(table@)),
{
    let mut s = String::new();
    let mut i: usize = 0;
    while i < table.len()
        invariant
            i <= table@.len(),
            well_formed(table@),
            s@ == list_upto(rows_of(table@), i as nat),
        decreases table@.len() - i,
    {
        let ghost before = s@;
        if i > 0 {
            s.append(", ");
        }
        s.append(major_of(table[i].0));
        proof {
            if i > 0 {
                assert(s@ =~= before + ", "@ + major(rows_of(table@)[i as int].0));
            } else {
                assert(s@ =~= major(rows_of(table@)[0].0));
            }
        }
        i = i + 1;
    }
    s
}

/// The documentation lines of the feature switches of `table`, separated by
/// line breaks.
pub fn feature_flags_doc(table: &[(&'static str, &'static str)]) -> (s: String)
    requires
        well_formed(table@),
    ensures
        s@ == flags_text(rows_of(table@)),
{
    let mut s = String::new();
    let mut i: usize = 0;
    while i < table.len()
        invariant
            i <= table@.len(),
            well_formed(table@),
            s@ == flags_upto(rows_of(table@), i as nat),
        decreases table@.len() - i,
    {
        let ghost before = s@;
        let id = table[i].0;
        if i > 0 {
            s.append("\n");
        }
        s.append("//! - `llvm-sys-");
        s.append(id);
        s.append("` - LLVM ");
        s.append(major_of(id));
        proof {
            if i > 0 {
                assert(s@ =~= before + "\n"@ + flag_line(rows_of(table@)[i as int]));
            } else {
                assert(s@ =~= flag_line(rows_of(table@)[0]));
            }
        }
        i = i + 1;
    }
    s
}

/// The table of supported versions, in Markdown.
pub fn generate_llvm_version_table() -> (s: String)
    ensures
        s@ == table_text(llvm_table()),
{
    let t = llvms();
    version_table(t.as_slice())
}

/// The supported major versions, separated by a comma and a space.
pub fn generate_llvm_version_list() -> (s: String)
    ensures
        s@ == list_text(llvm_table()),
{
    let t = llvms();
    version_list(t.as_slice())
}

/// The documentation lines of the feature switches of the supported
/// versions.
pub fn generate_feature_flags_doc() -> (s: String)
    ensures
        s@ == flags_text(llvm_table()),
{
    let t = llvms();
    feature_flags_doc(t.as_slice())
}

} // verus!
