use llvm_codegen_utils_core::manifest::{
    feature_text, join_one_by_one, member_dep_text, regenerate_manifest, regenerate_member_lines,
    regenerate_root_lines, regenerate_root_manifest, root_dep_text, sibling_text, version_line,
};
use llvm_codegen_utils_core::versions::llvms;

#[test]
fn workspace_dependencies_name_version_and_package() {
    assert_eq!(
        root_dep_text(&llvms()),
        "llvm-sys-190={version=\"^191\",package=\"llvm-sys\"}\n\
llvm-sys-180={version=\"^181\",package=\"llvm-sys\"}\n\
llvm-sys-200={version=\"^201\",package=\"llvm-sys\"}\n\
llvm-sys-210={version=\"^211\",package=\"llvm-sys\"}\n"
    );
    assert_eq!(root_dep_text(&[]), "");
}

#[test]
fn member_dependencies_are_optional_workspace_dependencies() {
    assert_eq!(
        member_dep_text(&[("190", "191"), ("180", "181")]),
        "llvm-sys-190={workspace=true,optional=true}\nllvm-sys-180={workspace=true,optional=true}\n"
    );
}

#[test]
fn feature_switch_turns_on_binding_and_sibling_switches() {
    let t = [("190", "191"), ("180", "181")];
    assert_eq!(
        feature_text(&t, &["a", "b"]),
        "llvm-sys-190=[\"dep:llvm-sys-190\",a/llvm-sys-190,b/llvm-sys-190]\n\
llvm-sys-180=[\"dep:llvm-sys-180\",a/llvm-sys-180,b/llvm-sys-180]\n"
    );
    assert_eq!(
        feature_text(&t[..1], &[]),
        "llvm-sys-190=[\"dep:llvm-sys-190\"]\n"
    );
}

#[test]
fn sibling_dependencies_end_with_the_version_macros() {
    assert_eq!(
        sibling_text(&["x"], "0.3.0"),
        "x = { version = \"0.3.0\", path = \"../x\", package = \"px-x\" }\n\
llvm-codegen-utils-version-macros = { version = \"0.3.0\", path = \"../llvm-codegen-utils-version-macros\", package = \"px-llvm-codegen-utils-version-macros\" }\n"
    );
    assert_eq!(
        sibling_text(&[], "1"),
        "llvm-codegen-utils-version-macros = { version = \"1\", path = \"../llvm-codegen-utils-version-macros\", package = \"px-llvm-codegen-utils-version-macros\" }\n"
    );
}

#[test]
fn version_line_quotes_the_version() {
    assert_eq!(version_line("0.1.2"), "version = \"0.1.2\"\n");
}

#[test]
fn root_manifest_replaces_what_stands_between_the_markers() {
    let lines = [
        "[workspace.dependencies]",
        "# GEN LLVM",
        "stale=1",
        "stale=2",
        "# RESUME",
        "other=\"1\"",
    ];
    let t = [("190", "191")];
    assert_eq!(
        regenerate_root_lines(&lines, &t),
        "[workspace.dependencies]\n# GEN LLVM\nllvm-sys-190={version=\"^191\",package=\"llvm-sys\"}\n# RESUME\nother=\"1\"\n"
    );
}

#[test]
fn root_manifest_without_markers_is_kept() {
    let lines = ["a", "", "b"];
    assert_eq!(regenerate_root_lines(&lines, &llvms()), "a\n\nb\n");
    assert_eq!(regenerate_root_lines(&[], &llvms()), "");
}

#[test]
fn marker_of_unknown_kind_empties_its_block() {
    let lines = ["# GEN OTHER", "old", "# RESUME now", "tail"];
    assert_eq!(
        regenerate_root_lines(&lines, &llvms()),
        "# GEN OTHER\n# RESUME now\ntail\n"
    );
}

#[test]
fn block_without_resume_runs_to_the_end() {
    let lines = ["head", "# GEN LLVM", "old", "older"];
    assert_eq!(
        regenerate_root_lines(&lines, &[("1", "2")]),
        "head\n# GEN LLVM\nllvm-sys-1={version=\"^2\",package=\"llvm-sys\"}\n"
    );
}

#[test]
fn member_manifest_makes_every_kind_of_block() {
    let lines = [
        "[package]",
        "# GEN VERSION",
        "version = \"0.0.0\"",
        "# RESUME",
        "[dependencies]",
        "# GEN LLVM",
        "# RESUME",
        "# GEN LL_DEPS",
        "gone",
        "# RESUME",
        "[features]",
        "# GEN LL_FEATURES",
        "# RESUME",
    ];
    let t = [("190", "191")];
    let out = regenerate_member_lines(&lines, &["core"], "0.2.0", &t);
    let expected = "[package]\n\
# GEN VERSION\n\
version = \"0.2.0\"\n\
# RESUME\n\
[dependencies]\n\
# GEN LLVM\n\
llvm-sys-190={workspace=true,optional=true}\n\
# RESUME\n\
# GEN LL_DEPS\n\
core = { version = \"0.2.0\", path = \"../core\", package = \"px-core\" }\n\
llvm-codegen-utils-version-macros = { version = \"0.2.0\", path = \"../llvm-codegen-utils-version-macros\", package = \"px-llvm-codegen-utils-version-macros\" }\n\
# RESUME\n\
[features]\n\
# GEN LL_FEATURES\n\
llvm-sys-190=[\"dep:llvm-sys-190\",core/llvm-sys-190]\n\
# RESUME\n";
    assert_eq!(out, expected);
}

#[test]
fn regenerating_twice_changes_nothing_more() {
    let lines = ["# GEN LLVM", "x", "# RESUME", "y"];
    let once = regenerate_member_lines(&lines, &[], "1", &llvms());
    assert_eq!(regenerate_manifest(&once, "", "1", &llvms()), once);
}

#[test]
fn root_manifest_from_its_text() {
    let text = "[workspace.dependencies]\n# GEN LLVM\nstale=1\n# RESUME\nother=\"1\"";
    assert_eq!(
        regenerate_root_manifest(text, &[("190", "191")]),
        "[workspace.dependencies]\n# GEN LLVM\nllvm-sys-190={version=\"^191\",package=\"llvm-sys\"}\n# RESUME\nother=\"1\"\n"
    );
    assert_eq!(regenerate_root_manifest("", &llvms()), "");
    assert_eq!(regenerate_root_manifest("a\r\nb\n", &llvms()), "a\nb\n");
}

#[test]
fn member_manifest_from_its_text_and_its_list_of_siblings() {
    let text = "# GEN LL_FEATURES\nold\n# RESUME\n# GEN LL_DEPS\n# RESUME\n";
    let out = regenerate_manifest(text, "a\nb\n", "2", &[("190", "191")]);
    let expected = "# GEN LL_FEATURES\n\
llvm-sys-190=[\"dep:llvm-sys-190\",a/llvm-sys-190,b/llvm-sys-190]\n\
# RESUME\n\
# GEN LL_DEPS\n\
a = { version = \"2\", path = \"../a\", package = \"px-a\" }\n\
b = { version = \"2\", path = \"../b\", package = \"px-b\" }\n\
llvm-codegen-utils-version-macros = { version = \"2\", path = \"../llvm-codegen-utils-version-macros\", package = \"px-llvm-codegen-utils-version-macros\" }\n\
# RESUME\n";
    assert_eq!(out, expected);
}

#[test]
fn version_with_its_line_break_is_taken_as_it_is() {
    assert_eq!(
        regenerate_manifest("# GEN VERSION\n# RESUME", "", "0.1.0\n", &llvms()),
        "# GEN VERSION\nversion = \"0.1.0\n\"\n# RESUME\n"
    );
}

#[test]
fn strings_are_joined_with_the_separator_between_them() {
    let parts = vec!["a".to_string(), "".to_string(), "bc".to_string()];
    assert_eq!(join_one_by_one(&parts, ", "), "a, , bc");
    assert_eq!(join_one_by_one(&parts[..1].to_vec(), ","), "a");
    assert_eq!(join_one_by_one(&Vec::new(), ","), "");
    assert_eq!(join_one_by_one(&parts, ""), "abc");
}
