use llvm_codegen_utils_core::cname::CName;

#[test]
fn name_gets_a_closing_zero_byte() {
    let n = CName::new(b"entry").unwrap();
    assert_eq!(n.as_bytes_with_nul().as_slice(), b"entry\0");
    assert_eq!(n.len(), 5);
}

#[test]
fn empty_name_is_only_the_zero_byte() {
    let n = CName::new(b"").unwrap();
    assert_eq!(n.as_bytes_with_nul().as_slice(), b"\0");
    assert_eq!(n.len(), 0);
}

#[test]
fn name_with_inner_zero_byte_is_refused() {
    assert!(CName::new(b"a\0b").is_none());
    assert!(CName::new(b"\0").is_none());
    assert!(CName::new(b"ab\0").is_none());
}

#[test]
fn cloned_name_is_the_same_name() {
    let n = CName::new(b"f").unwrap();
    let m = n.clone();
    assert_eq!(n, m);
    assert_eq!(m.as_bytes_with_nul().as_slice(), b"f\0");
}
