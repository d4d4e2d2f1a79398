use samply::text::{
    bytes_end_with, concat3, contains, decode, ends_with, file_name, join, same_bytes, starts_with,
    strip_prefix, trim_end_matches,
};
use std::path::Path;

#[test]
fn parts_of_texts() {
    assert!(starts_with("jit-12.dump", "jit-"));
    assert!(!starts_with("ji", "jit-"));
    assert!(ends_with("a.so", ".so"));
    assert!(!ends_with("so", ".so"));
    assert!(contains("/tmp/jitted-1.so", "/jitted-"));
    assert!(!contains("/tmp/jitted", "/jitted-"));
    assert!(contains("abc", ""));
    assert_eq!(strip_prefix("winsymbolserver:a/b", "winsymbolserver:"), Some("a/b"));
    assert_eq!(strip_prefix("a", "b"), None);
    assert_eq!(concat3("a", "b", "c"), "abc");
}

#[test]
fn all_repetitions_of_a_suffix_are_trimmed() {
    for text in ["xul.pdb", "xul.pdb.pdb", "pdb", "", ".pdb", "xül.pdb"] {
        assert_eq!(trim_end_matches(text, ".pdb"), text.trim_end_matches(".pdb"));
    }
}

#[test]
fn paths_are_joined_like_std_paths() {
    for base in ["", "/", "a", "a/", "/usr/lib", "/usr/lib/"] {
        for part in ["b", "/b", "b/c", "", "b/"] {
            let expected = Path::new(base).join(part);
            assert_eq!(join(base, part), expected.to_str().unwrap(), "{base:?} {part:?}");
        }
    }
}

#[test]
fn file_names_are_those_of_std_paths() {
    for path in [
        "", "/", "a", "a/", "/a", "/a/b.so", "a/..", "a/.", "./", ".", "..", "a//", "a/./", "a/b/.",
        "/usr/lib/./x", "a/b/./.", "a..", ".a", "//",
    ] {
        let expected = Path::new(path).file_name().and_then(|name| name.to_str());
        assert_eq!(file_name(path), expected, "{path:?}");
    }
}

#[test]
fn byte_strings() {
    assert_eq!(decode(b"abc"), Some("abc"));
    assert_eq!(decode("ü".as_bytes()), Some("ü"));
    assert_eq!(decode(&[0xff, 0x41]), None);
    assert!(bytes_end_with(b"a.exe", b".exe"));
    assert!(!bytes_end_with(b"exe", b".exe"));
    assert!(same_bytes(b"ab", b"ab"));
    assert!(!same_bytes(b"ab", b"ac"));
    assert!(!same_bytes(b"ab", b"a"));
}
