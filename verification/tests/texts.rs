use minigames::text::{
    ends_with, from_chars, get_file_name, get_file_stem, has_file_name, push_decimal,
    push_decimal_nat, remove_all, same_text, to_chars,
};

#[test]
fn file_name_is_the_last_component() {
    assert_eq!(get_file_name("./assets/dino/fragments/rex_b.png"), "rex_b.png");
    assert_eq!(get_file_name("rex_b.png"), "rex_b.png");
    assert_eq!(get_file_name("/rex"), "rex");
    assert_eq!(get_file_name("a//b"), "b");
    assert_eq!(get_file_name("a/./b"), "b");
    assert_eq!(get_file_name("a/..."), "...");
}

#[test]
fn not_every_path_names_a_file() {
    for path in ["rex_b.png", "a/b", "/rex", ".hidden", "a/.b", "a/...", "a/..b", "x"] {
        assert!(has_file_name(path));
        assert!(std::path::Path::new(path).file_name().is_some());
    }
    for path in ["", "/", "a/", "a/b/", ".", "..", "a/.", "a/..", "./", "../"] {
        assert!(!has_file_name(path));
    }
    // Where a path names a file, the standard library finds the same name.
    for path in ["a/b/rex_b.png", "/x", "a//b", "a/./b", "../c", "./d.e"] {
        assert!(has_file_name(path));
        let expected = std::path::Path::new(path).file_name().unwrap().to_str().unwrap();
        assert_eq!(get_file_name(path), expected);
    }
}

#[test]
fn file_stem_drops_the_last_extension() {
    assert_eq!(get_file_stem("./assets/dino/fragments/rex_b.png"), "rex_b");
    assert_eq!(get_file_stem("archive.tar.gz"), "archive.tar");
    assert_eq!(get_file_stem("noext"), "noext");
    assert_eq!(get_file_stem("dir.d/file"), "file");
    assert_eq!(get_file_stem("trailing."), "trailing");
}

#[test]
fn a_leading_dot_is_no_extension() {
    assert_eq!(get_file_stem(".hidden"), ".hidden");
    assert_eq!(get_file_stem("dir/.hidden"), ".hidden");
    assert_eq!(get_file_stem(".hidden.png"), ".hidden");
}

#[test]
fn file_stem_agrees_with_the_standard_library_on_plain_names() {
    for path in ["a/b/rex_b.png", "grin_m.png", ".hidden", "archive.tar.gz", "noext", "x/.y.z"] {
        let expected = std::path::Path::new(path).file_stem().unwrap().to_str().unwrap();
        assert_eq!(get_file_stem(path), expected);
        let name = std::path::Path::new(path).file_name().unwrap().to_str().unwrap();
        assert_eq!(get_file_name(path), name);
    }
}

#[test]
fn ends_with_compares_the_tail() {
    assert!(ends_with("rex_b", "_b"));
    assert!(!ends_with("rex_b", "_m"));
    assert!(ends_with("rex_b", ""));
    assert!(ends_with("_b", "_b"));
    assert!(!ends_with("b", "_b"));
    assert!(!ends_with("", "_b"));
    assert!(!ends_with("_bx", "_b"));
}

#[test]
fn remove_all_takes_every_occurrence_out() {
    assert_eq!(remove_all("rex_b", "_b"), "rex");
    assert_eq!(remove_all("a_bc_b", "_b"), "ac");
    assert_eq!(remove_all("_b_b", "_b"), "");
    assert_eq!(remove_all("rex", "_b"), "rex");
    assert_eq!(remove_all("", "_b"), "");
    assert_eq!(remove_all("__b", "_b"), "_");
    assert_eq!(remove_all("aaa", "aa"), "a");
}

#[test]
fn remove_all_agrees_with_the_standard_library() {
    for text in ["rex_b", "a_bc_b", "_b_b", "__bb", "_", "b_", "_b", "x_by_bz"] {
        assert_eq!(remove_all(text, "_b"), text.replace("_b", ""));
    }
}

#[test]
fn an_empty_pattern_takes_nothing_out() {
    assert_eq!(remove_all("rex", ""), "rex");
}

#[test]
fn same_text_compares_contents() {
    assert!(same_text("duel-btn", "duel-btn"));
    assert!(!same_text("duel-btn", "rps-btn"));
    assert!(!same_text("duel-btn", "duel-btn "));
    assert!(same_text("", ""));
}

#[test]
fn characters_round_trip() {
    let chars = to_chars("héllo");
    assert_eq!(chars, vec!['h', 'é', 'l', 'l', 'o']);
    assert_eq!(from_chars(&chars, 0, 5), "héllo");
    assert_eq!(from_chars(&chars, 1, 3), "él");
    assert_eq!(from_chars(&chars, 2, 2), "");
}

#[test]
fn decimals_are_written_without_leading_zeros() {
    for n in [0u64, 7, 10, 42, 99, 100, 1234567890, u64::MAX] {
        let mut out = String::from("n=");
        push_decimal_nat(&mut out, n);
        assert_eq!(out, format!("n={}", n));
    }
}

#[test]
fn negative_decimals_carry_a_sign() {
    for n in [0i64, -1, 1, -10, 255, -4096, i64::MAX, i64::MIN] {
        let mut out = String::new();
        push_decimal(&mut out, n);
        assert_eq!(out, format!("{}", n));
    }
}
