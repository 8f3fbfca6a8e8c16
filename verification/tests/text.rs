use dotman::text::{contains_text, is_space, owned, same_text, trim, trim_end, trim_start};

#[test]
fn same_text_compares_characters() {
    assert!(same_text("", ""));
    assert!(same_text("alpha", "alpha"));
    assert!(!same_text("alpha", "Alpha"));
    assert!(!same_text("alpha", "alph"));
    assert!(same_text("été", "été"));
}

#[test]
fn contains_text_finds_members() {
    let names = vec!["alpha".to_string(), "beta".to_string()];
    assert!(contains_text(&names, "alpha"));
    assert!(contains_text(&names, "beta"));
    assert!(!contains_text(&names, "gamma"));
    assert!(!contains_text(&names, ""));
    assert!(!contains_text(&vec![], "alpha"));
}

#[test]
fn owned_copies() {
    assert_eq!(owned("x y"), "x y".to_string());
}

#[test]
fn white_space_characters() {
    for c in [' ', '\t', '\n', '\r', '\u{000B}', '\u{000C}', '\u{0085}', '\u{00A0}', '\u{3000}'] {
        assert!(is_space(c), "{:?}", c);
    }
    for c in ['a', '0', '_', '/', '~', '\u{200B}', '\0'] {
        assert!(!is_space(c), "{:?}", c);
    }
    // the same characters as the standard library counts
    for code in 0u32..0x3100 {
        if let Some(c) = char::from_u32(code) {
            assert_eq!(is_space(c), c.is_whitespace(), "{:?}", c);
        }
    }
}

#[test]
fn trimming() {
    assert_eq!(trim_end("alpha \n"), "alpha");
    assert_eq!(trim_end("  alpha"), "  alpha");
    assert_eq!(trim_end(" \t\n"), "");
    assert_eq!(trim_end(""), "");
    assert_eq!(trim_start("\t alpha "), "alpha ");
    assert_eq!(trim_start("alpha"), "alpha");
    assert_eq!(trim(" \u{00A0}a b\r\n"), "a b");
    assert_eq!(trim("   "), "");
    assert_eq!(trim("é "), "é");
}
