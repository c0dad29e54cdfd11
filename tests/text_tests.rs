use sys_stats::text::{major_version, second_line, trimmed_output};

#[test]
fn major_version_of_dotted_strings() {
    assert_eq!(major_version("14.2.1"), 14);
    assert_eq!(major_version("13"), 13);
    assert_eq!(major_version("010.1"), 10);
    assert_eq!(major_version("+15.0"), 15);
    assert_eq!(major_version("255.0"), 255);
}

#[test]
fn major_version_unparseable_is_zero() {
    assert_eq!(major_version(""), 0);
    assert_eq!(major_version(".5"), 0);
    assert_eq!(major_version("abc"), 0);
    assert_eq!(major_version("256.1"), 0);
    assert_eq!(major_version("1a.2"), 0);
    assert_eq!(major_version("+"), 0);
    assert_eq!(major_version("-1.0"), 0);
}

#[test]
fn second_line_cases() {
    assert_eq!(second_line(&b"a\nbc\nd".to_vec()), Some(b"bc".to_vec()));
    assert_eq!(second_line(&b"a\nbc".to_vec()), Some(b"bc".to_vec()));
    assert_eq!(second_line(&b"a\n".to_vec()), Some(Vec::new()));
    assert_eq!(second_line(&b"abc".to_vec()), None);
    assert_eq!(second_line(&Vec::new()), None);
}

#[test]
fn trimmed_output_decodes_and_trims() {
    assert_eq!(trimmed_output(&b"  Apple M1 Pro\n".to_vec()), "Apple M1 Pro");
    assert_eq!(trimmed_output(&b"\xffA".to_vec()), "\u{FFFD}A");
    assert_eq!(trimmed_output(&Vec::new()), "");
}

#[test]
fn trimmed_output_strips_unicode_white_space_only() {
    assert_eq!(trimmed_output(&"\u{3000}\t x\u{a0}y\u{85}\u{2029}".as_bytes().to_vec()), "x\u{a0}y");
    assert_eq!(trimmed_output(&"\u{200b}x".as_bytes().to_vec()), "\u{200b}x");
    assert_eq!(trimmed_output(&" \r\n\u{2000} ".as_bytes().to_vec()), "");
}
