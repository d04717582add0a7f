use penguincrab::cstr::{check_cstr, error_text, from_cstr, strerror_text, to_cstr, CStrCheck};

#[test]
fn to_cstr_accepts_a_terminated_path() {
    let s = "/mnt/0000fe00/test591\0";
    assert_eq!(to_cstr(s), Some(s));
    assert_eq!(check_cstr(s), CStrCheck::Valid);
}

#[test]
fn to_cstr_accepts_a_lone_nul() {
    assert_eq!(to_cstr("\0"), Some("\0"));
}

#[test]
fn to_cstr_refuses_two_nuls() {
    assert_eq!(to_cstr("a\0b\0"), None);
    assert_eq!(check_cstr("a\0b\0"), CStrCheck::InteriorNul);
    assert_eq!(check_cstr("\0\0"), CStrCheck::InteriorNul);
}

#[test]
fn to_cstr_refuses_the_empty_string() {
    assert_eq!(to_cstr(""), None);
    assert_eq!(check_cstr(""), CStrCheck::Empty);
}

#[test]
fn to_cstr_refuses_a_missing_nul() {
    assert_eq!(to_cstr("ext4"), None);
    assert_eq!(check_cstr("ext4"), CStrCheck::Unterminated);
    // One NUL, but not at the end.
    assert_eq!(check_cstr("a\0b"), CStrCheck::Unterminated);
}

#[test]
fn to_cstr_handles_multibyte_text() {
    assert_eq!(check_cstr("größe\0"), CStrCheck::Valid);
    assert_eq!(check_cstr("größe"), CStrCheck::Unterminated);
}

#[test]
fn from_cstr_stops_at_the_first_nul() {
    assert_eq!(from_cstr(b"hello\0world\0"), "hello");
    assert_eq!(from_cstr(b"\0"), "");
}

#[test]
fn from_cstr_takes_everything_without_a_nul() {
    assert_eq!(from_cstr(b"abc"), "abc");
}

#[test]
fn from_cstr_replaces_invalid_utf8() {
    assert_eq!(from_cstr(b"a\xffb\0"), "a\u{fffd}b");
}

#[test]
fn from_cstr_gives_no_nul_for_invalid_bytes() {
    let s = from_cstr(b"a\xff\xfe\xc3b\0rest");
    assert!(!s.contains('\0'));
    assert!(s.starts_with('a'));
    assert!(s.ends_with('b'));
}

#[test]
fn from_cstr_undoes_to_cstr() {
    let s = "that's what i call riddim\0";
    let accepted = to_cstr(s).unwrap();
    assert_eq!(from_cstr(accepted.as_bytes()), "that's what i call riddim");
}

#[test]
fn strerror_text_reads_valid_utf8() {
    match strerror_text(b"No such file or directory") {
        Ok(s) => assert_eq!(s, "No such file or directory"),
        Err(_) => panic!("expected Ok"),
    }
}

#[test]
fn strerror_text_reports_the_longest_valid_prefix() {
    match strerror_text(b"bad \xff byte") {
        Err(f) => {
            assert_eq!(f.valid_up_to, 4);
            assert_eq!(f.error.valid_up_to(), 4);
            assert_eq!(f.error_len, Some(1));
        }
        Ok(_) => panic!("expected Err"),
    }
    // A message cut inside a character.
    match strerror_text(b"ab\xc3") {
        Err(f) => {
            assert_eq!(f.valid_up_to, 2);
            assert_eq!(f.error_len, None);
        }
        Ok(_) => panic!("expected Err"),
    }
}

#[test]
fn error_text_falls_back_on_invalid_utf8() {
    assert_eq!(error_text(b"Permission denied", "unparseable string"), "Permission denied");
    assert_eq!(error_text(b"\xc3", "unparseable string"), "unparseable string");
}

#[test]
fn accepted_strings_are_c_strings_byte_for_byte() {
    for s in ["/test591\0", "größe\0", "\0", "mem=128M loglevel=8\0"] {
        let accepted = to_cstr(s).unwrap();
        let bytes = accepted.as_bytes();
        assert_eq!(bytes.last(), Some(&0u8));
        assert_eq!(bytes.iter().filter(|b| **b == 0).count(), 1);
    }
}
