use xetex_layout::c_string::{find_nul, into_c_string, strings_to_cstrings};

#[test]
fn strings_without_nul_pass_unchanged() {
    assert_eq!(into_c_string("Latin Modern".to_string()).unwrap(), "Latin Modern");
    assert_eq!(into_c_string(String::new()).unwrap(), "");
    assert!(find_nul(&"Ünïcödé".to_string()).is_none());
}

#[test]
fn nul_is_reported_at_its_byte_position() {
    let e = into_c_string("a\0b".to_string()).unwrap_err();
    assert_eq!(e.nul_position(), 1);
    assert_eq!(e.into_vec(), vec![b'a', 0, b'b']);
}

#[test]
fn nul_position_counts_utf8_bytes() {
    let e = into_c_string("é\0\0".to_string()).unwrap_err();
    assert_eq!(e.nul_position(), 2);
    assert_eq!(e.into_vec(), vec![0xc3, 0xa9, 0, 0]);
}

#[test]
fn first_refused_string_is_reported() {
    let strings = vec!["ok".to_string(), "x\0".to_string(), "\0y".to_string()];
    let e = strings_to_cstrings(strings).unwrap_err();
    assert_eq!(e.nul_position(), 1);
    assert_eq!(e.into_vec(), b"x\0".to_vec());
}

#[test]
fn accepted_strings_keep_their_order() {
    let strings = vec!["b".to_string(), "a".to_string()];
    assert_eq!(strings_to_cstrings(strings).unwrap(), vec!["b".to_string(), "a".to_string()]);
    assert!(strings_to_cstrings(Vec::new()).unwrap().is_empty());
}
