use binaryen::cstring::{c_string, nul_terminated, string_from_c_bytes};

#[test]
fn c_string_appends_a_terminator() {
    assert_eq!(c_string("main").ok().unwrap(), b"main\0".to_vec());
    assert_eq!(c_string("").ok().unwrap(), vec![0u8]);
    assert_eq!(c_string("\u{e9}").ok().unwrap(), vec![0xc3, 0xa9, 0]);
}

#[test]
fn c_string_refuses_an_inner_nul() {
    let e = c_string("ab\0c\0").err().unwrap();
    assert_eq!(e.nul_position(), 2);
    assert_eq!(e.into_vec(), b"ab\0c\0".to_vec());
    let e = c_string("\0").err().unwrap();
    assert_eq!(e.nul_position(), 0);
}

#[test]
fn nul_terminated_keeps_inner_nuls() {
    assert_eq!(nul_terminated("a\0b"), b"a\0b\0".to_vec());
    assert_eq!(nul_terminated("key"), b"key\0".to_vec());
}

#[test]
fn c_names_that_are_utf8_become_strings() {
    assert_eq!(string_from_c_bytes(b"adder").ok().unwrap(), "adder".to_string());
    assert_eq!(string_from_c_bytes(&[0xc3, 0xa9]).ok().unwrap(), "\u{e9}".to_string());
    assert_eq!(string_from_c_bytes(b"").ok().unwrap(), String::new());
}

#[test]
fn c_names_that_are_not_utf8_are_refused() {
    let e = string_from_c_bytes(&[0x61, 0xff, 0x62]).err().unwrap();
    assert_eq!(e.into_bytes(), vec![0x61, 0xff, 0x62]);
    assert!(string_from_c_bytes(&[0xc3]).is_err());
}

#[test]
fn names_come_back_from_their_c_strings() {
    for name in ["main", "", "\u{e9}t\u{e9}", "adder$1"].iter() {
        let c = c_string(name).ok().unwrap();
        let first_nul = c.iter().position(|b| *b == 0).unwrap();
        assert_eq!(first_nul, c.len() - 1);
        let back = string_from_c_bytes(&c[..first_nul]).ok().unwrap();
        assert_eq!(&back, name);
    }
}
