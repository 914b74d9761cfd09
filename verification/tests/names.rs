use eman::names::{cstring_from_i8_array, name_string};

fn buffer(bytes: &[u8]) -> [i8; 16] {
    let mut buf = [0i8; 16];
    for (i, b) in bytes.iter().enumerate() {
        buf[i] = *b as i8;
    }
    buf
}

#[test]
fn name_ends_at_the_first_zero() {
    assert_eq!(cstring_from_i8_array(buffer(b"abc")), Some(String::from("abc")));
    assert_eq!(name_string(buffer(b"abc")), "abc");
}

#[test]
fn bytes_behind_the_first_zero_are_no_part_of_the_name() {
    assert_eq!(cstring_from_i8_array(buffer(b"ab\0cd")), Some(String::from("ab")));
    assert_eq!(cstring_from_i8_array(buffer(b"ab\0\xff\xfe")), Some(String::from("ab")));
}

#[test]
fn name_without_a_zero_is_the_whole_buffer() {
    let full = buffer(b"0123456789abcdef");
    assert_eq!(cstring_from_i8_array(full), Some(String::from("0123456789abcdef")));
    assert_eq!(name_string(full).len(), 16);
}

#[test]
fn empty_name_is_empty() {
    assert_eq!(cstring_from_i8_array([0i8; 16]), Some(String::new()));
    assert_eq!(name_string([0i8; 16]), "");
}

#[test]
fn name_that_is_not_utf8_has_a_placeholder() {
    assert_eq!(cstring_from_i8_array(buffer(b"ab\xff")), None);
    assert_eq!(name_string(buffer(b"ab\xff")), "N/A");
    assert_eq!(cstring_from_i8_array([-1i8; 16]), None);
    assert_eq!(name_string([-1i8; 16]), "N/A");
}

#[test]
fn name_may_hold_characters_of_several_bytes() {
    assert_eq!(name_string(buffer("μ-probe".as_bytes())), "μ-probe");
    assert_eq!(cstring_from_i8_array(buffer(b"a\xce")), None);
}
