use lgbm::{Error, NativeString};

#[test]
fn text_gets_its_terminator() {
    let native = NativeString::new(b"train.txt").unwrap();
    assert_eq!(native.as_bytes_with_nul(), b"train.txt\0");
}

#[test]
fn empty_text_is_a_lone_terminator() {
    let native = NativeString::new(b"").unwrap();
    assert_eq!(native.as_bytes_with_nul(), b"\0");
}

#[test]
fn bytes_above_ascii_are_kept() {
    let native = NativeString::new(&[0xc3, 0xa9, 0xff, 0x01]).unwrap();
    assert_eq!(native.as_bytes_with_nul(), &[0xc3, 0xa9, 0xff, 0x01, 0x00]);
}

#[test]
fn inner_nul_is_refused_with_its_position() {
    assert_eq!(NativeString::new(b"ab\0cd"), Err(Error::Encoding { position: 2 }));
}

#[test]
fn leading_nul_is_refused() {
    assert_eq!(NativeString::new(b"\0abc"), Err(Error::Encoding { position: 0 }));
}

#[test]
fn trailing_nul_is_refused() {
    assert_eq!(NativeString::new(b"abc\0"), Err(Error::Encoding { position: 3 }));
}

#[test]
fn first_of_several_nuls_is_named() {
    assert_eq!(NativeString::new(b"a\0b\0c\0"), Err(Error::Encoding { position: 1 }));
}

#[test]
fn equal_texts_are_equal() {
    assert_eq!(NativeString::new(b"max_bin=15"), NativeString::new(b"max_bin=15"));
    assert_ne!(NativeString::new(b"max_bin=15"), NativeString::new(b"max_bin=16"));
}
