//! Filename-decoding tests: raw bytes kept as they are, explicit charset
//! overrides, and automatic detection of legacy encodings.

use unzrip::Error;
use unzrip::names::{trim_trailing_backslashes, FilenameEncoding};

#[test]
fn gbk_name_decodes_under_detection_and_override() {
    let name = "中文漢字";
    let (bytes, _, _) = encoding_rs::GBK.encode(name);
    assert_ne!(name.as_bytes(), &bytes[..]);
    let auto = FilenameEncoding::Auto.decode(&bytes).unwrap();
    assert_eq!(auto, name.as_bytes());
    let fixed = FilenameEncoding::Charset(b"gbk".to_vec())
        .decode(&bytes)
        .unwrap();
    assert_eq!(fixed, name.as_bytes());
}

#[test]
fn shift_jis_name_decodes_under_detection_and_override() {
    let name = "かんじ";
    let (bytes, _, _) = encoding_rs::SHIFT_JIS.encode(name);
    assert_ne!(name.as_bytes(), &bytes[..]);
    let auto = FilenameEncoding::Auto.decode(&bytes).unwrap();
    assert_eq!(auto, name.as_bytes());
    let fixed = FilenameEncoding::Charset(b"shift_jis".to_vec())
        .decode(&bytes)
        .unwrap();
    assert_eq!(fixed, name.as_bytes());
}

#[test]
fn utf8_names_pass_through_detection() {
    let name = "straße/ファイル.txt";
    let decoded = FilenameEncoding::Auto.decode(name.as_bytes()).unwrap();
    assert_eq!(decoded, name.as_bytes());
}

#[test]
fn raw_policy_keeps_arbitrary_bytes() {
    let name = [0x12u8, 0x23, 0x34, 0x45, 0x56, 0x67, 0x78, 0x89, 0x90];
    let decoded = FilenameEncoding::Os.decode(&name).unwrap();
    assert_eq!(decoded, name);
}

#[test]
fn unknown_charset_label_is_refused() {
    let r = FilenameEncoding::Charset(b"no-such-charset".to_vec()).decode(b"abc");
    assert_eq!(r.unwrap_err(), Error::Unsupported);
}

#[test]
fn charset_label_decodes_ascii() {
    let decoded = FilenameEncoding::Charset(b"utf-8".to_vec())
        .decode(b"plain.txt")
        .unwrap();
    assert_eq!(decoded, b"plain.txt");
}

#[test]
fn trailing_backslashes_are_trimmed() {
    assert_eq!(trim_trailing_backslashes(b"lock2\\"), b"lock2");
    assert_eq!(trim_trailing_backslashes(b"a\\\\"), b"a");
    assert_eq!(trim_trailing_backslashes(b"plain"), b"plain");
    assert_eq!(trim_trailing_backslashes(b"\\"), b"");
    assert_eq!(trim_trailing_backslashes(b""), b"");
}
