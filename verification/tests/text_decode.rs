use cat_nipa::text::{decode_text, extension_of, split_components, to_ascii_lower};

#[test]
fn test_decode_text_ascii_clean() {
    let d = decode_text(b"hello.txt");
    assert_eq!(d.text(), "hello.txt");
    assert!(!d.had_errors());
}

#[test]
fn test_decode_text_japanese() {
    // A double-byte sequence of the legacy encoding.
    let d = decode_text(&[0x82, 0xA0, 0x82, 0xA2]);
    assert_eq!(d.text(), "あい");
    assert!(!d.had_errors());
}

#[test]
fn test_decode_text_replacement_reported() {
    // A truncated double-byte sequence is replaced, and the fidelity flag
    // says so.
    let d = decode_text(&[0x82]);
    assert!(d.had_errors());
    assert_eq!(d.text(), "\u{FFFD}");
}

#[test]
fn test_decode_text_empty() {
    let d = decode_text(&[]);
    assert_eq!(d.text(), "");
    assert!(!d.had_errors());
}

#[test]
fn test_extension_of() {
    assert_eq!(extension_of("img.png"), Some("png".to_string()));
    assert_eq!(extension_of("archive.tar.gz"), Some("gz".to_string()));
    assert_eq!(extension_of("noext"), None);
    assert_eq!(extension_of(".hidden"), None);
    assert_eq!(extension_of("dot."), Some("".to_string()));
}

#[test]
fn test_to_ascii_lower() {
    assert_eq!(to_ascii_lower("IMG.PNG"), "img.png");
    assert_eq!(to_ascii_lower("MiXeD123"), "mixed123");
    assert_eq!(to_ascii_lower("あA"), "あa");
}

#[test]
fn test_split_components() {
    assert_eq!(split_components("a\\b\\c.txt"), vec!["a", "b", "c.txt"]);
    assert_eq!(split_components("\\\\x\\"), vec!["x"]);
    assert_eq!(split_components("..\\.\\y"), vec!["y"]);
    assert_eq!(split_components(""), Vec::<String>::new());
}
