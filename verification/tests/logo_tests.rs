use aegis::choicepages::BaseSys;
use aegis::logo::{decode_logo, text_lines, try_decode_logo, unescape};
use aegis::widgets::{InfoPiece, SpanStyle};
use base64::Engine;
use std::io::{Read, Write};

fn pack(text: &str) -> String {
    let mut enc = flate2::write::GzEncoder::new(Vec::new(), flate2::Compression::default());
    enc.write_all(text.as_bytes()).unwrap();
    base64::engine::general_purpose::STANDARD.encode(enc.finish().unwrap())
}

fn unpack(encoded: &str) -> String {
    let bytes = base64::engine::general_purpose::STANDARD.decode(encoded).unwrap();
    let mut out = String::new();
    flate2::read::GzDecoder::new(&bytes[..]).read_to_string(&mut out).unwrap();
    out.replace("\\x1b", "\x1b")
}

#[test]
fn written_out_escapes_become_escape_characters() {
    assert_eq!(unescape("a\\x1b[1mb\\x1"), "a\x1b[1mb\\x1");
    assert_eq!(unescape("\\\\x1b"), "\\\x1b");
    assert_eq!(unescape(""), "");
}

#[test]
fn lines_follow_str_lines() {
    for s in ["", "a", "a\n", "a\r\nb", "a\r", "\n\n", "x\r\n\r\ny\n", "é\nü"] {
        let expected: Vec<String> = s.lines().map(|l| l.to_string()).collect();
        assert_eq!(text_lines(s), expected, "{s:?}");
    }
}

#[test]
fn packed_logo_unpacks_to_its_text() {
    let text = "\\x1b[31m▟█▙\\x1b[0m\nline two\n";
    let encoded = pack(text);
    assert_eq!(decode_logo(&encoded), "\x1b[31m▟█▙\x1b[0m\nline two\n");
    assert_eq!(try_decode_logo(&encoded).as_deref(), Some("\x1b[31m▟█▙\x1b[0m\nline two\n"));
}

#[test]
fn broken_logos_do_not_unpack() {
    assert_eq!(try_decode_logo("not base64!"), None);
    let not_gzip = base64::engine::general_purpose::STANDARD.encode(b"plain bytes");
    assert_eq!(try_decode_logo(&not_gzip), None);
}

#[test]
fn base_system_info_has_text_and_logo() {
    let arch = BaseSys::get_basesystem_info(0);
    assert_eq!(arch.text.title, "Athena Arch");
    assert_eq!(arch.text.pieces[0], InfoPiece::Span(SpanStyle::Highlight, "Athena Arch"));
    assert_eq!(arch.text.pieces.iter().filter(|p| matches!(p, InfoPiece::Break)).count(), 3);
    assert!(!arch.logo.is_empty());
    let nix = BaseSys::get_basesystem_info(1);
    assert_eq!(nix.text.title, "Athena Nix");
    assert_eq!(BaseSys::get_basesystem_info(2).text.title, "Athena Fedora");
    let unknown = BaseSys::get_basesystem_info(7);
    assert_eq!(unknown.text.title, "Unknown Base System");
    assert!(unknown.logo.is_empty());
}

#[test]
fn base_system_logo_is_the_unpacked_stored_logo() {
    let arch = BaseSys::get_basesystem_info(0);
    let stored = "H4sIAAAAAAAAA52TUQ6EIAxE/z0FRyWuGg+waTRovFtPIilxV2Va0H7SmddCi3MwmLpGy2xMI9OM80d6NERXjaFEQl3O1DJ9mTzTUuk5FejFviJvbtQbqyj7xIwRzwmQ8xaDYCVWkLloowFEExgOjUY7o+zW/qqKtoovptIG2bCO6RP3rKnm/a5qXfbWpgJNz+/vm5SOddyVFqWTwyGfx+cEAYSsMvCn7Yi2HWcEzBuVBAAA";
    let expected: Vec<String> = unpack(stored).lines().map(|l| l.to_string()).collect();
    assert_eq!(arch.logo, expected);
    assert_eq!(arch.logo.len(), 20);
}
