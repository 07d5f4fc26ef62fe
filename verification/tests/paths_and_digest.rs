use std::path::PathBuf;

use shiftpaper::digest::{content_hash, hex_lower};
use shiftpaper::paths::{expand_tilde, has_suffix, join_path, parse_u8, str_eq, trim};

fn std_join(base: &str, rel: &str) -> String {
    PathBuf::from(base).join(rel).to_string_lossy().into_owned()
}

#[test]
fn join_path_matches_std() {
    let cases = [
        ("/tmp", "file.bk"),
        ("/tmp/", "file.bk"),
        ("", "a/b"),
        ("/tmp", "/etc/passwd"),
        ("a", ""),
        ("a/b", "c/d"),
        ("~", ".config"),
    ];
    for (base, rel) in cases {
        assert_eq!(join_path(base, rel), std_join(base, rel), "join {base:?} {rel:?}");
    }
}

#[test]
fn join_path_exact_values() {
    assert_eq!(join_path("/tmp", "file.bk"), "/tmp/file.bk");
    assert_eq!(join_path("/tmp/", "file.bk"), "/tmp/file.bk");
    assert_eq!(join_path("/tmp", "/abs"), "/abs");
    assert_eq!(join_path("", "rel"), "rel");
}

#[test]
fn expand_tilde_cases() {
    assert_eq!(expand_tilde("~/Pictures/a.png", Some("/home/alice")), "/home/alice/Pictures/a.png");
    assert_eq!(expand_tilde("~", Some("/home/alice")), "/home/alice/");
    assert_eq!(expand_tilde("~/x", None), "~/x");
    assert_eq!(expand_tilde("/abs/path", Some("/home/alice")), "/abs/path");
    assert_eq!(expand_tilde("~alice/x", Some("/home/bob")), "~alice/x");
    assert_eq!(expand_tilde("rel/~/x", Some("/home/bob")), "rel/~/x");
}

#[test]
fn expand_tilde_matches_std_component_rules() {
    let home = "/home/alice";
    for p in ["~/a//b", "~//a", "~/./a", "~/a/", "./~/a", "~/"] {
        let expected = match std::path::Path::new(p).strip_prefix("~") {
            Ok(rest) => PathBuf::from(home).join(rest).to_string_lossy().into_owned(),
            Err(_) => p.to_string(),
        };
        assert_eq!(expand_tilde(p, Some(home)), expected, "{p:?}");
    }
}

#[test]
fn suffix_and_equality() {
    assert!(has_suffix("abc.color.png", ".color.png"));
    assert!(!has_suffix("abc.png", ".color.png"));
    assert!(!has_suffix("png", ".color.png"));
    assert!(has_suffix("x", ""));
    assert!(str_eq("DP-1", "DP-1"));
    assert!(!str_eq("DP-1", "DP-2"));
    assert!(!str_eq("DP-1", "DP-10"));
}

#[test]
fn hex_encoding() {
    assert_eq!(hex_lower(&[]), "");
    assert_eq!(hex_lower(&[0x00, 0x0f, 0xa5, 0xff]), "000fa5ff");
}

#[test]
fn content_hash_is_blake3_hex() {
    assert_eq!(
        content_hash(b""),
        "af1349b9f5f9a1a6a0404dea36dcc9499bcb25c9adc112b7cc9a93cae41f3262"
    );
    let data = [1u8, 2, 3, 4, 255, 0, 128];
    assert_eq!(content_hash(&data), blake3::hash(&data).to_hex().to_string());
    assert_eq!(content_hash(&data).len(), 64);
    assert_ne!(content_hash(&data), content_hash(&data[1..]));
}

#[test]
fn trim_matches_std() {
    let cases = [
        "", " ", "a", "  a b \n", "\t\u{a0}x\u{3000}", "\u{2003}Discharging\r\n", "\u{200b}x", "x\u{85}", "\u{1680}\u{2028}",
    ];
    for c in cases {
        assert_eq!(trim(c), c.trim(), "{:?}", c);
    }
    assert_eq!(trim("  a b \n"), "a b");
}

#[test]
fn parse_u8_matches_std() {
    let cases = [
        "", "+", "-", "-0", "0", "+0", "00255", "255", "256", "1000", "+12", "++1", "1a", " 1", "٣", "99999999999",
    ];
    for c in cases {
        assert_eq!(parse_u8(c), c.parse::<u8>().ok(), "{:?}", c);
    }
    for n in 0..400u32 {
        let s = n.to_string();
        assert_eq!(parse_u8(&s), s.parse::<u8>().ok());
    }
}
