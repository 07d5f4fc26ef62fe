use shiftpaper::cli::cache::{hash_source, hash_source_bytes};
use shiftpaper::daemon::battery::{battery_state_from, first_battery};
use shiftpaper::daemon::depth::depth_map_from_bytes;
use shiftpaper::daemon::idle::idle_timeout_ms;
use shiftpaper::depth::{hash_image_bytes, wallpaper_pixels};
use shiftpaper::paths::has_prefix;
use shiftpaper::pixels::rgba_from_bytes;

fn png_gray16(w: u32, h: u32, data: Vec<u16>) -> Vec<u8> {
    let img = image::ImageBuffer::<image::Luma<u16>, _>::from_raw(w, h, data).unwrap();
    let mut out = std::io::Cursor::new(Vec::new());
    img.write_to(&mut out, image::ImageFormat::Png).unwrap();
    out.into_inner()
}

fn png_rgba(w: u32, h: u32, data: Vec<u8>) -> Vec<u8> {
    let img = image::RgbaImage::from_raw(w, h, data).unwrap();
    let mut out = std::io::Cursor::new(Vec::new());
    img.write_to(&mut out, image::ImageFormat::Png).unwrap();
    out.into_inner()
}

#[test]
fn depth_map_decoded_from_png() {
    let bytes = png_gray16(3, 2, vec![0, 1, 2, 1000, 65535, 7]);
    let m = depth_map_from_bytes("/c/h.depth16.png", &bytes).unwrap();
    assert_eq!((m.width, m.height), (3, 2));
    assert_eq!(m.data, vec![0, 1, 2, 1000, 65535, 7]);
    assert!(depth_map_from_bytes("d.png", b"not an image").is_none());
    assert!(depth_map_from_bytes("d.PNG", &bytes).is_some());
}

#[test]
fn format_follows_extension() {
    let bytes = png_gray16(1, 1, vec![5]);
    assert!(depth_map_from_bytes("d.jpg", &bytes).is_none());
    assert!(depth_map_from_bytes("depth", &bytes).is_none());
    assert!(depth_map_from_bytes("d.unknown", &bytes).is_none());
    assert!(rgba_from_bytes("d.webp", &bytes).is_none());
}

#[test]
fn rgba_decoded_and_hashed() {
    let raw = vec![1, 2, 3, 255, 4, 5, 6, 128];
    let bytes = png_rgba(2, 1, raw.clone());
    let img = rgba_from_bytes("a.png", &bytes).unwrap();
    assert_eq!((img.width, img.height), (2, 1));
    assert_eq!(img.data, raw);
    let (img2, hash) = hash_source_bytes("a.png", &bytes).unwrap();
    assert_eq!(img2.data, raw);
    assert_eq!(hash, hash_source(&raw));
    assert_ne!(hash, hash_source(&bytes));
    let (img3, key) = wallpaper_pixels("w.png", &bytes).unwrap();
    assert_eq!(img3.data, raw);
    assert_eq!(key, hash_image_bytes(&raw));
    assert!(hash_source_bytes("a.png", &[]).is_none());
    assert!(wallpaper_pixels("w.png", b"\x89PNG broken").is_none());
}

#[test]
fn first_battery_entry() {
    let names: Vec<String> = ["AC", "ucsi-source-psy", "BAT1", "BAT0"].iter().map(|s| s.to_string()).collect();
    assert_eq!(first_battery(&names), Some(2));
    let none: Vec<String> = vec!["AC".to_string(), "xBAT".to_string()];
    assert_eq!(first_battery(&none), None);
    assert_eq!(first_battery(&Vec::new()), None);
    assert!(has_prefix("BAT0", "BAT"));
    assert!(!has_prefix("BA", "BAT"));
}

#[test]
fn idle_timeout_in_ms() {
    assert_eq!(idle_timeout_ms(0), 0);
    assert_eq!(idle_timeout_ms(300), 300_000);
    assert_eq!(idle_timeout_ms(4_294_967), 4_294_967_000);
    assert_eq!(idle_timeout_ms(4_294_968), u32::MAX);
    assert_eq!(idle_timeout_ms(u64::MAX / 1000), u32::MAX);
}

#[test]
fn battery_number_format() {
    assert_eq!(battery_state_from("+80", "Full").unwrap().capacity, 80);
    assert_eq!(battery_state_from("007", "Full").unwrap().capacity, 7);
    assert_eq!(battery_state_from("255", "Full").unwrap().capacity, 255);
    assert!(battery_state_from("256", "Full").is_none());
    assert!(battery_state_from("+", "Full").is_none());
    assert!(battery_state_from("-1", "Full").is_none());
    assert!(battery_state_from("", "Full").is_none());
    assert!(battery_state_from("\u{a0}\t50\u{3000}", "\u{2003}Discharging\r\n").unwrap().discharging);
}
