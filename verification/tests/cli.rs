use shiftpaper::cli::cache::{cache_dir, cache_dir_for, hash_source, paths_for};
use shiftpaper::cli::commands::{
    displayed_tracking_mode, ensure_table, get_tracking_mode, persist_model_path,
    read_tracking_mode, resolve_model, set_tracking_mode, update_daemon_config,
    update_tracking_mode, ConfigEditError, TrackingMode,
};
use shiftpaper::cli::config::{config_path, Config, InferenceConfig, WallpaperConfig};
use shiftpaper::cli::fetch_model::{
    default_model_path, fetch_plan, models_dir, models_dir_for, FetchPlan, DEFAULT_MODEL_FILENAME,
    DEFAULT_MODEL_URL,
};

#[test]
fn baked_pair_paths() {
    let p = paths_for("abc123", "/home/a/.cache/shiftpaper/wallpapers");
    assert_eq!(p.color, "/home/a/.cache/shiftpaper/wallpapers/abc123.color.png");
    assert_eq!(p.depth, "/home/a/.cache/shiftpaper/wallpapers/abc123.depth16.png");
    let q = paths_for("h", "out/");
    assert_eq!(q.color, "out/h.color.png");
    assert_eq!(q.depth, "out/h.depth16.png");
}

#[test]
fn cache_directory() {
    assert_eq!(cache_dir_for(Some("/home/a/.cache/shiftpaper")), "/home/a/.cache/shiftpaper/wallpapers");
    assert_eq!(cache_dir_for(None), "/tmp/depthpaper-cache/wallpapers");
    assert!(cache_dir().ends_with("wallpapers"));
}

#[test]
fn source_hash() {
    let rgba = [10u8, 20, 30, 255, 40, 50, 60, 255];
    let h = hash_source(&rgba);
    assert_eq!(h, blake3::hash(&rgba).to_hex().to_string());
    assert_eq!(h.len(), 64);
}

#[test]
fn config_path_precedence() {
    assert_eq!(config_path(Some("/x"), Some("/home/a")), "/x/shiftpaper/config.toml");
    assert_eq!(config_path(None, Some("/home/a")), "/home/a/.config/shiftpaper/config.toml");
    assert_eq!(config_path(None, None), "config.toml");
}

#[test]
fn cli_config_expansion() {
    let cfg = Config {
        inference: Some(InferenceConfig { model_path: "~/models/m.onnx".to_string() }),
        wallpaper: Some(WallpaperConfig { color: "~/w.color.png".to_string(), depth: Some("/abs/d.png".to_string()) }),
    };
    let e = cfg.expand_paths(Some("/home/a"));
    assert_eq!(e.inference.unwrap().model_path, "/home/a/models/m.onnx");
    let w = e.wallpaper.unwrap();
    assert_eq!(w.color, "/home/a/w.color.png");
    assert_eq!(w.depth.as_deref(), Some("/abs/d.png"));
    let empty = Config { inference: None, wallpaper: None }.expand_paths(None);
    assert!(empty.inference.is_none() && empty.wallpaper.is_none());
}

#[test]
fn tracking_mode_names() {
    assert_eq!(TrackingMode::Pointer.as_str(), "pointer");
    assert_eq!(TrackingMode::Hyprland.as_str(), "hyprland");
    assert_eq!(displayed_tracking_mode(None), "pointer");
    assert_eq!(displayed_tracking_mode(Some("hyprland")), "hyprland");
}

#[test]
fn model_resolution() {
    assert_eq!(resolve_model(Some("/m.onnx".to_string()), None).unwrap(), "/m.onnx");
    let cfg = Config { inference: Some(InferenceConfig { model_path: "/cfg.onnx".to_string() }), wallpaper: None };
    assert_eq!(resolve_model(None, Some(cfg)).unwrap(), "/cfg.onnx");
    let cfg2 = Config { inference: Some(InferenceConfig { model_path: "/cfg.onnx".to_string() }), wallpaper: None };
    assert_eq!(resolve_model(Some("/flag.onnx".to_string()), Some(cfg2)).unwrap(), "/flag.onnx");
    assert!(resolve_model(None, None).is_err());
    assert!(resolve_model(None, Some(Config { inference: None, wallpaper: None })).is_err());
}

#[test]
fn tracking_mode_in_config_text() {
    assert_eq!(read_tracking_mode("").unwrap(), None);
    let t = update_tracking_mode("", TrackingMode::Hyprland).unwrap();
    assert_eq!(read_tracking_mode(&t).unwrap().as_deref(), Some("hyprland"));
    let t2 = update_tracking_mode(&t, TrackingMode::Pointer).unwrap();
    assert_eq!(read_tracking_mode(&t2).unwrap().as_deref(), Some("pointer"));
    let kept = "# my settings\n[daemon]\nbattery_threshold = 20\n";
    let t3 = update_tracking_mode(kept, TrackingMode::Hyprland).unwrap();
    assert!(t3.contains("# my settings"));
    assert!(t3.contains("battery_threshold = 20"));
    assert_eq!(read_tracking_mode(&t3).unwrap().as_deref(), Some("hyprland"));
    assert_eq!(read_tracking_mode("daemon = { tracking_mode = \"hyprland\" }").unwrap().as_deref(), Some("hyprland"));
}

#[test]
fn config_edit_errors() {
    match update_tracking_mode("daemon = 5\n", TrackingMode::Pointer) {
        Err(ConfigEditError::NotATable { section }) => assert_eq!(section, "daemon"),
        _ => panic!("expected NotATable"),
    }
    match update_tracking_mode("[daemon\n", TrackingMode::Pointer) {
        Err(ConfigEditError::Parse { message }) => assert!(!message.is_empty()),
        _ => panic!("expected Parse"),
    }
    assert!(matches!(read_tracking_mode("= broken"), Err(ConfigEditError::Parse { .. })));
    match persist_model_path("inference = \"x\"\n", "/m.onnx") {
        Err(ConfigEditError::NotATable { section }) => assert_eq!(section, "inference"),
        _ => panic!("expected NotATable"),
    }
    match update_daemon_config("wallpaper = [1]\n", &paths_for("h", "/c"), "/m.onnx") {
        Err(ConfigEditError::NotATable { section }) => assert_eq!(section, "wallpaper"),
        _ => panic!("expected NotATable"),
    }
}

#[test]
fn daemon_config_written() {
    let paths = paths_for("abc", "/c");
    let text = "[wallpaper]\npath = \"/old.png\"\n\n[daemon]\ntracking_mode = \"hyprland\"\n";
    let out = update_daemon_config(text, &paths, "/m.onnx").unwrap();
    let doc: toml_edit::DocumentMut = out.parse().unwrap();
    assert_eq!(doc["inference"]["model_path"].as_str(), Some("/m.onnx"));
    assert_eq!(doc["wallpaper"]["color"].as_str(), Some("/c/abc.color.png"));
    assert_eq!(doc["wallpaper"]["depth"].as_str(), Some("/c/abc.depth16.png"));
    assert!(doc["wallpaper"].get("path").is_none());
    assert_eq!(doc["daemon"]["tracking_mode"].as_str(), Some("hyprland"));
    let fresh = update_daemon_config("", &paths, "/m.onnx").unwrap();
    let doc2: toml_edit::DocumentMut = fresh.parse().unwrap();
    assert_eq!(doc2["wallpaper"]["color"].as_str(), Some("/c/abc.color.png"));
}

#[test]
fn model_path_persisted() {
    let out = persist_model_path("", "/models/x.onnx").unwrap();
    let doc: toml_edit::DocumentMut = out.parse().unwrap();
    assert_eq!(doc["inference"]["model_path"].as_str(), Some("/models/x.onnx"));
    let out2 = persist_model_path(&out, "/models/y.onnx").unwrap();
    let doc2: toml_edit::DocumentMut = out2.parse().unwrap();
    assert_eq!(doc2["inference"]["model_path"].as_str(), Some("/models/y.onnx"));
}

#[test]
fn doc_level_mode_edit() {
    let mut doc: toml_edit::DocumentMut = "[wallpaper]\ncolor = \"/w.png\"\n".parse().unwrap();
    ensure_table(&mut doc, "daemon");
    assert!(doc.get("daemon").is_some());
    set_tracking_mode(&mut doc, TrackingMode::Hyprland).unwrap();
    assert_eq!(get_tracking_mode(&doc).as_deref(), Some("hyprland"));
    assert_eq!(doc["wallpaper"]["color"].as_str(), Some("/w.png"));
}

#[test]
fn model_locations() {
    assert_eq!(models_dir_for(Some("/home/a/.local/share/shiftpaper"), None), "/home/a/.local/share/shiftpaper/models");
    assert_eq!(models_dir_for(None, Some("/home/a")), "/home/a/.local/share/shiftpaper/models");
    assert_eq!(models_dir_for(None, None), ".local/share/shiftpaper/models");
    assert!(models_dir(Some("/home/a")).ends_with("models"));
    let p = default_model_path(Some("/home/a"));
    assert!(p.ends_with("/depth_anything_v2_small.onnx"));
    assert_eq!(DEFAULT_MODEL_FILENAME, "depth_anything_v2_small.onnx");
    assert!(DEFAULT_MODEL_URL.starts_with("https://huggingface.co/"));
}

#[test]
fn download_plan() {
    assert!(matches!(fetch_plan("/m/model.onnx", true, false), FetchPlan::AlreadyPresent));
    match fetch_plan("/m/model.onnx", true, true) {
        FetchPlan::Download { part_path } => assert_eq!(part_path, "/m/model.onnx.part"),
        _ => panic!("expected a download"),
    }
    match fetch_plan("/m/depth_anything_v2_small.onnx", false, false) {
        FetchPlan::Download { part_path } => assert_eq!(part_path, "/m/depth_anything_v2_small.onnx.part"),
        _ => panic!("expected a download"),
    }
}

#[test]
fn mode_set_twice_same_as_once() {
    let base = "[daemon]\nidle_timeout_secs = 300\n";
    let once = update_tracking_mode(base, TrackingMode::Hyprland).unwrap();
    let twice = update_tracking_mode(&once, TrackingMode::Hyprland).unwrap();
    assert_eq!(once, twice);
    let d1: toml_edit::DocumentMut = once.parse().unwrap();
    assert_eq!(d1["daemon"]["idle_timeout_secs"].as_integer(), Some(300));
}

#[test]
fn daemon_config_inference_not_a_table() {
    match update_daemon_config("inference = 1\nwallpaper = 2\n", &paths_for("h", "/c"), "/m.onnx") {
        Err(ConfigEditError::NotATable { section }) => assert_eq!(section, "inference"),
        _ => panic!("expected NotATable for inference"),
    }
}

#[test]
fn daemon_config_keeps_other_entries() {
    let paths = paths_for("abc", "/c");
    let text = "[daemon]\nidle_timeout_secs = 120\n\n[wallpaper]\ncolor = \"/old.png\"\nextra = [1, 2]\n\n[[monitor]]\nname = \"DP-1\"\nparallax_intensity = 0.5\n";
    let out = update_daemon_config(text, &paths, "/m.onnx").unwrap();
    let doc: toml_edit::DocumentMut = out.parse().unwrap();
    assert_eq!(doc["daemon"]["idle_timeout_secs"].as_integer(), Some(120));
    assert_eq!(doc["wallpaper"]["extra"].to_string(), " [1, 2]");
    let monitors = doc["monitor"].as_array_of_tables().unwrap();
    assert_eq!(monitors.len(), 1);
    assert_eq!(monitors.get(0).unwrap()["name"].as_str(), Some("DP-1"));
    assert_eq!(doc["wallpaper"]["color"].as_str(), Some("/c/abc.color.png"));
}
