use shiftpaper::config::{config_path, Config, General, MonitorOverride, Wallpaper};
use shiftpaper::daemon::wayland::OutputDetails;
use shiftpaper::depth::{
    cache_data_len, cache_dir, cache_meta_for, cache_meta_matches, cache_paths, depth_cache_dir_for,
    hash_image_bytes, CacheMeta, MODEL_VERSION,
};
use shiftpaper::wayland::App;

fn cfg() -> Config {
    Config {
        general: General::default(),
        wallpaper: Wallpaper { path: "/w/default.png".to_string() },
        monitor: vec![
            MonitorOverride { name: "DP-1".to_string(), wallpaper: Some("/w/dp1.png".to_string()), parallax_intensity: None },
            MonitorOverride { name: "DP-2".to_string(), wallpaper: None, parallax_intensity: Some(0.5f32.to_bits()) },
        ],
    }
}

#[test]
fn legacy_lookup() {
    let c = cfg();
    assert_eq!(c.wallpaper_for("DP-1"), "/w/dp1.png");
    assert_eq!(c.wallpaper_for("DP-2"), "/w/default.png");
    assert_eq!(c.wallpaper_for("eDP-1"), "/w/default.png");
    assert_eq!(f32::from_bits(c.intensity_for("DP-2")), 0.5);
    assert_eq!(f32::from_bits(c.intensity_for("DP-1")), 0.025);
    assert!(General::default().model_path.is_none());
}

#[test]
fn legacy_paths() {
    assert_eq!(config_path(None, Some("/home/a")), "/home/a/.config/depthpaper/config.toml");
    assert_eq!(config_path(Some("/x"), None), "/x/depthpaper/config.toml");
    let mut c = cfg();
    c.wallpaper.path = "~/p.png".to_string();
    c.general.model_path = Some("~/m.onnx".to_string());
    let e = c.expand_paths(Some("/home/a"));
    assert_eq!(e.wallpaper.path, "/home/a/p.png");
    assert_eq!(e.general.model_path.as_deref(), Some("/home/a/m.onnx"));
    assert_eq!(e.monitor[0].wallpaper.as_deref(), Some("/w/dp1.png"));
}

#[test]
fn depth_cache() {
    assert_eq!(depth_cache_dir_for(None), "/tmp/depthpaper-cache");
    assert_eq!(depth_cache_dir_for(Some("/home/a/.cache/depthpaper")), "/home/a/.cache/depthpaper");
    let (data, meta) = cache_paths("abc");
    let dir = cache_dir();
    assert_eq!(data, format!("{dir}/abc.depth"));
    assert_eq!(meta, format!("{dir}/abc.json"));
    let m = cache_meta_for("abc", 640, 480);
    assert_eq!(m.model_version, MODEL_VERSION);
    assert!(cache_meta_matches(&m, 640, 480));
    assert!(!cache_meta_matches(&m, 640, 481));
    let stale = CacheMeta { width: 640, height: 480, model_version: "other".to_string(), source_hash: "abc".to_string() };
    assert!(!cache_meta_matches(&stale, 640, 480));
    assert_eq!(cache_data_len(640, 480), 640 * 480 * 4);
    assert_eq!(hash_image_bytes(&[1, 2, 3]), blake3::hash(&[1, 2, 3]).to_hex().to_string());
}

#[test]
fn legacy_outputs() {
    let mut app = App::new(cfg());
    app.new_output(3);
    app.new_output(4);
    assert_eq!(app.create_layer_surfaces(), vec![0, 1]);
    app.update_output(3, Some(OutputDetails { name: Some("DP-1".to_string()), current_mode: None, scale_factor: 1 }));
    app.attach_layer_surface(0, 30);
    assert_eq!(app.create_layer_surfaces(), vec![1]);
    assert_eq!(app.configure(30, 800, 0), Some(0));
    assert_eq!((app.outputs[0].width, app.outputs[0].height), (800, 1080));
    assert!(app.outputs[0].configured);
    assert_eq!(app.configure(31, 800, 600), None);
    app.output_destroyed(3);
    assert_eq!(app.outputs.len(), 1);
    assert_eq!(app.outputs[0].wl_output, 4);
}
