use shiftpaper::daemon::battery::{battery_state_from, render_allowed, BatteryState};
use shiftpaper::daemon::config::{
    default_idle_timeout, default_intensity, default_poll_hz, infer_depth_path, Config, General,
    MonitorOverride, TrackingMode, Wallpaper,
};
use shiftpaper::daemon::idle::{IdleEvent, IdleState};
use shiftpaper::daemon::wayland::{
    App, ConfigureAction, OutputDetails, PointerEventInfo, PointerKind, UpdateOutputResult,
};

fn config(monitors: Vec<MonitorOverride>) -> Config {
    Config {
        general: General::default(),
        wallpaper: Wallpaper { color: "/c/abc.color.png".to_string(), depth: None },
        monitor: monitors,
    }
}

fn monitor(name: &str, color: Option<&str>, depth: Option<&str>, intensity: Option<f32>) -> MonitorOverride {
    MonitorOverride {
        name: name.to_string(),
        color: color.map(String::from),
        depth: depth.map(String::from),
        parallax_intensity: intensity.map(f32::to_bits),
    }
}

#[test]
fn battery_gate() {
    let low = Some(BatteryState { capacity: 10, discharging: true });
    let charging = Some(BatteryState { capacity: 10, discharging: false });
    let full = Some(BatteryState { capacity: 90, discharging: true });
    assert!(!render_allowed(low, 20));
    assert!(render_allowed(low, 0));
    assert!(render_allowed(charging, 20));
    assert!(render_allowed(full, 20));
    assert!(render_allowed(None, 20));
    assert!(render_allowed(Some(BatteryState { capacity: 20, discharging: true }), 20));
}

#[test]
fn battery_files() {
    let s = battery_state_from("42\n", "Discharging\n").unwrap();
    assert_eq!(s.capacity, 42);
    assert!(s.discharging);
    let c = battery_state_from(" 100 ", "Charging").unwrap();
    assert_eq!(c.capacity, 100);
    assert!(!c.discharging);
    assert!(battery_state_from("n/a", "Discharging").is_none());
    assert!(battery_state_from("300", "Discharging").is_none());
}

#[test]
fn defaults() {
    assert_eq!(default_poll_hz(), 60);
    assert_eq!(f32::from_bits(default_intensity()), 0.025);
    assert_eq!(default_idle_timeout(), 5);
    let g = General::default();
    assert_eq!(g.tracking_mode, TrackingMode::Pointer);
    assert_eq!(g.battery_threshold, 0);
    assert_eq!(g.cursor_poll_hz, 60);
}

#[test]
fn depth_path_inference() {
    assert_eq!(infer_depth_path("/c/abc.color.png"), "/c/abc.depth16.png");
    assert_eq!(infer_depth_path("/pics/sunset.jpg"), "/pics/sunset.depth16.png");
    assert_eq!(infer_depth_path("plain"), "plain.depth16.png");
    assert_eq!(infer_depth_path(".color.png"), ".depth16.png");
}

#[test]
fn per_output_lookup() {
    let cfg = config(vec![
        monitor("DP-1", Some("/m/dp1.color.png"), None, Some(0.05)),
        monitor("HDMI-A-1", None, Some("/m/hdmi.depth16.png"), None),
        monitor("DP-1", Some("/ignored.png"), Some("/ignored.depth.png"), Some(0.9)),
    ]);
    assert_eq!(cfg.color_for("DP-1"), "/m/dp1.color.png");
    assert_eq!(cfg.depth_for("DP-1"), "/m/dp1.depth16.png");
    assert_eq!(f32::from_bits(cfg.intensity_for("DP-1")), 0.05);
    assert_eq!(cfg.color_for("HDMI-A-1"), "/c/abc.color.png");
    assert_eq!(cfg.depth_for("HDMI-A-1"), "/m/hdmi.depth16.png");
    assert_eq!(f32::from_bits(cfg.intensity_for("HDMI-A-1")), 0.025);
    assert_eq!(cfg.color_for("eDP-1"), "/c/abc.color.png");
    assert_eq!(cfg.depth_for("eDP-1"), "/c/abc.depth16.png");
    let mut explicit = config(vec![]);
    explicit.wallpaper.depth = Some("/explicit.png".to_string());
    assert_eq!(explicit.depth_for("eDP-1"), "/explicit.png");
}

#[test]
fn daemon_config_expansion() {
    let cfg = Config {
        general: General::default(),
        wallpaper: Wallpaper { color: "~/w.color.png".to_string(), depth: Some("~/w.d.png".to_string()) },
        monitor: vec![monitor("DP-1", Some("~/m.png"), None, None)],
    };
    let e = cfg.expand_paths(Some("/home/a"));
    assert_eq!(e.wallpaper.color, "/home/a/w.color.png");
    assert_eq!(e.wallpaper.depth.as_deref(), Some("/home/a/w.d.png"));
    assert_eq!(e.monitor[0].color.as_deref(), Some("/home/a/m.png"));
    assert_eq!(e.monitor[0].name, "DP-1");
}

fn details(name: &str, w: i32, h: i32) -> Option<OutputDetails> {
    Some(OutputDetails { name: Some(name.to_string()), current_mode: Some((w, h)), scale_factor: 2 })
}

fn ready_app() -> App {
    let mut app = App::new(config(vec![]));
    app.new_output(7);
    match app.update_output(7, details("DP-1", 2560, 1440)) {
        UpdateOutputResult::NeedsLayerSurface { index } => app.attach_layer_surface(index, 100),
        _ => panic!("expected a layer surface request"),
    }
    app.has_renderer = true;
    match app.configure(100, 0, 1400) {
        ConfigureAction::CreateTarget { index, name, width, height } => {
            assert_eq!((index, name.as_str(), width, height), (0, "DP-1", 2560, 1400));
            app.add_render_target(&name);
        }
        _ => panic!("expected a new render target"),
    }
    app
}

#[test]
fn output_lifecycle() {
    let mut app = ready_app();
    assert_eq!(app.outputs[0].scale, 2);
    assert!(app.outputs[0].configured);
    assert_eq!(app.render_all(), vec![0]);
    assert_eq!(app.render_output("DP-1"), Some(0));
    assert_eq!(app.render_output("HDMI-A-1"), None);
    match app.configure(100, 1920, 1080) {
        ConfigureAction::Reconfigure { index, width, height, .. } => assert_eq!((index, width, height), (0, 1920, 1080)),
        _ => panic!("expected a reconfigure"),
    }
    assert!(matches!(app.configure(555, 1, 1), ConfigureAction::NoMatch));
    assert!(matches!(app.update_output(7, None), UpdateOutputResult::NoInfo));
    assert!(matches!(app.update_output(9, details("X", 1, 1)), UpdateOutputResult::Unknown));
    assert!(matches!(app.update_output(7, details("DP-1", 1, 1)), UpdateOutputResult::Updated { index: 0 }));
    app.output_destroyed(7);
    assert!(app.outputs.is_empty());
    assert!(app.render_targets.is_empty());
    assert!(app.render_all().is_empty());
}

#[test]
fn layer_surfaces_for_unnamed_outputs() {
    let mut app = App::new(config(vec![]));
    app.new_output(1);
    app.new_output(2);
    let todo = app.ensure_layer_surfaces(&vec![details("DP-1", 1920, 1080), None]);
    assert_eq!(todo, vec![0]);
    assert_eq!(app.outputs[0].name, "DP-1");
    assert_eq!(app.outputs[0].width, 1920);
    assert_eq!(app.outputs[1].name, "");
    assert_eq!(app.outputs[1].width, 1920);
    assert_eq!(app.outputs[1].height, 1080);
}

#[test]
fn gates() {
    let mut app = ready_app();
    app.config.general.battery_threshold = 20;
    app.refresh_battery(Some(BatteryState { capacity: 5, discharging: true }));
    assert!(!app.battery_ok);
    assert!(!app.render_allowed());
    assert!(app.render_all().is_empty());
    assert_eq!(app.render_output("DP-1"), None);
    assert!(!app.needs_render);
    app.refresh_battery(Some(BatteryState { capacity: 5, discharging: false }));
    assert!(app.battery_ok);
    assert!(app.needs_render);
    app.needs_render = false;
    app.refresh_battery(None);
    assert!(!app.needs_render);

    app.idle = Some(IdleState::new());
    app.idle_event(IdleEvent::Idled);
    assert!(!app.render_allowed());
    app.idle_event(IdleEvent::Resumed);
    assert!(app.render_allowed());
    assert!(app.needs_render);
}

#[test]
fn pointer_events() {
    let mut app = ready_app();
    let ev = |kind| PointerEventInfo { surface: 100, kind };
    let motions = app.pointer_frame(&vec![
        ev(PointerKind::Enter),
        ev(PointerKind::Motion),
        PointerEventInfo { surface: 999, kind: PointerKind::Motion },
        ev(PointerKind::Motion),
    ]);
    assert_eq!(app.pointer_active_output.as_deref(), Some("DP-1"));
    assert_eq!(motions.len(), 2);
    assert_eq!((motions[0].event_index, motions[1].event_index), (1, 3));
    assert_eq!(motions[0].output_name, "DP-1");
    assert_eq!((motions[0].width, motions[0].height), (2560, 1400));
    let none = app.pointer_frame(&vec![ev(PointerKind::Leave)]);
    assert!(none.is_empty());
    assert_eq!(app.pointer_active_output, None);
    app.pointer_frame(&vec![ev(PointerKind::Enter)]);
    app.pointer_removed();
    assert_eq!(app.pointer_active_output, None);

    app.config.general.tracking_mode = TrackingMode::Hyprland;
    assert!(app.pointer_frame(&vec![ev(PointerKind::Enter), ev(PointerKind::Motion)]).is_empty());
    assert_eq!(app.pointer_active_output, None);
}

#[test]
fn config_reload() {
    let mut app = ready_app();
    let mut new_cfg = config(vec![]);
    new_cfg.general.tracking_mode = TrackingMode::Hyprland;
    let plan = app.reload_config(new_cfg);
    assert!(plan.tracking_mode_changed);
    assert!(!plan.idle_timeout_changed);
    assert_eq!(plan.outputs, vec![0]);
    assert!(app.needs_render);
    assert_eq!(app.config.general.tracking_mode, TrackingMode::Hyprland);

    let mut cold = App::new(config(vec![]));
    let plan2 = cold.reload_config(config(vec![]));
    assert!(plan2.outputs.is_empty());
    assert!(!cold.needs_render);
}
