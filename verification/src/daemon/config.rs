//! The daemon's configuration and its per-output lookups.

use vstd::prelude::*;

use crate::cli::config::{expand_opt, opt_string_view, spec_expand_opt};
use crate::paths::{
    ends_with, expand_tilde, file_stem, has_suffix, opt_view, spec_expand_tilde,
    spec_file_stem, spec_join, spec_with_file_name, with_file_name,
};

verus! {

/// Cursor tracking mode (`[daemon] tracking_mode`).
#[derive(Clone, Copy, Debug, PartialEq, Eq, Structural)]
pub enum TrackingMode {
    /// Wayland pointer events on the wallpaper surfaces. The default.
    Pointer,
    /// Global cursor position polled from the Hyprland IPC socket.
    Hyprland,
}

/// The daemon's configuration file.
pub struct Config {
    /// `[daemon]`.
    pub general: General,
    /// `[wallpaper]`.
    pub wallpaper: Wallpaper,
    /// `[[monitor]]` overrides, first match wins.
    pub monitor: Vec<MonitorOverride>,
}

/// `[daemon]` settings.
pub struct General {
    pub cursor_poll_hz: u32,
    /// The IEEE-754 single-precision bit pattern of the intensity.
    pub parallax_intensity: u32,
    pub idle_timeout_secs: u64,
    pub tracking_mode: TrackingMode,
    /// Percent; 0 disables battery gating.
    pub battery_threshold: u8,
}

/// `[wallpaper]`: the baked color image and, optionally, an explicit depth map.
pub struct Wallpaper {
    pub color: String,
    pub depth: Option<String>,
}

/// A per-output override.
pub struct MonitorOverride {
    pub name: String,
    pub color: Option<String>,
    pub depth: Option<String>,
    /// The IEEE-754 single-precision bit pattern of the intensity.
    pub parallax_intensity: Option<u32>,
}

/// 60 Hz.
pub fn default_poll_hz() -> (r: u32)
    ensures
        r == 60,
{
    60
}

/// 0.025, as its single-precision bit pattern.
pub fn default_intensity() -> (r: u32)
    ensures
        r == 0x3ccc_cccd,
{
    0x3ccc_cccd
}

/// Five seconds.
pub fn default_idle_timeout() -> (r: u64)
    ensures
        r == 5,
{
    5
}

impl Default for General {
    fn default() -> (r: Self)
        ensures
            r.cursor_poll_hz == 60,
            r.parallax_intensity == 0x3ccc_cccd,
            r.idle_timeout_secs == 5,
            r.tracking_mode == TrackingMode::Pointer,
            r.battery_threshold == 0,
    {
        General {
            cursor_poll_hz: default_poll_hz(),
            parallax_intensity: default_intensity(),
            idle_timeout_secs: default_idle_timeout(),
            tracking_mode: TrackingMode::Pointer,
            battery_threshold: 0,
        }
    }
}

/// The index of the first override for `name` at or after `i`.
pub open spec fn first_monitor_from(ms: Seq<MonitorOverride>, name: Seq<char>, i: int) -> Option<int>
    decreases ms.len() - i,
{
    if i < 0 || i >= ms.len() {
        None
    } else if ms[i].name@ == name {
        Some(i)
    } else {
        first_monitor_from(ms, name, i + 1)
    }
}

/// The index of the first override for `name`.
pub open spec fn first_monitor(ms: Seq<MonitorOverride>, name: Seq<char>) -> Option<int> {
    first_monitor_from(ms, name, 0)
}

/// A found index is in range and names the output.
pub proof fn lemma_first_monitor_from(ms: Seq<MonitorOverride>, name: Seq<char>, i: int)
    requires
        0 <= i,
    ensures
        match first_monitor_from(ms, name, i) {
            Some(k) => i <= k < ms.len() && ms[k].name@ == name && forall|j: int|
                i <= j < k ==> ms[j].name@ != name,
            None => forall|j: int| i <= j < ms.len() ==> ms[j].name@ != name,
        },
    decreases ms.len() - i,
{
    if i < ms.len() && ms[i].name@ != name {
        lemma_first_monitor_from(ms, name, i + 1);
    }
}

/// The color path for an output: the first override's color when it has
/// one, else the top-level wallpaper.
pub open spec fn spec_color_for(cfg: Config, name: Seq<char>) -> Seq<char> {
    match first_monitor(cfg.monitor@, name) {
        Some(i) => match cfg.monitor@[i].color {
            Some(c) => c@,
            None => cfg.wallpaper.color@,
        },
        None => cfg.wallpaper.color@,
    }
}

/// `foo.color.png` → `foo.depth16.png`; any other file name keeps its
/// directory, and its stem gets `.depth16.png`.
pub open spec fn spec_infer_depth_path(color: Seq<char>) -> Seq<char> {
    if ends_with(color, ".color.png"@) {
        color.subrange(0, color.len() - 10) + ".depth16.png"@
    } else {
        spec_with_file_name(
            color,
            match spec_file_stem(color) {
                Some(s) => s,
                None => Seq::<char>::empty(),
            } + ".depth16.png"@,
        )
    }
}

/// The depth path for an output: the first override's depth, else the
/// explicit top-level depth, else the one inferred from the color path.
pub open spec fn spec_depth_for(cfg: Config, name: Seq<char>) -> Seq<char> {
    let over = match first_monitor(cfg.monitor@, name) {
        Some(i) => cfg.monitor@[i].depth,
        None => None,
    };
    match over {
        Some(d) => d@,
        None => match cfg.wallpaper.depth {
            Some(d) => d@,
            None => spec_infer_depth_path(spec_color_for(cfg, name)),
        },
    }
}

/// The intensity bits for an output: the first override's, else the default.
pub open spec fn spec_intensity_for(cfg: Config, name: Seq<char>) -> u32 {
    match first_monitor(cfg.monitor@, name) {
        Some(i) => match cfg.monitor@[i].parallax_intensity {
            Some(v) => v,
            None => cfg.general.parallax_intensity,
        },
        None => cfg.general.parallax_intensity,
    }
}

/// The first `[[monitor]]` entry of `name`, as a property of an index: in
/// range, named `name`, and no earlier entry is.
pub open spec fn is_first_entry(ms: Seq<MonitorOverride>, name: Seq<char>, i: int) -> bool {
    &&& 0 <= i < ms.len()
    &&& ms[i].name@ == name
    &&& forall|j: int| 0 <= j < i ==> (#[trigger] ms[j]).name@ != name
}

/// The search for an output's entry finds exactly its first entry.
proof fn lemma_first_monitor_is(ms: Seq<MonitorOverride>, name: Seq<char>, i: int)
    requires
        is_first_entry(ms, name, i),
    ensures
        first_monitor(ms, name) == Some(i),
{
    lemma_first_monitor_from(ms, name, 0);
    match first_monitor(ms, name) {
        Some(k) => {
            if k < i {
                assert(ms[k].name@ != name);
            } else if k > i {
                assert(ms[i].name@ != name);
            }
        },
        None => {
            assert(ms[i].name@ != name);
        },
    }
}

/// The per-monitor depth wins: when the output's first `[[monitor]]` entry
/// has a depth map, that is the output's depth, whatever `[wallpaper]
/// depth` holds.
pub proof fn law_monitor_depth_wins(cfg: Config, name: Seq<char>, i: int)
    requires
        is_first_entry(cfg.monitor@, name, i),
        cfg.monitor@[i].depth is Some,
    ensures
        spec_depth_for(cfg, name) == cfg.monitor@[i].depth->0@,
{
    lemma_first_monitor_is(cfg.monitor@, name, i);
}

/// Only when the output's own entry gives no depth (or it has no entry)
/// does the explicit `[wallpaper] depth` apply.
pub proof fn law_top_depth_next(cfg: Config, name: Seq<char>)
    requires
        cfg.wallpaper.depth is Some,
        forall|i: int| #[trigger] is_first_entry(cfg.monitor@, name, i) ==> cfg.monitor@[i].depth is None,
    ensures
        spec_depth_for(cfg, name) == cfg.wallpaper.depth->0@,
{
    lemma_first_monitor_from(cfg.monitor@, name, 0);
    if let Some(k) = first_monitor(cfg.monitor@, name) {
        assert(is_first_entry(cfg.monitor@, name, k));
    }
}

/// With no depth given anywhere for the output, its depth is inferred
/// from its color image.
pub proof fn law_depth_inferred_last(cfg: Config, name: Seq<char>)
    requires
        cfg.wallpaper.depth is None,
        forall|i: int| #[trigger] is_first_entry(cfg.monitor@, name, i) ==> cfg.monitor@[i].depth is None,
    ensures
        spec_depth_for(cfg, name) == spec_infer_depth_path(spec_color_for(cfg, name)),
{
    lemma_first_monitor_from(cfg.monitor@, name, 0);
    if let Some(k) = first_monitor(cfg.monitor@, name) {
        assert(is_first_entry(cfg.monitor@, name, k));
    }
}

/// The output's first entry decides its color when it gives one; otherwise
/// (or with no entry) the `[wallpaper] color` applies.
pub proof fn law_color_choice(cfg: Config, name: Seq<char>)
    ensures
        forall|i: int| #[trigger] is_first_entry(cfg.monitor@, name, i) && cfg.monitor@[i].color is Some
            ==> spec_color_for(cfg, name) == cfg.monitor@[i].color->0@,
        (forall|i: int| #[trigger] is_first_entry(cfg.monitor@, name, i) ==> cfg.monitor@[i].color is None)
            ==> spec_color_for(cfg, name) == cfg.wallpaper.color@,
{
    lemma_first_monitor_from(cfg.monitor@, name, 0);
    if let Some(k) = first_monitor(cfg.monitor@, name) {
        assert(is_first_entry(cfg.monitor@, name, k));
    }
    assert forall|i: int| #[trigger] is_first_entry(cfg.monitor@, name, i) && cfg.monitor@[i].color is Some
        implies spec_color_for(cfg, name) == cfg.monitor@[i].color->0@ by {
        lemma_first_monitor_is(cfg.monitor@, name, i);
    }
}

/// An output with no `[[monitor]]` entry uses `[daemon]
/// parallax_intensity`; an output whose first entry sets an intensity uses
/// that one, and one whose first entry sets none uses `[daemon]`'s.
pub proof fn law_intensity_choice(cfg: Config, name: Seq<char>)
    ensures
        (forall|i: int| 0 <= i < cfg.monitor@.len() ==> (#[trigger] cfg.monitor@[i]).name@ != name)
            ==> spec_intensity_for(cfg, name) == cfg.general.parallax_intensity,
        forall|i: int| #[trigger] is_first_entry(cfg.monitor@, name, i) ==> spec_intensity_for(cfg, name) == match cfg.monitor@[i].parallax_intensity {
            Some(v) => v,
            None => cfg.general.parallax_intensity,
        },
{
    lemma_first_monitor_from(cfg.monitor@, name, 0);
    assert forall|i: int| #[trigger] is_first_entry(cfg.monitor@, name, i) implies spec_intensity_for(cfg, name) == match cfg.monitor@[i].parallax_intensity {
        Some(v) => v,
        None => cfg.general.parallax_intensity,
    } by {
        lemma_first_monitor_is(cfg.monitor@, name, i);
    }
    if (forall|i: int| 0 <= i < cfg.monitor@.len() ==> (#[trigger] cfg.monitor@[i]).name@ != name) {
        if let Some(k) = first_monitor(cfg.monitor@, name) {
            assert(cfg.monitor@[k].name@ != name);
        }
    }
}

/// The override entry expanded against `home`.
pub open spec fn monitor_expanded(m: MonitorOverride, e: MonitorOverride, home: Option<Seq<char>>) -> bool {
    &&& e.name@ == m.name@
    &&& opt_string_view(e.color) == spec_expand_opt(opt_string_view(m.color), home)
    &&& opt_string_view(e.depth) == spec_expand_opt(opt_string_view(m.depth), home)
    &&& e.parallax_intensity == m.parallax_intensity
}

/// `foo.color.png` → `foo.depth16.png`. Other file names get their
/// extension replaced by `.depth16.png`.
pub fn infer_depth_path(color: &str) -> (r: String)
    ensures
        r@ == spec_infer_depth_path(color@),
{
    let suffix = ".color.png";
    proof {
        reveal_strlit(".color.png");
        assert(suffix@.len() == 10);
    }
    if has_suffix(color, suffix) {
        let n = color.unicode_len();
        let stem = color.substring_char(0, n - 10);
        return String::from_str(stem).concat(".depth16.png");
    }
    let stem = match file_stem(color) {
        Some(s) => s,
        None => String::new(),
    };
    let name = stem.concat(".depth16.png");
    with_file_name(color, name.as_str())
}

/// The depth path that the daemon infers from a baked color path is the
/// depth path that the CLI baked beside it: for every hash and base
/// directory, inferring from `paths_for(hash, base).color` gives
/// `paths_for(hash, base).depth`.
pub proof fn law_baked_pair_depth_inferred(hash: Seq<char>, base: Seq<char>)
    ensures
        spec_infer_depth_path(spec_join(base, crate::cli::cache::color_file_name(hash)))
            == spec_join(base, crate::cli::cache::depth_file_name(hash)),
{
    reveal_strlit(".color.png");
    reveal_strlit(".depth16.png");
    let c = crate::cli::cache::color_file_name(hash);
    let d = crate::cli::cache::depth_file_name(hash);
    assert(".color.png"@.len() == 10 && ".color.png"@[0] == '.');
    assert(".depth16.png"@[0] == '.');
    let x: Seq<char> = if c.len() > 0 && c[0] == '/' {
        Seq::<char>::empty()
    } else if base.len() == 0 || base.last() == '/' {
        base
    } else {
        base + seq!['/']
    };
    assert(c[0] == d[0]) by {
        if hash.len() > 0 {
            assert(c[0] == hash[0]);
            assert(d[0] == hash[0]);
        } else {
            assert(c =~= ".color.png"@);
            assert(d =~= ".depth16.png"@);
        }
    }
    assert(spec_join(base, c) =~= x + c);
    assert(spec_join(base, d) =~= x + d);
    let j = x + c;
    assert(j.subrange(j.len() - 10, j.len() as int) =~= ".color.png"@);
    assert(ends_with(j, ".color.png"@));
    assert(j.subrange(0, j.len() - 10) =~= x + hash);
    assert(x + hash + ".depth16.png"@ =~= x + d);
}

impl Clone for MonitorOverride {
    fn clone(&self) -> (r: Self)
        ensures
            r.name@ == self.name@,
            opt_string_view(r.color) == opt_string_view(self.color),
            opt_string_view(r.depth) == opt_string_view(self.depth),
            r.parallax_intensity == self.parallax_intensity,
    {
        MonitorOverride {
            name: self.name.clone(),
            color: clone_opt(&self.color),
            depth: clone_opt(&self.depth),
            parallax_intensity: self.parallax_intensity,
        }
    }
}

/// A copy of an optional string.
pub fn clone_opt(o: &Option<String>) -> (r: Option<String>)
    ensures
        opt_string_view(r) == opt_string_view(*o),
{
    match o {
        Some(s) => Some(s.clone()),
        None => None,
    }
}

impl Config {
    /// The index of the first override for `output_name`.
    fn find_monitor(&self, output_name: &str) -> (r: Option<usize>)
        ensures
            match r {
                Some(i) => first_monitor(self.monitor@, output_name@) == Some(i as int)
                    && i < self.monitor@.len(),
                None => first_monitor(self.monitor@, output_name@) is None,
            },
    {
        proof {
            lemma_first_monitor_from(self.monitor@, output_name@, 0);
        }
        let n = self.monitor.len();
        let mut i: usize = 0;
        while i < n
            invariant
                n == self.monitor@.len(),
                i <= n,
                first_monitor(self.monitor@, output_name@) == first_monitor_from(self.monitor@, output_name@, i as int),
            decreases n - i,
        {
            if crate::paths::str_eq(self.monitor[i].name.as_str(), output_name) {
                return Some(i);
            }
            i = i + 1;
        }
        None
    }

    /// The color image for an output.
    pub fn color_for(&self, output_name: &str) -> (r: String)
        ensures
            r@ == spec_color_for(*self, output_name@),
    {
        match self.find_monitor(output_name) {
            Some(i) => match &self.monitor[i].color {
                Some(c) => c.clone(),
                None => self.wallpaper.color.clone(),
            },
            None => self.wallpaper.color.clone(),
        }
    }

    /// Resolve the depth map path for an output. Per-monitor override wins,
    /// then top-level explicit depth, then sibling inference from color path.
    pub fn depth_for(&self, output_name: &str) -> (r: String)
        ensures
            r@ == spec_depth_for(*self, output_name@),
    {
        if let Some(i) = self.find_monitor(output_name) {
            if let Some(d) = &self.monitor[i].depth {
                return d.clone();
            }
        }
        if let Some(d) = &self.wallpaper.depth {
            return d.clone();
        }
        let color = self.color_for(output_name);
        infer_depth_path(color.as_str())
    }

    /// The parallax intensity for an output, as its bit pattern.
    pub fn intensity_for(&self, output_name: &str) -> (r: u32)
        ensures
            r == spec_intensity_for(*self, output_name@),
    {
        match self.find_monitor(output_name) {
            Some(i) => match self.monitor[i].parallax_intensity {
                Some(v) => v,
                None => self.general.parallax_intensity,
            },
            None => self.general.parallax_intensity,
        }
    }

    /// The config with `~` expanded in every path, as loading does after
    /// parsing.
    pub fn expand_paths(self, home: Option<&str>) -> (r: Config)
        ensures
            r.general == self.general,
            r.wallpaper.color@ == spec_expand_tilde(self.wallpaper.color@, opt_view(home)),
            opt_string_view(r.wallpaper.depth) == spec_expand_opt(opt_string_view(self.wallpaper.depth), opt_view(home)),
            r.monitor@.len() == self.monitor@.len(),
            forall|i: int| 0 <= i < self.monitor@.len() ==> monitor_expanded(#[trigger] self.monitor@[i], r.monitor@[i], opt_view(home)),
    {
        let mut monitor: Vec<MonitorOverride> = Vec::new();
        let n = self.monitor.len();
        let mut i: usize = 0;
        while i < n
            invariant
                n == self.monitor@.len(),
                i <= n,
                monitor@.len() == i,
                forall|j: int| 0 <= j < i ==> monitor_expanded(#[trigger] self.monitor@[j], monitor@[j], opt_view(home)),
            decreases n - i,
        {
            let m = &self.monitor[i];
            monitor.push(MonitorOverride {
                name: m.name.clone(),
                color: expand_opt(&m.color, home),
                depth: expand_opt(&m.depth, home),
                parallax_intensity: m.parallax_intensity,
            });
            i = i + 1;
        }
        Config {
            general: self.general,
            wallpaper: Wallpaper {
                color: expand_tilde(self.wallpaper.color.as_str(), home),
                depth: expand_opt(&self.wallpaper.depth, home),
            },
            monitor,
        }
    }
}

} // verus!
pub use crate::cli::config::config_path;
