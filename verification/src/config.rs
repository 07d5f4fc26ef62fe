//! Configuration of the first-generation daemon: one wallpaper path with
//! per-output overrides.

use vstd::prelude::*;

use crate::cli::config::{expand_opt, opt_string_view, spec_expand_opt};
use crate::paths::{expand_tilde, join_path, opt_view, spec_expand_tilde, spec_join, str_eq};

verus! {

/// The configuration file.
pub struct Config {
    /// `[general]`.
    pub general: General,
    /// `[wallpaper]`.
    pub wallpaper: Wallpaper,
    /// `[[monitor]]` overrides, first match wins.
    pub monitor: Vec<MonitorOverride>,
}

/// `[general]` settings.
pub struct General {
    pub cursor_poll_hz: u32,
    /// The IEEE-754 single-precision bit pattern of the intensity.
    pub parallax_intensity: u32,
    pub idle_timeout_secs: u64,
    pub model_path: Option<String>,
}

/// `[wallpaper]`.
pub struct Wallpaper {
    pub path: String,
}

/// A per-output override.
pub struct MonitorOverride {
    pub name: String,
    pub wallpaper: Option<String>,
    /// The IEEE-754 single-precision bit pattern of the intensity.
    pub parallax_intensity: Option<u32>,
}

/// 60 Hz.
pub fn default_poll_hz() -> (r: u32)
    ensures
        r == 60,
{
    60
}

/// 0.025, as its single-precision bit pattern.
pub fn default_intensity() -> (r: u32)
    ensures
        r == 0x3ccc_cccd,
{
    0x3ccc_cccd
}

/// Five seconds.
pub fn default_idle_timeout() -> (r: u64)
    ensures
        r == 5,
{
    5
}

impl Default for General {
    fn default() -> (r: Self)
        ensures
            r.cursor_poll_hz == 60,
            r.parallax_intensity == 0x3ccc_cccd,
            r.idle_timeout_secs == 5,
            r.model_path is None,
    {
        General {
            cursor_poll_hz: default_poll_hz(),
            parallax_intensity: default_intensity(),
            idle_timeout_secs: default_idle_timeout(),
            model_path: None,
        }
    }
}

/// The index of the first override for `name` at or after `i`.
pub open spec fn first_override_from(ms: Seq<MonitorOverride>, name: Seq<char>, i: int) -> Option<int>
    decreases ms.len() - i,
{
    if i < 0 || i >= ms.len() {
        None
    } else if ms[i].name@ == name {
        Some(i)
    } else {
        first_override_from(ms, name, i + 1)
    }
}

/// A found index is in range and is the first match.
pub proof fn lemma_first_override_from(ms: Seq<MonitorOverride>, name: Seq<char>, i: int)
    requires
        0 <= i,
    ensures
        match first_override_from(ms, name, i) {
            Some(k) => i <= k < ms.len() && ms[k].name@ == name && forall|j: int|
                i <= j < k ==> ms[j].name@ != name,
            None => forall|j: int| i <= j < ms.len() ==> ms[j].name@ != name,
        },
    decreases ms.len() - i,
{
    if i < ms.len() && ms[i].name@ != name {
        lemma_first_override_from(ms, name, i + 1);
    }
}

/// The wallpaper for an output: the first override's, else the default.
pub open spec fn spec_wallpaper_for(cfg: Config, name: Seq<char>) -> Seq<char> {
    match first_override_from(cfg.monitor@, name, 0) {
        Some(i) => match cfg.monitor@[i].wallpaper {
            Some(w) => w@,
            None => cfg.wallpaper.path@,
        },
        None => cfg.wallpaper.path@,
    }
}

/// The intensity bits for an output: the first override's, else the default.
pub open spec fn spec_intensity_for(cfg: Config, name: Seq<char>) -> u32 {
    match first_override_from(cfg.monitor@, name, 0) {
        Some(i) => match cfg.monitor@[i].parallax_intensity {
            Some(v) => v,
            None => cfg.general.parallax_intensity,
        },
        None => cfg.general.parallax_intensity,
    }
}

/// The first `[[monitor]]` entry of `name`, as a property of an index: in
/// range, named `name`, and no earlier entry is.
pub open spec fn is_first_override(ms: Seq<MonitorOverride>, name: Seq<char>, i: int) -> bool {
    &&& 0 <= i < ms.len()
    &&& ms[i].name@ == name
    &&& forall|j: int| 0 <= j < i ==> (#[trigger] ms[j]).name@ != name
}

/// The search for an output's override finds exactly its first entry.
proof fn lemma_first_override_is(ms: Seq<MonitorOverride>, name: Seq<char>, i: int)
    requires
        is_first_override(ms, name, i),
    ensures
        first_override_from(ms, name, 0) == Some(i),
{
    lemma_first_override_from(ms, name, 0);
    match first_override_from(ms, name, 0) {
        Some(k) => {
            if k < i {
                assert(ms[k].name@ != name);
            } else if k > i {
                assert(ms[i].name@ != name);
            }
        },
        None => {
            assert(ms[i].name@ != name);
        },
    }
}

/// An output with no `[[monitor]]` entry uses `[general]
/// parallax_intensity`; one whose first entry sets an intensity uses it,
/// and one whose first entry sets none uses `[general]`'s.
pub proof fn law_intensity_choice(cfg: Config, name: Seq<char>)
    ensures
        (forall|i: int| 0 <= i < cfg.monitor@.len() ==> (#[trigger] cfg.monitor@[i]).name@ != name)
            ==> spec_intensity_for(cfg, name) == cfg.general.parallax_intensity,
        forall|i: int| #[trigger] is_first_override(cfg.monitor@, name, i) ==> spec_intensity_for(cfg, name) == match cfg.monitor@[i].parallax_intensity {
            Some(v) => v,
            None => cfg.general.parallax_intensity,
        },
{
    lemma_first_override_from(cfg.monitor@, name, 0);
    assert forall|i: int| #[trigger] is_first_override(cfg.monitor@, name, i) implies spec_intensity_for(cfg, name) == match cfg.monitor@[i].parallax_intensity {
        Some(v) => v,
        None => cfg.general.parallax_intensity,
    } by {
        lemma_first_override_is(cfg.monitor@, name, i);
    }
    if (forall|i: int| 0 <= i < cfg.monitor@.len() ==> (#[trigger] cfg.monitor@[i]).name@ != name) {
        if let Some(k) = first_override_from(cfg.monitor@, name, 0) {
            assert(cfg.monitor@[k].name@ != name);
        }
    }
}

/// An output whose first entry names a wallpaper shows it; otherwise (or
/// with no entry) the `[wallpaper] path` applies.
pub proof fn law_wallpaper_choice(cfg: Config, name: Seq<char>)
    ensures
        forall|i: int| #[trigger] is_first_override(cfg.monitor@, name, i) && cfg.monitor@[i].wallpaper is Some
            ==> spec_wallpaper_for(cfg, name) == cfg.monitor@[i].wallpaper->0@,
        (forall|i: int| #[trigger] is_first_override(cfg.monitor@, name, i) ==> cfg.monitor@[i].wallpaper is None)
            ==> spec_wallpaper_for(cfg, name) == cfg.wallpaper.path@,
{
    lemma_first_override_from(cfg.monitor@, name, 0);
    if let Some(k) = first_override_from(cfg.monitor@, name, 0) {
        assert(is_first_override(cfg.monitor@, name, k));
    }
    assert forall|i: int| #[trigger] is_first_override(cfg.monitor@, name, i) && cfg.monitor@[i].wallpaper is Some
        implies spec_wallpaper_for(cfg, name) == cfg.monitor@[i].wallpaper->0@ by {
        lemma_first_override_is(cfg.monitor@, name, i);
    }
}

impl Config {
    /// The index of the first override for `output_name`.
    fn find_override(&self, output_name: &str) -> (r: Option<usize>)
        ensures
            match r {
                Some(i) => first_override_from(self.monitor@, output_name@, 0) == Some(i as int)
                    && i < self.monitor@.len(),
                None => first_override_from(self.monitor@, output_name@, 0) is None,
            },
    {
        proof {
            lemma_first_override_from(self.monitor@, output_name@, 0);
        }
        let n = self.monitor.len();
        let mut i: usize = 0;
        while i < n
            invariant
                n == self.monitor@.len(),
                i <= n,
                first_override_from(self.monitor@, output_name@, 0) == first_override_from(self.monitor@, output_name@, i as int),
            decreases n - i,
        {
            if str_eq(self.monitor[i].name.as_str(), output_name) {
                return Some(i);
            }
            i = i + 1;
        }
        None
    }

    /// Get the wallpaper path for a given output name, falling back to default.
    pub fn wallpaper_for(&self, output_name: &str) -> (r: String)
        ensures
            r@ == spec_wallpaper_for(*self, output_name@),
    {
        match self.find_override(output_name) {
            Some(i) => match &self.monitor[i].wallpaper {
                Some(w) => w.clone(),
                None => self.wallpaper.path.clone(),
            },
            None => self.wallpaper.path.clone(),
        }
    }

    /// Get the parallax intensity for a given output, falling back to
    /// default, as its bit pattern.
    pub fn intensity_for(&self, output_name: &str) -> (r: u32)
        ensures
            r == spec_intensity_for(*self, output_name@),
    {
        match self.find_override(output_name) {
            Some(i) => match self.monitor[i].parallax_intensity {
                Some(v) => v,
                None => self.general.parallax_intensity,
            },
            None => self.general.parallax_intensity,
        }
    }

    /// The config with `~` expanded in the wallpaper, model and override
    /// paths, as loading does after parsing.
    pub fn expand_paths(self, home: Option<&str>) -> (r: Config)
        ensures
            r.general.cursor_poll_hz == self.general.cursor_poll_hz,
            r.general.parallax_intensity == self.general.parallax_intensity,
            r.general.idle_timeout_secs == self.general.idle_timeout_secs,
            opt_string_view(r.general.model_path) == spec_expand_opt(opt_string_view(self.general.model_path), opt_view(home)),
            r.wallpaper.path@ == spec_expand_tilde(self.wallpaper.path@, opt_view(home)),
            r.monitor@.len() == self.monitor@.len(),
            forall|i: int| #![trigger r.monitor@[i]] 0 <= i < self.monitor@.len() ==> {
                &&& r.monitor@[i].name@ == self.monitor@[i].name@
                &&& opt_string_view(r.monitor@[i].wallpaper) == spec_expand_opt(opt_string_view(self.monitor@[i].wallpaper), opt_view(home))
                &&& r.monitor@[i].parallax_intensity == self.monitor@[i].parallax_intensity
            },
    {
        let mut monitor: Vec<MonitorOverride> = Vec::new();
        let n = self.monitor.len();
        let mut i: usize = 0;
        while i < n
            invariant
                n == self.monitor@.len(),
                i <= n,
                monitor@.len() == i,
                forall|j: int| #![trigger monitor@[j]] 0 <= j < i ==> {
                    &&& monitor@[j].name@ == self.monitor@[j].name@
                    &&& opt_string_view(monitor@[j].wallpaper) == spec_expand_opt(opt_string_view(self.monitor@[j].wallpaper), opt_view(home))
                    &&& monitor@[j].parallax_intensity == self.monitor@[j].parallax_intensity
                },
            decreases n - i,
        {
            let m = &self.monitor[i];
            monitor.push(MonitorOverride {
                name: m.name.clone(),
                wallpaper: expand_opt(&m.wallpaper, home),
                parallax_intensity: m.parallax_intensity,
            });
            i = i + 1;
        }
        Config {
            general: General {
                cursor_poll_hz: self.general.cursor_poll_hz,
                parallax_intensity: self.general.parallax_intensity,
                idle_timeout_secs: self.general.idle_timeout_secs,
                model_path: expand_opt(&self.general.model_path, home),
            },
            wallpaper: Wallpaper { path: expand_tilde(self.wallpaper.path.as_str(), home) },
            monitor,
        }
    }
}

/// Where the config file lives, given `$XDG_CONFIG_HOME` and `$HOME`.
pub open spec fn spec_config_path(xdg_config_home: Option<Seq<char>>, home: Option<Seq<char>>) -> Seq<char> {
    match xdg_config_home {
        Some(x) => spec_join(x, "depthpaper/config.toml"@),
        None => match home {
            Some(h) => spec_join(h, ".config/depthpaper/config.toml"@),
            None => "config.toml"@,
        },
    }
}

/// `$XDG_CONFIG_HOME/depthpaper/config.toml`, else
/// `$HOME/.config/depthpaper/config.toml`, else `config.toml`.
pub fn config_path(xdg_config_home: Option<&str>, home: Option<&str>) -> (r: String)
    ensures
        r@ == spec_config_path(opt_view(xdg_config_home), opt_view(home)),
{
    match xdg_config_home {
        Some(x) => join_path(x, "depthpaper/config.toml"),
        None => match home {
            Some(h) => join_path(h, ".config/depthpaper/config.toml"),
            None => "config.toml".to_owned(),
        },
    }
}

/// `$XDG_CONFIG_HOME` wins whenever it is given, whatever `$HOME` is;
/// `$HOME` is used only without it, and `config.toml` in the working
/// directory only without both.
pub proof fn law_config_path_precedence(x: Seq<char>, h: Seq<char>, home: Option<Seq<char>>)
    ensures
        spec_config_path(Some(x), home) == spec_join(x, "depthpaper/config.toml"@),
        spec_config_path(None, Some(h)) == spec_join(h, ".config/depthpaper/config.toml"@),
        spec_config_path(None, None) == "config.toml"@,
{
}

} // verus!
