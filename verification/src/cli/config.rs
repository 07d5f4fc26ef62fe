//! The CLI's view of the shared configuration file.

use vstd::prelude::*;

use crate::paths::{expand_tilde, join_path, opt_view, spec_expand_tilde, spec_join};

verus! {

/// The shared configuration as the CLI reads it. Both sections are
/// optional so that a config written before the first `fetch-model` or
/// `set`, or a daemon-only config, still parses.
pub struct Config {
    pub inference: Option<InferenceConfig>,
    pub wallpaper: Option<WallpaperConfig>,
}

/// `[inference]`.
pub struct InferenceConfig {
    pub model_path: String,
}

/// `[wallpaper]`.
pub struct WallpaperConfig {
    pub color: String,
    pub depth: Option<String>,
}

/// Where the config file lives, given `$XDG_CONFIG_HOME` and `$HOME`.
pub open spec fn spec_config_path(xdg_config_home: Option<Seq<char>>, home: Option<Seq<char>>) -> Seq<char> {
    match xdg_config_home {
        Some(x) => spec_join(x, "shiftpaper/config.toml"@),
        None => match home {
            Some(h) => spec_join(h, ".config/shiftpaper/config.toml"@),
            None => "config.toml"@,
        },
    }
}

/// `$XDG_CONFIG_HOME/shiftpaper/config.toml`, else
/// `$HOME/.config/shiftpaper/config.toml`, else `config.toml`.
pub fn config_path(xdg_config_home: Option<&str>, home: Option<&str>) -> (r: String)
    ensures
        r@ == spec_config_path(opt_view(xdg_config_home), opt_view(home)),
{
    match xdg_config_home {
        Some(x) => join_path(x, "shiftpaper/config.toml"),
        None => match home {
            Some(h) => join_path(h, ".config/shiftpaper/config.toml"),
            None => "config.toml".to_owned(),
        },
    }
}

/// `$XDG_CONFIG_HOME` wins whenever it is given, whatever `$HOME` is;
/// `$HOME` is used only without it, and `config.toml` in the working
/// directory only without both.
pub proof fn law_config_path_precedence(x: Seq<char>, h: Seq<char>, home: Option<Seq<char>>)
    ensures
        spec_config_path(Some(x), home) == spec_join(x, "shiftpaper/config.toml"@),
        spec_config_path(None, Some(h)) == spec_join(h, ".config/shiftpaper/config.toml"@),
        spec_config_path(None, None) == "config.toml"@,
{
}

/// An optional path with `~` expanded.
pub open spec fn spec_expand_opt(p: Option<Seq<char>>, home: Option<Seq<char>>) -> Option<Seq<char>> {
    match p {
        Some(q) => Some(spec_expand_tilde(q, home)),
        None => None,
    }
}

/// The view of an optional owned string.
pub open spec fn opt_string_view(o: Option<String>) -> Option<Seq<char>> {
    match o {
        Some(s) => Some(s@),
        None => None,
    }
}

/// An optional path with `~` expanded.
pub fn expand_opt(p: &Option<String>, home: Option<&str>) -> (r: Option<String>)
    ensures
        opt_string_view(r) == spec_expand_opt(opt_string_view(*p), opt_view(home)),
{
    match p {
        Some(q) => Some(expand_tilde(q.as_str(), home)),
        None => None,
    }
}

impl Config {
    /// The config with `~` expanded in every path, as loading does after
    /// parsing.
    pub fn expand_paths(self, home: Option<&str>) -> (r: Config)
        ensures
            match (self.inference, r.inference) {
                (Some(i), Some(j)) => j.model_path@ == spec_expand_tilde(i.model_path@, opt_view(home)),
                (None, None) => true,
                _ => false,
            },
            match (self.wallpaper, r.wallpaper) {
                (Some(w), Some(v)) => {
                    &&& v.color@ == spec_expand_tilde(w.color@, opt_view(home))
                    &&& opt_string_view(v.depth) == spec_expand_opt(opt_string_view(w.depth), opt_view(home))
                },
                (None, None) => true,
                _ => false,
            },
    {
        let inference = match &self.inference {
            Some(i) => Some(InferenceConfig { model_path: expand_tilde(i.model_path.as_str(), home) }),
            None => None,
        };
        let wallpaper = match &self.wallpaper {
            Some(w) => Some(
                WallpaperConfig {
                    color: expand_tilde(w.color.as_str(), home),
                    depth: expand_opt(&w.depth, home),
                },
            ),
            None => None,
        };
        Config { inference, wallpaper }
    }
}

} // verus!
