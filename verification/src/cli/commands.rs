//! What the CLI's commands decide: the tracking-mode names, where the
//! model path comes from, and the edits made to the config file.

use vstd::prelude::*;

use crate::cli::cache::BakedPaths;
use crate::cli::config::{opt_string_view, Config};
use crate::toml_doc::{
    doc_layout, doc_view, layout_kept, lemma_layout_kept_trans, section_usable, toml_error_message, toml_get_string, toml_has_section,
    toml_entry_texts, toml_insert_table, toml_item_texts, toml_parse, toml_parsed, toml_remove_key, toml_render, toml_sections,
    toml_set_string, toml_strings, toml_text, TomlView,
};

verus! {

/// Cursor tracking mode, as the `mode` command takes it.
#[derive(Clone, Copy, Debug, PartialEq, Eq, Structural)]
pub enum TrackingMode {
    /// Wayland-native pointer events. Default. Works on any
    /// wlr-layer-shell compositor.
    Pointer,
    /// Hyprland IPC global cursor polling. Hyprland-only.
    Hyprland,
}

/// The config-file spelling of a tracking mode.
pub open spec fn mode_name(mode: TrackingMode) -> Seq<char> {
    match mode {
        TrackingMode::Pointer => "pointer"@,
        TrackingMode::Hyprland => "hyprland"@,
    }
}

impl TrackingMode {
    /// The config-file spelling of the mode.
    pub fn as_str(self) -> (r: &'static str)
        ensures
            r@ == mode_name(self),
    {
        match self {
            TrackingMode::Pointer => "pointer",
            TrackingMode::Hyprland => "hyprland",
        }
    }
}

/// The mode that `mode` prints: the configured one, or `pointer` when the
/// config names none.
pub fn displayed_tracking_mode(current: Option<&str>) -> (r: String)
    ensures
        r@ == match current {
            Some(m) => m@,
            None => mode_name(TrackingMode::Pointer),
        },
{
    match current {
        Some(m) => m.to_owned(),
        None => TrackingMode::Pointer.as_str().to_owned(),
    }
}

/// Why no model path could be found.
#[derive(Debug)]
pub enum ResolveModelError {
    /// Neither `--model`, `$DEPTHPAPER_MODEL` nor `[inference] model_path`.
    NoModel,
}

/// The model path to use: the flag-or-environment value when given,
/// else `[inference] model_path` from the loaded config, else an error.
/// `loaded` is the config as loaded (None when the file does not exist).
pub fn resolve_model(arg: Option<String>, loaded: Option<Config>) -> (r: Result<String, ResolveModelError>)
    ensures
        match arg {
            Some(p) => r == Ok::<String, ResolveModelError>(p),
            None => match loaded {
                Some(cfg) => match cfg.inference {
                    Some(i) => r == Ok::<String, ResolveModelError>(i.model_path),
                    None => r is Err,
                },
                None => r is Err,
            },
        },
{
    if let Some(p) = arg {
        return Ok(p);
    }
    match loaded {
        Some(cfg) => match cfg.inference {
            Some(i) => Ok(i.model_path),
            None => Err(ResolveModelError::NoModel),
        },
        None => Err(ResolveModelError::NoModel),
    }
}

/// Why an edit of the config file failed.
#[derive(Debug)]
pub enum ConfigEditError {
    /// The file is not valid TOML.
    Parse { message: String },
    /// The named entry exists and is not a `[table]`.
    NotATable { section: String },
}

/// An edit's result: success, or `NotATable` naming `section`.
pub open spec fn edit_error_names(r: Result<(), ConfigEditError>, section: Seq<char>) -> bool {
    match r {
        Ok(_) => true,
        Err(ConfigEditError::NotATable { section: s }) => s@ == section,
        Err(_) => false,
    }
}

/// The string `(section, key)` of a document, if there is one.
pub open spec fn doc_string(doc: toml_edit::DocumentMut, section: Seq<char>, key: Seq<char>) -> Option<Seq<char>> {
    toml_strings(doc).get((section, key))
}

/// The strings of `v` that survive making `section` a standard table: all
/// of them when `section` is already an entry, else those outside it.
pub open spec fn kept_strings(v: TomlView, section: Seq<char>) -> Map<(Seq<char>, Seq<char>), Seq<char>> {
    if v.0.contains_key(section) {
        v.1
    } else {
        v.1.filter_keys(|sk: (Seq<char>, Seq<char>)| sk.0 != section)
    }
}

/// `v` with the string `(section, key)` set to `value` inside the standard
/// table `[section]`, which is created when absent.
pub open spec fn with_string(v: TomlView, section: Seq<char>, key: Seq<char>, value: Seq<char>) -> TomlView {
    (v.0.insert(section, true), kept_strings(v, section).insert((section, key), value))
}

/// `v` pointed at a baked pair: `[wallpaper] color` and `depth` set, the
/// legacy `[wallpaper] path` removed.
pub open spec fn with_wallpaper(v: TomlView, paths: BakedPaths) -> TomlView {
    let v1 = with_string(v, "wallpaper"@, "color"@, paths.color@);
    (v1.0, v1.1.insert(("wallpaper"@, "depth"@), paths.depth@).remove(("wallpaper"@, "path"@)))
}

/// `v` after all the edits of `update_daemon_config`.
pub open spec fn with_daemon_config(v: TomlView, paths: BakedPaths, model: Seq<char>) -> TomlView {
    with_wallpaper(with_string(v, "inference"@, "model_path"@, model), paths)
}

/// Inserts an empty `[key]` table unless the document already has an
/// entry under `key`.
pub fn ensure_table(doc: &mut toml_edit::DocumentMut, key: &str)
    ensures
        toml_sections(*old(doc)).contains_key(key@) ==> *final(doc) == *old(doc),
        !toml_sections(*old(doc)).contains_key(key@) ==> {
            &&& toml_sections(*final(doc)) == toml_sections(*old(doc)).insert(key@, true)
            &&& toml_strings(*final(doc)) == toml_strings(*old(doc)).filter_keys(
                |sk: (Seq<char>, Seq<char>)| sk.0 != key@,
            )
        },
        section_usable(toml_sections(*final(doc)), key@) == section_usable(toml_sections(*old(doc)), key@),
        toml_sections(*final(doc)).contains_key(key@),
        layout_kept(doc_layout(*old(doc)), doc_layout(*final(doc)), toml_sections(*old(doc)), set![key@], Set::empty()),
{
    if !toml_has_section(doc, key) {
        toml_insert_table(doc, key);
    }
}

/// Sets the string `(section, key)`, creating `[section]` when absent.
fn set_in_table(doc: &mut toml_edit::DocumentMut, section: &str, key: &str, value: &str) -> (r: Result<(), ConfigEditError>)
    ensures
        r is Ok == section_usable(toml_sections(*old(doc)), section@),
        match r {
            Ok(_) => doc_view(*final(doc)) == with_string(doc_view(*old(doc)), section@, key@, value@)
                && layout_kept(doc_layout(*old(doc)), doc_layout(*final(doc)), toml_sections(*old(doc)),
                    set![section@], set![(section@, key@)]),
            Err(ConfigEditError::NotATable { section: s }) => s@ == section@ && doc_view(*final(doc)) == doc_view(*old(doc))
                && doc_layout(*final(doc)) == doc_layout(*old(doc)),
            Err(_) => false,
        },
{
    let ghost before = doc_view(*doc);
    let ghost before_layout = doc_layout(*doc);
    ensure_table(doc, section);
    let ghost mid_layout = doc_layout(*doc);
    if toml_set_string(doc, section, key, value) {
        proof {
            lemma_layout_kept_trans(before_layout, mid_layout, doc_layout(*doc), before.0, toml_sections(*doc),
                set![section@], Set::empty(), set![section@], set![(section@, key@)]);
            assert(set![section@].union(set![section@]) =~= set![section@]);
            assert(Set::<(Seq<char>, Seq<char>)>::empty().union(set![(section@, key@)]) =~= set![(section@, key@)]);
            if before.0.contains_key(section@) {
                assert(before.0.insert(section@, true) =~= before.0);
            }
            assert(toml_sections(*doc) =~= with_string(before, section@, key@, value@).0);
            assert(toml_strings(*doc) =~= with_string(before, section@, key@, value@).1);
        }
        Ok(())
    } else {
        Err(ConfigEditError::NotATable { section: section.to_owned() })
    }
}

/// `[daemon] tracking_mode` of a document.
pub open spec fn spec_tracking_mode(doc: toml_edit::DocumentMut) -> Option<Seq<char>> {
    doc_string(doc, "daemon"@, "tracking_mode"@)
}

/// Reads `[daemon] tracking_mode` from a parsed document.
pub fn get_tracking_mode(doc: &toml_edit::DocumentMut) -> (r: Option<String>)
    ensures
        opt_string_view(r) == spec_tracking_mode(*doc),
{
    toml_get_string(doc, "daemon", "tracking_mode")
}

/// Sets `[daemon] tracking_mode`, creating `[daemon]` when absent.
pub fn set_tracking_mode(doc: &mut toml_edit::DocumentMut, mode: TrackingMode) -> (r: Result<(), ConfigEditError>)
    ensures
        r is Ok == section_usable(toml_sections(*old(doc)), "daemon"@),
        r is Ok ==> doc_view(*final(doc)) == with_string(doc_view(*old(doc)), "daemon"@, "tracking_mode"@, mode_name(mode)),
        r is Ok ==> layout_kept(doc_layout(*old(doc)), doc_layout(*final(doc)), toml_sections(*old(doc)),
            set!["daemon"@], set![("daemon"@, "tracking_mode"@)]),
        r is Err ==> doc_view(*final(doc)) == doc_view(*old(doc)) && doc_layout(*final(doc)) == doc_layout(*old(doc)),
        edit_error_names(r, "daemon"@),
{
    set_in_table(doc, "daemon", "tracking_mode", mode.as_str())
}

/// Sets `[inference] model_path`, creating `[inference]` when absent.
pub fn set_model_path(doc: &mut toml_edit::DocumentMut, model: &str) -> (r: Result<(), ConfigEditError>)
    ensures
        r is Ok == section_usable(toml_sections(*old(doc)), "inference"@),
        r is Ok ==> doc_view(*final(doc)) == with_string(doc_view(*old(doc)), "inference"@, "model_path"@, model@),
        r is Ok ==> layout_kept(doc_layout(*old(doc)), doc_layout(*final(doc)), toml_sections(*old(doc)),
            set!["inference"@], set![("inference"@, "model_path"@)]),
        r is Err ==> doc_view(*final(doc)) == doc_view(*old(doc)) && doc_layout(*final(doc)) == doc_layout(*old(doc)),
        edit_error_names(r, "inference"@),
{
    set_in_table(doc, "inference", "model_path", model)
}

/// Points `[wallpaper]` at a baked pair and drops the legacy `path` key,
/// creating `[wallpaper]` when absent.
pub fn set_wallpaper_paths(doc: &mut toml_edit::DocumentMut, paths: &BakedPaths) -> (r: Result<(), ConfigEditError>)
    ensures
        r is Ok == section_usable(toml_sections(*old(doc)), "wallpaper"@),
        r is Ok ==> doc_view(*final(doc)) == with_wallpaper(doc_view(*old(doc)), *paths),
        r is Ok ==> layout_kept(doc_layout(*old(doc)), doc_layout(*final(doc)), toml_sections(*old(doc)),
            set!["wallpaper"@], set![("wallpaper"@, "color"@), ("wallpaper"@, "depth"@), ("wallpaper"@, "path"@)]),
        r is Ok ==> {
            &&& doc_string(*final(doc), "wallpaper"@, "color"@) == Some(paths.color@)
            &&& doc_string(*final(doc), "wallpaper"@, "depth"@) == Some(paths.depth@)
            &&& doc_string(*final(doc), "wallpaper"@, "path"@) is None
        },
        r is Err ==> doc_view(*final(doc)) == doc_view(*old(doc)) && doc_layout(*final(doc)) == doc_layout(*old(doc)),
        edit_error_names(r, "wallpaper"@),
{
    let section = "wallpaper";
    let ghost l0 = doc_layout(*doc);
    let ghost s0 = toml_sections(*doc);
    let r = set_in_table(doc, section, "color", paths.color.as_str());
    if r.is_err() {
        return r;
    }
    proof {
        reveal_strlit("color");
        reveal_strlit("depth");
        reveal_strlit("path");
        reveal_strlit("wallpaper");
    }
    let ghost mid = *doc;
    let ghost l1 = doc_layout(*doc);
    let ok = toml_set_string(doc, section, "depth", paths.depth.as_str());
    assert(ok);
    let ghost mid2 = *doc;
    toml_remove_key(doc, section, "path");
    proof {
        let w = "wallpaper"@;
        assert("color"@[0] == 'c' && "depth"@[0] == 'd' && "path"@[0] == 'p');
        assert("color"@ != "depth"@);
        assert("color"@ != "path"@);
        assert("depth"@ != "path"@);
        assert(toml_strings(mid2) == toml_strings(mid).insert((w, "depth"@), paths.depth@));
        assert(toml_strings(*doc) == toml_strings(mid2).remove((w, "path"@)));
        assert(toml_strings(*doc).get((w, "color"@)) == toml_strings(mid).get((w, "color"@)));
        let l3 = doc_layout(*doc);
        let cset = set![(w, "color"@)];
        let dp = set![(w, "depth"@), (w, "path"@)];
        assert(toml_sections(mid2).contains_key(w) && toml_sections(mid2)[w]);
        assert(toml_entry_texts(*doc) == toml_entry_texts(mid2).remove((w, "path"@)));
        assert(layout_kept(l1, l3, toml_sections(mid), set![w], dp)) by {
            assert forall|sk: (Seq<char>, Seq<char>)| !dp.contains(sk) implies #[trigger] l3.1.get(sk) == l1.1.get(sk) by {
                assert(sk != (w, "depth"@));
                assert(sk != (w, "path"@));
                assert(toml_entry_texts(mid2).get(sk) == toml_entry_texts(mid).get(sk));
                assert(toml_entry_texts(*doc).get(sk) == toml_entry_texts(mid2).get(sk));
            }
            assert forall|k: Seq<char>| !set![w].contains(k) implies #[trigger] l3.0.get(k) == l1.0.get(k) by {
                assert(toml_item_texts(mid2).get(k) == toml_item_texts(mid).get(k));
            }
        }
        lemma_layout_kept_trans(l0, l1, l3, s0, toml_sections(mid), set![w], cset, set![w], dp);
        assert(set![w].union(set![w]) =~= set![w]);
        assert(cset.union(dp) =~= set![(w, "color"@), (w, "depth"@), (w, "path"@)]);
    }
    Ok(())
}

/// The document after the edits of `update_daemon_config` hold: the model
/// path and the wallpaper pair are recorded and the legacy key is gone.
pub open spec fn daemon_config_written(doc: toml_edit::DocumentMut, paths: BakedPaths, model: Seq<char>) -> bool {
    &&& doc_string(doc, "inference"@, "model_path"@) == Some(model)
    &&& doc_string(doc, "wallpaper"@, "color"@) == Some(paths.color@)
    &&& doc_string(doc, "wallpaper"@, "depth"@) == Some(paths.depth@)
    &&& doc_string(doc, "wallpaper"@, "path"@) is None
}

/// Parses `text`, turning a `toml_edit` error into the library's own.
fn parse_config(text: &str) -> (r: Result<toml_edit::DocumentMut, ConfigEditError>)
    ensures
        text@.len() == 0 ==> r is Ok,
        match r {
            Ok(d) => toml_parsed(text@) == Some((doc_view(d), doc_layout(d)))
                && (text@.len() == 0 ==> toml_sections(d).is_empty() && toml_strings(d).is_empty()),
            Err(ConfigEditError::Parse { .. }) => toml_parsed(text@) is None,
            Err(_) => false,
        },
{
    match toml_parse(text) {
        Ok(d) => Ok(d),
        Err(e) => Err(ConfigEditError::Parse { message: toml_error_message(&e) }),
    }
}

/// The tracking mode recorded in the config text, if any.
pub fn read_tracking_mode(text: &str) -> (r: Result<Option<String>, ConfigEditError>)
    ensures
        text@.len() == 0 ==> r is Ok,
        match r {
            Ok(m) => toml_parsed(text@) matches Some((v, _))
                && opt_string_view(m) == v.1.get(("daemon"@, "tracking_mode"@))
                && (text@.len() == 0 ==> m is None),
            Err(ConfigEditError::Parse { .. }) => toml_parsed(text@) is None,
            Err(_) => false,
        },
{
    let doc = parse_config(text)?;
    let m = get_tracking_mode(&doc);
    proof {
        if text@.len() == 0 {
            assert(!toml_strings(doc).contains_key(("daemon"@, "tracking_mode"@)));
        }
    }
    Ok(m)
}

/// The config text with `[daemon] tracking_mode` set to `mode`.
pub fn update_tracking_mode(text: &str, mode: TrackingMode) -> (r: Result<String, ConfigEditError>)
    ensures
        text@.len() == 0 ==> r is Ok,
        match r {
            Ok(s) => toml_parsed(text@) matches Some((v, l)) && section_usable(v.0, "daemon"@)
                && exists|d: toml_edit::DocumentMut| #[trigger] toml_text(d) == s@
                    && doc_view(d) == with_string(v, "daemon"@, "tracking_mode"@, mode_name(mode))
                    && layout_kept(l, doc_layout(d), v.0, set!["daemon"@], set![("daemon"@, "tracking_mode"@)]),
            Err(ConfigEditError::Parse { .. }) => toml_parsed(text@) is None,
            Err(ConfigEditError::NotATable { section }) => toml_parsed(text@) matches Some((v, _))
                && !section_usable(v.0, "daemon"@) && section@ == "daemon"@,
        },
{
    let mut doc = parse_config(text)?;
    proof {
        if text@.len() == 0 {
            assert(!toml_sections(doc).contains_key("daemon"@));
        }
    }
    match set_tracking_mode(&mut doc, mode) {
        Ok(()) => {
            let s = toml_render(&doc);
            Ok(s)
        },
        Err(e) => Err(e),
    }
}

/// The config text with `[inference] model_path` set to `model`.
pub fn persist_model_path(text: &str, model: &str) -> (r: Result<String, ConfigEditError>)
    ensures
        text@.len() == 0 ==> r is Ok,
        match r {
            Ok(s) => toml_parsed(text@) matches Some((v, l)) && section_usable(v.0, "inference"@)
                && exists|d: toml_edit::DocumentMut| #[trigger] toml_text(d) == s@
                    && doc_view(d) == with_string(v, "inference"@, "model_path"@, model@)
                    && layout_kept(l, doc_layout(d), v.0, set!["inference"@], set![("inference"@, "model_path"@)]),
            Err(ConfigEditError::Parse { .. }) => toml_parsed(text@) is None,
            Err(ConfigEditError::NotATable { section }) => toml_parsed(text@) matches Some((v, _))
                && !section_usable(v.0, "inference"@) && section@ == "inference"@,
        },
{
    let mut doc = parse_config(text)?;
    proof {
        if text@.len() == 0 {
            assert(!toml_sections(doc).contains_key("inference"@));
        }
    }
    match set_model_path(&mut doc, model) {
        Ok(()) => Ok(toml_render(&doc)),
        Err(e) => Err(e),
    }
}

/// The config text pointed at a freshly baked pair: `[inference]
/// model_path`, `[wallpaper] color` and `depth` are set and the legacy
/// `[wallpaper] path` is removed.
pub fn update_daemon_config(text: &str, paths: &BakedPaths, model: &str) -> (r: Result<String, ConfigEditError>)
    ensures
        text@.len() == 0 ==> r is Ok,
        match r {
            Ok(s) => toml_parsed(text@) matches Some((v, l))
                && section_usable(v.0, "inference"@) && section_usable(v.0, "wallpaper"@)
                && exists|d: toml_edit::DocumentMut| #[trigger] toml_text(d) == s@
                    && doc_view(d) == with_daemon_config(v, *paths, model@)
                    && daemon_config_written(d, *paths, model@)
                    && layout_kept(l, doc_layout(d), v.0, set!["inference"@, "wallpaper"@], set![
                        ("inference"@, "model_path"@),
                        ("wallpaper"@, "color"@),
                        ("wallpaper"@, "depth"@),
                        ("wallpaper"@, "path"@),
                    ]),
            Err(ConfigEditError::Parse { .. }) => toml_parsed(text@) is None,
            Err(ConfigEditError::NotATable { section }) => toml_parsed(text@) matches Some((v, _)) && (
                (!section_usable(v.0, "inference"@) && section@ == "inference"@)
                || (section_usable(v.0, "inference"@) && !section_usable(v.0, "wallpaper"@) && section@ == "wallpaper"@)),
        },
{
    let mut doc = parse_config(text)?;
    proof {
        reveal_strlit("inference");
        reveal_strlit("wallpaper");
        assert("inference"@[0] == 'i' && "wallpaper"@[0] == 'w');
        assert("inference"@ != "wallpaper"@);
        if text@.len() == 0 {
            assert(!toml_sections(doc).contains_key("inference"@));
        }
    }
    let ghost d0 = doc;
    match set_model_path(&mut doc, model) {
        Ok(()) => {},
        Err(e) => {
            return Err(e);
        },
    }
    proof {
        assert(toml_sections(doc).get("wallpaper"@) == toml_sections(d0).get("wallpaper"@));
        if text@.len() == 0 {
            assert(!toml_sections(doc).contains_key("wallpaper"@));
        }
    }
    let ghost d1 = doc;
    match set_wallpaper_paths(&mut doc, paths) {
        Ok(()) => {},
        Err(e) => {
            return Err(e);
        },
    }
    proof {
        assert(toml_strings(doc).get(("inference"@, "model_path"@)) == toml_strings(d1).get(("inference"@, "model_path"@)));
    }
    Ok(toml_render(&doc))
}

/// Setting a string and reading it back gives that string, and every
/// string of another section keeps its value (so setting the tracking mode
/// leaves `[wallpaper]` and `[inference]` alone).
pub proof fn law_string_read_back(
    v: TomlView,
    section: Seq<char>,
    key: Seq<char>,
    value: Seq<char>,
    other: Seq<char>,
    other_key: Seq<char>,
)
    requires
        other != section,
    ensures
        with_string(v, section, key, value).1.get((section, key)) == Some(value),
        with_string(v, section, key, value).1.get((other, other_key)) == v.1.get((other, other_key)),
        with_string(v, section, key, value).0[section],
{
}

/// Setting the same string twice gives what setting it once gives.
pub proof fn law_string_set_idempotent(v: TomlView, section: Seq<char>, key: Seq<char>, value: Seq<char>)
    ensures
        with_string(with_string(v, section, key, value), section, key, value) == with_string(v, section, key, value),
{
    let w = with_string(v, section, key, value);
    assert(w.0.insert(section, true) =~= w.0);
    assert(kept_strings(w, section).insert((section, key), value) =~= w.1);
}

/// The two tracking modes have different names.
pub proof fn law_mode_names_distinct()
    ensures
        mode_name(TrackingMode::Pointer) != mode_name(TrackingMode::Hyprland),
{
    reveal_strlit("pointer");
    reveal_strlit("hyprland");
    assert("pointer"@[0] == 'p' && "hyprland"@[0] == 'h');
}

} // verus!
