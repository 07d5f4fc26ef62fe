//! The daemon's state behind its Wayland handlers: the outputs and their
//! layer surfaces, which outputs have render targets, where the pointer is,
//! and the idle and battery gates. Wayland objects are identified by their
//! protocol ids; the objects themselves, the GPU resources and the event
//! loop live with the caller, which acts on what these functions decide.

use vstd::prelude::*;

use crate::daemon::battery::{render_allowed as battery_render_allowed, spec_render_allowed, BatteryState};
use crate::daemon::config::{Config, TrackingMode};
use crate::daemon::idle::{IdleEvent, IdleState};
use crate::cli::config::opt_string_view;
use crate::paths::str_eq;

verus! {

/// A monitor and its layer surface.
pub struct OutputInfo {
    pub name: String,
    /// Protocol id of the `wl_output`.
    pub wl_output: u32,
    pub width: u32,
    pub height: u32,
    pub scale: i32,
    /// Protocol id of the layer surface's `wl_surface`, once created.
    pub layer_surface: Option<u32>,
    pub configured: bool,
}

/// What `OutputState::info` reports for an output.
pub struct OutputDetails {
    pub name: Option<String>,
    /// Dimensions of the current mode, if one is marked current.
    pub current_mode: Option<(i32, i32)>,
    pub scale_factor: i32,
}

/// The daemon's state.
pub struct App {
    pub config: Config,
    pub outputs: Vec<OutputInfo>,
    /// Whether the GPU renderer has been initialized.
    pub has_renderer: bool,
    /// Names of the outputs that have a render target.
    pub render_targets: Vec<String>,
    /// Whether the Hyprland cursor poller is running.
    pub has_cursor: bool,
    pub pointer_active_output: Option<String>,
    pub idle: Option<IdleState>,
    pub battery_ok: bool,
    /// Set by gate transitions (idle resume, battery resume) to request a
    /// one-shot render from the main loop after dispatch returns.
    pub needs_render: bool,
    pub running: bool,
}

/// Which layer-surface configure step to take.
pub enum ConfigureAction {
    /// No output owns this layer surface.
    NoMatch,
    /// First configure of the output: build its render target at this size.
    CreateTarget { index: usize, name: String, width: u32, height: u32 },
    /// The output already renders: resize its swapchain.
    Reconfigure { index: usize, name: String, width: u32, height: u32 },
}

/// What an output update did.
pub enum UpdateOutputResult {
    /// The output state has no information yet.
    NoInfo,
    /// No known output has this id.
    Unknown,
    /// The output was updated and already has a layer surface.
    Updated { index: usize },
    /// The output was updated and needs a layer surface.
    NeedsLayerSurface { index: usize },
}

/// The kinds of pointer event the daemon tells apart.
#[derive(Clone, Copy, Debug, PartialEq, Eq, Structural)]
pub enum PointerKind {
    Enter,
    Leave,
    Motion,
    Other,
}

/// A pointer event: the surface it is on and its kind.
#[derive(Clone, Copy, Debug, PartialEq, Eq, Structural)]
pub struct PointerEventInfo {
    pub surface: u32,
    pub kind: PointerKind,
}

/// A motion over one of the wallpaper surfaces: which event, on which
/// output, and that output's size.
pub struct PointerMotion {
    pub event_index: usize,
    pub output_name: String,
    pub width: u32,
    pub height: u32,
}

/// What a config reload asks of the caller.
pub struct ReloadPlan {
    /// The tracking mode changed; it takes a restart.
    pub tracking_mode_changed: bool,
    /// The idle timeout changed; it takes a restart.
    pub idle_timeout_changed: bool,
    /// Outputs whose wallpaper textures to reload, in output order.
    pub outputs: Vec<usize>,
}

/// `s` lists, in increasing order, exactly the indices below `n` where
/// `pred` holds.
pub open spec fn lists_exactly(s: Seq<usize>, n: int, pred: spec_fn(int) -> bool) -> bool {
    &&& forall|k: int| 0 <= k < s.len() ==> 0 <= #[trigger] s[k] < n && pred(s[k] as int)
    &&& forall|k: int, l: int| 0 <= k < l < s.len() ==> s[k] < s[l]
    &&& forall|i: int| 0 <= i < n && #[trigger] pred(i) ==> s.contains(i as usize)
}

/// The names of a list of strings.
pub open spec fn names(v: Seq<String>) -> Set<Seq<char>> {
    Set::new(|n: Seq<char>| exists|i: int| 0 <= i < v.len() && (#[trigger] v[i])@ == n)
}

/// The index of the first output whose layer surface is `surface`, at or
/// after `i`.
pub open spec fn output_with_surface_from(outs: Seq<OutputInfo>, surface: u32, i: int) -> Option<int>
    decreases outs.len() - i,
{
    if i < 0 || i >= outs.len() {
        None
    } else if outs[i].layer_surface == Some(surface) {
        Some(i)
    } else {
        output_with_surface_from(outs, surface, i + 1)
    }
}

/// The index of the first output named `name`, at or after `i`.
pub open spec fn output_named_from(outs: Seq<OutputInfo>, name: Seq<char>, i: int) -> Option<int>
    decreases outs.len() - i,
{
    if i < 0 || i >= outs.len() {
        None
    } else if outs[i].name@ == name {
        Some(i)
    } else {
        output_named_from(outs, name, i + 1)
    }
}

/// The index of the first output with protocol id `id`, at or after `i`.
pub open spec fn output_with_id_from(outs: Seq<OutputInfo>, id: u32, i: int) -> Option<int>
    decreases outs.len() - i,
{
    if i < 0 || i >= outs.len() {
        None
    } else if outs[i].wl_output == id {
        Some(i)
    } else {
        output_with_id_from(outs, id, i + 1)
    }
}

/// A found output index is in range and is the first match.
pub proof fn lemma_output_with_surface_from(outs: Seq<OutputInfo>, surface: u32, i: int)
    requires
        0 <= i,
    ensures
        match output_with_surface_from(outs, surface, i) {
            Some(k) => i <= k < outs.len() && outs[k].layer_surface == Some(surface) && forall|j: int|
                i <= j < k ==> outs[j].layer_surface != Some(surface),
            None => forall|j: int| i <= j < outs.len() ==> outs[j].layer_surface != Some(surface),
        },
    decreases outs.len() - i,
{
    if i < outs.len() && outs[i].layer_surface != Some(surface) {
        lemma_output_with_surface_from(outs, surface, i + 1);
    }
}

/// A found output index is in range and is the first match.
pub proof fn lemma_output_named_from(outs: Seq<OutputInfo>, name: Seq<char>, i: int)
    requires
        0 <= i,
    ensures
        match output_named_from(outs, name, i) {
            Some(k) => i <= k < outs.len() && outs[k].name@ == name,
            None => forall|j: int| i <= j < outs.len() ==> outs[j].name@ != name,
        },
    decreases outs.len() - i,
{
    if i < outs.len() && outs[i].name@ != name {
        lemma_output_named_from(outs, name, i + 1);
    }
}

/// A found output index is in range and is the first match.
pub proof fn lemma_output_with_id_from(outs: Seq<OutputInfo>, id: u32, i: int)
    requires
        0 <= i,
    ensures
        match output_with_id_from(outs, id, i) {
            Some(k) => i <= k < outs.len() && outs[k].wl_output == id,
            None => forall|j: int| i <= j < outs.len() ==> outs[j].wl_output != id,
        },
    decreases outs.len() - i,
{
    if i < outs.len() && outs[i].wl_output != id {
        lemma_output_with_id_from(outs, id, i + 1);
    }
}

/// Rendering is allowed when the session is not idle (or idle state is
/// unknown) and the battery gate is open.
pub open spec fn spec_app_render_allowed(app: App) -> bool {
    let not_idle = match app.idle {
        Some(i) => !i.idle,
        None => true,
    };
    not_idle && app.battery_ok
}

/// The battery gate and the render request after a battery reading: the
/// gate follows the policy, and a gate that opens requests a render.
pub open spec fn battery_refresh(battery_ok: bool, needs_render: bool, state: Option<BatteryState>, threshold: u8) -> (bool, bool) {
    let allowed = spec_render_allowed(state, threshold);
    (allowed, needs_render || (!battery_ok && allowed))
}

/// Output `i` can be drawn: it is configured and has a render target.
pub open spec fn drawable(app: App, i: int) -> bool {
    &&& 0 <= i < app.outputs@.len()
    &&& app.outputs@[i].configured
    &&& names(app.render_targets@).contains(app.outputs@[i].name@)
}

/// One pointer event's effect on the active output.
pub open spec fn pointer_step(active: Option<Seq<char>>, outs: Seq<OutputInfo>, ev: PointerEventInfo) -> Option<Seq<char>> {
    match output_with_surface_from(outs, ev.surface, 0) {
        Some(i) => match ev.kind {
            PointerKind::Enter => Some(outs[i].name@),
            PointerKind::Leave => if active == Some(outs[i].name@) {
                None
            } else {
                active
            },
            _ => active,
        },
        None => active,
    }
}

/// The active output after a frame of pointer events.
pub open spec fn pointer_after(active: Option<Seq<char>>, outs: Seq<OutputInfo>, evs: Seq<PointerEventInfo>) -> Option<Seq<char>>
    decreases evs.len(),
{
    if evs.len() == 0 {
        active
    } else {
        pointer_step(pointer_after(active, outs, evs.drop_last()), outs, evs.last())
    }
}

/// The motions over wallpaper surfaces in a frame of pointer events:
/// (event index, output name, width, height).
pub open spec fn pointer_motions(outs: Seq<OutputInfo>, evs: Seq<PointerEventInfo>) -> Seq<(int, Seq<char>, u32, u32)>
    decreases evs.len(),
{
    if evs.len() == 0 {
        seq![]
    } else {
        let before = pointer_motions(outs, evs.drop_last());
        let ev = evs.last();
        match output_with_surface_from(outs, ev.surface, 0) {
            Some(i) => if ev.kind == PointerKind::Motion {
                before.push((evs.len() - 1, outs[i].name@, outs[i].width, outs[i].height))
            } else {
                before
            },
            None => before,
        }
    }
}

/// The view of a motion.
pub open spec fn motion_view(m: PointerMotion) -> (int, Seq<char>, u32, u32) {
    (m.event_index as int, m.output_name@, m.width, m.height)
}

/// An output filled in from the output state when it has no name yet.
pub open spec fn filled(o: OutputInfo, d: Option<OutputDetails>) -> bool {
    o.name@.len() == 0 && d is Some
}

/// An output after an update from `d`: the name (empty when unnamed),
/// the current mode's size when there is one, and the scale.
pub open spec fn updated_from(before: OutputInfo, after: OutputInfo, d: OutputDetails) -> bool {
    &&& after.name@ == match d.name {
        Some(n) => n@,
        None => Seq::<char>::empty(),
    }
    &&& after.width == match d.current_mode {
        Some(m) => m.0 as u32,
        None => before.width,
    }
    &&& after.height == match d.current_mode {
        Some(m) => m.1 as u32,
        None => before.height,
    }
    &&& after.scale == d.scale_factor
    &&& after.wl_output == before.wl_output
    &&& after.layer_surface == before.layer_surface
    &&& after.configured == before.configured
}

/// Outputs that differ from `before` only at index `i`.
pub open spec fn only_changed_at(before: Seq<OutputInfo>, after: Seq<OutputInfo>, i: int) -> bool {
    &&& after.len() == before.len()
    &&& forall|j: int| 0 <= j < before.len() && j != i ==> #[trigger] after[j] == before[j]
}

/// The index of the first output with protocol id `id`.
pub fn find_output_id(outputs: &Vec<OutputInfo>, id: u32) -> (r: Option<usize>)
    ensures
        match r {
            Some(i) => output_with_id_from(outputs@, id, 0) == Some(i as int) && i < outputs@.len(),
            None => output_with_id_from(outputs@, id, 0) is None,
        },
{
    proof {
        lemma_output_with_id_from(outputs@, id, 0);
    }
    let n = outputs.len();
    let mut i: usize = 0;
    while i < n
        invariant
            n == outputs@.len(),
            i <= n,
            output_with_id_from(outputs@, id, 0) == output_with_id_from(outputs@, id, i as int),
        decreases n - i,
    {
        if outputs[i].wl_output == id {
            return Some(i);
        }
        i = i + 1;
    }
    None
}

/// The index of the first output whose layer surface is `surface`.
pub fn find_output_surface(outputs: &Vec<OutputInfo>, surface: u32) -> (r: Option<usize>)
    ensures
        match r {
            Some(i) => output_with_surface_from(outputs@, surface, 0) == Some(i as int) && i < outputs@.len(),
            None => output_with_surface_from(outputs@, surface, 0) is None,
        },
{
    proof {
        lemma_output_with_surface_from(outputs@, surface, 0);
    }
    let n = outputs.len();
    let mut i: usize = 0;
    while i < n
        invariant
            n == outputs@.len(),
            i <= n,
            output_with_surface_from(outputs@, surface, 0) == output_with_surface_from(outputs@, surface, i as int),
        decreases n - i,
    {
        if outputs[i].layer_surface == Some(surface) {
            return Some(i);
        }
        i = i + 1;
    }
    None
}

/// What an output update from `details` does to the outputs, and what
/// it reports.
pub open spec fn update_output_post(
    before: Seq<OutputInfo>,
    after: Seq<OutputInfo>,
    wl_output: u32,
    details: Option<OutputDetails>,
    r: UpdateOutputResult,
) -> bool {
    match details {
        None => r is NoInfo && after == before,
        Some(d) => match output_with_id_from(before, wl_output, 0) {
            None => r is Unknown && after == before,
            Some(i) => {
                &&& only_changed_at(before, after, i)
                &&& updated_from(before[i], after[i], d)
                &&& match r {
                    UpdateOutputResult::NeedsLayerSurface { index } => index == i && before[i].layer_surface is None,
                    UpdateOutputResult::Updated { index } => index == i && before[i].layer_surface is Some,
                    _ => false,
                }
            },
        },
    }
}

/// Update the first output with protocol id `wl_output` from the output
/// state, and say whether it needs a layer surface.
pub fn update_output_in(outputs: &mut Vec<OutputInfo>, wl_output: u32, details: Option<OutputDetails>) -> (r: UpdateOutputResult)
    ensures
        update_output_post(old(outputs)@, final(outputs)@, wl_output, details, r),
{
    let d = match details {
        Some(d) => d,
        None => return UpdateOutputResult::NoInfo,
    };
    proof {
        lemma_output_with_id_from(outputs@, wl_output, 0);
    }
    let idx = match find_output_id(outputs, wl_output) {
        Some(i) => i,
        None => return UpdateOutputResult::Unknown,
    };
    let mut o = outputs[idx].copy();
    o.update_from(&d);
    let needs = o.layer_surface.is_none();
    outputs.set(idx, o);
    if needs {
        UpdateOutputResult::NeedsLayerSurface { index: idx }
    } else {
        UpdateOutputResult::Updated { index: idx }
    }
}

/// Whether an output has another protocol id than `wl_output`.
pub open spec fn keeps_output(wl_output: u32) -> spec_fn(OutputInfo) -> bool {
    |o: OutputInfo| o.wl_output != wl_output
}

/// The outputs of `before` with id `wl_output` dropped, all others kept in
/// their order.
pub open spec fn outputs_without(before: Seq<OutputInfo>, after: Seq<OutputInfo>, wl_output: u32) -> bool {
    &&& after == before.filter(keeps_output(wl_output))
    &&& forall|j: int| 0 <= j < after.len() ==> (#[trigger] after[j]).wl_output != wl_output
    &&& forall|o: OutputInfo| before.contains(o) && o.wl_output != wl_output ==> #[trigger] after.contains(o)
    &&& forall|o: OutputInfo| #[trigger] after.contains(o) ==> before.contains(o)
}

/// Forget every output with protocol id `wl_output`.
pub fn retain_other_outputs(outputs: &mut Vec<OutputInfo>, wl_output: u32)
    ensures
        outputs_without(old(outputs)@, final(outputs)@, wl_output),
{
    let mut kept: Vec<OutputInfo> = Vec::new();
    let n = outputs.len();
    let mut i: usize = 0;
    while i < n
        invariant
            n == outputs@.len(),
            i <= n,
            forall|j: int| 0 <= j < kept@.len() ==> (#[trigger] kept@[j]).wl_output != wl_output,
            forall|j: int| 0 <= j < i && outputs@[j].wl_output != wl_output ==> kept@.contains(#[trigger] outputs@[j]),
            forall|o: OutputInfo| #[trigger] kept@.contains(o) ==> outputs@.contains(o),
            kept@ == outputs@.subrange(0, i as int).filter(keeps_output(wl_output)),
        decreases n - i,
    {
        proof {
            let sub1 = outputs@.subrange(0, i + 1);
            assert(sub1.drop_last() =~= outputs@.subrange(0, i as int));
            assert(sub1.last() == outputs@[i as int]);
            reveal(Seq::filter);
        }
        if outputs[i].wl_output != wl_output {
            let ghost prev = kept@;
            let o = outputs[i].copy();
            kept.push(o);
            proof {
                assert(kept@[prev.len() as int] == outputs@[i as int]);
                assert forall|j: int| 0 <= j < i + 1 && outputs@[j].wl_output != wl_output implies kept@.contains(#[trigger] outputs@[j]) by {
                    if j < i {
                        let k = choose|k: int| 0 <= k < prev.len() && prev[k] == outputs@[j];
                        assert(kept@[k] == outputs@[j]);
                    }
                }
                assert forall|o: OutputInfo| #[trigger] kept@.contains(o) implies outputs@.contains(o) by {
                    let k = choose|k: int| 0 <= k < kept@.len() && kept@[k] == o;
                    if k < prev.len() {
                        assert(prev[k] == o);
                        assert(prev.contains(o));
                    } else {
                        assert(outputs@[i as int] == o);
                    }
                }
            }
        }
        i = i + 1;
    }
    proof {
        assert(outputs@.subrange(0, n as int) =~= outputs@);
        assert forall|o: OutputInfo| outputs@.contains(o) && o.wl_output != wl_output implies #[trigger] kept@.contains(o) by {
            let j = choose|j: int| 0 <= j < outputs@.len() && outputs@[j] == o;
        }
    }
    *outputs = kept;
}

/// The outputs after the layer surface `layer` was configured.
pub open spec fn configure_post(
    before: Seq<OutputInfo>,
    after: Seq<OutputInfo>,
    layer: u32,
    width: u32,
    height: u32,
    r: Option<usize>,
) -> bool {
    match output_with_surface_from(before, layer, 0) {
        None => r is None && after == before,
        Some(i) => {
            let o = before[i];
            &&& 0 <= i < before.len()
            &&& r == Some(i as usize)
            &&& only_changed_at(before, after, i)
            &&& after[i] == (OutputInfo {
                width: if width > 0 { width } else { o.width },
                height: if height > 0 { height } else { o.height },
                configured: true,
                ..o
            })
        },
    }
}

/// The output owning layer surface `layer` takes the configured size
/// (where non-zero) and becomes configured.
pub fn configure_output_in(outputs: &mut Vec<OutputInfo>, layer: u32, width: u32, height: u32) -> (r: Option<usize>)
    ensures
        configure_post(old(outputs)@, final(outputs)@, layer, width, height, r),
{
    proof {
        lemma_output_with_surface_from(outputs@, layer, 0);
    }
    let idx = match find_output_surface(outputs, layer) {
        Some(i) => i,
        None => return None,
    };
    let mut o = outputs[idx].copy();
    if width > 0 {
        o.width = width;
    }
    if height > 0 {
        o.height = height;
    }
    o.configured = true;
    outputs.set(idx, o);
    Some(idx)
}

/// A new `wl_output`, recorded with placeholder details until its
/// information arrives.
pub fn push_new_output(outputs: &mut Vec<OutputInfo>, wl_output: u32)
    ensures
        final(outputs)@.len() == old(outputs)@.len() + 1,
        final(outputs)@.drop_last() == old(outputs)@,
        final(outputs)@.last().name@.len() == 0,
        final(outputs)@.last() == (OutputInfo {
            name: final(outputs)@.last().name,
            wl_output,
            width: 1920,
            height: 1080,
            scale: 1,
            layer_surface: None,
            configured: false,
        }),
{
    outputs.push(
        OutputInfo {
            name: String::new(),
            wl_output,
            width: 1920,
            height: 1080,
            scale: 1,
            layer_surface: None,
            configured: false,
        },
    );
    assert(outputs@.drop_last() =~= old(outputs)@);
}

/// Record the layer surface created for output `index`.
pub fn attach_layer_surface_in(outputs: &mut Vec<OutputInfo>, index: usize, surface: u32)
    requires
        index < old(outputs)@.len(),
    ensures
        only_changed_at(old(outputs)@, final(outputs)@, index as int),
        final(outputs)@[index as int] == (OutputInfo { layer_surface: Some(surface), ..old(outputs)@[index as int] }),
{
    let mut o = outputs[index].copy();
    o.layer_surface = Some(surface);
    outputs.set(index, o);
}

impl OutputInfo {
    /// A copy of the output record.
    pub fn copy(&self) -> (r: OutputInfo)
        ensures
            r == *self,
    {
        OutputInfo {
            name: self.name.clone(),
            wl_output: self.wl_output,
            width: self.width,
            height: self.height,
            scale: self.scale,
            layer_surface: self.layer_surface,
            configured: self.configured,
        }
    }

    /// Fills name, size and scale from the output state.
    fn update_from(&mut self, d: &OutputDetails)
        ensures
            updated_from(*old(self), *final(self), *d),
    {
        self.name = match &d.name {
            Some(n) => n.clone(),
            None => String::new(),
        };
        if let Some(m) = d.current_mode {
            self.width = m.0 as u32;
            self.height = m.1 as u32;
        }
        self.scale = d.scale_factor;
    }
}

/// Whether `name` is among `v`.
fn contains_name(v: &Vec<String>, name: &str) -> (r: bool)
    ensures
        r == names(v@).contains(name@),
{
    let n = v.len();
    let mut i: usize = 0;
    while i < n
        invariant
            n == v@.len(),
            i <= n,
            forall|j: int| 0 <= j < i ==> v@[j]@ != name@,
        decreases n - i,
    {
        if str_eq(v[i].as_str(), name) {
            assert(names(v@).contains(name@)) by {
                assert(v@[i as int]@ == name@);
            }
            return true;
        }
        i = i + 1;
    }
    assert(!names(v@).contains(name@)) by {
        if names(v@).contains(name@) {
            let j = choose|j: int| 0 <= j < v@.len() && (#[trigger] v@[j])@ == name@;
            assert(v@[j]@ != name@);
        }
    }
    false
}

impl App {
    /// The state right after binding the globals: no outputs, no renderer,
    /// gates open, running.
    pub fn new(config: Config) -> (r: App)
        ensures
            r.config == config,
            r.outputs@.len() == 0,
            !r.has_renderer,
            r.render_targets@.len() == 0,
            !r.has_cursor,
            r.pointer_active_output is None,
            r.idle is None,
            r.battery_ok,
            !r.needs_render,
            r.running,
    {
        App {
            config,
            outputs: Vec::new(),
            has_renderer: false,
            render_targets: Vec::new(),
            has_cursor: false,
            pointer_active_output: None,
            idle: None,
            battery_ok: true,
            needs_render: false,
            running: true,
        }
    }

    /// True if rendering should currently happen. Combines idle state (set
    /// by ext-idle-notify-v1 events) and battery state (refreshed by a slow
    /// timer).
    pub fn render_allowed(&self) -> (r: bool)
        ensures
            r == spec_app_render_allowed(*self),
    {
        let not_idle = match &self.idle {
            Some(i) => !i.idle,
            None => true,
        };
        not_idle && self.battery_ok
    }

    /// Refresh the battery gate from a battery reading. A gate that opens
    /// requests a render.
    pub fn refresh_battery(&mut self, state: Option<BatteryState>)
        ensures
            (final(self).battery_ok, final(self).needs_render) == battery_refresh(
                old(self).battery_ok,
                old(self).needs_render,
                state,
                old(self).config.general.battery_threshold,
            ),
            final(self).config == old(self).config,
            final(self).outputs == old(self).outputs,
            final(self).render_targets == old(self).render_targets,
            final(self).idle == old(self).idle,
            final(self).pointer_active_output == old(self).pointer_active_output,
            final(self).has_renderer == old(self).has_renderer,
            final(self).running == old(self).running,
            final(self).has_cursor == old(self).has_cursor,
    {
        let allowed = battery_render_allowed(state, self.config.general.battery_threshold);
        if allowed != self.battery_ok {
            self.battery_ok = allowed;
            if allowed {
                self.needs_render = true;
            }
        }
    }

    /// An idle notification: `Idled` closes the idle gate, `Resumed` opens
    /// it and requests a render.
    pub fn idle_event(&mut self, event: IdleEvent)
        ensures
            match old(self).idle {
                Some(_) => final(self).idle == Some(IdleState { idle: event == IdleEvent::Idled }),
                None => final(self).idle is None,
            },
            final(self).needs_render == (old(self).needs_render || event == IdleEvent::Resumed),
            final(self).battery_ok == old(self).battery_ok,
            final(self).config == old(self).config,
            final(self).outputs == old(self).outputs,
            final(self).render_targets == old(self).render_targets,
            final(self).pointer_active_output == old(self).pointer_active_output,
            final(self).has_renderer == old(self).has_renderer,
            final(self).running == old(self).running,
            final(self).has_cursor == old(self).has_cursor,
    {
        match event {
            IdleEvent::Idled => {
                if self.idle.is_some() {
                    self.idle = Some(IdleState { idle: true });
                }
            },
            IdleEvent::Resumed => {
                if self.idle.is_some() {
                    self.idle = Some(IdleState { idle: false });
                }
                self.needs_render = true;
            },
        }
    }

    /// Take a reloaded configuration. With a renderer, the configured
    /// outputs that have render targets get their wallpapers reloaded and a
    /// render is requested; either way the new configuration replaces the
    /// old one.
    pub fn reload_config(&mut self, new_cfg: Config) -> (r: ReloadPlan)
        ensures
            r.tracking_mode_changed == (new_cfg.general.tracking_mode != old(self).config.general.tracking_mode),
            r.idle_timeout_changed == (new_cfg.general.idle_timeout_secs != old(self).config.general.idle_timeout_secs),
            old(self).has_renderer ==> lists_exactly(r.outputs@, old(self).outputs@.len() as int, |i: int| drawable(*old(self), i)),
            !old(self).has_renderer ==> r.outputs@.len() == 0,
            final(self).needs_render == (old(self).needs_render || old(self).has_renderer),
            final(self).config == new_cfg,
            final(self).outputs == old(self).outputs,
            final(self).render_targets == old(self).render_targets,
            final(self).idle == old(self).idle,
            final(self).battery_ok == old(self).battery_ok,
            final(self).pointer_active_output == old(self).pointer_active_output,
            final(self).has_renderer == old(self).has_renderer,
            final(self).running == old(self).running,
            final(self).has_cursor == old(self).has_cursor,
    {
        let tracking_mode_changed = new_cfg.general.tracking_mode != self.config.general.tracking_mode;
        let idle_timeout_changed = new_cfg.general.idle_timeout_secs != self.config.general.idle_timeout_secs;
        if !self.has_renderer {
            self.config = new_cfg;
            return ReloadPlan { tracking_mode_changed, idle_timeout_changed, outputs: Vec::new() };
        }
        let outputs = self.drawable_outputs();
        self.config = new_cfg;
        self.needs_render = true;
        ReloadPlan { tracking_mode_changed, idle_timeout_changed, outputs }
    }

    /// The configured outputs that have render targets, in output order.
    fn drawable_outputs(&self) -> (r: Vec<usize>)
        ensures
            lists_exactly(r@, self.outputs@.len() as int, |i: int| drawable(*self, i)),
    {
        let n = self.outputs.len();
        let mut out: Vec<usize> = Vec::new();
        let mut i: usize = 0;
        while i < n
            invariant
                n == self.outputs@.len(),
                i <= n,
                forall|k: int| 0 <= k < out@.len() ==> #[trigger] out@[k] < i && drawable(*self, out@[k] as int),
                forall|k: int, l: int| 0 <= k < l < out@.len() ==> out@[k] < out@[l],
                forall|j: int| 0 <= j < i && drawable(*self, j) ==> out@.contains(j as usize),
            decreases n - i,
        {
            let o = &self.outputs[i];
            if o.configured && contains_name(&self.render_targets, o.name.as_str()) {
                let ghost prev = out@;
                out.push(i);
                proof {
                    assert forall|j: int| 0 <= j < i + 1 && drawable(*self, j) implies out@.contains(j as usize) by {
                        if j < i {
                            let k = choose|k: int| 0 <= k < prev.len() && prev[k] == j as usize;
                            assert(out@[k] == j as usize);
                        } else {
                            assert(out@[prev.len() as int] == i);
                        }
                    }
                }
            }
            i = i + 1;
        }
        out
    }

    /// The outputs to draw this frame: none when a gate is closed or there
    /// is no renderer, else every configured output with a render target.
    pub fn render_all(&self) -> (r: Vec<usize>)
        ensures
            (spec_app_render_allowed(*self) && self.has_renderer) ==> lists_exactly(r@, self.outputs@.len() as int, |i: int| drawable(*self, i)),
            !(spec_app_render_allowed(*self) && self.has_renderer) ==> r@.len() == 0,
    {
        if !self.render_allowed() || !self.has_renderer {
            return Vec::new();
        }
        self.drawable_outputs()
    }

    /// The output to draw for a single named output (pointer mode), if it
    /// can be drawn.
    pub fn render_output(&self, output_name: &str) -> (r: Option<usize>)
        ensures
            r == (if spec_app_render_allowed(*self) && self.has_renderer {
                match output_named_from(self.outputs@, output_name@, 0) {
                    Some(i) => if drawable(*self, i) { Some(i as usize) } else { None::<usize> },
                    None => None::<usize>,
                }
            } else {
                None::<usize>
            }),
    {
        if !self.render_allowed() || !self.has_renderer {
            return None;
        }
        proof {
            lemma_output_named_from(self.outputs@, output_name@, 0);
        }
        let n = self.outputs.len();
        let mut i: usize = 0;
        while i < n
            invariant
                n == self.outputs@.len(),
                i <= n,
                output_named_from(self.outputs@, output_name@, 0) == output_named_from(self.outputs@, output_name@, i as int),
                spec_app_render_allowed(*self),
                self.has_renderer,
            decreases n - i,
        {
            let o = &self.outputs[i];
            if str_eq(o.name.as_str(), output_name) {
                assert(output_named_from(self.outputs@, output_name@, i as int) == Some(i as int));
                if !o.configured {
                    return None;
                }
                if contains_name(&self.render_targets, output_name) {
                    assert(drawable(*self, i as int));
                    return Some(i);
                }
                return None;
            }
            i = i + 1;
        }
        None
    }

    /// A new `wl_output`: recorded with placeholder details until its
    /// information arrives.
    pub fn new_output(&mut self, wl_output: u32)
        ensures
            final(self).outputs@.len() == old(self).outputs@.len() + 1,
            final(self).outputs@.drop_last() == old(self).outputs@,
            final(self).outputs@.last().name@.len() == 0,
            final(self).outputs@.last() == (OutputInfo {
                name: final(self).outputs@.last().name,
                wl_output,
                width: 1920,
                height: 1080,
                scale: 1,
                layer_surface: None,
                configured: false,
            }),
            final(self).config == old(self).config,
            final(self).render_targets == old(self).render_targets,
            final(self).pointer_active_output == old(self).pointer_active_output,
            final(self).has_renderer == old(self).has_renderer,
            final(self).has_cursor == old(self).has_cursor,
            final(self).idle == old(self).idle,
            final(self).battery_ok == old(self).battery_ok,
            final(self).needs_render == old(self).needs_render,
            final(self).running == old(self).running,
    {
        push_new_output(&mut self.outputs, wl_output);
    }

    /// The output state has (maybe) new information for `wl_output`:
    /// update the first output with that id, and say whether it needs a
    /// layer surface.
    pub fn update_output(&mut self, wl_output: u32, details: Option<OutputDetails>) -> (r: UpdateOutputResult)
        ensures
            update_output_post(old(self).outputs@, final(self).outputs@, wl_output, details, r),
            final(self).config == old(self).config,
            final(self).render_targets == old(self).render_targets,
            final(self).pointer_active_output == old(self).pointer_active_output,
            final(self).has_renderer == old(self).has_renderer,
            final(self).has_cursor == old(self).has_cursor,
            final(self).idle == old(self).idle,
            final(self).battery_ok == old(self).battery_ok,
            final(self).needs_render == old(self).needs_render,
            final(self).running == old(self).running,
    {
        update_output_in(&mut self.outputs, wl_output, details)
    }

    /// Record the layer surface created for output `index`.
    pub fn attach_layer_surface(&mut self, index: usize, surface: u32)
        requires
            index < old(self).outputs@.len(),
        ensures
            only_changed_at(old(self).outputs@, final(self).outputs@, index as int),
            final(self).outputs@[index as int] == (OutputInfo {
                layer_surface: Some(surface),
                ..old(self).outputs@[index as int]
            }),
            final(self).config == old(self).config,
            final(self).render_targets == old(self).render_targets,
            final(self).pointer_active_output == old(self).pointer_active_output,
            final(self).has_renderer == old(self).has_renderer,
            final(self).has_cursor == old(self).has_cursor,
            final(self).idle == old(self).idle,
            final(self).battery_ok == old(self).battery_ok,
            final(self).needs_render == old(self).needs_render,
            final(self).running == old(self).running,
    {
        attach_layer_surface_in(&mut self.outputs, index, surface);
    }

    /// Fill in the outputs that have no name yet from the output state
    /// (`details[i]` for output `i`), and list the named outputs that still
    /// lack a layer surface.
    pub fn ensure_layer_surfaces(&mut self, details: &Vec<Option<OutputDetails>>) -> (r: Vec<usize>)
        requires
            details@.len() == old(self).outputs@.len(),
        ensures
            final(self).outputs@.len() == old(self).outputs@.len(),
            forall|i: int| 0 <= i < old(self).outputs@.len() ==> if filled(old(self).outputs@[i], details@[i]) {
                updated_from(old(self).outputs@[i], #[trigger] final(self).outputs@[i], details@[i]->0)
            } else {
                final(self).outputs@[i] == old(self).outputs@[i]
            },
            lists_exactly(r@, old(self).outputs@.len() as int, |i: int| final(self).outputs@[i].name@.len() > 0
                && final(self).outputs@[i].layer_surface is None),
            final(self).config == old(self).config,
            final(self).render_targets == old(self).render_targets,
            final(self).pointer_active_output == old(self).pointer_active_output,
            final(self).has_renderer == old(self).has_renderer,
            final(self).has_cursor == old(self).has_cursor,
            final(self).idle == old(self).idle,
            final(self).battery_ok == old(self).battery_ok,
            final(self).needs_render == old(self).needs_render,
            final(self).running == old(self).running,
    {
        let n = self.outputs.len();
        let ghost start = self.outputs@;
        let mut out: Vec<usize> = Vec::new();
        let mut i: usize = 0;
        while i < n
            invariant
                n == start.len(),
                n == details@.len(),
                self.outputs@.len() == n,
                i <= n,
                forall|j: int| 0 <= j < n ==> if j < i && filled(start[j], details@[j]) {
                    updated_from(start[j], #[trigger] self.outputs@[j], details@[j]->0)
                } else {
                    self.outputs@[j] == start[j]
                },
                forall|k: int| 0 <= k < out@.len() ==> #[trigger] out@[k] < i && self.outputs@[out@[k] as int].name@.len() > 0
                    && self.outputs@[out@[k] as int].layer_surface is None,
                forall|k: int, l: int| 0 <= k < l < out@.len() ==> out@[k] < out@[l],
                forall|j: int| 0 <= j < i && self.outputs@[j].name@.len() > 0 && self.outputs@[j].layer_surface is None
                    ==> out@.contains(j as usize),
                self.config == old(self).config,
                self.render_targets == old(self).render_targets,
                self.has_renderer == old(self).has_renderer,
                self.has_cursor == old(self).has_cursor,
                self.idle == old(self).idle,
                self.battery_ok == old(self).battery_ok,
                self.needs_render == old(self).needs_render,
                self.running == old(self).running,
                self.pointer_active_output == old(self).pointer_active_output,
            decreases n - i,
        {
            let ghost before = self.outputs@;
            if self.outputs[i].name.unicode_len() == 0 {
                if let Some(d) = &details[i] {
                    let mut o = self.outputs[i].copy();
                    o.update_from(d);
                    self.outputs.set(i, o);
                }
            }
            proof {
                assert forall|j: int| 0 <= j < n && j != i implies #[trigger] self.outputs@[j] == before[j] by {}
            }
            if self.outputs[i].name.unicode_len() > 0 && self.outputs[i].layer_surface.is_none() {
                let ghost prev = out@;
                out.push(i);
                proof {
                    assert forall|j: int| 0 <= j < i + 1 && self.outputs@[j].name@.len() > 0
                        && self.outputs@[j].layer_surface is None implies out@.contains(j as usize) by {
                        if j < i {
                            let k = choose|k: int| 0 <= k < prev.len() && prev[k] == j as usize;
                            assert(out@[k] == j as usize);
                        } else {
                            assert(out@[prev.len() as int] == i);
                        }
                    }
                }
            }
            i = i + 1;
        }
        out
    }

    /// An output went away: its render target is dropped and every output
    /// with that id is forgotten.
    pub fn output_destroyed(&mut self, wl_output: u32)
        ensures
            outputs_without(old(self).outputs@, final(self).outputs@, wl_output),
            match output_with_id_from(old(self).outputs@, wl_output, 0) {
                Some(i) => names(final(self).render_targets@) == names(old(self).render_targets@).remove(old(self).outputs@[i].name@),
                None => final(self).render_targets == old(self).render_targets,
            },
            final(self).config == old(self).config,
            final(self).pointer_active_output == old(self).pointer_active_output,
            final(self).has_renderer == old(self).has_renderer,
            final(self).has_cursor == old(self).has_cursor,
            final(self).idle == old(self).idle,
            final(self).battery_ok == old(self).battery_ok,
            final(self).needs_render == old(self).needs_render,
            final(self).running == old(self).running,
    {
        if let Some(i) = find_output_id(&self.outputs, wl_output) {
            let name = self.outputs[i].name.clone();
            self.remove_render_target(name.as_str());
        }
        retain_other_outputs(&mut self.outputs, wl_output);
    }

    /// Record a render target for `name`.
    pub fn add_render_target(&mut self, name: &str)
        ensures
            names(final(self).render_targets@) == names(old(self).render_targets@).insert(name@),
            final(self).outputs == old(self).outputs,
            final(self).config == old(self).config,
            final(self).pointer_active_output == old(self).pointer_active_output,
            final(self).has_renderer == old(self).has_renderer,
            final(self).has_cursor == old(self).has_cursor,
            final(self).idle == old(self).idle,
            final(self).battery_ok == old(self).battery_ok,
            final(self).needs_render == old(self).needs_render,
            final(self).running == old(self).running,
    {
        if !contains_name(&self.render_targets, name) {
            let ghost prev = self.render_targets@;
            self.render_targets.push(name.to_owned());
            proof {
                assert(names(self.render_targets@) =~= names(prev).insert(name@)) by {
                    assert forall|x: Seq<char>| names(prev).insert(name@).contains(x) implies names(self.render_targets@).contains(x) by {
                        if x == name@ {
                            assert(self.render_targets@[prev.len() as int]@ == x);
                        } else {
                            let j = choose|j: int| 0 <= j < prev.len() && (#[trigger] prev[j])@ == x;
                            assert(self.render_targets@[j]@ == x);
                        }
                    }
                    assert forall|x: Seq<char>| names(self.render_targets@).contains(x) implies names(prev).insert(name@).contains(x) by {
                        let j = choose|j: int| 0 <= j < self.render_targets@.len() && (#[trigger] self.render_targets@[j])@ == x;
                        if j < prev.len() {
                            assert(prev[j]@ == x);
                        }
                    }
                }
            }
        } else {
            assert(names(self.render_targets@) =~= names(self.render_targets@).insert(name@));
        }
    }

    /// Drop the render target for `name`.
    fn remove_render_target(&mut self, name: &str)
        ensures
            names(final(self).render_targets@) == names(old(self).render_targets@).remove(name@),
            final(self).outputs == old(self).outputs,
            final(self).config == old(self).config,
            final(self).pointer_active_output == old(self).pointer_active_output,
            final(self).has_renderer == old(self).has_renderer,
            final(self).has_cursor == old(self).has_cursor,
            final(self).idle == old(self).idle,
            final(self).battery_ok == old(self).battery_ok,
            final(self).needs_render == old(self).needs_render,
            final(self).running == old(self).running,
    {
        let mut kept: Vec<String> = Vec::new();
        let n = self.render_targets.len();
        let mut i: usize = 0;
        while i < n
            invariant
                n == self.render_targets@.len(),
                i <= n,
                names(kept@) =~= names(self.render_targets@.subrange(0, i as int)).remove(name@),
            decreases n - i,
        {
            let ghost prev = kept@;
            let ghost sub = self.render_targets@.subrange(0, i as int);
            let ghost sub1 = self.render_targets@.subrange(0, i + 1);
            let t = &self.render_targets[i];
            if !str_eq(t.as_str(), name) {
                kept.push(t.clone());
                proof {
                    assert(names(kept@) =~= names(sub1).remove(name@)) by {
                        assert forall|x: Seq<char>| names(sub1).remove(name@).contains(x) implies names(kept@).contains(x) by {
                            let j = choose|j: int| 0 <= j < sub1.len() && (#[trigger] sub1[j])@ == x;
                            if j < i {
                                assert(sub[j]@ == x);
                                assert(names(prev).contains(x));
                                let k = choose|k: int| 0 <= k < prev.len() && (#[trigger] prev[k])@ == x;
                                assert(kept@[k]@ == x);
                            } else {
                                assert(kept@[prev.len() as int]@ == x);
                            }
                        }
                        assert forall|x: Seq<char>| names(kept@).contains(x) implies names(sub1).remove(name@).contains(x) by {
                            let k = choose|k: int| 0 <= k < kept@.len() && (#[trigger] kept@[k])@ == x;
                            if k < prev.len() {
                                assert(prev[k]@ == x);
                                assert(names(prev).contains(x));
                                let j = choose|j: int| 0 <= j < sub.len() && (#[trigger] sub[j])@ == x;
                                assert(sub1[j]@ == x);
                            } else {
                                assert(sub1[i as int]@ == x);
                            }
                        }
                    }
                }
            } else {
                proof {
                    assert(names(kept@) =~= names(sub1).remove(name@)) by {
                        assert forall|x: Seq<char>| names(sub1).remove(name@).contains(x) implies names(kept@).contains(x) by {
                            let j = choose|j: int| 0 <= j < sub1.len() && (#[trigger] sub1[j])@ == x;
                            if j < i {
                                assert(sub[j]@ == x);
                            } else {
                                assert(sub1[i as int]@ == name@);
                            }
                        }
                        assert forall|x: Seq<char>| names(kept@).contains(x) implies names(sub1).remove(name@).contains(x) by {
                            let j = choose|j: int| 0 <= j < sub.len() && (#[trigger] sub[j])@ == x;
                            assert(sub1[j]@ == x);
                        }
                    }
                }
            }
            i = i + 1;
        }
        assert(self.render_targets@.subrange(0, n as int) =~= self.render_targets@);
        self.render_targets = kept;
    }

    /// A layer surface was configured at `width`×`height` (0 means the
    /// compositor leaves that dimension to us). The owning output records
    /// the size and becomes configured; the caller then builds its render
    /// target, or resizes the one it has. Called once a renderer exists.
    pub fn configure(&mut self, layer: u32, width: u32, height: u32) -> (r: ConfigureAction)
        ensures
            configure_post(
                old(self).outputs@,
                final(self).outputs@,
                layer,
                width,
                height,
                match r {
                    ConfigureAction::NoMatch => None,
                    ConfigureAction::CreateTarget { index, .. } => Some(index),
                    ConfigureAction::Reconfigure { index, .. } => Some(index),
                },
            ),
            match r {
                ConfigureAction::NoMatch => true,
                ConfigureAction::CreateTarget { index, name, width: w, height: h } => {
                    &&& !names(old(self).render_targets@).contains(name@)
                    &&& name@ == old(self).outputs@[index as int].name@
                    &&& w == final(self).outputs@[index as int].width
                    &&& h == final(self).outputs@[index as int].height
                },
                ConfigureAction::Reconfigure { index, name, width: w, height: h } => {
                    &&& names(old(self).render_targets@).contains(name@)
                    &&& name@ == old(self).outputs@[index as int].name@
                    &&& w == final(self).outputs@[index as int].width
                    &&& h == final(self).outputs@[index as int].height
                },
            },
            final(self).config == old(self).config,
            final(self).render_targets == old(self).render_targets,
            final(self).pointer_active_output == old(self).pointer_active_output,
            final(self).has_renderer == old(self).has_renderer,
            final(self).has_cursor == old(self).has_cursor,
            final(self).idle == old(self).idle,
            final(self).battery_ok == old(self).battery_ok,
            final(self).needs_render == old(self).needs_render,
            final(self).running == old(self).running,
    {
        let idx = match configure_output_in(&mut self.outputs, layer, width, height) {
            Some(i) => i,
            None => return ConfigureAction::NoMatch,
        };
        let name = self.outputs[idx].name.clone();
        let w = self.outputs[idx].width;
        let h = self.outputs[idx].height;
        if contains_name(&self.render_targets, name.as_str()) {
            ConfigureAction::Reconfigure { index: idx, name, width: w, height: h }
        } else {
            ConfigureAction::CreateTarget { index: idx, name, width: w, height: h }
        }
    }

    /// A frame of pointer events, acted on only in pointer mode: entering a
    /// wallpaper surface makes its output active, leaving the active one
    /// clears it, and each motion is handed back for the caller to move
    /// the parallax and draw that output.
    pub fn pointer_frame(&mut self, events: &Vec<PointerEventInfo>) -> (r: Vec<PointerMotion>)
        ensures
            old(self).config.general.tracking_mode != TrackingMode::Pointer ==> {
                &&& r@.len() == 0
                &&& final(self).pointer_active_output == old(self).pointer_active_output
            },
            old(self).config.general.tracking_mode == TrackingMode::Pointer ==> {
                &&& opt_string_view(final(self).pointer_active_output) == pointer_after(
                    opt_string_view(old(self).pointer_active_output),
                    old(self).outputs@,
                    events@,
                )
                &&& r@.map_values(|m: PointerMotion| motion_view(m)) == pointer_motions(old(self).outputs@, events@)
            },
            final(self).outputs == old(self).outputs,
            final(self).config == old(self).config,
            final(self).render_targets == old(self).render_targets,
            final(self).idle == old(self).idle,
            final(self).battery_ok == old(self).battery_ok,
            final(self).has_renderer == old(self).has_renderer,
            final(self).has_cursor == old(self).has_cursor,
            final(self).needs_render == old(self).needs_render,
            final(self).running == old(self).running,
    {
        let mut motions: Vec<PointerMotion> = Vec::new();
        if self.config.general.tracking_mode != TrackingMode::Pointer {
            return motions;
        }
        let n = events.len();
        let mut k: usize = 0;
        while k < n
            invariant
                n == events@.len(),
                k <= n,
                self.config.general.tracking_mode == TrackingMode::Pointer,
                self.outputs == old(self).outputs,
                self.config == old(self).config,
                self.render_targets == old(self).render_targets,
                self.idle == old(self).idle,
                self.battery_ok == old(self).battery_ok,
                self.has_renderer == old(self).has_renderer,
                self.has_cursor == old(self).has_cursor,
                self.needs_render == old(self).needs_render,
                self.running == old(self).running,
                opt_string_view(self.pointer_active_output) == pointer_after(
                    opt_string_view(old(self).pointer_active_output),
                    old(self).outputs@,
                    events@.subrange(0, k as int),
                ),
                motions@.map_values(|m: PointerMotion| motion_view(m)) == pointer_motions(old(self).outputs@, events@.subrange(0, k as int)),
            decreases n - k,
        {
            let ev = events[k];
            let ghost sub = events@.subrange(0, k as int);
            let ghost sub1 = events@.subrange(0, k + 1);
            proof {
                assert(sub1.drop_last() =~= sub);
                assert(sub1.last() == ev);
            }
            if let Some(i) = find_output_surface(&self.outputs, ev.surface) {
                let name = self.outputs[i].name.clone();
                match ev.kind {
                    PointerKind::Enter => {
                        self.pointer_active_output = Some(name);
                    },
                    PointerKind::Leave => {
                        let is_active = match &self.pointer_active_output {
                            Some(a) => str_eq(a.as_str(), name.as_str()),
                            None => false,
                        };
                        if is_active {
                            self.pointer_active_output = None;
                        }
                    },
                    PointerKind::Motion => {
                        let ghost prev = motions@;
                        motions.push(
                            PointerMotion {
                                event_index: k,
                                output_name: name,
                                width: self.outputs[i].width,
                                height: self.outputs[i].height,
                            },
                        );
                        proof {
                            assert(motions@.map_values(|m: PointerMotion| motion_view(m)) =~= prev.map_values(
                                |m: PointerMotion| motion_view(m),
                            ).push(motion_view(motions@.last())));
                        }
                    },
                    PointerKind::Other => {},
                }
            }
            k = k + 1;
        }
        proof {
            assert(events@.subrange(0, n as int) =~= events@);
        }
        motions
    }

    /// The pointer capability went away: no output is active any more.
    pub fn pointer_removed(&mut self)
        ensures
            final(self).pointer_active_output is None,
            final(self).outputs == old(self).outputs,
            final(self).config == old(self).config,
            final(self).render_targets == old(self).render_targets,
            final(self).has_renderer == old(self).has_renderer,
            final(self).has_cursor == old(self).has_cursor,
            final(self).idle == old(self).idle,
            final(self).battery_ok == old(self).battery_ok,
            final(self).needs_render == old(self).needs_render,
            final(self).running == old(self).running,
    {
        self.pointer_active_output = None;
    }
}

/// Entering a wallpaper surface and then leaving it leaves no output
/// active, whatever was active before.
pub proof fn law_pointer_enter_then_leave(active: Option<Seq<char>>, outs: Seq<OutputInfo>, surface: u32)
    requires
        output_with_surface_from(outs, surface, 0) is Some,
    ensures
        pointer_after(
            active,
            outs,
            seq![
                PointerEventInfo { surface, kind: PointerKind::Enter },
                PointerEventInfo { surface, kind: PointerKind::Leave },
            ],
        ) is None,
{
    let enter = PointerEventInfo { surface, kind: PointerKind::Enter };
    let leave = PointerEventInfo { surface, kind: PointerKind::Leave };
    let evs = seq![enter, leave];
    assert(evs.drop_last() =~= seq![enter]);
    assert(seq![enter].drop_last() =~= Seq::<PointerEventInfo>::empty());
    reveal_with_fuel(pointer_after, 3);
}

/// Every motion reported for a frame comes from a motion event of that
/// frame, and carries the name, width and height of the output whose layer
/// surface received the event (the first output with that surface).
pub proof fn law_motion_of_surface(outs: Seq<OutputInfo>, evs: Seq<PointerEventInfo>, k: int)
    requires
        0 <= k < pointer_motions(outs, evs).len(),
    ensures
        ({
            let m = pointer_motions(outs, evs)[k];
            &&& 0 <= m.0 < evs.len()
            &&& evs[m.0].kind == PointerKind::Motion
            &&& exists|i: int| #![trigger outs[i]]
                0 <= i < outs.len() && outs[i].layer_surface == Some(evs[m.0].surface)
                && (forall|j: int| 0 <= j < i ==> outs[j].layer_surface != Some(evs[m.0].surface))
                && m.1 == outs[i].name@ && m.2 == outs[i].width && m.3 == outs[i].height
        }),
    decreases evs.len(),
{
    let before = pointer_motions(outs, evs.drop_last());
    let ev = evs.last();
    lemma_output_with_surface_from(outs, ev.surface, 0);
    if k < before.len() {
        law_motion_of_surface(outs, evs.drop_last(), k);
        let m = before[k];
        assert(evs.drop_last()[m.0] == evs[m.0]);
        assert(pointer_motions(outs, evs)[k] == m);
    } else {
        let i = output_with_surface_from(outs, ev.surface, 0)->0;
        assert(pointer_motions(outs, evs)[k] == (evs.len() - 1, outs[i].name@, outs[i].width, outs[i].height));
        assert(outs[i].layer_surface == Some(ev.surface));
    }
}

/// Every motion event of a frame over a wallpaper surface is reported.
pub proof fn law_motion_reported(outs: Seq<OutputInfo>, evs: Seq<PointerEventInfo>, e: int)
    requires
        0 <= e < evs.len(),
        evs[e].kind == PointerKind::Motion,
        exists|i: int| 0 <= i < outs.len() && (#[trigger] outs[i]).layer_surface == Some(evs[e].surface),
    ensures
        exists|k: int| 0 <= k < pointer_motions(outs, evs).len() && (#[trigger] pointer_motions(outs, evs)[k]).0 == e,
    decreases evs.len(),
{
    let before = pointer_motions(outs, evs.drop_last());
    lemma_output_with_surface_from(outs, evs.last().surface, 0);
    if e < evs.len() - 1 {
        assert(evs.drop_last()[e] == evs[e]);
        law_motion_reported(outs, evs.drop_last(), e);
        let k = choose|k: int| 0 <= k < before.len() && (#[trigger] before[k]).0 == e;
        assert(pointer_motions(outs, evs)[k] == before[k]);
    } else {
        let i = choose|i: int| 0 <= i < outs.len() && (#[trigger] outs[i]).layer_surface == Some(evs[e].surface);
        assert(output_with_surface_from(outs, evs.last().surface, 0) is Some);
        let k = before.len() as int;
        assert(pointer_motions(outs, evs)[k].0 == e);
    }
}

/// Pointer events on surfaces that belong to no output change nothing and
/// move nothing.
pub proof fn law_pointer_foreign_surface(active: Option<Seq<char>>, outs: Seq<OutputInfo>, ev: PointerEventInfo)
    requires
        output_with_surface_from(outs, ev.surface, 0) is None,
    ensures
        pointer_after(active, outs, seq![ev]) == active,
        pointer_motions(outs, seq![ev]).len() == 0,
{
    assert(seq![ev].drop_last() =~= Seq::<PointerEventInfo>::empty());
    reveal_with_fuel(pointer_after, 2);
    reveal_with_fuel(pointer_motions, 2);
}

/// The output that a single-output render draws is one that a full render
/// draws too.
pub proof fn law_render_output_within_render_all(app: App, name: Seq<char>, listed: Seq<usize>)
    requires
        lists_exactly(listed, app.outputs@.len() as int, |i: int| drawable(app, i)),
        output_named_from(app.outputs@, name, 0) matches Some(i) && drawable(app, i),
    ensures
        listed.contains(output_named_from(app.outputs@, name, 0)->0 as usize),
{
    let i = output_named_from(app.outputs@, name, 0)->0;
    lemma_output_named_from(app.outputs@, name, 0);
    let pred = |k: int| drawable(app, k);
    assert(pred(i));
}

/// While the session is idle nothing renders; once it resumes, rendering
/// follows the battery gate alone.
pub proof fn law_idle_gate(app: App)
    ensures
        !spec_app_render_allowed(App { idle: Some(IdleState { idle: true }), ..app }),
        spec_app_render_allowed(App { idle: Some(IdleState { idle: false }), ..app }) == app.battery_ok,
{
}

/// Battery gating is idempotent: applying the same reading twice gives
/// what applying it once gives.
pub proof fn law_battery_refresh_settles(battery_ok: bool, needs_render: bool, state: Option<BatteryState>, threshold: u8)
    ensures
        ({
            let (b1, n1) = battery_refresh(battery_ok, needs_render, state, threshold);
            battery_refresh(b1, n1, state, threshold) == (b1, n1)
        }),
{
}

} // verus!
