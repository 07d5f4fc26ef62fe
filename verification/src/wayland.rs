//! The first-generation daemon's output state: its monitors, their layer
//! surfaces and configure sizes. Wayland objects are identified by their
//! protocol ids; the caller holds the objects and acts on what these
//! functions decide.

use vstd::prelude::*;

use crate::config::Config;
use crate::daemon::wayland::{
    attach_layer_surface_in, configure_output_in, configure_post, only_changed_at,
    outputs_without, push_new_output, retain_other_outputs, update_output_in, update_output_post,
    OutputDetails, UpdateOutputResult,
};

pub use crate::daemon::wayland::OutputInfo;

verus! {

/// The first-generation daemon's state.
pub struct App {
    pub config: Config,
    pub outputs: Vec<OutputInfo>,
    pub running: bool,
}

/// `s` lists, in increasing order, the indices of the outputs without a
/// layer surface.
pub open spec fn lists_bare_outputs(s: Seq<usize>, outs: Seq<OutputInfo>) -> bool {
    crate::daemon::wayland::lists_exactly(s, outs.len() as int, |i: int| outs[i].layer_surface is None)
}

impl App {
    /// The state before any output is known.
    pub fn new(config: Config) -> (r: App)
        ensures
            r.config == config,
            r.outputs@.len() == 0,
            r.running,
    {
        App { config, outputs: Vec::new(), running: true }
    }

    /// The outputs that still need a layer surface, sized to the output.
    pub fn create_layer_surfaces(&self) -> (r: Vec<usize>)
        ensures
            lists_bare_outputs(r@, self.outputs@),
    {
        let n = self.outputs.len();
        let mut out: Vec<usize> = Vec::new();
        let mut i: usize = 0;
        while i < n
            invariant
                n == self.outputs@.len(),
                i <= n,
                forall|k: int| 0 <= k < out@.len() ==> #[trigger] out@[k] < i && self.outputs@[out@[k] as int].layer_surface is None,
                forall|k: int, l: int| 0 <= k < l < out@.len() ==> out@[k] < out@[l],
                forall|j: int| 0 <= j < i && self.outputs@[j].layer_surface is None ==> out@.contains(j as usize),
            decreases n - i,
        {
            if self.outputs[i].layer_surface.is_none() {
                let ghost prev = out@;
                out.push(i);
                proof {
                    assert forall|j: int| 0 <= j < i + 1 && self.outputs@[j].layer_surface is None implies out@.contains(j as usize) by {
                        if j < i {
                            let k = choose|k: int| 0 <= k < prev.len() && prev[k] == j as usize;
                            assert(out@[k] == j as usize);
                        } else {
                            assert(out@[prev.len() as int] == i);
                        }
                    }
                }
            }
            i = i + 1;
        }
        out
    }

    /// Record the layer surface created for output `index`.
    pub fn attach_layer_surface(&mut self, index: usize, surface: u32)
        requires
            index < old(self).outputs@.len(),
        ensures
            only_changed_at(old(self).outputs@, final(self).outputs@, index as int),
            final(self).outputs@[index as int] == (OutputInfo { layer_surface: Some(surface), ..old(self).outputs@[index as int] }),
            final(self).config == old(self).config,
            final(self).running == old(self).running,
    {
        attach_layer_surface_in(&mut self.outputs, index, surface);
    }

    /// A new `wl_output`, recorded with placeholder details until its
    /// information arrives.
    pub fn new_output(&mut self, wl_output: u32)
        ensures
            final(self).outputs@.len() == old(self).outputs@.len() + 1,
            final(self).outputs@.drop_last() == old(self).outputs@,
            final(self).outputs@.last().name@.len() == 0,
            final(self).outputs@.last() == (OutputInfo {
                name: final(self).outputs@.last().name,
                wl_output,
                width: 1920,
                height: 1080,
                scale: 1,
                layer_surface: None,
                configured: false,
            }),
            final(self).config == old(self).config,
    {
        push_new_output(&mut self.outputs, wl_output);
    }

    /// The output state has (maybe) new information for `wl_output`:
    /// update the first output with that id, and say whether it needs a
    /// layer surface.
    pub fn update_output(&mut self, wl_output: u32, details: Option<OutputDetails>) -> (r: UpdateOutputResult)
        ensures
            update_output_post(old(self).outputs@, final(self).outputs@, wl_output, details, r),
            final(self).config == old(self).config,
    {
        update_output_in(&mut self.outputs, wl_output, details)
    }

    /// An output went away: every output with that id is forgotten.
    pub fn output_destroyed(&mut self, wl_output: u32)
        ensures
            outputs_without(old(self).outputs@, final(self).outputs@, wl_output),
            final(self).config == old(self).config,
    {
        retain_other_outputs(&mut self.outputs, wl_output);
    }

    /// A layer surface was configured: the owning output takes the size
    /// (where non-zero) and becomes configured. Returns its index, for the
    /// caller to commit the surface.
    pub fn configure(&mut self, layer: u32, width: u32, height: u32) -> (r: Option<usize>)
        ensures
            configure_post(old(self).outputs@, final(self).outputs@, layer, width, height, r),
            final(self).config == old(self).config,
    {
        configure_output_in(&mut self.outputs, layer, width, height)
    }
}

} // verus!
