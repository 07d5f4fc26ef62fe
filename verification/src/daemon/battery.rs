//! Battery gating of rendering.

use vstd::prelude::*;

use crate::paths::{has_prefix, parse_u8, spec_parse_u8, spec_trim, starts_with, str_eq, trim};

verus! {

/// What the first `BAT*` power supply reports.
#[derive(Debug, Clone, Copy)]
pub struct BatteryState {
    pub capacity: u8,
    pub discharging: bool,
}

/// The battery state that a power supply's `capacity` and `status` files
/// describe: the trimmed capacity as a percentage, and whether the trimmed
/// status is `Discharging`. An unreadable capacity gives nothing.
pub open spec fn spec_battery_state_from(capacity_text: Seq<char>, status_text: Seq<char>) -> Option<BatteryState> {
    match spec_parse_u8(spec_trim(capacity_text)) {
        Some(capacity) => Some(BatteryState { capacity, discharging: spec_trim(status_text) == "Discharging"@ }),
        None => None,
    }
}

/// Reads the contents of a power supply's `capacity` and `status` files.
pub fn battery_state_from(capacity_text: &str, status_text: &str) -> (r: Option<BatteryState>)
    ensures
        r == spec_battery_state_from(capacity_text@, status_text@),
{
    let capacity = match parse_u8(trim(capacity_text)) {
        Some(c) => c,
        None => return None,
    };
    let discharging = str_eq(trim(status_text), "Discharging");
    Some(BatteryState { capacity, discharging })
}

/// Of the power supply entries `names` (in directory order), the index of
/// the first whose name starts with `BAT`, if any.
pub fn first_battery(names: &Vec<String>) -> (r: Option<usize>)
    ensures
        match r {
            Some(i) => i < names@.len() && starts_with(names@[i as int]@, "BAT"@)
                && forall|j: int| 0 <= j < i ==> !starts_with(#[trigger] names@[j]@, "BAT"@),
            None => forall|j: int| 0 <= j < names@.len() ==> !starts_with(#[trigger] names@[j]@, "BAT"@),
        },
{
    let mut i: usize = 0;
    while i < names.len()
        invariant
            i <= names@.len(),
            forall|j: int| 0 <= j < i ==> !starts_with(#[trigger] names@[j]@, "BAT"@),
        decreases names@.len() - i,
    {
        if has_prefix(names[i].as_str(), "BAT") {
            return Some(i);
        }
        i = i + 1;
    }
    None
}

/// Rendering is permitted unless gating is on (`threshold != 0`) and a
/// battery is discharging below the threshold. No battery (a desktop, or a
/// read failure) means no gating.
pub open spec fn spec_render_allowed(state: Option<BatteryState>, threshold: u8) -> bool {
    threshold == 0 || match state {
        Some(s) => !(s.discharging && s.capacity < threshold),
        None => true,
    }
}

/// Return true if rendering should be permitted given the policy.
/// `threshold == 0` disables battery gating entirely.
pub fn render_allowed(state: Option<BatteryState>, threshold: u8) -> (r: bool)
    ensures
        r == spec_render_allowed(state, threshold),
{
    if threshold == 0 {
        return true;
    }
    match state {
        Some(s) => !(s.discharging && s.capacity < threshold),
        None => true,
    }
}

/// Gating never stops a machine without a battery reading, never acts when
/// disabled, and never stops a charging battery.
pub proof fn law_battery_gate_only_when_discharging_low(state: Option<BatteryState>, threshold: u8)
    ensures
        state is None ==> spec_render_allowed(state, threshold),
        threshold == 0 ==> spec_render_allowed(state, threshold),
        !spec_render_allowed(state, threshold) ==> (state matches Some(s) && s.discharging && s.capacity
            < threshold),
{
}

} // verus!
