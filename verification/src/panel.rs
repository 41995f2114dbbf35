//! The one-slider control panel: a single value in [0, 100], carried in
//! fixed-point thousandths and clamped to the slider's range on every write.

use vstd::prelude::*;

use crate::fixed::clamp_i;

verus! {

/// Greatest slider value, in fixed-point thousandths: 100.0.
pub const PANEL_MAX: i64 = 100_000;

/// The state behind the panel: one slider-bound value.
#[derive(Clone, Copy, PartialEq, Eq, Structural, Debug)]
pub struct Panel {
    pub value: i64,
}

impl Panel {
    /// The value stays within the slider's range.
    pub open spec fn wf(self) -> bool {
        0 <= self.value <= PANEL_MAX
    }

    /// A panel with the slider at its lowest position.
    pub fn new() -> (p: Panel)
        ensures
            p.value == 0,
            p.wf(),
    {
        Panel { value: 0 }
    }

    /// Writes a slider position, clamped to the range.
    pub fn set_value(&mut self, v: i64)
        ensures
            final(self).value as int == clamp_i(v as int, 0, PANEL_MAX as int),
            final(self).wf(),
    {
        self.value = if v < 0 {
            0
        } else if v > PANEL_MAX {
            PANEL_MAX
        } else {
            v
        };
    }

    /// The current slider position.
    pub fn value(&self) -> (v: i64)
        ensures
            v == self.value,
    {
        self.value
    }
}

} // verus!
