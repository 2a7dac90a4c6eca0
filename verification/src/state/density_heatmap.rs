//! Density heatmap state: whether the building density overlay is shown.

use vstd::prelude::*;

verus! {

/// Density heatmap state container: the overlay is on or off.
#[derive(Debug, Clone, Copy, PartialEq, Eq, Structural)]
pub struct DensityHeatmap {
    /// Whether the density heatmap is currently enabled
    pub enabled: bool,
}

impl DensityHeatmap {
    /// The status label: "Aan" when on, "Uit" when off.
    pub open spec fn label_text(self) -> Seq<char> {
        if self.enabled {
            "Aan"@
        } else {
            "Uit"@
        }
    }

    /// The button label: "Verberg" (hide) when on, "Toon" (show) when off.
    pub open spec fn button_text(self) -> Seq<char> {
        if self.enabled {
            "Verberg"@
        } else {
            "Toon"@
        }
    }

    /// Creates a new DensityHeatmap, disabled.
    pub fn new() -> (r: DensityHeatmap)
        ensures
            !r.enabled,
    {
        DensityHeatmap { enabled: false }
    }

    /// Creates a DensityHeatmap with a specific enabled state.
    pub fn with_enabled(enabled: bool) -> (r: DensityHeatmap)
        ensures
            r.enabled == enabled,
    {
        DensityHeatmap { enabled }
    }

    /// Toggles the heatmap enabled state.
    pub fn toggle(&mut self)
        ensures
            final(self).enabled == !old(self).enabled,
    {
        self.enabled = !self.enabled;
    }

    /// Returns true if the heatmap is currently enabled.
    pub fn is_enabled(&self) -> (r: bool)
        ensures
            r == self.enabled,
    {
        self.enabled
    }

    /// Sets the enabled state directly.
    pub fn set_enabled(&mut self, enabled: bool)
        ensures
            final(self).enabled == enabled,
    {
        self.enabled = enabled;
    }

    /// Returns the label for display.
    pub fn label(&self) -> (r: &'static str)
        ensures
            r@ == self.label_text(),
    {
        if self.enabled {
            "Aan"
        } else {
            "Uit"
        }
    }

    /// Returns the button label (what happens when clicked).
    pub fn button_label(&self) -> (r: &'static str)
        ensures
            r@ == self.button_text(),
    {
        if self.enabled {
            "Verberg"
        } else {
            "Toon"
        }
    }
}

impl Default for DensityHeatmap {
    fn default() -> (r: DensityHeatmap)
        ensures
            !r.enabled,
    {
        DensityHeatmap::new()
    }
}

/// Toggling changes the heatmap state, and toggling twice restores it.
pub proof fn law_heatmap_toggle_twice(start: DensityHeatmap, once: DensityHeatmap, twice: DensityHeatmap)
    requires
        once.enabled == !start.enabled,
        twice.enabled == !once.enabled,
    ensures
        twice == start,
        once != start,
{
}

} // verus!
