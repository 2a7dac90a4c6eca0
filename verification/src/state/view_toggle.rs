//! View toggle state for switching the building layer between 2D and 3D.

use vstd::prelude::*;

verus! {

/// View mode for the building layer.
#[derive(Debug, Clone, Copy, PartialEq, Eq, Structural)]
pub enum ViewMode {
    /// 2D footprint view (flat polygons)
    TwoD,
    /// 3D extrusion view (height-based buildings)
    ThreeD,
}

impl ViewMode {
    /// The other mode.
    pub open spec fn flipped(self) -> ViewMode {
        match self {
            ViewMode::TwoD => ViewMode::ThreeD,
            ViewMode::ThreeD => ViewMode::TwoD,
        }
    }

    /// The label shown for a mode.
    pub open spec fn label_text(self) -> Seq<char> {
        match self {
            ViewMode::TwoD => "2D"@,
            ViewMode::ThreeD => "3D"@,
        }
    }

    /// The button label: the view that a click switches to.
    pub open spec fn button_text(self) -> Seq<char> {
        match self {
            ViewMode::TwoD => "3D Weergave"@,
            ViewMode::ThreeD => "2D Weergave"@,
        }
    }

    /// Toggle to the other mode.
    pub fn toggle(&mut self)
        ensures
            *final(self) == old(self).flipped(),
    {
        *self = match *self {
            ViewMode::TwoD => ViewMode::ThreeD,
            ViewMode::ThreeD => ViewMode::TwoD,
        };
    }

    /// Returns true in 3D mode.
    pub fn is_3d(&self) -> (r: bool)
        ensures
            r == (*self == ViewMode::ThreeD),
    {
        match self {
            ViewMode::TwoD => false,
            ViewMode::ThreeD => true,
        }
    }

    /// Returns the label for display.
    pub fn label(&self) -> (r: &'static str)
        ensures
            r@ == self.label_text(),
    {
        match self {
            ViewMode::TwoD => "2D",
            ViewMode::ThreeD => "3D",
        }
    }

    /// Returns the button label (what happens when clicked).
    pub fn button_label(&self) -> (r: &'static str)
        ensures
            r@ == self.button_text(),
    {
        match self {
            ViewMode::TwoD => "3D Weergave",
            ViewMode::ThreeD => "2D Weergave",
        }
    }

    /// The default mode: 3D, which matches the initial map state.
    pub fn default_mode() -> (r: ViewMode)
        ensures
            r == ViewMode::ThreeD,
    {
        ViewMode::ThreeD
    }
}

impl Default for ViewMode {
    fn default() -> (r: ViewMode)
        ensures
            r == ViewMode::ThreeD,
    {
        ViewMode::ThreeD
    }
}

/// View toggle state container.
#[derive(Debug, Clone, PartialEq, Eq, Structural)]
pub struct ViewToggle {
    /// Current view mode
    pub mode: ViewMode,
}

impl ViewToggle {
    /// Creates a new ViewToggle with the default mode (3D).
    pub fn new() -> (r: ViewToggle)
        ensures
            r.mode == ViewMode::ThreeD,
    {
        ViewToggle { mode: ViewMode::default_mode() }
    }

    /// Creates a ViewToggle with a specific mode.
    pub fn with_mode(mode: ViewMode) -> (r: ViewToggle)
        ensures
            r.mode == mode,
    {
        ViewToggle { mode }
    }

    /// Toggles the view mode.
    pub fn toggle(&mut self)
        ensures
            final(self).mode == old(self).mode.flipped(),
    {
        self.mode.toggle();
    }

    /// Returns true if currently in 3D mode.
    pub fn is_3d(&self) -> (r: bool)
        ensures
            r == (self.mode == ViewMode::ThreeD),
    {
        self.mode.is_3d()
    }

    /// Returns the current mode label.
    pub fn label(&self) -> (r: &'static str)
        ensures
            r@ == self.mode.label_text(),
    {
        self.mode.label()
    }

    /// Returns the button label (what happens when clicked).
    pub fn button_label(&self) -> (r: &'static str)
        ensures
            r@ == self.mode.button_text(),
    {
        self.mode.button_label()
    }
}

impl Default for ViewToggle {
    fn default() -> (r: ViewToggle)
        ensures
            r.mode == ViewMode::ThreeD,
    {
        ViewToggle::new()
    }
}

/// Toggling twice gives back the mode one started from.
pub proof fn law_view_mode_toggle_involution(m: ViewMode)
    ensures
        m.flipped().flipped() == m,
        m.flipped() != m,
{
}

/// The button of a mode names the mode that a click switches to: its label
/// followed by " Weergave".
pub proof fn law_button_names_next_mode(m: ViewMode)
    ensures
        m.button_text() == m.flipped().label_text() + " Weergave"@,
{
    reveal_strlit("2D");
    reveal_strlit("3D");
    reveal_strlit(" Weergave");
    reveal_strlit("2D Weergave");
    reveal_strlit("3D Weergave");
    assert(m.button_text() =~= m.flipped().label_text() + " Weergave"@);
}

} // verus!
