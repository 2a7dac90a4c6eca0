//! JavaScript that switches the building layer between 2D footprints and
//! 3D extrusions on a single layer, and remembers the choice in
//! `localStorage` under `viewMode`.

use vstd::prelude::*;
use crate::state::view_toggle::ViewMode;

verus! {

/// A fixed part of the view mode script.
pub const VIEW_MODE_SCRIPT_START: &'static str = r#"
        (function() {
            const map = window['map_map'];
            if (!map) {
                console.error('Map not found for view mode update');
                return;
            }

            try {
                // Set building layer height (single-layer architecture)
                const layer = map.getLayer('building-3d');
                if (layer) {
                    map.setPaintProperty('building-3d', 'fill-extrusion-height', "#;

/// A fixed part of the view mode script.
pub const VIEW_MODE_SCRIPT_AFTER_HEIGHT: &'static str = r#");
                    console.log('View mode set to: "#;

/// A fixed part of the view mode script.
pub const VIEW_MODE_SCRIPT_AFTER_LABEL: &'static str = r#"', "#;

/// A fixed part of the view mode script.
pub const VIEW_MODE_SCRIPT_AFTER_FLAG: &'static str = r#");
                }

                // Adjust pitch for better 2D/3D visualization
                map.easeTo({ pitch: "#;

/// A fixed part of the view mode script.
pub const VIEW_MODE_SCRIPT_AFTER_PITCH: &'static str = r#", duration: 500 });

                // Persist to localStorage
                localStorage.setItem('viewMode', '"#;

/// A fixed part of the view mode script.
pub const VIEW_MODE_SCRIPT_AFTER_STORED: &'static str = r#"');

                console.log('View mode updated:', '"#;

/// A fixed part of the view mode script.
pub const VIEW_MODE_SCRIPT_END: &'static str = r#"');
            } catch (e) {
                console.error('View mode update error:', e);
            }
        })();
    "#;

/// The script that reads the stored view mode, defaulting to 3D.
pub const INITIAL_VIEW_SCRIPT: &'static str = r#"
        (function() {
            try {
                const stored = localStorage.getItem('viewMode');
                if (stored) {
                    window['initialViewMode'] = stored;
                    console.log('Restored view mode from localStorage:', stored);
                } else {
                    window['initialViewMode'] = '3d';
                    console.log('No stored view mode, using default: 3d');
                }
            } catch (e) {
                console.error('Error reading view mode from localStorage:', e);
                window['initialViewMode'] = '3d';
            }
            return window['initialViewMode'];
        })();
    "#;

/// The `fill-extrusion-height` value for a mode: the building height (10
/// where unknown) in 3D, 0 in 2D.
pub open spec fn extrusion_height_text(mode: ViewMode) -> Seq<char> {
    match mode {
        ViewMode::ThreeD => "[\"coalesce\", [\"get\", \"height\"], 10]"@,
        ViewMode::TwoD => "0"@,
    }
}

/// A text for each mode: the first for 3D, the second for 2D.
pub open spec fn by_mode(mode: ViewMode, three_d: Seq<char>, two_d: Seq<char>) -> Seq<char> {
    match mode {
        ViewMode::ThreeD => three_d,
        ViewMode::TwoD => two_d,
    }
}

/// The script that sets the view mode.
pub open spec fn view_mode_script_text(mode: ViewMode) -> Seq<char> {
    VIEW_MODE_SCRIPT_START@ + extrusion_height_text(mode) + VIEW_MODE_SCRIPT_AFTER_HEIGHT@ + by_mode(
        mode,
        "3D"@,
        "2D"@,
    ) + VIEW_MODE_SCRIPT_AFTER_LABEL@ + by_mode(mode, "true"@, "false"@) + VIEW_MODE_SCRIPT_AFTER_FLAG@
        + by_mode(mode, "60"@, "0"@) + VIEW_MODE_SCRIPT_AFTER_PITCH@ + by_mode(mode, "3d"@, "2d"@)
        + VIEW_MODE_SCRIPT_AFTER_STORED@ + by_mode(mode, "3d"@, "2d"@) + VIEW_MODE_SCRIPT_END@
}

/// Builds JavaScript that sets the building layer's extrusion height for the
/// mode, eases the pitch to 60 (3D) or 0 (2D) over 500 ms, and stores the
/// mode (`3d` or `2d`) in `localStorage`.
pub fn build_set_view_mode_script(mode: ViewMode) -> (r: String)
    ensures
        r@ == view_mode_script_text(mode),
{
    let three_d = mode.is_3d();
    let mut r = String::from_str(VIEW_MODE_SCRIPT_START);
    r.append(if three_d { "[\"coalesce\", [\"get\", \"height\"], 10]" } else { "0" });
    r.append(VIEW_MODE_SCRIPT_AFTER_HEIGHT);
    r.append(if three_d { "3D" } else { "2D" });
    r.append(VIEW_MODE_SCRIPT_AFTER_LABEL);
    r.append(if three_d { "true" } else { "false" });
    r.append(VIEW_MODE_SCRIPT_AFTER_FLAG);
    r.append(if three_d { "60" } else { "0" });
    r.append(VIEW_MODE_SCRIPT_AFTER_PITCH);
    r.append(if three_d { "3d" } else { "2d" });
    r.append(VIEW_MODE_SCRIPT_AFTER_STORED);
    r.append(if three_d { "3d" } else { "2d" });
    r.append(VIEW_MODE_SCRIPT_END);
    r
}

/// Builds JavaScript that reads the stored view mode from `localStorage`
/// into `window['initialViewMode']`, defaulting to `3d`.
pub fn build_get_initial_view_script() -> (r: String)
    ensures
        r@ == INITIAL_VIEW_SCRIPT@,
{
    String::from_str(INITIAL_VIEW_SCRIPT)
}

/// The script that applies a 2D view saved in `localStorage` when the toggle appears.
pub const RESTORE_VIEW_MODE_SCRIPT: &'static str = r#"
            (function() {
                try {
                    const stored = localStorage.getItem('viewMode');
                    if (stored === '2d') {
                        // Set 2D mode
                        const map = window['map_map'];
                        if (map) {
                            map.setPaintProperty('building-3d', 'fill-extrusion-height', 0);
                            map.setPitch(0);
                        }
                    }
                } catch (e) {
                    console.error('Error restoring view mode:', e);
                }
            })();
            "#;

/// The part of the view URL script before the view mode.
pub const VIEW_URL_SCRIPT_START: &'static str = r#"
                            (function() {
                                try {
                                    // Read heatmap state from localStorage
                                    const heatmapEnabled = localStorage.getItem('densityHeatmapEnabled') === 'true';

                                    // Build URL params with new view mode
                                    const params = new URLSearchParams();
                                    params.set('view', '"#;

/// The part of the view URL script after the view mode.
pub const VIEW_URL_SCRIPT_END: &'static str = r#"');

                                    // Note: We can't read the current filter values directly here,
                                    // so we preserve any existing filter params from the current URL
                                    const currentParams = new URLSearchParams(window.location.search);
                                    if (currentParams.has('year_min')) params.set('year_min', currentParams.get('year_min'));
                                    if (currentParams.has('year_max')) params.set('year_max', currentParams.get('year_max'));
                                    if (currentParams.has('height_min')) params.set('height_min', currentParams.get('height_min'));
                                    if (currentParams.has('height_max')) params.set('height_max', currentParams.get('height_max'));
                                    if (currentParams.has('floors_min')) params.set('floors_min', currentParams.get('floors_min'));
                                    if (currentParams.has('floors_max')) params.set('floors_max', currentParams.get('floors_max'));

                                    params.set('heatmap', heatmapEnabled.toString());

                                    // Update URL
                                    const url = new URL(window.location.href);
                                    url.search = params.toString();
                                    window.history.replaceState({state: 'urlStateUpdated'}, '', url);

                                    console.log('URL updated with view mode:', url.toString());
                                } catch (e) {
                                    console.error('Failed to update URL:', e);
                                }
                            })();
                            "#;

/// Builds the JavaScript that applies a saved 2D view when the toggle
/// appears.
pub fn build_restore_view_mode_script() -> (r: String)
    ensures
        r@ == RESTORE_VIEW_MODE_SCRIPT@,
{
    String::from_str(RESTORE_VIEW_MODE_SCRIPT)
}

/// The script that writes a view mode to the page URL.
pub open spec fn view_url_script_text(mode: ViewMode) -> Seq<char> {
    VIEW_URL_SCRIPT_START@ + by_mode(mode, "3d"@, "2d"@) + VIEW_URL_SCRIPT_END@
}

/// Builds JavaScript that writes the view mode (`3d` or `2d`) to the page
/// URL, keeping the filter parameters already there and the heatmap state
/// saved in `localStorage`.
pub fn build_view_url_script(mode: ViewMode) -> (r: String)
    ensures
        r@ == view_url_script_text(mode),
{
    let mut r = String::from_str(VIEW_URL_SCRIPT_START);
    r.append(if mode.is_3d() { "3d" } else { "2d" });
    r.append(VIEW_URL_SCRIPT_END);
    r
}

/// A click on the view toggle: the mode is toggled, and the scripts to run
/// are returned in order: the script that sets the new mode, then the one
/// that writes it to the page URL.
pub fn view_toggle_click(mode: &mut ViewMode) -> (scripts: Vec<String>)
    ensures
        *final(mode) == old(mode).flipped(),
        scripts@.len() == 2,
        scripts@[0]@ == view_mode_script_text(*final(mode)),
        scripts@[1]@ == view_url_script_text(*final(mode)),
{
    mode.toggle();
    let mut scripts: Vec<String> = Vec::new();
    scripts.push(build_set_view_mode_script(*mode));
    scripts.push(build_view_url_script(*mode));
    scripts
}

/// The CSS class of the toggle button: "btn-3d-control", with "active"
/// added in 3D.
pub fn toggle_button_class(mode: ViewMode) -> (r: &'static str)
    ensures
        r@ == by_mode(mode, "btn-3d-control active"@, "btn-3d-control"@),
{
    if mode.is_3d() {
        "btn-3d-control active"
    } else {
        "btn-3d-control"
    }
}

} // verus!
