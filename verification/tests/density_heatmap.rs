use iou_modern::components::density_heatmap::{
    build_add_heatmap_layer_script, build_restore_heatmap_script, heatmap_button_click, build_density_calculation_script,
    build_setup_density_update_script,
};
use iou_modern::state::density_heatmap::DensityHeatmap;

#[test]
fn test_density_heatmap_default_creates_disabled_state() {
    let heatmap = DensityHeatmap::default();
    assert!(!heatmap.enabled, "Default heatmap should be disabled");
    assert!(!heatmap.is_enabled(), "is_enabled() should return false for default");
}

#[test]
fn test_density_heatmap_new_creates_disabled_state() {
    let heatmap = DensityHeatmap::new();
    assert!(!heatmap.enabled, "new() should create disabled state");
}

#[test]
fn test_density_heatmap_toggle_switches_enabled_disabled() {
    let mut heatmap = DensityHeatmap::new();
    assert!(!heatmap.is_enabled());
    heatmap.toggle();
    assert!(heatmap.is_enabled(), "After first toggle, should be enabled");
    heatmap.toggle();
    assert!(!heatmap.is_enabled(), "After second toggle, should be disabled");
}

#[test]
fn test_density_heatmap_is_enabled_returns_correct_boolean() {
    let disabled = DensityHeatmap::with_enabled(false);
    assert!(!disabled.is_enabled(), "with_enabled(false) should make is_enabled() return false");

    let enabled = DensityHeatmap::with_enabled(true);
    assert!(enabled.is_enabled(), "with_enabled(true) should make is_enabled() return true");
}

#[test]
fn test_density_heatmap_set_enabled_updates_state() {
    let mut heatmap = DensityHeatmap::new();
    assert!(!heatmap.is_enabled());
    heatmap.set_enabled(true);
    assert!(heatmap.is_enabled());
    heatmap.set_enabled(false);
    assert!(!heatmap.is_enabled());
}

#[test]
fn test_density_heatmap_with_enabled_creates_correct_state() {
    let enabled_heatmap = DensityHeatmap::with_enabled(true);
    assert!(enabled_heatmap.enabled, "with_enabled(true) should set enabled to true");

    let disabled_heatmap = DensityHeatmap::with_enabled(false);
    assert!(!disabled_heatmap.enabled, "with_enabled(false) should set enabled to false");
}

#[test]
fn test_density_heatmap_label_returns_dutch_text() {
    let enabled = DensityHeatmap::with_enabled(true);
    assert_eq!(enabled.label(), "Aan", "Enabled heatmap should show 'Aan'");

    let disabled = DensityHeatmap::with_enabled(false);
    assert_eq!(disabled.label(), "Uit", "Disabled heatmap should show 'Uit'");
}

#[test]
fn test_density_heatmap_button_label_shows_action() {
    let enabled = DensityHeatmap::with_enabled(true);
    assert_eq!(enabled.button_label(), "Verberg", "Enabled heatmap button should show 'Verberg'");

    let disabled = DensityHeatmap::with_enabled(false);
    assert_eq!(disabled.button_label(), "Toon", "Disabled heatmap button should show 'Toon'");
}

#[test]
fn heatmap_toggle_twice_restores_state() {
    for start in [false, true] {
        let mut heatmap = DensityHeatmap::with_enabled(start);
        heatmap.toggle();
        assert_ne!(heatmap.enabled, start);
        heatmap.toggle();
        assert_eq!(heatmap, DensityHeatmap::with_enabled(start));
    }
}

#[test]
fn test_build_add_heatmap_layer_script_contains_heatmap_type() {
    let script = build_add_heatmap_layer_script(true);
    assert!(script.contains("type: 'heatmap'"), "Script should create a heatmap layer");
}

#[test]
fn test_build_add_heatmap_layer_script_includes_interpolate_color_expression() {
    let script = build_add_heatmap_layer_script(true);
    assert!(script.contains("'heatmap-color'"), "Script should set heatmap-color property");
    assert!(script.contains("'interpolate'"),
            "Script should use interpolate expression for color gradient");
}

#[test]
fn test_build_add_heatmap_layer_script_uses_visibility_none_when_disabled() {
    let script = build_add_heatmap_layer_script(false);
    assert!(script.contains("'visibility', 'none'"),
            "Disabled heatmap should use visibility: none");
}

#[test]
fn test_build_add_heatmap_layer_script_uses_visibility_visible_when_enabled() {
    let script = build_add_heatmap_layer_script(true);
    assert!(script.contains("'visibility', 'visible'"),
            "Enabled heatmap should use visibility: visible");
}

#[test]
fn test_build_density_calculation_script_includes_buffered_bbox() {
    let script = build_density_calculation_script("5.0,52.0,5.5,52.5".to_string());
    assert!(script.contains("buffer"),
            "Script should calculate buffered bbox to prevent tile seams");
    assert!(script.contains("0.00045") || script.contains("bufferedBbox"),
            "Script should use ~50m buffer (~0.00045 degrees)");
}

#[test]
fn test_build_density_calculation_script_fetches_from_buildings_3d_endpoint() {
    let script = build_density_calculation_script("5.0,52.0,5.5,52.5".to_string());
    assert!(script.contains("/api/buildings-3d"), "Script should fetch from buildings-3d endpoint");
    assert!(script.contains("bbox-wgs84"), "Script should use bbox-wgs84 parameter");
}

#[test]
fn test_build_setup_density_update_script_registers_moveend_listener() {
    let script = build_setup_density_update_script();
    assert!(script.contains("'moveend'") || script.contains("\"moveend\""),
            "Script should register moveend event listener");
}

#[test]
fn test_build_setup_density_update_script_registers_zoomend_listener() {
    let script = build_setup_density_update_script();
    assert!(script.contains("'zoomend'") || script.contains("\"zoomend\""),
            "Script should register zoomend event listener");
}

#[test]
fn test_build_setup_density_update_script_has_debounced_function() {
    let script = build_setup_density_update_script();
    assert!(script.contains("setTimeout"), "Script should use setTimeout for debouncing");
    assert!(script.contains("300"), "Script should use 300ms debounce delay");
}

#[test]
fn test_build_add_heatmap_layer_script_includes_paint_properties() {
    let script = build_add_heatmap_layer_script(true);
    assert!(script.contains("'heatmap-radius'"), "Script should set heatmap-radius property");
    assert!(script.contains("'heatmap-weight'"), "Script should set heatmap-weight property");
    assert!(script.contains("'heatmap-opacity'"), "Script should set heatmap-opacity property");
}

#[test]
fn test_heatmap_color_gradient_includes_expected_colors() {
    let script = build_add_heatmap_layer_script(true);
    assert!(script.contains("100, 181, 246") || script.contains("230, 240, 255"),
            "Script should include light blue colors");
    assert!(script.contains("156, 39, 176") || script.contains("74, 20, 140"),
            "Script should include dark purple colors");
}

#[test]
fn density_script_embeds_bbox() {
    let script = build_density_calculation_script("1,2,3,4".to_string());
    assert!(script.contains("const bbox = 1,2,3,4.split(',')"));
}

#[test]
fn heatmap_button_click_runs_layer_then_update_scripts() {
    let mut state = DensityHeatmap::new();
    let scripts = heatmap_button_click(&mut state);
    assert!(state.is_enabled());
    assert_eq!(scripts, vec![build_add_heatmap_layer_script(true), build_setup_density_update_script()]);
    let scripts = heatmap_button_click(&mut state);
    assert!(!state.is_enabled());
    assert_eq!(scripts, vec![build_add_heatmap_layer_script(false)]);
    assert!(build_restore_heatmap_script().contains("localStorage.getItem('densityHeatmapEnabled')"));
}
