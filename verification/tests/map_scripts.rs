use iou_modern::components::data_verkenner::{
    build_buildings_fetch_script, build_popup_handler_script, get_map3d_init_script,
};
use iou_modern::components::filter_panel_3d::{
    build_clear_filter_script, build_set_filter_script, filter_expression,
};
use iou_modern::components::map_3d::{build_cleanup_script, is_enabled_flag, map_init_script};

/// The initialization script for the default map view (Flevoland), with the
/// given container.
fn init_script(container_id: &str) -> String {
    map_init_script(
        container_id,
        "https://api.maptiler.com/maps/streets/style.json?key=YOUR_KEY",
        "5.5",
        "52.4",
        "10",
        "60",
        "0",
        "6",
        "18",
    )
}

#[test]
fn test_build_filter_expression_includes_all_properties() {
    let expr = filter_expression(1900, 2024, "0", "100", 1, 10);

    assert!(expr.contains(r#"["all""#));
    assert!(expr.contains(r#"["get", "construction_year"]"#));
    assert!(expr.contains(r#"["get", "height"]"#));
    assert!(expr.contains(r#"["get", "floors"]"#));
}

#[test]
fn test_build_filter_expression_uses_correct_operators() {
    let expr = filter_expression(1900, 2024, "0", "100", 1, 10);

    assert!(expr.contains(r#">="#));
    assert!(expr.contains(r#"<="#));
}

#[test]
fn filter_expression_text_for_default_ranges() {
    let expr = filter_expression(1900, 2024, "0", "100", 1, 10);
    let expected = r#"["all",
        [">=", ["get", "construction_year"], 1900],
        ["<=", ["get", "construction_year"], 2024],
        [">=", ["get", "height"], 0],
        ["<=", ["get", "height"], 100],
        [">=", ["get", "floors"], 1],
        ["<=", ["get", "floors"], 10]
    ]"#;
    assert_eq!(expr, expected);
}

#[test]
fn test_build_set_filter_script_contains_setfilter_call() {
    let expr = r#"["all", [">=", ["get", "height"], 5]]"#;
    let script = build_set_filter_script(expr);

    assert!(script.contains("map.setFilter('building-3d'"));
    assert!(script.contains("window['map_map']"));
    assert!(script.contains(expr));
}

#[test]
fn test_build_set_filter_script_queries_visible_count() {
    let expr = r#"["all"]"#;
    let script = build_set_filter_script(expr);

    assert!(script.contains("queryRenderedFeatures"));
    assert!(script.contains("layers: ['building-3d']"));
    assert!(script.contains("getElementById('building-count')"));
}

#[test]
fn test_build_clear_filter_script_uses_null_filter() {
    let script = build_clear_filter_script();

    assert!(script.contains("map.setFilter('building-3d', null)"));
}

#[test]
fn test_build_init_script_contains_container_id() {
    let script = init_script("test-map");
    assert!(script.contains("test-map"));
}

#[test]
fn test_build_init_script_contains_correct_coordinates() {
    let script = init_script("test-map");
    assert!(script.contains("center: [5.5, 52.4]"));
}

#[test]
fn test_build_cleanup_script() {
    let script = build_cleanup_script("test-map");
    assert!(script.contains("map.remove()"));
    assert!(script.contains("delete window['map_test-map']"));
}

#[test]
fn test_build_init_script_includes_event_listeners() {
    let script = init_script("map");
    assert!(script.contains("map.on('load'"));
    assert!(script.contains("map.on('error'"));
    assert!(script.contains("map.on('moveend'"));
}

#[test]
fn test_build_init_script_includes_navigation_control() {
    let script = init_script("map");
    assert!(script.contains("NavigationControl"));
    assert!(script.contains("visualizePitch"));
}

#[test]
fn test_cleanup_script_handles_nonexistent_map() {
    let script = build_cleanup_script("nonexistent");
    assert!(script.contains("if (map)"));
}

#[test]
fn test_build_init_script_includes_webgl2_check() {
    let script = init_script("map");
    assert!(script.contains("webgl2"));
    assert!(script.contains("WebGL2 not supported"));
}

#[test]
fn init_script_places_view_numbers() {
    let script = init_script("kaart");
    assert!(script.contains("container: 'kaart'"));
    assert!(script.contains("zoom: 10,"));
    assert!(script.contains("pitch: 60,"));
    assert!(script.contains("minZoom: 6,"));
    assert!(script.contains("maxZoom: 18,"));
    assert!(script.contains("window['map_kaart'] = map;"));
}

#[test]
fn enabled_flag_ignores_ascii_case() {
    assert!(is_enabled_flag("true"));
    assert!(is_enabled_flag("TRUE"));
    assert!(is_enabled_flag("True"));
    assert!(!is_enabled_flag("false"));
    assert!(!is_enabled_flag("1"));
    assert!(!is_enabled_flag(" true"));
    assert!(!is_enabled_flag(""));
}

#[test]
fn test_fetch_script_includes_wgs84_endpoint() {
    let script = build_buildings_fetch_script();
    assert!(script.contains("bbox-wgs84"), "Fetch script should use WGS84 bbox parameter");
}

#[test]
fn test_fetch_script_includes_debounce() {
    let script = build_buildings_fetch_script();
    assert!(script.contains("setTimeout") && script.contains("300"),
            "Fetch script should include 300ms debounce");
}

#[test]
fn test_fetch_script_includes_state_variables() {
    let script = build_buildings_fetch_script();
    assert!(script.contains("lastFetchedBbox") && script.contains("fetchTimeout"),
            "Fetch script should initialize state variables");
}

#[test]
fn test_fetch_script_includes_threshold_check() {
    let script = build_buildings_fetch_script();
    assert!(script.contains("0.1") || script.contains("10%"),
            "Fetch script should include 10% threshold check");
}

#[test]
fn test_fetch_script_includes_error_handling() {
    let script = build_buildings_fetch_script();
    assert!(script.contains("catch") && script.contains("error"),
            "Fetch script should include error handling");
}

#[test]
fn test_popup_script_uses_dom_methods() {
    let script = build_popup_handler_script();
    assert!(script.contains("textContent"), "Popup must use textContent for XSS safety");
}

#[test]
fn test_popup_does_not_use_innerhtml() {
    let script = build_popup_handler_script();
    assert!(!script.contains("innerHTML"), "Popup must NOT use innerHTML for XSS safety");
}

#[test]
fn test_popup_includes_all_properties() {
    let script = build_popup_handler_script();
    assert!(script.contains("bag_id"), "Popup should show BAG ID");
    assert!(script.contains("height"), "Popup should show height");
    assert!(script.contains("floors"), "Popup should show floors");
    assert!(script.contains("construction_year"), "Popup should show construction year");
}

#[test]
fn test_popup_has_correct_css_class() {
    let script = build_popup_handler_script();
    assert!(script.contains("building-popup"), "Popup should use the building-popup CSS class");
}

#[test]
fn test_popup_has_click_handler() {
    let script = build_popup_handler_script();
    assert!(script.contains("'click', 'building-3d'") ||
            script.contains("\"click\", \"building-3d\""),
            "Popup should register click handler on building-3d layer");
}

#[test]
fn map3d_init_script_includes_fetch_and_popup_handlers() {
    let script = get_map3d_init_script();
    assert!(script.contains(&build_buildings_fetch_script()));
    assert!(script.contains(&build_popup_handler_script()));
}
