use iou_modern::components::url_state::{
    build_get_url_params_script, build_restore_state_script, update_url_script,
};
use iou_modern::state::url_params::{render_url_params, url_param_updates, UrlParamUpdate};
use iou_modern::state::view_toggle::ViewMode;

/// The query text of the default map state: 3D, years 1900-2024, heights
/// 0-100, floors 1-10, heatmap off.
fn default_params() -> String {
    render_url_params(ViewMode::ThreeD, 1900, 2024, "0", "100", 1, 10, false)
}

#[test]
fn test_build_update_url_script_generates_valid_javascript() {
    let script = update_url_script(&default_params());
    assert!(script.contains("(function()"));
    assert!(script.contains("})();"));
}

#[test]
fn test_build_update_url_script_includes_query_params() {
    let params = render_url_params(ViewMode::TwoD, 1950, 2020, "5", "50", 2, 8, true);
    let script = update_url_script(&params);
    assert!(script.contains("view=2d"));
    assert!(script.contains("year_min=1950"));
    assert!(script.contains("heatmap=true"));
}

#[test]
fn test_build_update_url_script_uses_replacestate_not_pushstate() {
    let script = update_url_script(&default_params());
    assert!(script.contains("replaceState"), "Script should use replaceState, not pushState");
    assert!(!script.contains("pushState"), "Script should NOT use pushState");
}

#[test]
fn test_build_restore_state_script_reads_from_window_location() {
    let script = build_restore_state_script();

    assert!(script.contains("window.location.search"),
            "Script should read from window.location.search");
    assert!(script.contains("window['initialUrlParams']"),
            "Script should set global variable");
}

#[test]
fn test_build_restore_state_script_handles_empty_query_string() {
    let script = build_restore_state_script();

    assert!(script.contains("params.toString() || ''"),
            "Script should handle empty params");
}

#[test]
fn test_build_get_url_params_script_returns_string() {
    let script = build_get_url_params_script();

    assert!(script.contains("new URLSearchParams(window.location.search)"),
            "Script should read URL params");
    assert!(script.contains("return params.toString()"),
            "Script should return params string");
}

#[test]
fn test_build_update_url_script_wraps_in_try_catch() {
    let script = update_url_script(&default_params());
    assert!(script.contains("try {"), "Script should have try block");
    assert!(script.contains("} catch (e)"), "Script should have catch block");
    assert!(script.contains("console.error"), "Script should log errors");
}

#[test]
fn test_build_restore_state_script_wraps_in_try_catch() {
    let script = build_restore_state_script();

    assert!(script.contains("try {"),
            "Script should have try block");
    assert!(script.contains("} catch (e)"),
            "Script should have catch block");
}

#[test]
fn test_build_update_url_script_logs_url_update() {
    let script = update_url_script(&default_params());
    assert!(script.contains("console.log('URL updated:'"), "Script should log URL update");
}

#[test]
fn test_url_state_to_url_params_generates_readable_params() {
    let params = default_params();
    assert!(params.contains("view=3d"), "Should contain view mode");
    assert!(params.contains("year_min=1900"), "Should contain min year");
    assert!(params.contains("year_max=2024"), "Should contain max year");
    assert!(params.contains("height_min=0"), "Should contain min height");
    assert!(params.contains("height_max=100"), "Should contain max height");
    assert!(params.contains("floors_min=1"), "Should contain min floors");
    assert!(params.contains("floors_max=10"), "Should contain max floors");
    assert!(params.contains("heatmap=false"), "Should contain heatmap state");
}

#[test]
fn test_url_state_from_url_params_parses_correctly() {
    let params = "view=2d&year_min=1950&year_max=2020&height_min=5&height_max=50&floors_min=2&floors_max=8&heatmap=true";
    let updates = url_param_updates(params);
    assert_eq!(
        updates,
        vec![
            UrlParamUpdate::View(ViewMode::TwoD),
            UrlParamUpdate::YearMin(1950),
            UrlParamUpdate::YearMax(2020),
            UrlParamUpdate::HeightMin("5".to_string()),
            UrlParamUpdate::HeightMax("50".to_string()),
            UrlParamUpdate::FloorsMin(2),
            UrlParamUpdate::FloorsMax(8),
            UrlParamUpdate::Heatmap(true),
        ]
    );
}

#[test]
fn test_url_state_roundtrip_preserves_all_values() {
    let params = render_url_params(ViewMode::TwoD, 1950, 2020, "5", "50", 2, 8, true);
    let restored = url_param_updates(&params);
    assert_eq!(
        restored,
        vec![
            UrlParamUpdate::View(ViewMode::TwoD),
            UrlParamUpdate::YearMin(1950),
            UrlParamUpdate::YearMax(2020),
            UrlParamUpdate::HeightMin("5".to_string()),
            UrlParamUpdate::HeightMax("50".to_string()),
            UrlParamUpdate::FloorsMin(2),
            UrlParamUpdate::FloorsMax(8),
            UrlParamUpdate::Heatmap(true),
        ]
    );
}

#[test]
fn test_url_state_from_url_params_handles_missing_params() {
    let updates = url_param_updates("view=2d");
    assert_eq!(updates, vec![UrlParamUpdate::View(ViewMode::TwoD)]);
}

#[test]
fn test_url_state_to_url_params_2d_mode() {
    let params = render_url_params(ViewMode::TwoD, 1900, 2024, "0", "100", 1, 10, false);
    assert!(params.contains("view=2d"), "Should serialize 2D mode correctly");
}

#[test]
fn rendered_default_params_text() {
    assert_eq!(
        default_params(),
        "view=3d&year_min=1900&year_max=2024&height_min=0&height_max=100&floors_min=1&floors_max=10&heatmap=false"
    );
}

#[test]
fn update_script_embeds_params_verbatim() {
    let script = update_url_script("view=2d");
    assert!(script.contains("const params = 'view=2d';"));
}

#[test]
fn url_params_ignore_unknown_invalid_and_valueless_pieces() {
    let updates = url_param_updates("foo=bar&year_min=abc&floors_max&heatmap=1&view=3d&heatmap=no");
    assert_eq!(
        updates,
        vec![
            UrlParamUpdate::Ignored,
            UrlParamUpdate::Ignored,
            UrlParamUpdate::Heatmap(true),
            UrlParamUpdate::View(ViewMode::ThreeD),
            UrlParamUpdate::Heatmap(false),
        ]
    );
}

#[test]
fn url_params_value_stops_at_second_equals_and_plus_sign_is_read() {
    assert_eq!(url_param_updates("year_max=+2020=x"), vec![UrlParamUpdate::YearMax(2020)]);
    assert_eq!(url_param_updates("view=2d=3d"), vec![UrlParamUpdate::View(ViewMode::TwoD)]);
    assert_eq!(url_param_updates("year_min=4294967296"), vec![UrlParamUpdate::Ignored]);
    assert_eq!(url_param_updates(""), Vec::<UrlParamUpdate>::new());
}
