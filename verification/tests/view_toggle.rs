use iou_modern::components::view_toggle::{
    build_get_initial_view_script, build_restore_view_mode_script, build_set_view_mode_script,
    build_view_url_script, toggle_button_class, view_toggle_click,
};
use iou_modern::state::view_toggle::{ViewMode, ViewToggle};

#[test]
fn test_view_mode_default_is_3d() {
    let mode = ViewMode::default();
    assert_eq!(mode, ViewMode::ThreeD);
}

#[test]
fn test_view_mode_toggle_switches_modes() {
    let mut mode = ViewMode::ThreeD;
    mode.toggle();
    assert_eq!(mode, ViewMode::TwoD);
    mode.toggle();
    assert_eq!(mode, ViewMode::ThreeD);
}

#[test]
fn test_view_mode_is_3d() {
    assert!(ViewMode::ThreeD.is_3d());
    assert!(!ViewMode::TwoD.is_3d());
}

#[test]
fn test_view_mode_label() {
    assert_eq!(ViewMode::TwoD.label(), "2D");
    assert_eq!(ViewMode::ThreeD.label(), "3D");
}

#[test]
fn test_view_mode_button_label() {
    assert_eq!(ViewMode::TwoD.button_label(), "3D Weergave");
    assert_eq!(ViewMode::ThreeD.button_label(), "2D Weergave");
}

#[test]
fn view_toggle_starts_in_3d_and_toggles() {
    let mut toggle = ViewToggle::new();
    assert!(toggle.is_3d());
    assert_eq!(toggle.label(), "3D");
    assert_eq!(toggle.button_label(), "2D Weergave");
    toggle.toggle();
    assert!(!toggle.is_3d());
    assert_eq!(toggle.label(), "2D");
    assert_eq!(toggle.button_label(), "3D Weergave");
    assert_eq!(ViewToggle::default(), ViewToggle::new());
    assert_eq!(ViewToggle::with_mode(ViewMode::TwoD).mode, ViewMode::TwoD);
}

#[test]
fn button_label_names_the_other_mode() {
    for mode in [ViewMode::TwoD, ViewMode::ThreeD] {
        let mut other = mode;
        other.toggle();
        assert_eq!(mode.button_label(), format!("{} Weergave", other.label()));
    }
}

#[test]
fn test_build_set_view_mode_script_2d_uses_zero_height() {
    let script = build_set_view_mode_script(ViewMode::TwoD);
    assert!(script.contains("'fill-extrusion-height', 0"));
}

#[test]
fn test_build_set_view_mode_script_3d_uses_height_expression() {
    let script = build_set_view_mode_script(ViewMode::ThreeD);
    assert!(script.contains(r#"["coalesce", ["get", "height"], 10]"#));
}

#[test]
fn test_build_set_view_mode_script_updates_pitch() {
    let script_2d = build_set_view_mode_script(ViewMode::TwoD);
    let script_3d = build_set_view_mode_script(ViewMode::ThreeD);

    assert!(script_2d.contains("pitch: 0"));
    assert!(script_3d.contains("pitch: 60"));
}

#[test]
fn test_build_set_view_mode_script_saves_to_local_storage() {
    let script = build_set_view_mode_script(ViewMode::TwoD);
    assert!(script.contains("localStorage.setItem('viewMode', '2d')"));
}

#[test]
fn test_build_set_view_mode_script_3d_saves_correct_storage() {
    let script = build_set_view_mode_script(ViewMode::ThreeD);
    assert!(script.contains("localStorage.setItem('viewMode', '3d')"));
}

#[test]
fn test_build_get_initial_view_script_reads_from_local_storage() {
    let script = build_get_initial_view_script();
    assert!(script.contains("localStorage.getItem('viewMode')"));
}

#[test]
fn test_build_get_initial_view_script_defaults_to_3d() {
    let script = build_get_initial_view_script();
    assert!(script.contains("'3d'"));
}

#[test]
fn test_build_set_view_mode_script_uses_easeto_for_smooth_transition() {
    let script = build_set_view_mode_script(ViewMode::ThreeD);
    assert!(script.contains("easeTo"));
    assert!(script.contains("duration: 500"));
}

#[test]
fn view_toggle_click_sets_mode_and_url() {
    let mut mode = ViewMode::ThreeD;
    let scripts = view_toggle_click(&mut mode);
    assert_eq!(mode, ViewMode::TwoD);
    assert_eq!(scripts, vec![build_set_view_mode_script(ViewMode::TwoD), build_view_url_script(ViewMode::TwoD)]);
    assert!(scripts[1].contains("params.set('view', '2d');"));
    assert!(build_view_url_script(ViewMode::ThreeD).contains("params.set('view', '3d');"));
    assert!(build_restore_view_mode_script().contains("localStorage.getItem('viewMode')"));
    assert_eq!(toggle_button_class(ViewMode::ThreeD), "btn-3d-control active");
    assert_eq!(toggle_button_class(ViewMode::TwoD), "btn-3d-control");
}
