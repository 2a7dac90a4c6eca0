use iou_modern::components::layer_control_3d::{predefined_layers, GeoJsonLayer, LayerType};

#[test]
fn test_geojson_layer_creates_with_all_required_fields() {
    let layer = GeoJsonLayer {
        id: "test-layer".to_string(),
        name: "Test Layer".to_string(),
        url: "https://example.com/layer.geojson".to_string(),
        layer_type: LayerType::Point,
        visible: true,
        color: "#ff0000".to_string(),
    };

    assert_eq!(layer.id, "test-layer");
    assert_eq!(layer.name, "Test Layer");
    assert_eq!(layer.url, "https://example.com/layer.geojson");
    assert!(matches!(layer.layer_type, LayerType::Point));
    assert!(layer.visible);
    assert_eq!(layer.color, "#ff0000");
}

#[test]
fn test_layer_type_has_point_variant() {
    let layer_type = LayerType::Point;
    assert!(matches!(layer_type, LayerType::Point));
}

#[test]
fn test_layer_type_has_line_variant() {
    let layer_type = LayerType::Line;
    assert!(matches!(layer_type, LayerType::Line));
}

#[test]
fn test_layer_type_has_polygon_variant() {
    let layer_type = LayerType::Polygon;
    assert!(matches!(layer_type, LayerType::Polygon));
}

#[test]
fn test_layer_type_display_returns_correct_values() {
    assert_eq!(LayerType::Point.to_string(), "Point");
    assert_eq!(LayerType::Line.to_string(), "Line");
    assert_eq!(LayerType::Polygon.to_string(), "Polygon");
}

#[test]
fn test_geojson_layer_default_visible_is_true() {
    let layer = GeoJsonLayer {
        id: "test".to_string(),
        name: "Test".to_string(),
        url: "https://example.com/test.geojson".to_string(),
        layer_type: LayerType::Point,
        visible: true,
        color: "#000000".to_string(),
    };
    assert!(layer.visible);
}

#[test]
fn test_geojson_layer_builder_creates_valid_layer() {
    let layer = GeoJsonLayer::builder()
        .id("test-layer")
        .name("Test Layer")
        .url("https://example.com/layer.geojson")
        .layer_type(LayerType::Polygon)
        .color("#00ff00")
        .build()
        .unwrap();

    assert_eq!(layer.id, "test-layer");
    assert_eq!(layer.name, "Test Layer");
    assert_eq!(layer.url, "https://example.com/layer.geojson");
    assert!(matches!(layer.layer_type, LayerType::Polygon));
    assert!(layer.visible);
    assert_eq!(layer.color, "#00ff00");
}

#[test]
fn test_layer_type_maplibre_type() {
    assert_eq!(LayerType::Point.maplibre_type(), "circle");
    assert_eq!(LayerType::Line.maplibre_type(), "line");
    assert_eq!(LayerType::Polygon.maplibre_type(), "fill");
}

#[test]
fn test_layer_type_from_geojson_type() {
    assert_eq!(LayerType::from_geojson_type("Point"), Some(LayerType::Point));
    assert_eq!(LayerType::from_geojson_type("MultiPoint"), Some(LayerType::Point));
    assert_eq!(LayerType::from_geojson_type("LineString"), Some(LayerType::Line));
    assert_eq!(LayerType::from_geojson_type("Polygon"), Some(LayerType::Polygon));
    assert_eq!(LayerType::from_geojson_type("Unknown"), None);
}

#[test]
fn test_map3d_module_compiles() {
    let script = iou_modern::components::map_3d::build_cleanup_script("map");
    assert!(!script.is_empty(), "map_3d module is accessible");
}

#[test]
fn test_layer_control_3d_module_compiles() {
    let layers = iou_modern::components::layer_control_3d::predefined_layers();
    assert!(!layers.is_empty(), "layer_control_3d module is accessible");
}

#[test]
fn layer_type_from_remaining_geojson_types() {
    assert_eq!(LayerType::from_geojson_type("MultiLineString"), Some(LayerType::Line));
    assert_eq!(LayerType::from_geojson_type("MultiPolygon"), Some(LayerType::Polygon));
    assert_eq!(LayerType::from_geojson_type("point"), None);
    assert_eq!(LayerType::from_geojson_type(""), None);
}

#[test]
fn builder_reports_first_missing_setting() {
    assert_eq!(GeoJsonLayer::builder().build().unwrap_err(), "id is required");
    assert_eq!(GeoJsonLayer::builder().id("a").build().unwrap_err(), "name is required");
    assert_eq!(
        GeoJsonLayer::builder().id("a").name("A").build().unwrap_err(),
        "url is required"
    );
    assert_eq!(
        GeoJsonLayer::builder().id("a").name("A").url("/a.geojson").build().unwrap_err(),
        "layer_type is required"
    );
    assert_eq!(
        GeoJsonLayer::builder().name("A").url("/a.geojson").layer_type(LayerType::Line).build().unwrap_err(),
        "id is required"
    );
}

#[test]
fn builder_defaults_color_and_keeps_explicit_visibility() {
    let layer = GeoJsonLayer::builder()
        .id("roads")
        .name("Wegen")
        .url("/geojson/wegen.geojson")
        .layer_type(LayerType::Line)
        .visible(false)
        .build()
        .unwrap();
    assert_eq!(layer.color, "#ff0000");
    assert!(!layer.visible);
    assert_eq!(layer.layer_type, LayerType::Line);
}

#[test]
fn builder_last_setting_wins() {
    let layer = GeoJsonLayer::builder()
        .id("first")
        .id("second")
        .name("N")
        .url("/u")
        .layer_type(LayerType::Point)
        .build()
        .unwrap();
    assert_eq!(layer.id, "second");
}

#[test]
fn predefined_layers_are_border_and_heritage() {
    let layers = predefined_layers();
    assert_eq!(layers.len(), 2);
    assert_eq!(layers[0].id, "provinciegrens");
    assert_eq!(layers[0].name, "Provinciegrens");
    assert_eq!(layers[0].url, "/geojson/provinciegrens.geojson");
    assert_eq!(layers[0].layer_type, LayerType::Polygon);
    assert!(layers[0].visible);
    assert_eq!(layers[0].color, "#e74c3c");
    assert_eq!(layers[1].id, "cultuurhistorie");
    assert_eq!(layers[1].name, "Cultuurhistorie");
    assert_eq!(layers[1].url, "/geojson/cultuurhistorie.geojson");
    assert_eq!(layers[1].layer_type, LayerType::Point);
    assert!(!layers[1].visible);
    assert_eq!(layers[1].color, "#3498db");
}
