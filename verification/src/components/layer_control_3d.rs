//! GeoJSON layer configuration for the 3D map: the kind of geometry a layer
//! holds, the layer settings, a builder for them, and the predefined layers.

use vstd::prelude::*;
use crate::text::str_eq;

verus! {

/// Type of geometry in a GeoJSON layer, which decides how MapLibre renders
/// it: points as circles, lines as lines, polygons as filled areas.
#[derive(Debug, Clone, Copy, PartialEq, Eq, Structural)]
pub enum LayerType {
    Point,
    Line,
    Polygon,
}

/// The layer type that a GeoJSON geometry type names, if any.
pub open spec fn layer_type_of_geometry(geometry_type: Seq<char>) -> Option<LayerType> {
    if geometry_type == "Point"@ || geometry_type == "MultiPoint"@ {
        Some(LayerType::Point)
    } else if geometry_type == "LineString"@ || geometry_type == "MultiLineString"@ {
        Some(LayerType::Line)
    } else if geometry_type == "Polygon"@ || geometry_type == "MultiPolygon"@ {
        Some(LayerType::Polygon)
    } else {
        None
    }
}

impl LayerType {
    /// The display name of a layer type.
    pub open spec fn display_text(self) -> Seq<char> {
        match self {
            LayerType::Point => "Point"@,
            LayerType::Line => "Line"@,
            LayerType::Polygon => "Polygon"@,
        }
    }

    /// The MapLibre layer type that renders a layer type.
    pub open spec fn maplibre_text(self) -> Seq<char> {
        match self {
            LayerType::Point => "circle"@,
            LayerType::Line => "line"@,
            LayerType::Polygon => "fill"@,
        }
    }

    /// The display name: "Point", "Line" or "Polygon".
    pub fn to_string(&self) -> (r: String)
        ensures
            r@ == self.display_text(),
    {
        match self {
            LayerType::Point => String::from_str("Point"),
            LayerType::Line => String::from_str("Line"),
            LayerType::Polygon => String::from_str("Polygon"),
        }
    }

    /// Returns the MapLibre layer type string for this LayerType.
    pub fn maplibre_type(&self) -> (r: &'static str)
        ensures
            r@ == self.maplibre_text(),
    {
        match self {
            LayerType::Point => "circle",
            LayerType::Line => "line",
            LayerType::Polygon => "fill",
        }
    }

    /// Detects the layer type from a GeoJSON geometry type string; `None`
    /// when the type is not recognized.
    pub fn from_geojson_type(geometry_type: &str) -> (r: Option<LayerType>)
        ensures
            r == layer_type_of_geometry(geometry_type@),
    {
        if str_eq(geometry_type, "Point") || str_eq(geometry_type, "MultiPoint") {
            Some(LayerType::Point)
        } else if str_eq(geometry_type, "LineString") || str_eq(geometry_type, "MultiLineString") {
            Some(LayerType::Line)
        } else if str_eq(geometry_type, "Polygon") || str_eq(geometry_type, "MultiPolygon") {
            Some(LayerType::Polygon)
        } else {
            None
        }
    }
}

/// Configuration for a GeoJSON layer to be displayed on the map.
#[derive(Debug, Clone, PartialEq)]
pub struct GeoJsonLayer {
    /// Unique identifier for this layer (used in MapLibre)
    pub id: String,
    /// Human-readable display name (Dutch)
    pub name: String,
    /// URL to the GeoJSON data
    pub url: String,
    /// Type of geometry in this layer
    pub layer_type: LayerType,
    /// Initial visibility state
    pub visible: bool,
    /// CSS color for rendering (hex format)
    pub color: String,
}

impl GeoJsonLayer {
    /// Creates a builder for constructing a GeoJsonLayer, with nothing set.
    pub fn builder() -> (r: GeoJsonLayerBuilder)
        ensures
            r.id_text() is None,
            r.name_text() is None,
            r.url_text() is None,
            r.layer_type_value() is None,
            r.visible_value() is None,
            r.color_text() is None,
    {
        GeoJsonLayerBuilder::default()
    }
}

/// The view of an optional string.
pub open spec fn opt_text(s: Option<String>) -> Option<Seq<char>> {
    match s {
        Some(s) => Some(s@),
        None => None,
    }
}

/// Builder for creating GeoJsonLayer instances.
#[derive(Debug)]
pub struct GeoJsonLayerBuilder {
    id: Option<String>,
    name: Option<String>,
    url: Option<String>,
    layer_type: Option<LayerType>,
    visible: Option<bool>,
    color: Option<String>,
}

impl Default for GeoJsonLayerBuilder {
    fn default() -> (r: GeoJsonLayerBuilder)
        ensures
            r.id_text() is None,
            r.name_text() is None,
            r.url_text() is None,
            r.layer_type_value() is None,
            r.visible_value() is None,
            r.color_text() is None,
    {
        GeoJsonLayerBuilder { id: None, name: None, url: None, layer_type: None, visible: None, color: None }
    }
}

impl GeoJsonLayerBuilder {
    /// The identifier set so far.
    pub closed spec fn id_text(self) -> Option<Seq<char>> {
        opt_text(self.id)
    }

    /// The name set so far.
    pub closed spec fn name_text(self) -> Option<Seq<char>> {
        opt_text(self.name)
    }

    /// The URL set so far.
    pub closed spec fn url_text(self) -> Option<Seq<char>> {
        opt_text(self.url)
    }

    /// The layer type set so far.
    pub closed spec fn layer_type_value(self) -> Option<LayerType> {
        self.layer_type
    }

    /// The visibility set so far.
    pub closed spec fn visible_value(self) -> Option<bool> {
        self.visible
    }

    /// The color set so far.
    pub closed spec fn color_text(self) -> Option<Seq<char>> {
        opt_text(self.color)
    }

    /// The message for the first required setting that is missing, in the
    /// order identifier, name, URL, layer type.
    pub open spec fn missing_setting(self) -> Option<Seq<char>> {
        if self.id_text() is None {
            Some("id is required"@)
        } else if self.name_text() is None {
            Some("name is required"@)
        } else if self.url_text() is None {
            Some("url is required"@)
        } else if self.layer_type_value() is None {
            Some("layer_type is required"@)
        } else {
            None
        }
    }

    /// The builder with every setting of `self` but the identifier.
    pub open spec fn same_but_id(self, other: GeoJsonLayerBuilder) -> bool {
        &&& self.name_text() == other.name_text()
        &&& self.url_text() == other.url_text()
        &&& self.layer_type_value() == other.layer_type_value()
        &&& self.visible_value() == other.visible_value()
        &&& self.color_text() == other.color_text()
    }

    /// Sets the identifier.
    pub fn id(self, id: &str) -> (r: GeoJsonLayerBuilder)
        ensures
            r.id_text() == Some(id@),
            r.same_but_id(self),
    {
        let mut b = self;
        b.id = Some(String::from_str(id));
        b
    }

    /// Sets the display name.
    pub fn name(self, name: &str) -> (r: GeoJsonLayerBuilder)
        ensures
            r.name_text() == Some(name@),
            r.id_text() == self.id_text(),
            r.url_text() == self.url_text(),
            r.layer_type_value() == self.layer_type_value(),
            r.visible_value() == self.visible_value(),
            r.color_text() == self.color_text(),
    {
        let mut b = self;
        b.name = Some(String::from_str(name));
        b
    }

    /// Sets the data URL.
    pub fn url(self, url: &str) -> (r: GeoJsonLayerBuilder)
        ensures
            r.url_text() == Some(url@),
            r.id_text() == self.id_text(),
            r.name_text() == self.name_text(),
            r.layer_type_value() == self.layer_type_value(),
            r.visible_value() == self.visible_value(),
            r.color_text() == self.color_text(),
    {
        let mut b = self;
        b.url = Some(String::from_str(url));
        b
    }

    /// Sets the geometry type.
    pub fn layer_type(self, layer_type: LayerType) -> (r: GeoJsonLayerBuilder)
        ensures
            r.layer_type_value() == Some(layer_type),
            r.id_text() == self.id_text(),
            r.name_text() == self.name_text(),
            r.url_text() == self.url_text(),
            r.visible_value() == self.visible_value(),
            r.color_text() == self.color_text(),
    {
        let mut b = self;
        b.layer_type = Some(layer_type);
        b
    }

    /// Sets the initial visibility.
    pub fn visible(self, visible: bool) -> (r: GeoJsonLayerBuilder)
        ensures
            r.visible_value() == Some(visible),
            r.id_text() == self.id_text(),
            r.name_text() == self.name_text(),
            r.url_text() == self.url_text(),
            r.layer_type_value() == self.layer_type_value(),
            r.color_text() == self.color_text(),
    {
        let mut b = self;
        b.visible = Some(visible);
        b
    }

    /// Sets the rendering color.
    pub fn color(self, color: &str) -> (r: GeoJsonLayerBuilder)
        ensures
            r.color_text() == Some(color@),
            r.id_text() == self.id_text(),
            r.name_text() == self.name_text(),
            r.url_text() == self.url_text(),
            r.layer_type_value() == self.layer_type_value(),
            r.visible_value() == self.visible_value(),
    {
        let mut b = self;
        b.color = Some(String::from_str(color));
        b
    }

    /// Builds the GeoJsonLayer. The identifier, name, URL and layer type are
    /// required, checked in that order; the color defaults to `#ff0000` and
    /// the layer is visible unless set otherwise.
    pub fn build(self) -> (r: Result<GeoJsonLayer, String>)
        ensures
            r is Err == self.missing_setting() is Some,
            r matches Err(e) ==> Some(e@) == self.missing_setting(),
            r matches Ok(layer) ==> {
                &&& Some(layer.id@) == self.id_text()
                &&& Some(layer.name@) == self.name_text()
                &&& Some(layer.url@) == self.url_text()
                &&& Some(layer.layer_type) == self.layer_type_value()
                &&& layer.visible == match self.visible_value() {
                    Some(v) => v,
                    None => true,
                }
                &&& layer.color@ == match self.color_text() {
                    Some(c) => c,
                    None => "#ff0000"@,
                }
            },
    {
        let id = match self.id {
            Some(id) => id,
            None => {
                return Err(String::from_str("id is required"));
            },
        };
        let name = match self.name {
            Some(name) => name,
            None => {
                return Err(String::from_str("name is required"));
            },
        };
        let url = match self.url {
            Some(url) => url,
            None => {
                return Err(String::from_str("url is required"));
            },
        };
        let layer_type = match self.layer_type {
            Some(t) => t,
            None => {
                return Err(String::from_str("layer_type is required"));
            },
        };
        let color = match self.color {
            Some(c) => c,
            None => String::from_str("#ff0000"),
        };
        let visible = match self.visible {
            Some(v) => v,
            None => true,
        };
        Ok(GeoJsonLayer { id, name, url, layer_type, visible, color })
    }
}

/// Builds a layer from its settings.
fn make_layer(id: &str, name: &str, url: &str, layer_type: LayerType, visible: bool, color: &str) -> (r:
    GeoJsonLayer)
    ensures
        r.id@ == id@,
        r.name@ == name@,
        r.url@ == url@,
        r.layer_type == layer_type,
        r.visible == visible,
        r.color@ == color@,
{
    GeoJsonLayer {
        id: String::from_str(id),
        name: String::from_str(name),
        url: String::from_str(url),
        layer_type,
        visible,
        color: String::from_str(color),
    }
}

/// Predefined layers for the Flevoland Data Verkenner: the province border
/// (polygons, shown, red) and cultural heritage (points, hidden, blue).
pub fn predefined_layers() -> (r: Vec<GeoJsonLayer>)
    ensures
        r@.len() == 2,
        r@[0].id@ == "provinciegrens"@,
        r@[0].name@ == "Provinciegrens"@,
        r@[0].url@ == "/geojson/provinciegrens.geojson"@,
        r@[0].layer_type == LayerType::Polygon,
        r@[0].visible,
        r@[0].color@ == "#e74c3c"@,
        r@[1].id@ == "cultuurhistorie"@,
        r@[1].name@ == "Cultuurhistorie"@,
        r@[1].url@ == "/geojson/cultuurhistorie.geojson"@,
        r@[1].layer_type == LayerType::Point,
        !r@[1].visible,
        r@[1].color@ == "#3498db"@,
{
    let mut layers = Vec::new();
    layers.push(
        make_layer(
            "provinciegrens",
            "Provinciegrens",
            "/geojson/provinciegrens.geojson",
            LayerType::Polygon,
            true,
            "#e74c3c",
        ),
    );
    layers.push(
        make_layer(
            "cultuurhistorie",
            "Cultuurhistorie",
            "/geojson/cultuurhistorie.geojson",
            LayerType::Point,
            false,
            "#3498db",
        ),
    );
    layers
}

} // verus!
