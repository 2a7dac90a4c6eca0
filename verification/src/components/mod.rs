//! Map components: GeoJSON layers, layer type detection, terrain encoding
//! and the JavaScript snippets that drive the MapLibre map.

pub mod audit_viewer;
pub mod data_verkenner;
pub mod density_heatmap;
pub mod document_card;
pub mod filter_panel_3d;
pub mod layer_control_3d;
pub mod layer_detection;
pub mod map_3d;
pub mod terrain_encoding;
pub mod url_state;
pub mod view_toggle;

pub use layer_control_3d::{predefined_layers, GeoJsonLayer, GeoJsonLayerBuilder, LayerType};
