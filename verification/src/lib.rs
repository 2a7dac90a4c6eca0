//! Verified core of the IOU-Modern information workspace: map view state,
//! URL state encoding, GeoJSON layer configuration and detection, JavaScript
//! snippet builders for the map, the API client helpers, the display rules
//! of the dashboard pages, and the workflow orchestrator's context and
//! version registry.

pub mod api;
pub mod components;
pub mod orchestrator;
pub mod pages;
pub mod state;
pub mod text;
pub mod uuid_text;
