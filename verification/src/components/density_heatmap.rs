//! JavaScript for the building density heatmap: the heatmap layer, the
//! density calculation for a bounding box (with a 0.00045 degree buffer
//! against tile seams and 0.0009 degree grid cells), and the viewport
//! listeners that keep it current. The enabled state is remembered in
//! `localStorage` under `densityHeatmapEnabled`.

use vstd::prelude::*;
use crate::text::contains_text;
use crate::state::density_heatmap::DensityHeatmap;

verus! {

/// The part of the heatmap layer script before its branch test.
pub const HEATMAP_LAYER_SCRIPT_START: &'static str = r#"
        (function() {
            const map = window['map_map'];
            if (!map) {
                console.error('Map not found for heatmap layer');
                return;
            }

            try {
                const sourceId = 'density-points';
                const layerId = 'density-heatmap';

                "#;

/// The part of the heatmap layer script after its branch test.
pub const HEATMAP_LAYER_SCRIPT_END: &'static str = r#"
                    // Create source if it doesn't exist
                    if (!map.getSource(sourceId)) {
                        map.addSource(sourceId, {
                            type: 'geojson',
                            data: { type: 'FeatureCollection', features: [] }
                        });
                    }

                    // Add heatmap layer if it doesn't exist
                    if (!map.getLayer(layerId)) {
                        map.addLayer({
                            id: layerId,
                            type: 'heatmap',
                            source: sourceId,
                            paint: {
                                'heatmap-color': [
                                    'interpolate',
                                    ['linear'],
                                    ['heatmap-density'],
                                    0, 'rgba(230, 240, 255, 0)',
                                    0.2, 'rgba(100, 181, 246, 0.5)',
                                    0.4, 'rgba(33, 150, 243, 0.7)',
                                    0.6, 'rgba(156, 39, 176, 0.8)',
                                    0.8, 'rgba(74, 20, 140, 0.9)'
                                ],
                                'heatmap-radius': 25,
                                'heatmap-weight': ['get', 'weight'],
                                'heatmap-opacity': 0.7
                            }
                        }, 'building-3d');  // Insert before building layer
                    }

                    // Make layer visible
                    map.setLayoutProperty(layerId, 'visibility', 'visible');

                    // Persist to localStorage
                    localStorage.setItem('densityHeatmapEnabled', 'true');

                    console.log('Density heatmap layer enabled');

                } else {
                    // Hide the layer
                    if (map.getLayer(layerId)) {
                        map.setLayoutProperty(layerId, 'visibility', 'none');
                    }

                    // Persist disabled state
                    localStorage.setItem('densityHeatmapEnabled', 'false');

                    console.log('Density heatmap layer disabled');
                }
            } catch (e) {
                console.error('Heatmap layer error:', e);
            }
        })();
        "#;

/// The part of the density calculation script before the bounding box.
pub const DENSITY_SCRIPT_START: &'static str = r#"
        (function() {
            const map = window['map_map'];
            if (!map) {
                console.error('Map not found for density calculation');
                return;
            }

            try {
                // Parse bbox
                const bbox = "#;

/// The part of the density calculation script after the bounding box.
pub const DENSITY_SCRIPT_END: &'static str = r#".split(',').map(Number);
                const [minLon, minLat, maxLon, maxLat] = bbox;

                // Calculate buffered bbox to prevent tile seams
                // Buffer: ~50 meters at Dutch latitudes (~0.00045 degrees)
                const buffer = 0.00045;
                const bufferedBbox = [
                    minLon - buffer,
                    minLat - buffer,
                    maxLon + buffer,
                    maxLat + buffer
                ].join(',');

                // Fetch buildings from API
                fetch(`/api/buildings-3d?bbox-wgs84=${bufferedBbox}&limit=500`)
                    .then(response => {
                        if (!response.ok) {
                            throw new Error(`API error: ${response.status}`);
                        }
                        return response.json();
                    })
                    .then(data => {
                        // Grid aggregation
                        const cellSize = 0.0009;
                        const grid = {};

                        data.features.forEach(feature => {
                            let point = null;

                            // Extract centroid from building geometry
                            if (feature.geometry?.type === 'Polygon') {
                                const coords = feature.geometry.coordinates[0];
                                const lon = coords.reduce((sum, c) => sum + c[0], 0) / coords.length;
                                const lat = coords.reduce((sum, c) => sum + c[1], 0) / coords.length;
                                point = { lon, lat };
                            } else if (feature.geometry?.type === 'MultiPolygon') {
                                // For multipolygons, use the first polygon's centroid
                                const coords = feature.geometry.coordinates[0][0];
                                const lon = coords.reduce((sum, c) => sum + c[0], 0) / coords.length;
                                const lat = coords.reduce((sum, c) => sum + c[1], 0) / coords.length;
                                point = { lon, lat };
                            }

                            if (point) {
                                // Calculate grid cell
                                const cellX = Math.floor((point.lon - minLon) / cellSize);
                                const cellY = Math.floor((point.lat - minLat) / cellSize);
                                const key = `${cellX},${cellY}`;

                                // Increment building count for this cell
                                grid[key] = (grid[key] || 0) + 1;
                            }
                        });

                        // Convert grid to GeoJSON points
                        const densityPoints = Object.entries(grid)
                            .filter(([key]) => {
                                // Only include cells whose center is within original bbox (not buffered)
                                const [cx, cy] = key.split(',').map(Number);
                                const centerLon = minLon + (cx + 0.5) * cellSize;
                                const centerLat = minLat + (cy + 0.5) * cellSize;
                                return centerLon >= minLon && centerLon <= maxLon &&
                                       centerLat >= minLat && centerLat <= maxLat;
                            })
                            .map(([key, count]) => {
                                const [cx, cy] = key.split(',').map(Number);
                                return {
                                    type: 'Feature',
                                    geometry: {
                                        type: 'Point',
                                        coordinates: [
                                            minLon + (cx + 0.5) * cellSize,
                                            minLat + (cy + 0.5) * cellSize
                                        ]
                                    },
                                    properties: { weight: count }
                                };
                            });

                        // Update heatmap source
                        const source = map.getSource('density-points');
                        if (source) {
                            source.setData({
                                type: 'FeatureCollection',
                                features: densityPoints
                            });
                            console.log(`Density calculated: ${densityPoints.length} grid cells from ${data.features.length} buildings`);
                        }
                    })
                    .catch(error => {
                        console.error('Failed to fetch density data:', error);
                    });
            } catch (e) {
                console.error('Density calculation error:', e);
            }
        })();
        "#;

/// The script that recomputes the density when the viewport changes.
pub const DENSITY_UPDATE_SCRIPT: &'static str = r#"
        (function() {
            const map = window['map_map'];
            if (!map) {
                console.error('Map not found for density event setup');
                return;
            }

            try {
                // State for debounced density updates
                let densityLastFetchedBbox = null;
                let densityFetchTimeout = null;
                let densityAbortController = null;

                // Check if bounds changed significantly (10% threshold)
                function shouldFetchDensity(newBounds) {
                    if (!densityLastFetchedBbox) return true;

                    const width = newBounds[2] - newBounds[0];
                    const lastWidth = densityLastFetchedBbox[2] - densityLastFetchedBbox[0];
                    const height = newBounds[3] - newBounds[1];
                    const lastHeight = densityLastFetchedBbox[3] - densityLastFetchedBbox[1];

                    if (lastWidth === 0 || lastHeight === 0) return true;

                    const widthChange = Math.abs(width - lastWidth) / lastWidth;
                    const heightChange = Math.abs(height - lastHeight) / lastHeight;

                    return widthChange > 0.1 || heightChange > 0.1;
                }

                // Debounced density update function
                function debouncedDensityUpdate() {
                    clearTimeout(densityFetchTimeout);
                    densityFetchTimeout = setTimeout(() => {
                        // Only update if heatmap is enabled
                        const isEnabled = localStorage.getItem('densityHeatmapEnabled') === 'true';
                        if (!isEnabled) {
                            return;
                        }

                        const bounds = map.getBounds();
                        const bbox = [
                            bounds.getWest(),
                            bounds.getSouth(),
                            bounds.getEast(),
                            bounds.getNorth()
                        ];

                        if (shouldFetchDensity(bbox)) {
                            // Calculate density for new viewport
                            const bboxStr = bbox.join(',');

                            // Cancel any pending density fetch
                            if (densityAbortController) {
                                densityAbortController.abort();
                            }

                            densityAbortController = new AbortController();

                            fetch(`/api/buildings-3d?bbox-wgs84=${bboxStr}&limit=500`, {
                                signal: densityAbortController.signal
                            })
                            .then(response => response.json())
                            .then(data => {
                                // Update last fetched bbox after successful fetch
                                densityLastFetchedBbox = bbox;

                                // Process data and update heatmap...
                                const minLon = bbox[0];
                                const minLat = bbox[1];
                                const cellSize = 0.0009;  // ~100m
                                const buffer = 0.00045;   // ~50m
                                const bufferedBbox = [
                                    minLon - buffer,
                                    minLat - buffer,
                                    bbox[2] + buffer,
                                    bbox[3] + buffer
                                ].join(',');

                                // Re-fetch with buffer for seamless density
                                return fetch(`/api/buildings-3d?bbox-wgs84=${bufferedBbox}&limit=500`);
                            })
                            .then(response => response.json())
                            .then(data => {
                                // Grid aggregation (same as calculation script)
                                const grid = {};
                                const cellSize = 0.0009;

                                data.features.forEach(feature => {
                                    let point = null;
                                    if (feature.geometry?.type === 'Polygon') {
                                        const coords = feature.geometry.coordinates[0];
                                        const lon = coords.reduce((sum, c) => sum + c[0], 0) / coords.length;
                                        const lat = coords.reduce((sum, c) => sum + c[1], 0) / coords.length;
                                        point = { lon, lat };
                                    }

                                    if (point) {
                                        const cellX = Math.floor((point.lon - minLon) / cellSize);
                                        const cellY = Math.floor((point.lat - minLat) / cellSize);
                                        const key = `${cellX},${cellY}`;
                                        grid[key] = (grid[key] || 0) + 1;
                                    }
                                });

                                const densityPoints = Object.entries(grid)
                                    .filter(([key]) => {
                                        const [cx, cy] = key.split(',').map(Number);
                                        const centerLon = minLon + (cx + 0.5) * cellSize;
                                        const centerLat = minLat + (cy + 0.5) * cellSize;
                                        return centerLon >= bbox[0] && centerLon <= bbox[2] &&
                                               centerLat >= bbox[1] && centerLat <= bbox[3];
                                    })
                                    .map(([key, count]) => {
                                        const [cx, cy] = key.split(',').map(Number);
                                        return {
                                            type: 'Feature',
                                            geometry: {
                                                type: 'Point',
                                                coordinates: [
                                                    minLon + (cx + 0.5) * cellSize,
                                                    minLat + (cy + 0.5) * cellSize
                                                ]
                                            },
                                            properties: { weight: count }
                                        };
                                    });

                                const source = map.getSource('density-points');
                                if (source) {
                                    source.setData({
                                        type: 'FeatureCollection',
                                        features: densityPoints
                                    });
                                }
                            })
                            .catch(error => {
                                if (error.name !== 'AbortError') {
                                    console.error('Density update error:', error);
                                }
                            });
                        }
                    }, 300);  // 300ms debounce (same as buildings fetch)
                }

                // Register event listeners for viewport changes
                map.on('moveend', debouncedDensityUpdate);
                map.on('zoomend', debouncedDensityUpdate);

                // Initial density calculation if enabled
                const isEnabled = localStorage.getItem('densityHeatmapEnabled') === 'true';
                if (isEnabled) {
                    debouncedDensityUpdate();
                }

                console.log('Density heatmap event listeners registered');
            } catch (e) {
                console.error('Density event setup error:', e);
            }
        })();
        "#;

/// The branch test of the heatmap layer script: `if (true) {` when the
/// heatmap is to be shown, `if (false) {` when it is to be hidden.
pub open spec fn heatmap_branch_test(enabled: bool) -> Seq<char> {
    "if ("@ + (if enabled {
        "true"@
    } else {
        "false"@
    }) + ") {"@
}

/// The heatmap layer script for an enabled flag.
pub open spec fn heatmap_layer_script_text(enabled: bool) -> Seq<char> {
    HEATMAP_LAYER_SCRIPT_START@ + heatmap_branch_test(enabled) + HEATMAP_LAYER_SCRIPT_END@
}

/// Builds JavaScript that shows the density heatmap layer (creating its
/// source and layer first) when enabled, or hides it, and stores the state.
pub fn build_add_heatmap_layer_script(enabled: bool) -> (r: String)
    ensures
        r@ == heatmap_layer_script_text(enabled),
{
    let mut r = String::from_str(HEATMAP_LAYER_SCRIPT_START);
    r.append("if (");
    if enabled {
        r.append("true");
    } else {
        r.append("false");
    }
    r.append(") {");
    r.append(HEATMAP_LAYER_SCRIPT_END);
    r
}

/// Builds JavaScript that fetches the buildings around a bounding box
/// (`minLon,minLat,maxLon,maxLat`) and aggregates them into density points.
pub fn build_density_calculation_script(bbox_str: String) -> (r: String)
    ensures
        r@ == DENSITY_SCRIPT_START@ + bbox_str@ + DENSITY_SCRIPT_END@,
{
    let mut r = String::from_str(DENSITY_SCRIPT_START);
    r.append(bbox_str.as_str());
    r.append(DENSITY_SCRIPT_END);
    r
}

/// Builds JavaScript that recomputes the density, debounced by 300 ms, when
/// the map stops moving or zooming and the heatmap is enabled.
pub fn build_setup_density_update_script() -> (r: String)
    ensures
        r@ == DENSITY_UPDATE_SCRIPT@,
{
    String::from_str(DENSITY_UPDATE_SCRIPT)
}

/// The script that looks up the heatmap state saved in `localStorage` when the button appears.
pub const RESTORE_HEATMAP_SCRIPT: &'static str = r#"
            (function() {
                try {
                    const stored = localStorage.getItem('densityHeatmapEnabled');
                    if (stored === 'true') {
                        // Set enabled state
                        const map = window['map_map'];
                        if (map) {
                            // Trigger heatmap enable
                        }
                    }
                } catch (e) {
                    console.error('Error restoring heatmap state:', e);
                }
            })();
            "#;

/// Builds the JavaScript that looks up the saved heatmap state when the
/// heatmap button appears.
pub fn build_restore_heatmap_script() -> (r: String)
    ensures
        r@ == RESTORE_HEATMAP_SCRIPT@,
{
    String::from_str(RESTORE_HEATMAP_SCRIPT)
}

/// A click on the heatmap button: the state is toggled, and the scripts to
/// run are returned in order: the layer script for the new state, then, when
/// the heatmap is now shown, the script that keeps the density current.
pub fn heatmap_button_click(state: &mut DensityHeatmap) -> (scripts: Vec<String>)
    ensures
        final(state).enabled == !old(state).enabled,
        scripts@.len() == (if final(state).enabled { 2int } else { 1int }),
        scripts@[0]@ == heatmap_layer_script_text(final(state).enabled),
        final(state).enabled ==> scripts@[1]@ == DENSITY_UPDATE_SCRIPT@,
{
    state.toggle();
    let mut scripts: Vec<String> = Vec::new();
    scripts.push(build_add_heatmap_layer_script(state.is_enabled()));
    if state.is_enabled() {
        scripts.push(build_setup_density_update_script());
    }
    scripts
}

/// The heatmap layer script branches on the flag it was built for: the
/// script for a shown heatmap tests `if (true) {`, so that it creates and
/// shows the layer and stores `true`; the script for a hidden heatmap tests
/// `if (false) {`, so that it hides the layer and stores `false`.
pub proof fn law_heatmap_script_branches_on_flag(enabled: bool)
    ensures
        enabled ==> contains_text(heatmap_layer_script_text(enabled), "if (true) {"@),
        !enabled ==> contains_text(heatmap_layer_script_text(enabled), "if (false) {"@),
{
    reveal_strlit("if (");
    reveal_strlit("true");
    reveal_strlit("false");
    reveal_strlit(") {");
    reveal_strlit("if (true) {");
    reveal_strlit("if (false) {");
    let script = heatmap_layer_script_text(enabled);
    let at = HEATMAP_LAYER_SCRIPT_START@.len() as int;
    let test = heatmap_branch_test(enabled);
    assert(script == HEATMAP_LAYER_SCRIPT_START@ + test + HEATMAP_LAYER_SCRIPT_END@);
    assert(script.subrange(at, at + test.len()) =~= test);
    if enabled {
        assert(test =~= "if (true) {"@);
    } else {
        assert(test =~= "if (false) {"@);
    }
}

} // verus!
