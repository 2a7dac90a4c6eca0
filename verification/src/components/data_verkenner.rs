//! JavaScript for the Data Verkenner's 3D map: loading the buildings of the
//! viewport from the 3D BAG endpoint (debounced, on a 10% change), the
//! XSS-safe building popup, and the script that sets the map up with both.

use vstd::prelude::*;

verus! {

/// The script that loads buildings for the viewport.
pub const BUILDINGS_FETCH_SCRIPT: &'static str = r#"
        // Constants
        const BUILDINGS_FETCH_LIMIT = 150;

        // State tracking for dynamic loading
        let lastFetchedBbox = null;
        let fetchTimeout = null;
        let abortController = null;

        // Check if bounds changed by at least 10% threshold
        // Also checks if center position moved significantly (pan detection)
        function shouldFetch(newBounds) {
            if (!lastFetchedBbox) return true;

            const width = newBounds[2] - newBounds[0];
            const lastWidth = lastFetchedBbox[2] - lastFetchedBbox[0];
            const height = newBounds[3] - newBounds[1];
            const lastHeight = lastFetchedBbox[3] - lastFetchedBbox[1];

            // Handle zero dimensions
            if (lastWidth === 0 || lastHeight === 0) return true;

            // Calculate centers to detect panning
            const newCenterX = (newBounds[0] + newBounds[2]) / 2;
            const newCenterY = (newBounds[1] + newBounds[3]) / 2;
            const lastCenterX = (lastFetchedBbox[0] + lastFetchedBbox[2]) / 2;
            const lastCenterY = (lastFetchedBbox[1] + lastFetchedBbox[3]) / 2;

            // Check if center moved more than 10% of viewport size
            const centerMoveX = Math.abs(newCenterX - lastCenterX) / lastWidth;
            const centerMoveY = Math.abs(newCenterY - lastCenterY) / lastHeight;

            const widthChange = Math.abs(width - lastWidth) / lastWidth;
            const heightChange = Math.abs(height - lastHeight) / lastHeight;

            return widthChange > 0.1 || heightChange > 0.1 || centerMoveX > 0.1 || centerMoveY > 0.1;
        }

        // Update buildings source with new GeoJSON data
        function updateBuildingsSource(geojson) {
            // Clear any existing popups
            document.querySelectorAll('.maplibregl-popup').forEach(p => p.remove());

            const source = map.getSource('buildings');
            if (source) {
                source.setData(geojson);
            } else {
                // Source doesn't exist yet, create it
                map.addSource('buildings', {
                    type: 'geojson',
                    data: geojson
                });

                map.addLayer({
                    id: 'building-3d',
                    type: 'fill-extrusion',
                    source: 'buildings',
                    paint: {
                        'fill-extrusion-color': [
                            'step',
                            ['coalesce', ['get', 'height'], 0],
                            '#64B5F6',  // 0-5m: Light blue
                            5,
                            '#9B59B6',  // 5-15m: Medium purple
                            15,
                            '#8E44AD'   // 15m+: Dark purple
                        ],
                        'fill-extrusion-height': ['coalesce', ['get', 'height'], 10],
                        'fill-extrusion-base': 0,
                        'fill-extrusion-opacity': 0.8
                    }
                });
            }
        }

        // Show empty state when no buildings found
        function showNoBuildingsMessage() {
            const source = map.getSource('buildings');
            if (source) {
                source.setData({
                    type: 'FeatureCollection',
                    features: []
                });
            }
        }

        // Show error message
        function showErrorMessage(message) {
            console.warn(message);
        }

        // Fetch buildings from API with WGS84 bbox
        async function fetchBuildings(bbox) {
            // Cancel any pending fetch
            if (abortController) {
                abortController.abort();
            }

            // Create new abort controller for this fetch
            abortController = new AbortController();

            try {
                const response = await fetch(
                    `/api/buildings-3d?bbox-wgs84=${bbox.join(',')}&limit=${BUILDINGS_FETCH_LIMIT}`,
                    { signal: abortController.signal }
                );

                if (!response.ok) {
                    if (response.status === 404) {
                        showNoBuildingsMessage();
                        return;
                    }
                    throw new Error(`API error: ${response.status}`);
                }

                const data = await response.json();

                if (data.features.length === 0) {
                    showNoBuildingsMessage();
                    return;
                }

                updateBuildingsSource(data);
                // Update state AFTER successful fetch (fixes race condition)
                lastFetchedBbox = bbox;
                console.log('Loaded ' + data.features.length + ' buildings from 3DBAG');

            } catch (error) {
                if (error.name === 'AbortError') {
                    console.log('Fetch aborted due to new request');
                    return;
                }
                console.error('Failed to fetch buildings:', error);
                showErrorMessage('Kon gebouwen niet laden. Probeer het opnieuw.');
            } finally {
                abortController = null;
            }
        }

        // Debounced fetch function
        function debouncedFetch() {
            clearTimeout(fetchTimeout);
            fetchTimeout = setTimeout(() => {
                const bounds = map.getBounds();
                const bbox = [bounds.getWest(), bounds.getSouth(),
                              bounds.getEast(), bounds.getNorth()];

                if (shouldFetch(bbox)) {
                    fetchBuildings(bbox);
                    // Note: lastFetchedBbox is now updated inside fetchBuildings
                    // after successful fetch to prevent race conditions
                }
            }, 300);
        }
    "#;

/// The script that shows building details on click.
pub const POPUP_HANDLER_SCRIPT: &'static str = r#"
        // Create popup content using XSS-safe DOM methods
        function createBuildingPopup(props) {
            var container = document.createElement('div');
            container.className = 'building-popup';

            // Title
            var title = document.createElement('h3');
            title.textContent = 'Gebouw Info';
            container.appendChild(title);

            // Helper function for adding rows (XSS-safe)
            function addRow(label, value) {
                if (value === null || value === undefined) return;
                var row = document.createElement('p');
                var labelEl = document.createElement('strong');
                labelEl.textContent = label + ': ';
                row.appendChild(labelEl);
                row.appendChild(document.createTextNode(String(value)));
                container.appendChild(row);
            }

            // Add property rows
            addRow('ID', props.bag_id);
            addRow('Hoogte', props.height !== undefined ? props.height.toFixed(1) + 'm' : null);
            addRow('Verdiepingen', props.floors);
            addRow('Bouwjaar', props.construction_year);

            return new maplibregl.Popup({ offset: 15 }).setDOMContent(container);
        }

        // Register click handler for buildings
        map.on('click', 'building-3d', function(e) {
            var features = map.queryRenderedFeatures(e.point, {
                layers: ['building-3d']
            });

            if (features.length > 0 && features[0].properties) {
                var props = features[0].properties;
                var popup = createBuildingPopup(props);
                popup.setLngLat(e.lngLat).addTo(map);
            }
        });

        // Close popup when map moves
        map.on('move', function() {
            var popups = document.querySelectorAll('.maplibregl-popup');
            popups.forEach(function(p) { p.remove(); });
        });
    "#;

/// The part of the 3D map setup script before the building loader.
pub const MAP3D_INIT_SCRIPT_START: &'static str = r#"
    (function() {
        console.log('Map3D script loaded');

        "#;

/// The part of the 3D map setup script between the loader and the popup handler.
pub const MAP3D_INIT_SCRIPT_MIDDLE: &'static str = r#"

        function waitForElement(id, callback) {
            var element = document.getElementById(id);
            if (element) {
                callback(element);
            } else {
                setTimeout(function() { waitForElement(id, callback); }, 100);
            }
        }

        function initMap3D() {
            if (typeof window.maplibregl === 'undefined') {
                console.log('MapLibre GL not loaded yet, waiting...');
                setTimeout(initMap3D, 200);
                return;
            }

            if (window.map_map) {
                console.log('Map already initialized');
                return;
            }

            console.log('Initializing Map3D...');

            try {
                var map = new maplibregl.Map({
                    container: 'map',
                    style: 'https://basemaps.cartocdn.com/gl/positron-gl-style/style.json',
                    center: [5.6, 52.4],
                    zoom: 10,
                    pitch: 60,
                    bearing: 0,
                    antialias: true
                });

                map.addControl(new maplibregl.NavigationControl({ visualizePitch: true }));
                window.map_map = map;

                map.on('load', function() {
                    console.log('Map loaded, setting up dynamic building loading...');

                    // Add event listeners for dynamic loading
                    map.on('moveend', debouncedFetch);
                    map.on('zoomend', debouncedFetch);

                    // Initial fetch for starting viewport
                    debouncedFetch();

                    // Setup popup handler after buildings are loaded
                    "#;

/// The part of the 3D map setup script after the popup handler.
pub const MAP3D_INIT_SCRIPT_END: &'static str = r#"
                });

                map.on('error', function(e) {
                    console.error('Map error:', e);
                });

            } catch (e) {
                console.error('Error creating map:', e);
            }
        }

        waitForElement('map', function() {
            console.log('Map container found, initializing...');
            initMap3D();
        });
    })();
    "#;

/// Builds the JavaScript that loads the buildings of the viewport.
pub fn build_buildings_fetch_script() -> (r: String)
    ensures
        r@ == BUILDINGS_FETCH_SCRIPT@,
{
    String::from_str(BUILDINGS_FETCH_SCRIPT)
}

/// Builds the JavaScript that shows a building's details in a popup on
/// click, using DOM text nodes only.
pub fn build_popup_handler_script() -> (r: String)
    ensures
        r@ == POPUP_HANDLER_SCRIPT@,
{
    String::from_str(POPUP_HANDLER_SCRIPT)
}

/// The 3D map setup script.
pub open spec fn map3d_init_script_text() -> Seq<char> {
    MAP3D_INIT_SCRIPT_START@ + BUILDINGS_FETCH_SCRIPT@ + MAP3D_INIT_SCRIPT_MIDDLE@ + POPUP_HANDLER_SCRIPT@
        + MAP3D_INIT_SCRIPT_END@
}

/// Returns the script that waits for the map container and MapLibre,
/// creates the 3D map centred on Flevoland, and sets up the building loader
/// and the popup handler.
pub fn get_map3d_init_script() -> (r: String)
    ensures
        r@ == map3d_init_script_text(),
{
    let fetch_script = build_buildings_fetch_script();
    let popup_handler_script = build_popup_handler_script();
    let mut r = String::from_str(MAP3D_INIT_SCRIPT_START);
    r.append(fetch_script.as_str());
    r.append(MAP3D_INIT_SCRIPT_MIDDLE);
    r.append(popup_handler_script.as_str());
    r.append(MAP3D_INIT_SCRIPT_END);
    r
}

} // verus!
