# iou_modern

The verified core of IOU-Modern, an information workspace for Dutch public
bodies: the state of the 3D map views and its shareable URL form, GeoJSON
layer configuration and layer detection, the JavaScript snippets that drive
the MapLibre map, the percent-encoding and endpoint URLs of the backend API,
the display rules of the dashboard pages, and the workflow orchestrator's
context and version registry.

Layout:

- `src/` — the library, written in Verus. Every function carries a contract
  that Verus proves; calls into `serde_json`, `uuid` and the standard
  library that Verus cannot see into go through small trusted wrappers
  whose contracts are stated next to them. The clock is read through
  `std::time` (the source `chrono::Utc::now` reads too), because
  `Utc::now` panics when the system clock reads before 1970; times are
  nanoseconds since the Unix epoch.
  - `state/` — view mode, density heatmap, signed-in user, URL parameters.
  - `components/` — map layers, layer detection, terrain codes, map scripts,
    filter sliders, the document card and audit viewer rules.
  - `api/` — percent-encoding, endpoint URLs, template records.
  - `pages/` — labels, filters and list handling of the dashboard pages.
  - `orchestrator/` — workflow context, version registry, error types.
- `tests/` — tests of the library through its public interface.
- `app/` — the parts around the library: HTTP calls, environment switches,
  the floating-point map configuration, building filter and terrain
  elevations, serialization, and error messages.

The Dioxus pages themselves (their markup, routing and signals) are not
here: the UI framework is not a dependency, and the application state
(`AppState`), the hotspot register and the PETRA categories come from the
workspace crates `iou_core` and `iou_regels`, which are not part of this
project. The decisions those pages make — filters, labels, list handling,
selection toggles and the scripts they run — stand in `src/pages/` and
`src/components/`.
