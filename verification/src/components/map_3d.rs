//! JavaScript that creates and removes the MapLibre 3D map. The map instance
//! is kept in `window['map_<container id>']`.
//!
//! The view numbers (center, zoom, pitch, bearing, zoom limits) are decimal
//! numbers; they are given as the text they are written with.

use vstd::prelude::*;
use crate::text::{chars_of, contains_text};

verus! {

/// A fixed part of the map initialization script.
pub const MAP_INIT_SCRIPT_0: &'static str = r#"
        (function() {
            // Check for WebGL2 support
            const canvas = document.createElement('canvas');
            const gl = canvas.getContext('webgl2');
            if (!gl) {
                console.error('WebGL2 not supported');
                return;
            }

            const container = document.getElementById('"#;

/// A fixed part of the map initialization script.
pub const MAP_INIT_SCRIPT_1: &'static str = r#"');
            if (!container) {
                console.error('Map container not found: "#;

/// A fixed part of the map initialization script.
pub const MAP_INIT_SCRIPT_2: &'static str = r#"');
                return;
            }

            if (window['map_"#;

/// A fixed part of the map initialization script.
pub const MAP_INIT_SCRIPT_3: &'static str = r#"']) {
                console.log('Map already initialized: "#;

/// A fixed part of the map initialization script.
pub const MAP_INIT_SCRIPT_4: &'static str = r#"');
                return;
            }

            const map = new maplibregl.Map({
                container: '"#;

/// A fixed part of the map initialization script.
pub const MAP_INIT_SCRIPT_5: &'static str = r#"',
                style: '"#;

/// A fixed part of the map initialization script.
pub const MAP_INIT_SCRIPT_6: &'static str = r#"',
                center: ["#;

/// A fixed part of the map initialization script.
pub const MAP_INIT_SCRIPT_7: &'static str = r#", "#;

/// A fixed part of the map initialization script.
pub const MAP_INIT_SCRIPT_8: &'static str = r#"],
                zoom: "#;

/// A fixed part of the map initialization script.
pub const MAP_INIT_SCRIPT_9: &'static str = r#",
                pitch: "#;

/// A fixed part of the map initialization script.
pub const MAP_INIT_SCRIPT_10: &'static str = r#",
                bearing: "#;

/// A fixed part of the map initialization script.
pub const MAP_INIT_SCRIPT_11: &'static str = r#",
                minZoom: "#;

/// A fixed part of the map initialization script.
pub const MAP_INIT_SCRIPT_12: &'static str = r#",
                maxZoom: "#;

/// A fixed part of the map initialization script.
pub const MAP_INIT_SCRIPT_13: &'static str = r#",
                antialias: true
            });

            window['map_"#;

/// A fixed part of the map initialization script.
pub const MAP_INIT_SCRIPT_14: &'static str = r#"'] = map;
            map.addControl(new maplibregl.NavigationControl({ visualizePitch: true }));

            map.on('load', function() { console.log('Map loaded: "#;

/// A fixed part of the map initialization script.
pub const MAP_INIT_SCRIPT_15: &'static str = r#"'); });
            map.on('error', function(e) { console.error('Map error:', e); });
            map.on('moveend', function() { console.log('Map moved'); });
        })();
    "#;

/// A fixed part of the map cleanup script.
pub const MAP_CLEANUP_SCRIPT_0: &'static str = r#"
        (function() {
            "#;

/// A fixed part of the map cleanup script.
pub const MAP_CLEANUP_SCRIPT_1: &'static str = r#"
            if (map) {
                map.remove();
                "#;

/// A fixed part of the map cleanup script.
pub const MAP_CLEANUP_SCRIPT_2: &'static str = r#"
                console.log('Map removed: "#;

/// A fixed part of the map cleanup script.
pub const MAP_CLEANUP_SCRIPT_3: &'static str = r#"');
            }
        })();
    "#;

/// The map initialization script.
pub open spec fn map_init_script_text(container_id: Seq<char>, style_url: Seq<char>, longitude: Seq<char>, latitude: Seq<char>, zoom: Seq<char>, pitch: Seq<char>, bearing: Seq<char>, min_zoom: Seq<char>, max_zoom: Seq<char>) -> Seq<char> {
    MAP_INIT_SCRIPT_0@ + container_id + MAP_INIT_SCRIPT_1@ + container_id + MAP_INIT_SCRIPT_2@ + container_id + MAP_INIT_SCRIPT_3@ + container_id + MAP_INIT_SCRIPT_4@ + container_id + MAP_INIT_SCRIPT_5@ + style_url + MAP_INIT_SCRIPT_6@ + longitude + MAP_INIT_SCRIPT_7@ + latitude + MAP_INIT_SCRIPT_8@ + zoom + MAP_INIT_SCRIPT_9@ + pitch + MAP_INIT_SCRIPT_10@ + bearing + MAP_INIT_SCRIPT_11@ + min_zoom + MAP_INIT_SCRIPT_12@ + max_zoom + MAP_INIT_SCRIPT_13@ + container_id + MAP_INIT_SCRIPT_14@ + container_id + MAP_INIT_SCRIPT_15@
}

/// Builds JavaScript that checks for WebGL2 and the container, creates the
/// map once with the given style and view, adds the navigation control and
/// registers the load, error and move handlers.
pub fn map_init_script(container_id: &str, style_url: &str, longitude: &str, latitude: &str, zoom: &str, pitch: &str, bearing: &str, min_zoom: &str, max_zoom: &str) -> (r: String)
    ensures
        r@ == map_init_script_text(container_id@, style_url@, longitude@, latitude@, zoom@, pitch@, bearing@, min_zoom@, max_zoom@),
{
    let mut r = String::from_str(MAP_INIT_SCRIPT_0);
    r.append(container_id);
    r.append(MAP_INIT_SCRIPT_1);
    r.append(container_id);
    r.append(MAP_INIT_SCRIPT_2);
    r.append(container_id);
    r.append(MAP_INIT_SCRIPT_3);
    r.append(container_id);
    r.append(MAP_INIT_SCRIPT_4);
    r.append(container_id);
    r.append(MAP_INIT_SCRIPT_5);
    r.append(style_url);
    r.append(MAP_INIT_SCRIPT_6);
    r.append(longitude);
    r.append(MAP_INIT_SCRIPT_7);
    r.append(latitude);
    r.append(MAP_INIT_SCRIPT_8);
    r.append(zoom);
    r.append(MAP_INIT_SCRIPT_9);
    r.append(pitch);
    r.append(MAP_INIT_SCRIPT_10);
    r.append(bearing);
    r.append(MAP_INIT_SCRIPT_11);
    r.append(min_zoom);
    r.append(MAP_INIT_SCRIPT_12);
    r.append(max_zoom);
    r.append(MAP_INIT_SCRIPT_13);
    r.append(container_id);
    r.append(MAP_INIT_SCRIPT_14);
    r.append(container_id);
    r.append(MAP_INIT_SCRIPT_15);
    r
}

/// The statement that reads the map of a container from its global.
pub open spec fn map_lookup_text(container_id: Seq<char>) -> Seq<char> {
    "const map = window['map_"@ + container_id + "'];"@
}

/// The statement that forgets the map of a container.
pub open spec fn map_forget_text(container_id: Seq<char>) -> Seq<char> {
    "delete window['map_"@ + container_id + "'];"@
}

/// The map cleanup script.
pub open spec fn cleanup_script_text(container_id: Seq<char>) -> Seq<char> {
    MAP_CLEANUP_SCRIPT_0@ + map_lookup_text(container_id) + MAP_CLEANUP_SCRIPT_1@ + map_forget_text(
        container_id,
    ) + MAP_CLEANUP_SCRIPT_2@ + container_id + MAP_CLEANUP_SCRIPT_3@
}

/// Builds JavaScript that removes the map in the given container, if there
/// is one, and forgets it.
pub fn build_cleanup_script(container_id: &str) -> (r: String)
    ensures
        r@ == cleanup_script_text(container_id@),
{
    let mut r = String::from_str(MAP_CLEANUP_SCRIPT_0);
    r.append("const map = window['map_");
    r.append(container_id);
    r.append("'];");
    r.append(MAP_CLEANUP_SCRIPT_1);
    r.append("delete window['map_");
    r.append(container_id);
    r.append("'];");
    r.append(MAP_CLEANUP_SCRIPT_2);
    r.append(container_id);
    r.append(MAP_CLEANUP_SCRIPT_3);
    r
}

/// The cleanup script works on the map of the container it was built for:
/// it reads the map from `window['map_' + container_id]` and deletes that
/// same global.
pub proof fn law_cleanup_targets_container(container_id: Seq<char>)
    ensures
        contains_text(
            cleanup_script_text(container_id),
            "const map = window['map_"@ + container_id + "'];"@,
        ),
        contains_text(
            cleanup_script_text(container_id),
            "delete window['map_"@ + container_id + "'];"@,
        ),
{
    let script = cleanup_script_text(container_id);
    let look = "const map = window['map_"@ + container_id + "'];"@;
    let forget = "delete window['map_"@ + container_id + "'];"@;
    let a = MAP_CLEANUP_SCRIPT_0@.len() as int;
    let b = a + look.len() + MAP_CLEANUP_SCRIPT_1@.len();
    assert(script.subrange(a, a + look.len()) =~= look);
    assert(script.subrange(b, b + forget.len()) =~= forget);
}

/// A character with ASCII upper-case letters turned to lower case.
pub open spec fn ascii_lower(c: char) -> char {
    if 'A' <= c && c <= 'Z' {
        (c as int + 32) as char
    } else {
        c
    }
}

/// Whether two texts are equal when ASCII letters are compared without
/// regard to case (`str::eq_ignore_ascii_case`).
pub open spec fn eq_ignore_ascii_case(a: Seq<char>, b: Seq<char>) -> bool {
    a.len() == b.len() && forall|i: int| 0 <= i < a.len() ==> ascii_lower(#[trigger] a[i]) == ascii_lower(b[i])
}

/// A character with ASCII upper-case letters turned to lower case.
fn to_ascii_lower(c: char) -> (r: char)
    ensures
        r == ascii_lower(c),
{
    if 'A' <= c && c <= 'Z' {
        ((c as u32 + 32) as u8) as char
    } else {
        c
    }
}

/// Whether the value of the 3D map switch (`MAP_3D_ENABLED`) turns the 3D
/// map on: it is "true", in any mix of upper and lower case.
pub fn is_enabled_flag(value: &str) -> (r: bool)
    ensures
        r == eq_ignore_ascii_case(value@, "true"@),
{
    let cs = chars_of(value);
    let expected = chars_of("true");
    proof {
        reveal_strlit("true");
    }
    if cs.len() != expected.len() {
        return false;
    }
    let mut i: usize = 0;
    while i < cs.len()
        invariant
            cs@ == value@,
            expected@ == "true"@,
            cs.len() == expected.len(),
            i <= cs.len(),
            forall|j: int| 0 <= j < i ==> ascii_lower(#[trigger] cs@[j]) == ascii_lower(expected@[j]),
        decreases cs.len() - i,
    {
        if to_ascii_lower(cs[i]) != to_ascii_lower(expected[i]) {
            return false;
        }
        i = i + 1;
    }
    true
}

} // verus!
