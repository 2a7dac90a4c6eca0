//! The MapLibre filter that shows only the buildings within the chosen
//! ranges of construction year, height and floor count, and the scripts
//! that apply and clear it.
//!
//! Heights are decimal numbers; they are given as the text they are written
//! with.

use vstd::prelude::*;
use crate::text::{decimal, parse_u32, parse_u32_spec, push_decimal};

verus! {

/// A fixed part of the building filter expression.
pub const FILTER_EXPRESSION_START: &'static str = r#"["all",
        [">=", ["get", "construction_year"], "#;

/// A fixed part of the building filter expression.
pub const FILTER_AFTER_MIN_YEAR: &'static str = r#"],
        ["<=", ["get", "construction_year"], "#;

/// A fixed part of the building filter expression.
pub const FILTER_AFTER_MAX_YEAR: &'static str = r#"],
        [">=", ["get", "height"], "#;

/// A fixed part of the building filter expression.
pub const FILTER_AFTER_MIN_HEIGHT: &'static str = r#"],
        ["<=", ["get", "height"], "#;

/// A fixed part of the building filter expression.
pub const FILTER_AFTER_MAX_HEIGHT: &'static str = r#"],
        [">=", ["get", "floors"], "#;

/// A fixed part of the building filter expression.
pub const FILTER_AFTER_MIN_FLOORS: &'static str = r#"],
        ["<=", ["get", "floors"], "#;

/// A fixed part of the building filter expression.
pub const FILTER_EXPRESSION_END: &'static str = r#"]
    ]"#;

/// The part of the filter script before the filter expression.
pub const SET_FILTER_SCRIPT_START: &'static str = r#"
        (function() {
            const map = window['map_map'];
            if (!map) {
                console.error('Map not found for filter update');
                return;
            }

            try {
                const filter = "#;

/// The part of the filter script after the filter expression.
pub const SET_FILTER_SCRIPT_END: &'static str = r#";
                map.setFilter('building-3d', filter);

                // Query visible buildings and update count
                const features = map.queryRenderedFeatures({
                    layers: ['building-3d']
                });
                const count = features.length;

                // Update DOM element
                const countEl = document.getElementById('building-count');
                if (countEl) {
                    countEl.textContent = count.toString();
                }

                console.log('Filter updated:', filter, 'Visible buildings:', count);
            } catch (e) {
                console.error('Filter update error:', e);
            }
        })();
    "#;

/// The script that removes the building filter.
pub const CLEAR_FILTER_SCRIPT: &'static str = r#"
        (function() {
            const map = window['map_map'];
            if (!map) {
                console.error('Map not found');
                return;
            }

            try {
                map.setFilter('building-3d', null);

                // Query all buildings and update count
                const features = map.queryRenderedFeatures({
                    layers: ['building-3d']
                });
                const count = features.length;

                const countEl = document.getElementById('building-count');
                if (countEl) {
                    countEl.textContent = count.toString();
                }

                console.log('Filters cleared, all buildings visible');
            } catch (e) {
                console.error('Clear filter error:', e);
            }
        })();
    "#;

/// The filter expression for the given ranges.
pub open spec fn filter_expression_text(
    min_year: u32,
    max_year: u32,
    min_height: Seq<char>,
    max_height: Seq<char>,
    min_floors: u32,
    max_floors: u32,
) -> Seq<char> {
    FILTER_EXPRESSION_START@ + decimal(min_year as nat) + FILTER_AFTER_MIN_YEAR@ + decimal(max_year as nat)
        + FILTER_AFTER_MAX_YEAR@ + min_height + FILTER_AFTER_MIN_HEIGHT@ + max_height
        + FILTER_AFTER_MAX_HEIGHT@ + decimal(min_floors as nat) + FILTER_AFTER_MIN_FLOORS@ + decimal(
        max_floors as nat,
    ) + FILTER_EXPRESSION_END@
}

/// Builds the MapLibre filter expression `["all", ...]` that keeps the
/// buildings whose construction year, height and floor count lie within the
/// given inclusive ranges.
pub fn filter_expression(
    min_year: u32,
    max_year: u32,
    min_height: &str,
    max_height: &str,
    min_floors: u32,
    max_floors: u32,
) -> (r: String)
    ensures
        r@ == filter_expression_text(min_year, max_year, min_height@, max_height@, min_floors, max_floors),
{
    let mut r = String::from_str(FILTER_EXPRESSION_START);
    push_decimal(&mut r, min_year);
    r.append(FILTER_AFTER_MIN_YEAR);
    push_decimal(&mut r, max_year);
    r.append(FILTER_AFTER_MAX_YEAR);
    r.append(min_height);
    r.append(FILTER_AFTER_MIN_HEIGHT);
    r.append(max_height);
    r.append(FILTER_AFTER_MAX_HEIGHT);
    push_decimal(&mut r, min_floors);
    r.append(FILTER_AFTER_MIN_FLOORS);
    push_decimal(&mut r, max_floors);
    r.append(FILTER_EXPRESSION_END);
    r
}

/// Builds JavaScript that applies a filter expression to the `building-3d`
/// layer and shows the count of visible buildings in `building-count`.
pub fn build_set_filter_script(filter_expr: &str) -> (r: String)
    ensures
        r@ == SET_FILTER_SCRIPT_START@ + filter_expr@ + SET_FILTER_SCRIPT_END@,
{
    let mut r = String::from_str(SET_FILTER_SCRIPT_START);
    r.append(filter_expr);
    r.append(SET_FILTER_SCRIPT_END);
    r
}

/// Builds JavaScript that clears the building filter so that all buildings
/// show, and updates the visible count.
pub fn build_clear_filter_script() -> (r: String)
    ensures
        r@ == CLEAR_FILTER_SCRIPT@,
{
    String::from_str(CLEAR_FILTER_SCRIPT)
}

/// The lower bound of a slider pair after the lower slider moved to the
/// value written in `text`: that value, but never above the upper bound; a
/// text that is not a `u32` leaves the bound as it was.
pub open spec fn slider_min_after(text: Seq<char>, current_min: u32, current_max: u32) -> u32 {
    match parse_u32_spec(text) {
        Some(v) => if v <= current_max { v } else { current_max },
        None => current_min,
    }
}

/// The upper bound of a slider pair after the upper slider moved to the
/// value written in `text`: that value, but never below the lower bound; a
/// text that is not a `u32` leaves the bound as it was.
pub open spec fn slider_max_after(text: Seq<char>, current_min: u32, current_max: u32) -> u32 {
    match parse_u32_spec(text) {
        Some(v) => if v >= current_min { v } else { current_min },
        None => current_max,
    }
}

/// The lower bound after the lower slider of a pair moved.
pub fn slider_min_update(text: &str, current_min: u32, current_max: u32) -> (r: u32)
    ensures
        r == slider_min_after(text@, current_min, current_max),
{
    match parse_u32(text) {
        Some(v) => if v <= current_max { v } else { current_max },
        None => current_min,
    }
}

/// The upper bound after the upper slider of a pair moved.
pub fn slider_max_update(text: &str, current_min: u32, current_max: u32) -> (r: u32)
    ensures
        r == slider_max_after(text@, current_min, current_max),
{
    match parse_u32(text) {
        Some(v) => if v >= current_min { v } else { current_min },
        None => current_max,
    }
}

/// The label of a range filter: its name, then the bounds as "{min} - {max}",
/// such as "Bouwjaar: 1900 - 2024" or "Verdiepingen: 1 - 10".
pub fn range_label(name: &str, min: u32, max: u32) -> (r: String)
    ensures
        r@ == name@ + ": "@ + decimal(min as nat) + " - "@ + decimal(max as nat),
{
    let mut r = String::from_str(name);
    r.append(": ");
    push_decimal(&mut r, min);
    r.append(" - ");
    push_decimal(&mut r, max);
    r
}

/// Moving either slider of a pair keeps the lower bound at or below the
/// upper bound.
pub proof fn law_sliders_keep_order(text: Seq<char>, current_min: u32, current_max: u32)
    requires
        current_min <= current_max,
    ensures
        slider_min_after(text, current_min, current_max) <= current_max,
        current_min <= slider_max_after(text, current_min, current_max),
{
}

} // verus!
