//! Layer type detection from GeoJSON content: the first geometry type found
//! among the features decides how a layer is rendered, and a collection
//! whose features name different geometry types is reported as mixed.

use vstd::prelude::*;
use crate::components::layer_control_3d::{layer_type_of_geometry, LayerType};
use crate::text::str_eq;

verus! {

/// The strings that a JSON text holds under a list, as `serde_json` reads
/// it: `None` when the text is not JSON or `list_pointer` does not lead to
/// an array; otherwise, for each element of that array in order, the string
/// that `item_pointer` leads to within it, or `None` where it leads to no
/// string. Both pointers are JSON Pointers (RFC 6901).
pub uninterp spec fn json_pointer_strings(
    content: Seq<char>,
    list_pointer: Seq<char>,
    item_pointer: Seq<char>,
) -> Option<Seq<Option<Seq<char>>>>;

/// Parses a JSON text with `serde_json::from_str` and reads, with
/// `serde_json::Value::pointer`, `as_array` and `as_str`, the string under
/// each element of the list at `list_pointer`.
///
/// The contract names the result: it depends on the text and the pointers
/// alone.
#[verifier::external_body]
fn strings_under_list(content: &str, list_pointer: &str, item_pointer: &str) -> (r: Option<
    Vec<Option<String>>,
>)
    ensures
        r.deep_view() == json_pointer_strings(content@, list_pointer@, item_pointer@),
{
    let json: serde_json::Value = serde_json::from_str(content).ok()?;
    let items = json.pointer(list_pointer)?.as_array()?;
    Some(items.iter().map(|f| f.pointer(item_pointer).and_then(|t| t.as_str()).map(String::from)).collect())
}

/// The geometry types of the features of a GeoJSON text: the string at
/// `geometry.type` of each element of its `features` array.
pub open spec fn geojson_feature_types(content: Seq<char>) -> Option<Seq<Option<Seq<char>>>> {
    json_pointer_strings(content, "/features"@, "/geometry/type"@)
}

/// The first geometry type found among the features, skipping features
/// without one.
pub open spec fn first_type(ts: Seq<Option<Seq<char>>>) -> Option<Seq<char>>
    decreases ts.len(),
{
    if ts.len() == 0 {
        None
    } else {
        match ts[0] {
            Some(t) => Some(t),
            None => first_type(ts.drop_first()),
        }
    }
}

/// The layer type that the geometry types of a feature collection call for:
/// the type named by the first geometry type found, and `Polygon` where no
/// type is found or the first one names no layer type.
pub open spec fn layer_type_of_features(types: Option<Seq<Option<Seq<char>>>>) -> LayerType {
    match types {
        Some(ts) => match first_type(ts) {
            Some(t) => match layer_type_of_geometry(t) {
                Some(l) => l,
                None => LayerType::Polygon,
            },
            None => LayerType::Polygon,
        },
        None => LayerType::Polygon,
    }
}

/// Whether a feature collection mixes geometry types: two of its features
/// have geometry types that differ.
pub open spec fn features_are_mixed(types: Option<Seq<Option<Seq<char>>>>) -> bool {
    match types {
        Some(ts) => exists|i: int, j: int|
            0 <= i < ts.len() && 0 <= j < ts.len() && #[trigger] ts[i] is Some && #[trigger] ts[j] is Some
                && ts[i] != ts[j],
        None => false,
    }
}

/// The first type found is the one at the first position that has one.
proof fn lemma_first_type(ts: Seq<Option<Seq<char>>>, i: int)
    requires
        0 <= i <= ts.len(),
        forall|k: int| 0 <= k < i ==> ts[k] is None,
    ensures
        i < ts.len() ==> first_type(ts) == first_type(ts.skip(i)),
        i == ts.len() ==> first_type(ts) is None,
    decreases i,
{
    if i > 0 {
        let rest = ts.drop_first();
        assert forall|k: int| 0 <= k < i - 1 implies rest[k] is None by {
            assert(rest[k] == ts[k + 1]);
        }
        lemma_first_type(rest, i - 1);
        assert(ts[0] is None);
        if i < ts.len() {
            assert(rest.skip(i - 1) =~= ts.skip(i));
        }
    } else {
        assert(ts.skip(0) =~= ts);
    }
}

/// The layer type for the geometry types read from a GeoJSON text (`None`
/// when the text has no feature array).
pub fn layer_type_for_features(types: &Option<Vec<Option<String>>>) -> (r: LayerType)
    ensures
        r == layer_type_of_features(types.deep_view()),
{
    let ts = match types {
        None => return LayerType::Polygon,
        Some(ts) => ts,
    };
    let ghost dv = ts.deep_view();
    assert(types.deep_view() == Some(dv));
    let mut i: usize = 0;
    while i < ts.len()
        invariant
            i <= ts.len(),
            dv == ts.deep_view(),
            dv.len() == ts.len(),
            types.deep_view() == Some(dv),
            forall|k: int| 0 <= k < i ==> dv[k] is None,
        decreases ts.len() - i,
    {
        assert(dv[i as int] == ts@[i as int].deep_view());
        match &ts[i] {
            Some(t) => {
                proof {
                    lemma_first_type(dv, i as int);
                    assert(dv.skip(i as int)[0] == dv[i as int]);
                    assert(first_type(dv) == Some(t@));
                }
                return match LayerType::from_geojson_type(t.as_str()) {
                    Some(l) => l,
                    None => LayerType::Polygon,
                };
            },
            None => {},
        }
        i = i + 1;
    }
    proof {
        lemma_first_type(dv, dv.len() as int);
    }
    LayerType::Polygon
}

/// Whether the geometry types read from a GeoJSON text are mixed.
pub fn mixed_feature_types(types: &Option<Vec<Option<String>>>) -> (r: bool)
    ensures
        r == features_are_mixed(types.deep_view()),
{
    let ts = match types {
        None => return false,
        Some(ts) => ts,
    };
    let ghost dv = ts.deep_view();
    assert(types.deep_view() == Some(dv));
    let mut first: Option<&String> = None;
    let ghost mut first_at: int = 0;
    let mut i: usize = 0;
    while i < ts.len()
        invariant
            i <= ts.len(),
            dv == ts.deep_view(),
            dv.len() == ts.len(),
            types.deep_view() == Some(dv),
            first is None ==> forall|k: int| 0 <= k < i ==> dv[k] is None,
            first matches Some(f) ==> {
                &&& 0 <= first_at < i
                &&& dv[first_at] == Some(f@)
                &&& forall|k: int| 0 <= k < i && #[trigger] dv[k] is Some ==> dv[k] == Some(f@)
            },
        decreases ts.len() - i,
    {
        assert(dv[i as int] == ts@[i as int].deep_view());
        match &ts[i] {
            Some(t) => {
                match first {
                    None => {
                        first = Some(t);
                        proof {
                            first_at = i as int;
                        }
                    },
                    Some(f) => {
                        if !str_eq(t.as_str(), f.as_str()) {
                            assert(dv[first_at] is Some && dv[i as int] is Some && dv[first_at]
                                != dv[i as int]);
                            return true;
                        }
                    },
                }
            },
            None => {},
        }
        i = i + 1;
    }
    proof {
        assert forall|a: int, b: int|
            0 <= a < dv.len() && 0 <= b < dv.len() && #[trigger] dv[a] is Some && #[trigger] dv[b] is Some
            implies dv[a] == dv[b] by {}
    }
    false
}

/// Detects the primary geometry type from GeoJSON content: the first
/// geometry type found among the features; `Polygon` for text that is not
/// JSON, has no features with a geometry type, or whose first geometry type
/// is not a known one.
pub fn detect_layer_type(geojson_content: &str) -> (r: LayerType)
    ensures
        r == layer_type_of_features(geojson_feature_types(geojson_content@)),
{
    let types = strings_under_list(geojson_content, "/features", "/geometry/type");
    layer_type_for_features(&types)
}

/// Checks if GeoJSON content contains features with different geometry
/// types; `false` for text that is not JSON.
pub fn has_mixed_geometries(geojson_content: &str) -> (r: bool)
    ensures
        r == features_are_mixed(geojson_feature_types(geojson_content@)),
{
    let types = strings_under_list(geojson_content, "/features", "/geometry/type");
    mixed_feature_types(&types)
}

} // verus!
