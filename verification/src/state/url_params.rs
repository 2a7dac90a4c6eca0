//! The URL query parameters that make the map state shareable: the
//! human-readable text that the state is written to, and the settings that
//! a query text holds.
//!
//! Building heights are decimal numbers; the library carries their text as
//! it stands in the query, and the caller renders and reads the numbers.

use vstd::prelude::*;
use crate::text::{
    chars_of, decimal, find_char, find_char_before, index_of_char, lemma_index_of_char,
    parse_u32, parse_u32_spec, push_decimal, str_eq, string_of_range, lemma_index_of_char_unique,
    lemma_decimal_digits, lemma_parse_decimal, is_digit, all_digits, split_on, lacks,
    lemma_split_single, lemma_split_cons,
};
use super::view_toggle::ViewMode;

verus! {

/// One setting as a query parameter states it.
pub enum ParamSetting {
    View(ViewMode),
    YearMin(u32),
    YearMax(u32),
    HeightMin(Seq<char>),
    HeightMax(Seq<char>),
    FloorsMin(u32),
    FloorsMax(u32),
    Heatmap(bool),
    Ignored,
}

/// One setting read from a URL query parameter. Heights are given as the
/// text of the parameter's value.
#[derive(Debug, Clone, PartialEq)]
pub enum UrlParamUpdate {
    /// `view=2d` or `view=…`: the view mode (anything but `2d` means 3D)
    View(ViewMode),
    /// `year_min=N`
    YearMin(u32),
    /// `year_max=N`
    YearMax(u32),
    /// `height_min=…`, the value's text
    HeightMin(String),
    /// `height_max=…`, the value's text
    HeightMax(String),
    /// `floors_min=N`
    FloorsMin(u32),
    /// `floors_max=N`
    FloorsMax(u32),
    /// `heatmap=true` or `heatmap=1` turn it on, any other value off
    Heatmap(bool),
    /// An unknown parameter, or an invalid number
    Ignored,
}

impl View for UrlParamUpdate {
    type V = ParamSetting;

    open spec fn view(&self) -> ParamSetting {
        match self {
            UrlParamUpdate::View(m) => ParamSetting::View(*m),
            UrlParamUpdate::YearMin(y) => ParamSetting::YearMin(*y),
            UrlParamUpdate::YearMax(y) => ParamSetting::YearMax(*y),
            UrlParamUpdate::HeightMin(h) => ParamSetting::HeightMin(h@),
            UrlParamUpdate::HeightMax(h) => ParamSetting::HeightMax(h@),
            UrlParamUpdate::FloorsMin(f) => ParamSetting::FloorsMin(*f),
            UrlParamUpdate::FloorsMax(f) => ParamSetting::FloorsMax(*f),
            UrlParamUpdate::Heatmap(b) => ParamSetting::Heatmap(*b),
            UrlParamUpdate::Ignored => ParamSetting::Ignored,
        }
    }
}

/// The key and value of a `key=value` piece: the text before the first
/// `=`, and the text after it up to the next `=`. Nothing for a piece
/// without `=`.
pub open spec fn key_value(piece: Seq<char>) -> Option<(Seq<char>, Seq<char>)> {
    let i = index_of_char(piece, '=');
    if i >= piece.len() {
        None
    } else {
        let rest = piece.skip(i + 1 as int);
        Some((piece.take(i as int), rest.take(index_of_char(rest, '=') as int)))
    }
}

/// The setting that a key and value state.
pub open spec fn setting_of(key: Seq<char>, value: Seq<char>) -> ParamSetting {
    if key == "view"@ {
        ParamSetting::View(if value == "2d"@ { ViewMode::TwoD } else { ViewMode::ThreeD })
    } else if key == "year_min"@ {
        match parse_u32_spec(value) {
            Some(y) => ParamSetting::YearMin(y),
            None => ParamSetting::Ignored,
        }
    } else if key == "year_max"@ {
        match parse_u32_spec(value) {
            Some(y) => ParamSetting::YearMax(y),
            None => ParamSetting::Ignored,
        }
    } else if key == "height_min"@ {
        ParamSetting::HeightMin(value)
    } else if key == "height_max"@ {
        ParamSetting::HeightMax(value)
    } else if key == "floors_min"@ {
        match parse_u32_spec(value) {
            Some(f) => ParamSetting::FloorsMin(f),
            None => ParamSetting::Ignored,
        }
    } else if key == "floors_max"@ {
        match parse_u32_spec(value) {
            Some(f) => ParamSetting::FloorsMax(f),
            None => ParamSetting::Ignored,
        }
    } else if key == "heatmap"@ {
        ParamSetting::Heatmap(value == "true"@ || value == "1"@)
    } else {
        ParamSetting::Ignored
    }
}

/// The settings of a sequence of query pieces, in order; pieces without
/// `=` state none.
pub open spec fn settings_of_pieces(pieces: Seq<Seq<char>>) -> Seq<ParamSetting>
    decreases pieces.len(),
{
    if pieces.len() == 0 {
        seq![]
    } else {
        let rest = settings_of_pieces(pieces.drop_first());
        match key_value(pieces[0]) {
            Some((k, v)) => seq![setting_of(k, v)] + rest,
            None => rest,
        }
    }
}

/// The settings that a query text states, in order.
pub open spec fn query_settings(query: Seq<char>) -> Seq<ParamSetting> {
    settings_of_pieces(split_on(query, '&'))
}

/// The setting that a key and value state.
pub fn classify_url_param(key: &str, value: &str) -> (r: UrlParamUpdate)
    ensures
        r@ == setting_of(key@, value@),
{
    if str_eq(key, "view") {
        UrlParamUpdate::View(if str_eq(value, "2d") { ViewMode::TwoD } else { ViewMode::ThreeD })
    } else if str_eq(key, "year_min") {
        match parse_u32(value) {
            Some(y) => UrlParamUpdate::YearMin(y),
            None => UrlParamUpdate::Ignored,
        }
    } else if str_eq(key, "year_max") {
        match parse_u32(value) {
            Some(y) => UrlParamUpdate::YearMax(y),
            None => UrlParamUpdate::Ignored,
        }
    } else if str_eq(key, "height_min") {
        UrlParamUpdate::HeightMin(String::from_str(value))
    } else if str_eq(key, "height_max") {
        UrlParamUpdate::HeightMax(String::from_str(value))
    } else if str_eq(key, "floors_min") {
        match parse_u32(value) {
            Some(f) => UrlParamUpdate::FloorsMin(f),
            None => UrlParamUpdate::Ignored,
        }
    } else if str_eq(key, "floors_max") {
        match parse_u32(value) {
            Some(f) => UrlParamUpdate::FloorsMax(f),
            None => UrlParamUpdate::Ignored,
        }
    } else if str_eq(key, "heatmap") {
        UrlParamUpdate::Heatmap(str_eq(value, "true") || str_eq(value, "1"))
    } else {
        UrlParamUpdate::Ignored
    }
}

/// The views of a sequence of updates.
pub open spec fn update_views(us: Seq<UrlParamUpdate>) -> Seq<ParamSetting> {
    us.map_values(|u: UrlParamUpdate| u@)
}

/// The settings that a URL query text states, in the order of its
/// parameters: the text is split at each `&`; a piece without `=` is
/// skipped, and for the others the key is the text before the first `=` and
/// the value the text after it up to the next `=`.
pub fn url_param_updates(query: &str) -> (r: Vec<UrlParamUpdate>)
    ensures
        update_views(r@) == query_settings(query@),
{
    let cs = chars_of(query);
    let n = cs.len();
    let mut out: Vec<UrlParamUpdate> = Vec::new();
    let mut pos: usize = 0;
    assert(cs@.skip(0) =~= cs@);
    loop
        invariant
            pos <= n,
            n == cs@.len(),
            cs@ == query@,
            update_views(out@) + settings_of_pieces(split_on(cs@.skip(pos as int), '&'))
                == query_settings(query@),
        decreases n - pos,
    {
        let ghost t = cs@.skip(pos as int);
        let end = find_char(cs.as_slice(), pos, '&');
        assert(cs@.subrange(pos as int, n as int) =~= t);
        let ghost piece = cs@.subrange(pos as int, end as int);
        assert(piece =~= t.take(end - pos));
        let eq = find_char_before(cs.as_slice(), pos, end, '=');
        let ghost before = update_views(out@);
        if eq < end {
            let key = string_of_range(cs.as_slice(), pos, eq);
            let vend = find_char_before(cs.as_slice(), eq + 1, end, '=');
            let value = string_of_range(cs.as_slice(), eq + 1, vend);
            let u = classify_url_param(key.as_str(), value.as_str());
            out.push(u);
            proof {
                let rest = piece.skip(eq - pos + 1);
                assert(rest =~= cs@.subrange(eq + 1, end as int));
                assert(key@ =~= piece.take(eq - pos));
                assert(value@ =~= rest.take(index_of_char(rest, '=') as int));
                assert(key_value(piece) == Some((key@, value@)));
                assert(update_views(out@) =~= before.push(u@));
            }
        } else {
            proof {
                assert(key_value(piece) is None);
            }
        }
        proof {
            lemma_index_of_char(t, '&');
            let pieces = split_on(t, '&');
            if end < n {
                assert(t.skip(end - pos + 1) =~= cs@.skip(end + 1));
                assert(pieces == seq![piece] + split_on(cs@.skip(end + 1), '&'));
                assert(pieces.drop_first() =~= split_on(cs@.skip(end + 1), '&'));
            } else {
                assert(pieces == seq![t]);
                assert(piece =~= t);
                assert(pieces.drop_first() =~= Seq::<Seq<char>>::empty());
            }
            assert(pieces[0] == piece);
        }
        if end >= n {
            proof {
                let pieces = split_on(t, '&');
                assert(settings_of_pieces(pieces.drop_first()) =~= Seq::<ParamSetting>::empty());
                assert(update_views(out@) =~= query_settings(query@));
            }
            return out;
        }
        pos = end + 1;
        proof {
            assert(update_views(out@) + settings_of_pieces(split_on(cs@.skip(pos as int), '&'))
                =~= query_settings(query@));
        }
    }
}

/// The value text of a view mode: `2d` or `3d`.
pub open spec fn view_param_text(mode: ViewMode) -> Seq<char> {
    match mode {
        ViewMode::TwoD => "2d"@,
        ViewMode::ThreeD => "3d"@,
    }
}

/// The value text of a flag: `true` or `false`.
pub open spec fn flag_text(b: bool) -> Seq<char> {
    if b {
        "true"@
    } else {
        "false"@
    }
}

/// The query text that a map state is written to.
pub open spec fn rendered_params(
    view: ViewMode,
    min_year: u32,
    max_year: u32,
    min_height: Seq<char>,
    max_height: Seq<char>,
    min_floors: u32,
    max_floors: u32,
    heatmap: bool,
) -> Seq<char> {
    "view="@ + view_param_text(view) + "&year_min="@ + decimal(min_year as nat) + "&year_max="@
        + decimal(max_year as nat) + "&height_min="@ + min_height + "&height_max="@ + max_height
        + "&floors_min="@ + decimal(min_floors as nat) + "&floors_max="@ + decimal(
        max_floors as nat,
    ) + "&heatmap="@ + flag_text(heatmap)
}

/// Writes a map state as human-readable query parameters, such as
/// `view=3d&year_min=1900&year_max=2024&height_min=0&height_max=100&floors_min=1&floors_max=10&heatmap=false`.
/// The heights are given as the text they are written with.
pub fn render_url_params(
    view: ViewMode,
    min_year: u32,
    max_year: u32,
    min_height: &str,
    max_height: &str,
    min_floors: u32,
    max_floors: u32,
    heatmap: bool,
) -> (r: String)
    ensures
        r@ == rendered_params(
            view,
            min_year,
            max_year,
            min_height@,
            max_height@,
            min_floors,
            max_floors,
            heatmap,
        ),
{
    let mut r = String::from_str("view=");
    match view {
        ViewMode::TwoD => r.append("2d"),
        ViewMode::ThreeD => r.append("3d"),
    }
    r.append("&year_min=");
    push_decimal(&mut r, min_year);
    r.append("&year_max=");
    push_decimal(&mut r, max_year);
    r.append("&height_min=");
    r.append(min_height);
    r.append("&height_max=");
    r.append(max_height);
    r.append("&floors_min=");
    push_decimal(&mut r, min_floors);
    r.append("&floors_max=");
    push_decimal(&mut r, max_floors);
    r.append("&heatmap=");
    if heatmap {
        r.append("true");
    } else {
        r.append("false");
    }
    r
}

/// The settings of a piece followed by more pieces.
proof fn lemma_settings_cons(x: Seq<char>, rest: Seq<Seq<char>>)
    ensures
        settings_of_pieces(seq![x] + rest) == match key_value(x) {
            Some((k, v)) => seq![setting_of(k, v)] + settings_of_pieces(rest),
            None => settings_of_pieces(rest),
        },
{
    assert((seq![x] + rest).drop_first() =~= rest);
    assert((seq![x] + rest)[0] == x);
}

/// A `key=value` piece gives its key and value back.
proof fn lemma_key_value(key: Seq<char>, value: Seq<char>)
    requires
        lacks(key, '='),
        lacks(value, '='),
    ensures
        key_value(key + seq!['='] + value) == Some((key, value)),
{
    let p = key + seq!['='] + value;
    assert forall|j: int| 0 <= j < key.len() implies p[j] != '=' by {
        assert(p[j] == key[j]);
    }
    assert(p[key.len() as int] == '=');
    lemma_index_of_char_unique(p, '=', key.len() as int);
    let rest = p.skip(key.len() + 1 as int);
    assert(rest =~= value);
    lemma_index_of_char_unique(rest, '=', rest.len() as int);
    assert(p.take(key.len() as int) =~= key);
    assert(rest.take(rest.len() as int) =~= value);
}

/// A decimal rendering holds no separator.
proof fn lemma_decimal_lacks(n: nat, c: char)
    requires
        !is_digit(c),
    ensures
        lacks(decimal(n), c),
{
    lemma_decimal_digits(n);
    assert forall|i: int| 0 <= i < decimal(n).len() implies #[trigger] decimal(n)[i] != c by {
        assert(is_digit(decimal(n)[i]));
    }
}

/// A `key=value` piece.
pub open spec fn piece(key: Seq<char>, value: Seq<char>) -> Seq<char> {
    key + seq!['='] + value
}

/// Pieces joined with `&` between them.
pub open spec fn join_amp(pieces: Seq<Seq<char>>) -> Seq<char>
    decreases pieces.len(),
{
    if pieces.len() <= 1 {
        if pieces.len() == 0 {
            seq![]
        } else {
            pieces[0]
        }
    } else {
        pieces[0] + seq!['&'] + join_amp(pieces.drop_first())
    }
}

/// The `key=value` pieces that a map state is written as.
pub open spec fn rendered_pieces(
    view: ViewMode,
    min_year: u32,
    max_year: u32,
    min_height: Seq<char>,
    max_height: Seq<char>,
    min_floors: u32,
    max_floors: u32,
    heatmap: bool,
) -> Seq<Seq<char>> {
    seq![
        piece("view"@, view_param_text(view)),
        piece("year_min"@, decimal(min_year as nat)),
        piece("year_max"@, decimal(max_year as nat)),
        piece("height_min"@, min_height),
        piece("height_max"@, max_height),
        piece("floors_min"@, decimal(min_floors as nat)),
        piece("floors_max"@, decimal(max_floors as nat)),
        piece("heatmap"@, flag_text(heatmap)),
    ]
}

/// `"&" + key + "="` as one literal.
proof fn lemma_separator_literals()
    ensures
        "view="@ == "view"@ + seq!['='],
        "&year_min="@ == seq!['&'] + "year_min"@ + seq!['='],
        "&year_max="@ == seq!['&'] + "year_max"@ + seq!['='],
        "&height_min="@ == seq!['&'] + "height_min"@ + seq!['='],
        "&height_max="@ == seq!['&'] + "height_max"@ + seq!['='],
        "&floors_min="@ == seq!['&'] + "floors_min"@ + seq!['='],
        "&floors_max="@ == seq!['&'] + "floors_max"@ + seq!['='],
        "&heatmap="@ == seq!['&'] + "heatmap"@ + seq!['='],
{
    reveal_strlit("view=");
    reveal_strlit("view");
    assert("view="@ =~= "view"@ + seq!['=']);
    reveal_strlit("&year_min=");
    reveal_strlit("year_min");
    assert("&year_min="@ =~= seq!['&'] + "year_min"@ + seq!['=']);
    reveal_strlit("&year_max=");
    reveal_strlit("year_max");
    assert("&year_max="@ =~= seq!['&'] + "year_max"@ + seq!['=']);
    reveal_strlit("&height_min=");
    reveal_strlit("height_min");
    assert("&height_min="@ =~= seq!['&'] + "height_min"@ + seq!['=']);
    reveal_strlit("&height_max=");
    reveal_strlit("height_max");
    assert("&height_max="@ =~= seq!['&'] + "height_max"@ + seq!['=']);
    reveal_strlit("&floors_min=");
    reveal_strlit("floors_min");
    assert("&floors_min="@ =~= seq!['&'] + "floors_min"@ + seq!['=']);
    reveal_strlit("&floors_max=");
    reveal_strlit("floors_max");
    assert("&floors_max="@ =~= seq!['&'] + "floors_max"@ + seq!['=']);
    reveal_strlit("&heatmap=");
    reveal_strlit("heatmap");
    assert("&heatmap="@ =~= seq!['&'] + "heatmap"@ + seq!['=']);
}

/// Appending a piece after a separator.
proof fn lemma_append_piece(acc: Seq<char>, key: Seq<char>, value: Seq<char>)
    ensures
        acc + (seq!['&'] + key + seq!['=']) + value == acc + seq!['&'] + piece(key, value),
{
    assert(acc + (seq!['&'] + key + seq!['=']) + value =~= acc + seq!['&'] + piece(key, value));
}

/// Joining a first piece to the join of the others.
proof fn lemma_join_cons(x: Seq<char>, rest: Seq<Seq<char>>)
    requires
        rest.len() > 0,
    ensures
        join_amp(seq![x] + rest) == x + seq!['&'] + join_amp(rest),
{
    assert((seq![x] + rest).drop_first() =~= rest);
}

/// Eight pieces joined with `&`, written out.
proof fn lemma_join_eight(ps: Seq<Seq<char>>)
    requires
        ps.len() == 8,
    ensures
        join_amp(ps) == ps[0] + seq!['&'] + (ps[1] + seq!['&'] + (ps[2] + seq!['&'] + (ps[3] + seq!['&'] + (
        ps[4] + seq!['&'] + (ps[5] + seq!['&'] + (ps[6] + seq!['&'] + ps[7])))))),
{
    assert(ps.subrange(7, 8) =~= seq![ps[7]]);
    assert(ps.subrange(6, 8) =~= seq![ps[6]] + ps.subrange(7, 8));
    lemma_join_cons(ps[6], ps.subrange(7, 8));
    assert(ps.subrange(5, 8) =~= seq![ps[5]] + ps.subrange(6, 8));
    lemma_join_cons(ps[5], ps.subrange(6, 8));
    assert(ps.subrange(4, 8) =~= seq![ps[4]] + ps.subrange(5, 8));
    lemma_join_cons(ps[4], ps.subrange(5, 8));
    assert(ps.subrange(3, 8) =~= seq![ps[3]] + ps.subrange(4, 8));
    lemma_join_cons(ps[3], ps.subrange(4, 8));
    assert(ps.subrange(2, 8) =~= seq![ps[2]] + ps.subrange(3, 8));
    lemma_join_cons(ps[2], ps.subrange(3, 8));
    assert(ps.subrange(1, 8) =~= seq![ps[1]] + ps.subrange(2, 8));
    lemma_join_cons(ps[1], ps.subrange(2, 8));
    assert(ps =~= seq![ps[0]] + ps.subrange(1, 8));
    lemma_join_cons(ps[0], ps.subrange(1, 8));
}

/// The rendered query, as pieces joined with `&`, left to right.
proof fn lemma_rendered_left(
    view: ViewMode,
    min_year: u32,
    max_year: u32,
    min_height: Seq<char>,
    max_height: Seq<char>,
    min_floors: u32,
    max_floors: u32,
    heatmap: bool,
)
    ensures
        ({
            let ps = rendered_pieces(
                view,
                min_year,
                max_year,
                min_height,
                max_height,
                min_floors,
                max_floors,
                heatmap,
            );
            let amp = seq!['&'];
            rendered_params(view, min_year, max_year, min_height, max_height, min_floors, max_floors, heatmap)
                == ps[0] + amp + ps[1] + amp + ps[2] + amp + ps[3] + amp + ps[4] + amp + ps[5] + amp + ps[6] + amp
                + ps[7]
        }),
{
    lemma_separator_literals();
    let ps = rendered_pieces(view, min_year, max_year, min_height, max_height, min_floors, max_floors, heatmap);
    let amp = seq!['&'];
    let a1 = "view="@ + view_param_text(view);
    assert(a1 =~= ps[0]);
    let a2 = a1 + "&year_min="@ + decimal(min_year as nat);
    lemma_append_piece(a1, "year_min"@, decimal(min_year as nat));
    let a3 = a2 + "&year_max="@ + decimal(max_year as nat);
    lemma_append_piece(a2, "year_max"@, decimal(max_year as nat));
    let a4 = a3 + "&height_min="@ + min_height;
    lemma_append_piece(a3, "height_min"@, min_height);
    let a5 = a4 + "&height_max="@ + max_height;
    lemma_append_piece(a4, "height_max"@, max_height);
    let a6 = a5 + "&floors_min="@ + decimal(min_floors as nat);
    lemma_append_piece(a5, "floors_min"@, decimal(min_floors as nat));
    let a7 = a6 + "&floors_max="@ + decimal(max_floors as nat);
    lemma_append_piece(a6, "floors_max"@, decimal(max_floors as nat));
    let a8 = a7 + "&heatmap="@ + flag_text(heatmap);
    lemma_append_piece(a7, "heatmap"@, flag_text(heatmap));
}

/// The rendered query is the join of the rendered pieces.
#[verifier::rlimit(40)]
proof fn lemma_rendered_is_join(
    view: ViewMode,
    min_year: u32,
    max_year: u32,
    min_height: Seq<char>,
    max_height: Seq<char>,
    min_floors: u32,
    max_floors: u32,
    heatmap: bool,
)
    ensures
        rendered_params(view, min_year, max_year, min_height, max_height, min_floors, max_floors, heatmap)
            == join_amp(
            rendered_pieces(
                view,
                min_year,
                max_year,
                min_height,
                max_height,
                min_floors,
                max_floors,
                heatmap,
            ),
        ),
{
    let ps = rendered_pieces(view, min_year, max_year, min_height, max_height, min_floors, max_floors, heatmap);
    lemma_rendered_left(view, min_year, max_year, min_height, max_height, min_floors, max_floors, heatmap);
    lemma_join_eight(ps);
    let amp = seq!['&'];
    let left = ps[0] + amp + ps[1] + amp + ps[2] + amp + ps[3] + amp + ps[4] + amp + ps[5] + amp + ps[6] + amp
        + ps[7];
    let right = ps[0] + amp + (ps[1] + amp + (ps[2] + amp + (ps[3] + amp + (ps[4] + amp + (ps[5] + amp + (ps[6]
        + amp + ps[7]))))));
    assert(left =~= right);
}

/// Splitting a join of separator-free pieces gives the pieces back.
proof fn lemma_split_join(pieces: Seq<Seq<char>>)
    requires
        pieces.len() > 0,
        forall|i: int| 0 <= i < pieces.len() ==> lacks(#[trigger] pieces[i], '&'),
    ensures
        split_on(join_amp(pieces), '&') == pieces,
    decreases pieces.len(),
{
    if pieces.len() == 1 {
        lemma_split_single(pieces[0], '&');
        assert(pieces =~= seq![pieces[0]]);
    } else {
        let rest = pieces.drop_first();
        assert forall|i: int| 0 <= i < rest.len() implies lacks(#[trigger] rest[i], '&') by {
            assert(rest[i] == pieces[i + 1]);
        }
        lemma_split_join(rest);
        lemma_split_cons(pieces[0], '&', join_amp(rest));
        assert(pieces =~= seq![pieces[0]] + rest);
    }
}

/// A piece lacks a character that neither its key nor its value holds.
proof fn lemma_piece_lacks(key: Seq<char>, value: Seq<char>, c: char)
    requires
        lacks(key, c),
        lacks(value, c),
        c != '=',
    ensures
        lacks(piece(key, value), c),
{
    let p = piece(key, value);
    assert forall|i: int| 0 <= i < p.len() implies #[trigger] p[i] != c by {
        if i < key.len() {
            assert(p[i] == key[i]);
        } else if i > key.len() {
            assert(p[i] == value[i - key.len() - 1]);
        }
    }
}

/// The keys and fixed values hold neither `&` nor `=`.
proof fn lemma_literals_lack()
    ensures
        lacks("view"@, '&') && lacks("view"@, '='),
        lacks("year_min"@, '&') && lacks("year_min"@, '='),
        lacks("year_max"@, '&') && lacks("year_max"@, '='),
        lacks("height_min"@, '&') && lacks("height_min"@, '='),
        lacks("height_max"@, '&') && lacks("height_max"@, '='),
        lacks("floors_min"@, '&') && lacks("floors_min"@, '='),
        lacks("floors_max"@, '&') && lacks("floors_max"@, '='),
        lacks("heatmap"@, '&') && lacks("heatmap"@, '='),
        lacks("2d"@, '&') && lacks("2d"@, '='),
        lacks("3d"@, '&') && lacks("3d"@, '='),
        lacks("true"@, '&') && lacks("true"@, '='),
        lacks("false"@, '&') && lacks("false"@, '='),
{
    reveal_strlit("view");
    reveal_strlit("year_min");
    reveal_strlit("year_max");
    reveal_strlit("height_min");
    reveal_strlit("height_max");
    reveal_strlit("floors_min");
    reveal_strlit("floors_max");
    reveal_strlit("heatmap");
    reveal_strlit("2d");
    reveal_strlit("3d");
    reveal_strlit("true");
    reveal_strlit("false");
}

/// The keys differ from one another, and the fixed values are what they
/// are read as.
proof fn lemma_keys_distinct()
    ensures
        "year_min"@ != "view"@,
        "year_max"@ != "view"@,
        "year_max"@ != "year_min"@,
        "height_min"@ != "view"@,
        "height_min"@ != "year_min"@,
        "height_min"@ != "year_max"@,
        "height_max"@ != "view"@,
        "height_max"@ != "year_min"@,
        "height_max"@ != "year_max"@,
        "height_max"@ != "height_min"@,
        "floors_min"@ != "view"@,
        "floors_min"@ != "year_min"@,
        "floors_min"@ != "year_max"@,
        "floors_min"@ != "height_min"@,
        "floors_min"@ != "height_max"@,
        "floors_max"@ != "view"@,
        "floors_max"@ != "year_min"@,
        "floors_max"@ != "year_max"@,
        "floors_max"@ != "height_min"@,
        "floors_max"@ != "height_max"@,
        "floors_max"@ != "floors_min"@,
        "heatmap"@ != "view"@,
        "heatmap"@ != "year_min"@,
        "heatmap"@ != "year_max"@,
        "heatmap"@ != "height_min"@,
        "heatmap"@ != "height_max"@,
        "heatmap"@ != "floors_min"@,
        "heatmap"@ != "floors_max"@,
        "3d"@ != "2d"@,
        "false"@ != "true"@,
        "false"@ != "1"@,
{
    reveal_strlit("view");
    reveal_strlit("year_min");
    reveal_strlit("year_max");
    reveal_strlit("height_min");
    reveal_strlit("height_max");
    reveal_strlit("floors_min");
    reveal_strlit("floors_max");
    reveal_strlit("heatmap");
    reveal_strlit("2d");
    reveal_strlit("3d");
    reveal_strlit("true");
    reveal_strlit("false");
    reveal_strlit("1");
    assert("view"@.len() == 4);
    assert("year_min"@.len() == 8);
    assert("year_max"@.len() == 8);
    assert("height_min"@.len() == 10);
    assert("height_max"@.len() == 10);
    assert("floors_min"@.len() == 10);
    assert("floors_max"@.len() == 10);
    assert("heatmap"@.len() == 7);
    assert("true"@.len() == 4);
    assert("false"@.len() == 5);
    assert("1"@.len() == 1);
    assert("height_min"@[0] != "floors_min"@[0]);
    assert("height_min"@[0] != "floors_max"@[0]);
    assert("height_max"@[0] != "floors_min"@[0]);
    assert("height_max"@[0] != "floors_max"@[0]);
    assert("year_max"@[6] != "year_min"@[6]);
    assert("height_max"@[8] != "height_min"@[8]);
    assert("floors_max"@[8] != "floors_min"@[8]);
    assert("3d"@[0] != "2d"@[0]);
}

/// The settings of a piece followed by more pieces, for a well-formed piece.
proof fn lemma_settings_piece(key: Seq<char>, value: Seq<char>, rest: Seq<Seq<char>>)
    requires
        lacks(key, '='),
        lacks(value, '='),
    ensures
        settings_of_pieces(seq![piece(key, value)] + rest) == seq![setting_of(key, value)]
            + settings_of_pieces(rest),
{
    lemma_key_value(key, value);
    lemma_settings_cons(piece(key, value), rest);
}

/// Reading back the parameters that a map state is written to gives every
/// setting back, in order: the view mode, the years, the heights as the text
/// they were written with, the floor counts and the heatmap flag. The height
/// texts must hold no `&` and no `=` (decimal numbers hold neither).
pub proof fn law_url_params_roundtrip(
    view: ViewMode,
    min_year: u32,
    max_year: u32,
    min_height: Seq<char>,
    max_height: Seq<char>,
    min_floors: u32,
    max_floors: u32,
    heatmap: bool,
)
    requires
        lacks(min_height, '&'),
        lacks(min_height, '='),
        lacks(max_height, '&'),
        lacks(max_height, '='),
    ensures
        query_settings(
            rendered_params(
                view,
                min_year,
                max_year,
                min_height,
                max_height,
                min_floors,
                max_floors,
                heatmap,
            ),
        ) == seq![
            ParamSetting::View(view),
            ParamSetting::YearMin(min_year),
            ParamSetting::YearMax(max_year),
            ParamSetting::HeightMin(min_height),
            ParamSetting::HeightMax(max_height),
            ParamSetting::FloorsMin(min_floors),
            ParamSetting::FloorsMax(max_floors),
            ParamSetting::Heatmap(heatmap),
        ],
{
    let ps = rendered_pieces(view, min_year, max_year, min_height, max_height, min_floors, max_floors, heatmap);
    let v1 = view_param_text(view);
    let v2 = decimal(min_year as nat);
    let v3 = decimal(max_year as nat);
    let v6 = decimal(min_floors as nat);
    let v7 = decimal(max_floors as nat);
    let v8 = flag_text(heatmap);
    lemma_rendered_is_join(view, min_year, max_year, min_height, max_height, min_floors, max_floors, heatmap);
    lemma_literals_lack();
    lemma_decimal_lacks(min_year as nat, '&');
    lemma_decimal_lacks(min_year as nat, '=');
    lemma_decimal_lacks(max_year as nat, '&');
    lemma_decimal_lacks(max_year as nat, '=');
    lemma_decimal_lacks(min_floors as nat, '&');
    lemma_decimal_lacks(min_floors as nat, '=');
    lemma_decimal_lacks(max_floors as nat, '&');
    lemma_decimal_lacks(max_floors as nat, '=');
    lemma_piece_lacks("view"@, v1, '&');
    lemma_piece_lacks("year_min"@, v2, '&');
    lemma_piece_lacks("year_max"@, v3, '&');
    lemma_piece_lacks("height_min"@, min_height, '&');
    lemma_piece_lacks("height_max"@, max_height, '&');
    lemma_piece_lacks("floors_min"@, v6, '&');
    lemma_piece_lacks("floors_max"@, v7, '&');
    lemma_piece_lacks("heatmap"@, v8, '&');
    assert forall|i: int| 0 <= i < ps.len() implies lacks(#[trigger] ps[i], '&') by {}
    lemma_split_join(ps);
    // The settings, from the last piece to the first.
    assert(settings_of_pieces(Seq::<Seq<char>>::empty()) =~= Seq::<ParamSetting>::empty());
    lemma_settings_piece("heatmap"@, v8, Seq::empty());
    assert(ps.subrange(7, 8) =~= seq![ps[7]] + Seq::<Seq<char>>::empty());
    lemma_settings_piece("floors_max"@, v7, ps.subrange(7, 8));
    assert(ps.subrange(6, 8) =~= seq![ps[6]] + ps.subrange(7, 8));
    lemma_settings_piece("floors_min"@, v6, ps.subrange(6, 8));
    assert(ps.subrange(5, 8) =~= seq![ps[5]] + ps.subrange(6, 8));
    lemma_settings_piece("height_max"@, max_height, ps.subrange(5, 8));
    assert(ps.subrange(4, 8) =~= seq![ps[4]] + ps.subrange(5, 8));
    lemma_settings_piece("height_min"@, min_height, ps.subrange(4, 8));
    assert(ps.subrange(3, 8) =~= seq![ps[3]] + ps.subrange(4, 8));
    lemma_settings_piece("year_max"@, v3, ps.subrange(3, 8));
    assert(ps.subrange(2, 8) =~= seq![ps[2]] + ps.subrange(3, 8));
    lemma_settings_piece("year_min"@, v2, ps.subrange(2, 8));
    assert(ps.subrange(1, 8) =~= seq![ps[1]] + ps.subrange(2, 8));
    lemma_settings_piece("view"@, v1, ps.subrange(1, 8));
    assert(ps =~= seq![ps[0]] + ps.subrange(1, 8));
    lemma_keys_distinct();
    lemma_parse_decimal(min_year);
    lemma_parse_decimal(max_year);
    lemma_parse_decimal(min_floors);
    lemma_parse_decimal(max_floors);
    assert(settings_of_pieces(ps) =~= seq![
        ParamSetting::View(view),
        ParamSetting::YearMin(min_year),
        ParamSetting::YearMax(max_year),
        ParamSetting::HeightMin(min_height),
        ParamSetting::HeightMax(max_height),
        ParamSetting::FloorsMin(min_floors),
        ParamSetting::FloorsMax(max_floors),
        ParamSetting::Heatmap(heatmap),
    ]);
}

} // verus!
