//! The template manager page: the comma-separated lists of the template
//! editor, the template that the editor's fields make, and the messages
//! shown after loading and saving templates.

use vstd::prelude::*;
use crate::api::documents::{CreateTemplateRequest, Template};
use crate::text::{
    chars_of, find_char, index_of_char, lemma_index_of_char, lacks, lemma_split_cons,
    lemma_split_single, push_char, split_on, string_of_range,
};

verus! {

/// Whether a character has the Unicode `White_Space` property, which
/// `char::is_whitespace` tests.
pub open spec fn is_white_space(c: char) -> bool {
    ||| '\u{9}' <= c && c <= '\u{d}'
    ||| c == ' '
    ||| c == '\u{85}'
    ||| c == '\u{a0}'
    ||| c == '\u{1680}'
    ||| '\u{2000}' <= c && c <= '\u{200a}'
    ||| c == '\u{2028}'
    ||| c == '\u{2029}'
    ||| c == '\u{202f}'
    ||| c == '\u{205f}'
    ||| c == '\u{3000}'
}

/// A text without its leading white space.
pub open spec fn trim_start_text(s: Seq<char>) -> Seq<char>
    decreases s.len(),
{
    if s.len() > 0 && is_white_space(s[0]) {
        trim_start_text(s.drop_first())
    } else {
        s
    }
}

/// A text without its trailing white space.
pub open spec fn trim_end_text(s: Seq<char>) -> Seq<char>
    decreases s.len(),
{
    if s.len() > 0 && is_white_space(s.last()) {
        trim_end_text(s.drop_last())
    } else {
        s
    }
}

/// A text without leading and trailing white space (`str::trim`).
pub open spec fn trim_text(s: Seq<char>) -> Seq<char> {
    trim_end_text(trim_start_text(s))
}

/// The trimmed pieces that are not empty, in order.
pub open spec fn nonempty_trimmed(pieces: Seq<Seq<char>>) -> Seq<Seq<char>>
    decreases pieces.len(),
{
    if pieces.len() == 0 {
        Seq::empty()
    } else {
        let rest = nonempty_trimmed(pieces.drop_first());
        let t = trim_text(pieces[0]);
        if t.len() > 0 {
            seq![t] + rest
        } else {
            rest
        }
    }
}

/// The items of a comma-separated list: the text split at each `,`, each
/// piece trimmed, and the empty pieces left out.
pub open spec fn list_items(text: Seq<char>) -> Seq<Seq<char>> {
    nonempty_trimmed(split_on(text, ','))
}

/// The items joined by `", "`.
pub open spec fn joined_list(items: Seq<Seq<char>>) -> Seq<char>
    decreases items.len(),
{
    if items.len() == 0 {
        Seq::empty()
    } else if items.len() == 1 {
        items[0]
    } else {
        joined_list(items.drop_last()) + seq![',', ' '] + items.last()
    }
}

/// The texts of a sequence of strings.
pub open spec fn texts(v: Seq<String>) -> Seq<Seq<char>> {
    v.map_values(|s: String| s@)
}

/// The white-space character test of `char::is_whitespace`.
fn white_space(c: char) -> (r: bool)
    ensures
        r == is_white_space(c),
{
    ('\u{9}' <= c && c <= '\u{d}') || c == ' ' || c == '\u{85}' || c == '\u{a0}' || c == '\u{1680}'
        || ('\u{2000}' <= c && c <= '\u{200a}') || c == '\u{2028}' || c == '\u{2029}' || c == '\u{202f}'
        || c == '\u{205f}' || c == '\u{3000}'
}

/// The bounds of the trimmed part of `cs` between `from` and `to`.
fn trimmed_bounds(cs: &[char], from: usize, to: usize) -> (r: (usize, usize))
    requires
        from <= to <= cs@.len(),
    ensures
        from <= r.0 <= r.1 <= to,
        cs@.subrange(r.0 as int, r.1 as int) == trim_text(cs@.subrange(from as int, to as int)),
{
    let ghost s = cs@.subrange(from as int, to as int);
    let mut a = from;
    while a < to && white_space(cs[a])
        invariant
            from <= a <= to <= cs@.len(),
            s == cs@.subrange(from as int, to as int),
            trim_start_text(s) == trim_start_text(cs@.subrange(a as int, to as int)),
        decreases to - a,
    {
        let ghost t = cs@.subrange(a as int, to as int);
        assert(t[0] == cs@[a as int]);
        assert(t.drop_first() =~= cs@.subrange(a + 1, to as int));
        a = a + 1;
    }
    let ghost u = cs@.subrange(a as int, to as int);
    assert(trim_start_text(s) == u) by {
        if a < to {
            assert(u[0] == cs@[a as int]);
        }
    }
    let mut b = to;
    while b > a && white_space(cs[b - 1])
        invariant
            from <= a <= b <= to <= cs@.len(),
            u == cs@.subrange(a as int, to as int),
            trim_end_text(u) == trim_end_text(cs@.subrange(a as int, b as int)),
        decreases b - a,
    {
        let ghost t = cs@.subrange(a as int, b as int);
        assert(t.last() == cs@[b - 1]);
        assert(t.drop_last() =~= cs@.subrange(a as int, b - 1));
        b = b - 1;
    }
    proof {
        let v = cs@.subrange(a as int, b as int);
        if b > a {
            assert(v.last() == cs@[b - 1]);
        }
        assert(trim_end_text(v) == v);
    }
    (a, b)
}

/// The items of a comma-separated list, as the template editor reads its
/// variable and section fields.
pub fn parse_list(text: &str) -> (r: Vec<String>)
    ensures
        texts(r@) == list_items(text@),
{
    let cs = chars_of(text);
    let n = cs.len();
    let mut out: Vec<String> = Vec::new();
    let mut pos: usize = 0;
    assert(cs@.skip(0) =~= cs@);
    loop
        invariant
            pos <= n,
            n == cs@.len(),
            cs@ == text@,
            texts(out@) + nonempty_trimmed(split_on(cs@.skip(pos as int), ',')) == list_items(text@),
        decreases n - pos,
    {
        let ghost t = cs@.skip(pos as int);
        let end = find_char(cs.as_slice(), pos, ',');
        assert(cs@.subrange(pos as int, n as int) =~= t);
        let ghost piece = cs@.subrange(pos as int, end as int);
        let ghost before = texts(out@);
        let (a, b) = trimmed_bounds(cs.as_slice(), pos, end);
        if a < b {
            let item = string_of_range(cs.as_slice(), a, b);
            out.push(item);
            assert(texts(out@) =~= before.push(trim_text(piece)));
        }
        proof {
            lemma_index_of_char(t, ',');
            let pieces = split_on(t, ',');
            if end < n {
                assert(t.skip(end - pos + 1) =~= cs@.skip(end + 1));
                assert(piece =~= t.take(end - pos));
                assert(pieces == seq![piece] + split_on(cs@.skip(end + 1), ','));
                assert(pieces.drop_first() =~= split_on(cs@.skip(end + 1), ','));
            } else {
                assert(pieces == seq![t]);
                assert(piece =~= t);
                assert(pieces.drop_first() =~= Seq::<Seq<char>>::empty());
            }
            assert(pieces[0] == piece);
            if a < b {
                assert(texts(out@) + nonempty_trimmed(pieces.drop_first())
                    =~= before + nonempty_trimmed(pieces));
            } else {
                assert(texts(out@) + nonempty_trimmed(pieces.drop_first())
                    =~= before + nonempty_trimmed(pieces));
            }
        }
        if end >= n {
            proof {
                let pieces = split_on(t, ',');
                assert(nonempty_trimmed(pieces.drop_first()) =~= Seq::<Seq<char>>::empty());
                assert(texts(out@) =~= list_items(text@));
            }
            return out;
        }
        pos = end + 1;
    }
}

/// The items joined by `", "`, as the template editor shows a list.
pub fn join_list(items: &Vec<String>) -> (r: String)
    ensures
        r@ == joined_list(texts(items@)),
{
    let ghost all = texts(items@);
    let mut r = String::new();
    let mut k: usize = 0;
    while k < items.len()
        invariant
            k <= items@.len(),
            all == texts(items@),
            r@ == joined_list(all.take(k as int)),
        decreases items@.len() - k,
    {
        if k > 0 {
            push_char(&mut r, ',');
            push_char(&mut r, ' ');
        }
        r.append(items[k].as_str());
        proof {
            let next = all.take(k + 1);
            assert(next.drop_last() =~= all.take(k as int));
            assert(next.last() == items@[k as int]@);
            if k == 0 {
                assert(r@ =~= next[0]);
            } else {
                assert(r@ =~= joined_list(next.drop_last()) + seq![',', ' '] + next.last());
            }
        }
        k = k + 1;
    }
    assert(all.take(items@.len() as int) =~= all);
    r
}

/// Whether every character of a text is white space.
pub open spec fn all_white_space(p: Seq<char>) -> bool {
    forall|i: int| 0 <= i < p.len() ==> is_white_space(#[trigger] p[i])
}

/// Leading white space does not change what trimming gives.
proof fn lemma_trim_after_white_space(p: Seq<char>, x: Seq<char>)
    requires
        all_white_space(p),
    ensures
        trim_start_text(p + x) == trim_start_text(x),
        trim_text(p + x) == trim_text(x),
    decreases p.len(),
{
    if p.len() > 0 {
        assert((p + x)[0] == p[0]);
        assert((p + x).drop_first() =~= p.drop_first() + x);
        let q = p.drop_first();
        assert forall|i: int| 0 <= i < q.len() implies is_white_space(#[trigger] q[i]) by {
            assert(q[i] == p[i + 1]);
        }
        lemma_trim_after_white_space(q, x);
    } else {
        assert(p + x =~= x);
    }
}

/// Trimming white space gives the empty text.
proof fn lemma_trim_white_space(p: Seq<char>)
    requires
        all_white_space(p),
    ensures
        trim_text(p).len() == 0,
{
    lemma_trim_after_white_space(p, Seq::empty());
    assert(p + Seq::<char>::empty() =~= p);
}

/// Joining a first item to the join of the others.
proof fn lemma_joined_cons(items: Seq<Seq<char>>)
    requires
        items.len() >= 2,
    ensures
        joined_list(items) == items[0] + seq![',', ' '] + joined_list(items.drop_first()),
    decreases items.len(),
{
    let rest = items.drop_first();
    if items.len() == 2 {
        assert(items.drop_last() =~= seq![items[0]]);
        assert(joined_list(items.drop_last()) == items[0]);
        assert(rest =~= seq![items[1]]);
        assert(joined_list(rest) == items[1]);
        assert(items.last() == items[1]);
    } else {
        let init = items.drop_last();
        lemma_joined_cons(init);
        assert(init.drop_first() =~= rest.drop_last());
        assert(rest.last() == items.last());
        assert(init[0] == items[0]);
        assert(joined_list(rest) == joined_list(rest.drop_last()) + seq![',', ' '] + rest.last());
        assert(joined_list(items) =~= items[0] + seq![',', ' '] + joined_list(rest));
    }
}

/// Splitting white space followed by a join of items gives the items back,
/// when every item is non-empty, trimmed and free of commas.
proof fn lemma_list_items_of_join(p: Seq<char>, items: Seq<Seq<char>>)
    requires
        all_white_space(p),
        forall|i: int| 0 <= i < items.len() ==> lacks(#[trigger] items[i], ','),
        forall|i: int| 0 <= i < items.len() ==> #[trigger] items[i].len() > 0,
        forall|i: int| 0 <= i < items.len() ==> trim_text(#[trigger] items[i]) == items[i],
    ensures
        nonempty_trimmed(split_on(p + joined_list(items), ',')) == items,
    decreases items.len(),
{
    assert(lacks(p, ',')) by {
        assert forall|i: int| 0 <= i < p.len() implies #[trigger] p[i] != ',' by {
            assert(is_white_space(p[i]));
        }
    }
    if items.len() == 0 {
        assert(p + joined_list(items) =~= p);
        lemma_split_single(p, ',');
        lemma_trim_white_space(p);
        assert(seq![p].drop_first() =~= Seq::<Seq<char>>::empty());
        assert(seq![p][0] == p);
        assert(nonempty_trimmed(Seq::<Seq<char>>::empty()) == Seq::<Seq<char>>::empty());
        assert(nonempty_trimmed(seq![p]) =~= Seq::<Seq<char>>::empty());
        assert(items =~= Seq::<Seq<char>>::empty());
    } else {
        let first = p + items[0];
        assert(lacks(first, ',')) by {
            assert forall|i: int| 0 <= i < first.len() implies #[trigger] first[i] != ',' by {
                if i < p.len() {
                    assert(first[i] == p[i]);
                } else {
                    assert(first[i] == items[0][i - p.len()]);
                }
            }
        }
        lemma_trim_after_white_space(p, items[0]);
        assert(items[0].len() > 0);
        assert(trim_text(items[0]) == items[0]);
        assert(trim_text(first) == items[0]);
        if items.len() == 1 {
            assert(p + joined_list(items) =~= first);
            lemma_split_single(first, ',');
            assert(seq![first].drop_first() =~= Seq::<Seq<char>>::empty());
            assert(seq![first][0] == first);
            assert(nonempty_trimmed(Seq::<Seq<char>>::empty()) == Seq::<Seq<char>>::empty());
            assert(nonempty_trimmed(seq![first]) =~= seq![items[0]]);
            assert(items =~= seq![items[0]]);
        } else {
            let rest = items.drop_first();
            lemma_joined_cons(items);
            let space = seq![' '];
            assert(all_white_space(space)) by {
                assert forall|i: int| 0 <= i < space.len() implies is_white_space(#[trigger] space[i]) by {
                    assert(space[i] == ' ');
                }
            }
            assert forall|i: int| 0 <= i < rest.len() implies lacks(#[trigger] rest[i], ',') by {
                assert(rest[i] == items[i + 1]);
            }
            assert forall|i: int| 0 <= i < rest.len() implies #[trigger] rest[i].len() > 0 by {
                assert(rest[i] == items[i + 1]);
            }
            assert forall|i: int| 0 <= i < rest.len() implies trim_text(#[trigger] rest[i]) == rest[i] by {
                assert(rest[i] == items[i + 1]);
            }
            lemma_list_items_of_join(space, rest);
            assert(p + joined_list(items) =~= first + seq![','] + (space + joined_list(rest)));
            lemma_split_cons(first, ',', space + joined_list(rest));
            let pieces = seq![first] + split_on(space + joined_list(rest), ',');
            assert(pieces.drop_first() =~= split_on(space + joined_list(rest), ','));
            assert(pieces[0] == first);
            assert(nonempty_trimmed(pieces) == seq![items[0]] + nonempty_trimmed(pieces.drop_first()));
            assert(nonempty_trimmed(pieces) =~= seq![items[0]] + rest);
            assert(items =~= seq![items[0]] + rest);
        }
    }
}

/// The editor shows a list joined by `", "` and reads it back by splitting
/// at commas and trimming: a list of non-empty, trimmed items without commas
/// comes back unchanged.
pub proof fn law_list_round_trip(items: Seq<Seq<char>>)
    requires
        forall|i: int| 0 <= i < items.len() ==> lacks(#[trigger] items[i], ','),
        forall|i: int| 0 <= i < items.len() ==> #[trigger] items[i].len() > 0,
        forall|i: int| 0 <= i < items.len() ==> trim_text(#[trigger] items[i]) == items[i],
    ensures
        list_items(joined_list(items)) == items,
{
    let none = Seq::<char>::empty();
    assert(all_white_space(none));
    lemma_list_items_of_join(none, items);
    assert(none + joined_list(items) =~= joined_list(items));
}

/// The heading of the template editor: "Nieuwe Template" for a template
/// without an id, "Template Bewerken" otherwise.
pub fn editor_title(template: &Template) -> (r: &'static str)
    ensures
        r@ == (if template.id@.len() == 0 {
            "Nieuwe Template"@
        } else {
            "Template Bewerken"@
        }),
{
    if template.id.as_str().unicode_len() == 0 {
        "Nieuwe Template"
    } else {
        "Template Bewerken"
    }
}

/// The template that the editor saves: the edited name, domain, document
/// type and content, the variable and section lists read from their fields,
/// and the rest of the template being edited.
pub fn edited_template(
    base: &Template,
    name: String,
    domain_id: String,
    document_type: String,
    content: String,
    required_variables: &str,
    optional_sections: &str,
) -> (t: Template)
    ensures
        t.id@ == base.id@,
        t.name@ == name@,
        t.domain_id@ == domain_id@,
        t.document_type@ == document_type@,
        t.content@ == content@,
        texts(t.required_variables@) == list_items(required_variables@),
        texts(t.optional_sections@) == list_items(optional_sections@),
        t.version == base.version,
        t.is_active == base.is_active,
        t.created_at@ == base.created_at@,
        t.updated_at@ == base.updated_at@,
{
    Template {
        id: base.id.clone(),
        name,
        domain_id,
        document_type,
        content,
        required_variables: parse_list(required_variables),
        optional_sections: parse_list(optional_sections),
        version: base.version,
        is_active: base.is_active,
        created_at: base.created_at.clone(),
        updated_at: base.updated_at.clone(),
    }
}

/// Whether saving the edited template creates a new one: there is no
/// template being edited, or it has no id yet.
pub fn is_new_template(editing: &Option<Template>) -> (r: bool)
    ensures
        r == match editing {
            Some(t) => t.id@.len() == 0,
            None => true,
        },
{
    match editing {
        Some(t) => t.id.as_str().unicode_len() == 0,
        None => true,
    }
}

/// The request that creates a saved template.
pub fn create_request(saved: Template) -> (r: CreateTemplateRequest)
    ensures
        r.name == saved.name,
        r.domain_id == saved.domain_id,
        r.document_type == saved.document_type,
        r.content == saved.content,
        r.required_variables == saved.required_variables,
        r.optional_sections == saved.optional_sections,
{
    CreateTemplateRequest {
        name: saved.name,
        domain_id: saved.domain_id,
        document_type: saved.document_type,
        content: saved.content,
        required_variables: saved.required_variables,
        optional_sections: saved.optional_sections,
    }
}

/// The message after a template was saved: "Template '{name}' aangemaakt"
/// for a new one, "Template '{name}' bijgewerkt" otherwise.
pub fn save_message(name: &str, is_new: bool) -> (r: String)
    ensures
        r@ == "Template '"@ + name@ + (if is_new {
            "' aangemaakt"@
        } else {
            "' bijgewerkt"@
        }),
{
    let mut r = String::from_str("Template '");
    r.append(name);
    if is_new {
        r.append("' aangemaakt");
    } else {
        r.append("' bijgewerkt");
    }
    r
}

/// The message when the templates could not be loaded.
pub fn load_templates_error(error: &str) -> (r: String)
    ensures
        r@ == "Failed to load templates: "@ + error@,
{
    let mut r = String::from_str("Failed to load templates: ");
    r.append(error);
    r
}

/// The message when a template could not be loaded.
pub fn load_template_error(error: &str) -> (r: String)
    ensures
        r@ == "Failed to load template: "@ + error@,
{
    let mut r = String::from_str("Failed to load template: ");
    r.append(error);
    r
}

/// The message when a template could not be saved.
pub fn save_template_error(error: &str) -> (r: String)
    ensures
        r@ == "Failed to save template: "@ + error@,
{
    let mut r = String::from_str("Failed to save template: ");
    r.append(error);
    r
}

} // verus!
