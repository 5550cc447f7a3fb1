//! Manifests with placeholders: `${NAME}` stands for a value that a ConfigMap provides.
use vstd::prelude::*;

use crate::json;
use crate::json::{json_document, json_tree, json_trees, JsonTree};
use crate::text::{chars_of, optional, push_text, text_of, texts};

verus! {

// ---------------------------------------------------------------------------------------------
// Values
// ---------------------------------------------------------------------------------------------
/// The value that one ConfigMap has under a name.
pub open spec fn value_in(config_map: JsonTree, name: Seq<char>) -> Option<Seq<char>> {
    match config_map.get("data"@) {
        Some(data) => match data.get(name) {
            Some(value) => value.text(),
            None => None,
        },
        None => None,
    }
}

/// The value of the first ConfigMap of a list that has one under the name.
pub open spec fn first_value(config_maps: Seq<JsonTree>, name: Seq<char>) -> Option<Seq<char>>
    decreases config_maps.len(),
{
    if config_maps.len() == 0 {
        None
    } else {
        match value_in(config_maps[0], name) {
            Some(value) => Some(value),
            None => first_value(config_maps.skip(1), name),
        }
    }
}

/// The value that a JSON list of ConfigMaps provides under a name.
pub open spec fn provided_spec(listing: Option<JsonTree>, name: Seq<char>) -> Option<Seq<char>> {
    match listing {
        Some(list) => match list.get("items"@) {
            Some(items) => match items.items() {
                Some(config_maps) => first_value(config_maps, name),
                None => None,
            },
            None => None,
        },
        None => None,
    }
}

/// What a parsed document holds.
pub open spec fn document(value: Option<serde_json::Value>) -> Option<JsonTree> {
    match value {
        Some(value) => Some(json_tree(value)),
        None => None,
    }
}

fn value_of(config_map: &serde_json::Value, name: &str) -> (r: Option<String>)
    ensures
        optional(r) == value_in(json_tree(*config_map), name@),
{
    match json::get(config_map, "data") {
        Some(data) => match json::get(data, name) {
            Some(value) => match value.as_str() {
                Some(text) => Some(text.to_owned()),
                None => None,
            },
            None => None,
        },
        None => None,
    }
}

fn value_among(config_maps: &Vec<serde_json::Value>, name: &str) -> (r: Option<String>)
    ensures
        optional(r) == first_value(json_trees(config_maps@), name@),
{
    let ghost all = json_trees(config_maps@);
    let mut i: usize = 0;
    assert(all.skip(0) =~= all);
    while i < config_maps.len()
        invariant
            i <= config_maps.len(),
            all == json_trees(config_maps@),
            first_value(all, name@) == first_value(all.skip(i as int), name@),
        decreases config_maps.len() - i,
    {
        let found = value_of(&config_maps[i], name);
        assert(all.skip(i as int)[0] == json_tree(config_maps@[i as int]));
        assert(all.skip(i as int).skip(1) =~= all.skip(i + 1));
        if found.is_some() {
            return found;
        }
        i = i + 1;
    }
    None
}

/// The value that a JSON list of ConfigMaps provides under a name.
pub fn provided(listing: &Option<serde_json::Value>, name: &str) -> (r: Option<String>)
    ensures
        optional(r) == provided_spec(document(*listing), name@),
{
    match listing {
        Some(list) => match json::get(list, "items") {
            Some(items) => match items.as_array() {
                Some(config_maps) => value_among(config_maps, name),
                None => None,
            },
            None => None,
        },
        None => None,
    }
}

// ---------------------------------------------------------------------------------------------
// Placeholders
// ---------------------------------------------------------------------------------------------
/// Whether a character can stand in the name of a placeholder.
pub open spec fn is_name_char_spec(c: char) -> bool {
    ('a' <= c && c <= 'z') || ('A' <= c && c <= 'Z') || ('0' <= c && c <= '9') || c == '_'
}

fn is_name_char(c: char) -> (r: bool)
    ensures
        r == is_name_char_spec(c),
{
    ('a' <= c && c <= 'z') || ('A' <= c && c <= 'Z') || ('0' <= c && c <= '9') || c == '_'
}

/// Where the name that begins at `from` ends.
pub open spec fn name_end(s: Seq<char>, from: int) -> int
    decreases s.len() - from,
{
    if 0 <= from < s.len() && is_name_char_spec(s[from]) {
        name_end(s, from + 1)
    } else {
        from
    }
}

/// Whether a placeholder begins at `at`: a dollar sign, and a name in curly brackets.
pub open spec fn is_placeholder(s: Seq<char>, at: int) -> bool {
    let end = name_end(s, at + 2);
    0 <= at && at + 2 < end < s.len() && s[at] == '$' && s[at + 1] == '{' && s[end] == '}'
}

/// The text from `at` on, with the value of each placeholder in its place.
pub open spec fn filled_from(s: Seq<char>, at: int, listing: Option<JsonTree>) -> Seq<char>
    decreases s.len() - at,
{
    if at < 0 || at >= s.len() {
        Seq::empty()
    } else if is_placeholder(s, at) {
        let end = name_end(s, at + 2);
        let value = match provided_spec(listing, s.subrange(at + 2, end)) {
            Some(value) => value,
            None => Seq::empty(),
        };
        value + filled_from(s, end + 1, listing)
    } else {
        seq![s[at]] + filled_from(s, at + 1, listing)
    }
}

/// The names of the placeholders from `at` on that have no value, in the order of the text.
pub open spec fn unfilled_from(s: Seq<char>, at: int, listing: Option<JsonTree>) -> Seq<Seq<char>>
    decreases s.len() - at,
{
    if at < 0 || at >= s.len() {
        Seq::empty()
    } else if is_placeholder(s, at) {
        let end = name_end(s, at + 2);
        let name = s.subrange(at + 2, end);
        if provided_spec(listing, name) is Some {
            unfilled_from(s, end + 1, listing)
        } else {
            seq![name] + unfilled_from(s, end + 1, listing)
        }
    } else {
        unfilled_from(s, at + 1, listing)
    }
}

/// The text with the value of each placeholder in its place.
pub open spec fn filled_in_spec(s: Seq<char>, listing: Seq<char>) -> Seq<char> {
    filled_from(s, 0, json_document(listing))
}

/// The names of the placeholders that have no value, in the order of the text.
pub open spec fn unfilled_spec(s: Seq<char>, listing: Seq<char>) -> Seq<Seq<char>> {
    unfilled_from(s, 0, json_document(listing))
}

/// The name of the placeholder that begins at `at`, and where it ends.
fn placeholder(v: &Vec<char>, at: usize) -> (r: Option<(String, usize)>)
    requires
        at < v.len(),
    ensures
        match r {
            Some((name, end)) => is_placeholder(v@, at as int) && end == name_end(v@, at + 2)
                && name@ == v@.subrange(at + 2, end as int),
            None => !is_placeholder(v@, at as int),
        },
{
    if v.len() - at < 3 || v[at] != '$' || v[at + 1] != '{' {
        return None;
    }
    let mut end: usize = at + 2;
    while end < v.len() && is_name_char(v[end])
        invariant
            at + 2 <= end <= v.len(),
            name_end(v@, at + 2) == name_end(v@, end as int),
        decreases v.len() - end,
    {
        end = end + 1;
    }
    if end > at + 2 && end < v.len() && v[end] == '}' {
        Some((text_of(v, at + 2, end), end))
    } else {
        None
    }
}

/// The text with the value of each placeholder in its place.
pub fn filled_in(s: &str, listing: &str) -> (r: String)
    ensures
        r@ == filled_in_spec(s@, listing@),
{
    let values = json::parse(listing);
    let v = chars_of(s);
    let mut r = String::new();
    let mut i: usize = 0;
    assert(r@ + filled_from(v@, 0, document(values)) =~= filled_in_spec(s@, listing@));
    while i < v.len()
        invariant
            i <= v.len(),
            r@ + filled_from(v@, i as int, document(values)) == filled_in_spec(s@, listing@),
        decreases v.len() - i,
    {
        let ghost before = r@;
        match placeholder(&v, i) {
            Some((name, end)) => {
                match provided(&values, name.as_str()) {
                    Some(value) => {
                        r.append(value.as_str());
                        assert(r@ + filled_from(v@, end + 1, document(values)) =~= before
                            + filled_from(v@, i as int, document(values)));
                    },
                    None => {
                        assert(r@ + filled_from(v@, end + 1, document(values)) =~= before
                            + filled_from(v@, i as int, document(values)));
                    },
                }
                i = end + 1;
            },
            None => {
                r.push(v[i]);
                assert(r@ + filled_from(v@, i + 1, document(values)) =~= before + filled_from(
                    v@,
                    i as int,
                    document(values),
                ));
                i = i + 1;
            },
        }
    }
    assert(r@ + filled_from(v@, i as int, document(values)) =~= r@);
    r
}

/// The names of the placeholders that have no value, in the order of the text.
pub fn unfilled(s: &str, listing: &str) -> (r: Vec<String>)
    ensures
        texts(r@) == unfilled_spec(s@, listing@),
{
    let values = json::parse(listing);
    let v = chars_of(s);
    let mut r: Vec<String> = Vec::new();
    let mut i: usize = 0;
    assert(texts(r@) + unfilled_from(v@, 0, document(values)) =~= unfilled_spec(s@, listing@));
    while i < v.len()
        invariant
            i <= v.len(),
            texts(r@) + unfilled_from(v@, i as int, document(values)) == unfilled_spec(
                s@,
                listing@,
            ),
        decreases v.len() - i,
    {
        let ghost before = texts(r@);
        match placeholder(&v, i) {
            Some((name, end)) => {
                if provided(&values, name.as_str()).is_none() {
                    push_text(&mut r, name);
                    assert(texts(r@) + unfilled_from(v@, end + 1, document(values)) =~= before
                        + unfilled_from(v@, i as int, document(values)));
                }
                i = end + 1;
            },
            None => {
                i = i + 1;
            },
        }
    }
    assert(texts(r@) + unfilled_from(v@, i as int, document(values)) =~= texts(r@));
    r
}

/// A text without placeholders stays as it is, whatever the ConfigMaps provide.
pub proof fn law_plain_text_stays(s: Seq<char>, listing: Seq<char>)
    requires
        forall|at: int| !#[trigger] is_placeholder(s, at),
    ensures
        filled_in_spec(s, listing) == s,
        unfilled_spec(s, listing).len() == 0,
{
    plain_from(s, 0, json_document(listing));
    assert(s.skip(0) =~= s);
}

proof fn plain_from(s: Seq<char>, at: int, listing: Option<JsonTree>)
    requires
        0 <= at <= s.len(),
        forall|at: int| !#[trigger] is_placeholder(s, at),
    ensures
        filled_from(s, at, listing) == s.skip(at),
        unfilled_from(s, at, listing).len() == 0,
    decreases s.len() - at,
{
    if at < s.len() {
        plain_from(s, at + 1, listing);
        assert(!is_placeholder(s, at));
        assert(seq![s[at]] + s.skip(at + 1) =~= s.skip(at));
    } else {
        assert(s.skip(at) =~= Seq::empty());
    }
}

} // verus!
