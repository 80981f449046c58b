//! Setting one text field of a JSON document, addressed by a dotted path
//! (`a.b.c`): every part but the last names an existing object member; the
//! last is set, or added, as a text.
use vstd::prelude::*;
use crate::json::{JsonValue, JsonView, lemma_view_of_kind, lemma_view_of_object, members_view, view_of};
use crate::text::same_text;

verus! {

/// Failures of updating a JSON file.
#[derive(Debug, Clone, PartialEq, Eq)]
pub enum UpdateJsonError {
    FileReadError(String),
    JsonParseError(String),
    InvalidFieldPath(String),
    FileWriteError(String),
}

/// The parts of a dotted path, split at every `.`.
pub open spec fn split_path(s: Seq<char>) -> Seq<Seq<char>>
    decreases s.len(),
{
    if s.len() == 0 {
        seq![Seq::<char>::empty()]
    } else {
        let p = split_path(s.drop_last());
        if s.last() == '.' {
            p.push(Seq::<char>::empty())
        } else {
            p.update(p.len() - 1, p.last().push(s.last()))
        }
    }
}

proof fn lemma_split_path_nonempty(s: Seq<char>)
    ensures
        split_path(s).len() >= 1,
    decreases s.len(),
{
    if s.len() > 0 {
        lemma_split_path_nonempty(s.drop_last());
    }
}

/// Index of the first member named `k`.
pub open spec fn key_index(m: Seq<(Seq<char>, JsonView)>, k: Seq<char>) -> Option<int>
    decreases m.len(),
{
    if m.len() == 0 {
        None
    } else if m[0].0 == k {
        Some(0)
    } else {
        match key_index(m.drop_first(), k) {
            Some(j) => Some(j + 1),
            None => None,
        }
    }
}

proof fn lemma_key_index(m: Seq<(Seq<char>, JsonView)>, k: Seq<char>, i: int)
    requires
        0 <= i <= m.len(),
        forall|j: int| 0 <= j < i ==> m[j].0 != k,
    ensures
        i < m.len() && m[i].0 == k ==> key_index(m, k) == Some(i),
        i == m.len() ==> key_index(m, k) is None,
    decreases i,
{
    if i > 0 {
        lemma_key_index(m.drop_first(), k, i - 1);
    }
}

proof fn lemma_key_index_found(m: Seq<(Seq<char>, JsonView)>, k: Seq<char>)
    ensures
        key_index(m, k) matches Some(j) ==> (0 <= j < m.len() && m[j].0 == k),
    decreases m.len(),
{
    if m.len() > 0 && m[0].0 != k {
        lemma_key_index_found(m.drop_first(), k);
    }
}

/// Sets member `k` to `x`: in place when present, appended otherwise.
pub open spec fn put_member(m: Seq<(Seq<char>, JsonView)>, k: Seq<char>, x: JsonView) -> Seq<(Seq<char>, JsonView)> {
    match key_index(m, k) {
        Some(j) => m.update(j, (k, x)),
        None => m.push((k, x)),
    }
}

/// The document with the text `value` at the path `parts`, if the path is valid.
pub open spec fn set_path(v: JsonView, parts: Seq<Seq<char>>, value: Seq<char>) -> Option<JsonView>
    decreases parts.len(),
{
    if parts.len() == 0 {
        None
    } else if parts.len() == 1 {
        match v {
            JsonView::Object(m) => Some(JsonView::Object(put_member(m, parts[0], JsonView::Str(value)))),
            JsonView::Null => Some(JsonView::Object(seq![(parts[0], JsonView::Str(value))])),
            _ => None,
        }
    } else {
        match v {
            JsonView::Object(m) => match key_index(m, parts[0]) {
                Some(j) => match set_path(m[j].1, parts.drop_first(), value) {
                    Some(c) => Some(JsonView::Object(m.update(j, (parts[0], c)))),
                    None => None,
                },
                None => None,
            },
            _ => None,
        }
    }
}

/// Index of the first member named `name`.
fn find_member(fields: &Vec<(String, JsonValue)>, name: &str) -> (r: Option<usize>)
    ensures
        r matches Some(j) ==> (j < fields@.len() && key_index(members_view(fields@), name@) == Some(
            j as int,
        )),
        r is None ==> key_index(members_view(fields@), name@) is None,
{
    let ghost m = members_view(fields@);
    let mut i: usize = 0;
    while i < fields.len()
        invariant
            i <= fields@.len(),
            m == members_view(fields@),
            forall|j: int| 0 <= j < i ==> m[j].0 != name@,
        decreases fields@.len() - i,
    {
        if same_text(fields[i].0.as_str(), name) {
            proof {
                lemma_key_index(m, name@, i as int);
            }
            return Some(i);
        }
        i += 1;
    }
    proof {
        lemma_key_index(m, name@, i as int);
    }
    None
}

/// Sets the text `value` at `parts[i..]` inside `v`.
fn set_at(v: JsonValue, parts: &Vec<String>, i: usize, value: &str) -> (r: Option<JsonValue>)
    requires
        i < parts@.len(),
    ensures
        r is None <==> set_path(
            view_of(v),
            parts@.subrange(i as int, parts@.len() as int).map_values(|p: String| p@),
            value@,
        ) is None,
        r matches Some(x) ==> set_path(
            view_of(v),
            parts@.subrange(i as int, parts@.len() as int).map_values(|p: String| p@),
            value@,
        ) == Some(view_of(x)),
    decreases parts@.len() - i,
{
    let ghost ps = parts@.subrange(i as int, parts@.len() as int).map_values(|p: String| p@);
    assert(ps[0] == parts@[i as int]@);
    proof {
        lemma_view_of_kind(v);
    }
    if i == parts.len() - 1 {
        assert(ps.len() == 1);
        match v {
            JsonValue::Object(fields) => {
                proof {
                    lemma_view_of_object(fields);
                }
                let mut fields = fields;
                let ghost m = members_view(fields@);
                match find_member(&fields, parts[i].as_str()) {
                    Some(j) => {
                        let name = parts[i].clone();
                        fields.set(j, (name, JsonValue::Str(String::from_str(value))));
                        proof {
                            lemma_view_of_object(fields);
                            assert(members_view(fields@) =~= m.update(j as int, (ps[0], JsonView::Str(value@))));
                        }
                    },
                    None => {
                        let name = parts[i].clone();
                        fields.push((name, JsonValue::Str(String::from_str(value))));
                        proof {
                            lemma_view_of_object(fields);
                            assert(members_view(fields@) =~= m.push((ps[0], JsonView::Str(value@))));
                        }
                    },
                }
                Some(JsonValue::Object(fields))
            },
            JsonValue::Null => {
                let mut fields: Vec<(String, JsonValue)> = Vec::new();
                fields.push((parts[i].clone(), JsonValue::Str(String::from_str(value))));
                proof {
                    lemma_view_of_object(fields);
                    assert(members_view(fields@) =~= seq![(ps[0], JsonView::Str(value@))]);
                }
                Some(JsonValue::Object(fields))
            },
            _ => None,
        }
    } else {
        assert(ps.len() > 1);
        assert(ps.drop_first() == parts@.subrange(i + 1, parts@.len() as int).map_values(
            |p: String| p@,
        ));
        match v {
            JsonValue::Object(fields) => {
                proof {
                    lemma_view_of_object(fields);
                }
                let mut fields = fields;
                let ghost m = members_view(fields@);
                match find_member(&fields, parts[i].as_str()) {
                    Some(j) => {
                        let ghost before = fields@;
                        proof {
                            lemma_key_index_found(m, ps[0]);
                        }
                        let (name, child) = fields.remove(j);
                        assert(view_of(child) == m[j as int].1);
                        match set_at(child, parts, i + 1, value) {
                            Some(c) => {
                                let ghost cv = view_of(c);
                                fields.insert(j, (name, c));
                                proof {
                                    lemma_view_of_object(fields);
                                    assert(fields@ =~= before.update(j as int, fields@[j as int]));
                                    assert(fields@[j as int].0@ == m[j as int].0);
                                    assert(members_view(fields@) =~= m.update(j as int, (ps[0], cv)));
                                }
                                Some(JsonValue::Object(fields))
                            },
                            None => None,
                        }
                    },
                    None => None,
                }
            },
            _ => None,
        }
    }
}

/// Splits a dotted path at every `.`.
fn split_field(s: &str) -> (r: Vec<String>)
    ensures
        r@.map_values(|p: String| p@) == split_path(s@),
{
    let n = s.unicode_len();
    let mut parts: Vec<String> = Vec::new();
    let mut start: usize = 0;
    let mut i: usize = 0;
    assert(s@.subrange(0, 0) =~= Seq::<char>::empty());
    assert(parts@.map_values(|p: String| p@) + seq![s@.subrange(0, 0)] =~= split_path(
        s@.subrange(0, 0),
    ));
    while i < n
        invariant
            start <= i <= n,
            n == s@.len(),
            parts@.map_values(|p: String| p@) + seq![s@.subrange(start as int, i as int)]
                == split_path(s@.subrange(0, i as int)),
        decreases n - i,
    {
        let ghost pv = parts@.map_values(|p: String| p@);
        let ghost cur = s@.subrange(start as int, i as int);
        assert(s@.subrange(0, i + 1).drop_last() == s@.subrange(0, i as int));
        assert(s@.subrange(0, i + 1).last() == s@[i as int]);
        if s.get_char(i) == '.' {
            parts.push(String::from_str(s.substring_char(start, i)));
            start = i + 1;
            assert(parts@.map_values(|p: String| p@) =~= pv.push(cur));
            assert(s@.subrange(start as int, i + 1) =~= Seq::<char>::empty());
            assert(parts@.map_values(|p: String| p@) + seq![s@.subrange(start as int, i + 1)]
                =~= (pv + seq![cur]).push(Seq::<char>::empty()));
        } else {
            assert(s@.subrange(start as int, i + 1) =~= cur.push(s@[i as int]));
            assert(pv + seq![cur.push(s@[i as int])] =~= (pv + seq![cur]).update(
                pv.len() as int,
                cur.push(s@[i as int]),
            ));
        }
        i += 1;
    }
    let ghost pv = parts@.map_values(|p: String| p@);
    parts.push(String::from_str(s.substring_char(start, n)));
    assert(s@.subrange(0, n as int) == s@);
    assert(parts@.map_values(|p: String| p@) =~= pv + seq![s@.subrange(start as int, n as int)]);
    parts
}

/// Sets the text `value` at the dotted path `field` of `doc`; fails with
/// the path when a part before the last names no member of an object, or
/// the last part's holder is neither an object nor null.
pub fn update_json_field(doc: JsonValue, field: &str, value: &str) -> (r: Result<JsonValue, UpdateJsonError>)
    ensures
        r is Ok <==> set_path(view_of(doc), split_path(field@), value@) is Some,
        r matches Ok(x) ==> set_path(view_of(doc), split_path(field@), value@) == Some(view_of(x)),
        r matches Err(e) ==> (e matches UpdateJsonError::InvalidFieldPath(f) && f@ == field@),
{
    let parts = split_field(field);
    proof {
        lemma_split_path_nonempty(field@);
        assert(parts@.subrange(0, parts@.len() as int) == parts@);
    }
    match set_at(doc, &parts, 0, value) {
        Some(x) => Ok(x),
        None => Err(UpdateJsonError::InvalidFieldPath(String::from_str(field))),
    }
}

} // verus!
