//! Clearing the "blocked by safe mode" flag for this product's driver in
//! the runtime's settings document.
//!
//! The document is loosely structured JSON. This module reads and writes
//! exactly one nested boolean field, keyed by the product's driver
//! identifier, and preserves all sibling content: the document is parsed
//! into entries, only the one known field is touched, and the result is
//! re-serialized. The JSON work itself is done by `serde_json` behind the
//! trusted wrappers at the bottom of this file; which field changes, and
//! that nothing else does, is verified here.

use vstd::prelude::*;

verus! {

use crate::text::str_eq;

/// Top-level settings key of this product's driver section.
pub const DRIVER_KEY: &'static str = "driver_nanvr_server";

/// Boolean field inside the driver section: the runtime's safe mode sets
/// it, and this module clears it.
pub const BLOCKED_KEY: &'static str = "blocked_by_safe_mode";

/// Failure to read the settings document as a JSON object.
#[derive(Clone, Copy, PartialEq, Eq, Debug)]
pub enum SettingsError {
    /// The document is not valid JSON, or not an object at the top level.
    SettingsCorrupt,
}

/// What `serde_json::from_str::<Map<String, Value>>` parses a document to:
/// its top-level entries in the map's key order, or nothing when the text
/// is not a JSON object.
pub uninterp spec fn vrsettings_parse(s: Seq<char>) -> Option<
    Seq<(Seq<char>, serde_json::Value)>,
>;

/// What an object value holds, in its key order; nothing for a non-object.
pub uninterp spec fn json_entries(v: serde_json::Value) -> Option<
    Seq<(Seq<char>, serde_json::Value)>,
>;

/// The boolean a value holds; nothing for a non-boolean.
pub uninterp spec fn json_bool_of(v: serde_json::Value) -> Option<bool>;

/// The boolean JSON value `b`.
pub uninterp spec fn json_bool(b: bool) -> serde_json::Value;

/// The object value holding exactly `entries`, a later duplicate key
/// overriding an earlier one.
pub uninterp spec fn json_object(entries: Seq<(Seq<char>, serde_json::Value)>) -> serde_json::Value;

/// The pretty-printed rendering of a document with the given top-level
/// entries.
pub uninterp spec fn json_render(entries: Seq<(Seq<char>, serde_json::Value)>) -> Seq<char>;

/// Entry list as seen by the specification: keys as character sequences.
pub open spec fn entries_view(es: Seq<(String, serde_json::Value)>) -> Seq<
    (Seq<char>, serde_json::Value),
> {
    es.map_values(|p: (String, serde_json::Value)| (p.0@, p.1))
}

/// Index of the first entry under `key`, if any.
pub open spec fn find_key(es: Seq<(Seq<char>, serde_json::Value)>, key: Seq<char>) -> Option<int>
    decreases es.len(),
{
    if es.len() == 0 {
        Option::None
    } else if es[0].0 == key {
        Option::Some(0)
    } else {
        match find_key(es.drop_first(), key) {
            Option::Some(i) => Option::Some(i + 1),
            Option::None => Option::None,
        }
    }
}

/// The value of the first entry under `key`, if any.
pub open spec fn entry_value(
    es: Seq<(Seq<char>, serde_json::Value)>,
    key: Seq<char>,
) -> Option<serde_json::Value> {
    match find_key(es, key) {
        Option::Some(i) => Option::Some(es[i].1),
        Option::None => Option::None,
    }
}

/// The driver section that an unblocked document gets when it had none:
/// just the cleared flag.
pub open spec fn cleared_section() -> Seq<(Seq<char>, serde_json::Value)> {
    seq![(BLOCKED_KEY@, json_bool(false))]
}

/// The document entries after unblocking:
/// - no driver section: one is appended, holding only the cleared flag;
/// - driver section present with the blocked flag set: that one field
///   becomes `false`, everything else in the section and the document is
///   kept;
/// - anything else (flag absent, already false, not a boolean, or the
///   section not an object): the document is unchanged.
pub open spec fn unblock_view(
    es: Seq<(Seq<char>, serde_json::Value)>,
) -> Seq<(Seq<char>, serde_json::Value)> {
    match find_key(es, DRIVER_KEY@) {
        Option::None => es.push((DRIVER_KEY@, json_object(cleared_section()))),
        Option::Some(i) => match json_entries(es[i].1) {
            Option::None => es,
            Option::Some(sec) => match find_key(sec, BLOCKED_KEY@) {
                Option::Some(j) => if json_bool_of(sec[j].1) == Option::Some(true) {
                    es.update(
                        i,
                        (es[i].0, json_object(sec.update(j, (sec[j].0, json_bool(false))))),
                    )
                } else {
                    es
                },
                Option::None => es,
            },
        },
    }
}

/// A prefix without `key`, followed by `key` or the end, pins down
/// `find_key`.
proof fn lemma_find_key_is(es: Seq<(Seq<char>, serde_json::Value)>, key: Seq<char>, i: int)
    requires
        0 <= i <= es.len(),
        forall|j: int| 0 <= j < i ==> #[trigger] es[j].0 != key,
        i < es.len() ==> es[i].0 == key,
    ensures
        find_key(es, key) == if i < es.len() {
            Option::Some(i)
        } else {
            Option::<int>::None
        },
    decreases es.len(),
{
    if es.len() > 0 && es[0].0 != key {
        assert(i > 0);
        assert(forall|j: int| 0 <= j < i - 1 ==> #[trigger] es.drop_first()[j].0 == es[j + 1].0);
        lemma_find_key_is(es.drop_first(), key, i - 1);
    }
}

/// Finds the first entry under `key` in an entry vector.
fn find_entry(es: &Vec<(String, serde_json::Value)>, key: &str) -> (r: Option<usize>)
    ensures
        match r {
            Option::Some(i) => i < es@.len() && find_key(entries_view(es@), key@)
                == Option::Some(i as int),
            Option::None => find_key(entries_view(es@), key@) is None,
        },
{
    let n = es.len();
    let mut i: usize = 0;
    while i < n
        invariant
            0 <= i <= n,
            n == es@.len(),
            forall|j: int| 0 <= j < i ==> #[trigger] es@[j].0@ != key@,
        decreases n - i,
    {
        if str_eq(es[i].0.as_str(), key) {
            proof {
                assert(forall|j: int|
                    0 <= j < i ==> #[trigger] entries_view(es@)[j].0 == es@[j].0@);
                lemma_find_key_is(entries_view(es@), key@, i as int);
            }
            return Option::Some(i);
        }
        i = i + 1;
    }
    proof {
        assert(forall|j: int| 0 <= j < n ==> #[trigger] entries_view(es@)[j].0 == es@[j].0@);
        lemma_find_key_is(entries_view(es@), key@, n as int);
    }
    Option::None
}

/// Unblocks this product's driver in a parsed settings document.
pub fn unblock_entries(fields: Vec<(String, serde_json::Value)>) -> (r: Vec<
    (String, serde_json::Value),
>)
    ensures
        entries_view(r@) == unblock_view(entries_view(fields@)),
{
    let ghost es0 = entries_view(fields@);
    let mut fields = fields;
    let i = match find_entry(&fields, DRIVER_KEY) {
        Option::Some(i) => i,
        Option::None => {
            // No driver section yet: create it with the flag cleared.
            let mut section: Vec<(String, serde_json::Value)> = Vec::new();
            section.push((String::from_str(BLOCKED_KEY), bool_value(false)));
            proof {
                assert(entries_view(section@) =~= cleared_section());
            }
            let section_value = object_value(section);
            fields.push((String::from_str(DRIVER_KEY), section_value));
            proof {
                assert(entries_view(fields@) =~= es0.push(
                    (DRIVER_KEY@, json_object(cleared_section())),
                ));
            }
            return fields;
        },
    };
    let section = match value_entries(&fields[i].1) {
        Option::Some(section) => section,
        Option::None => {
            // The driver entry is not an object; left untouched.
            return fields;
        },
    };
    let j = match find_entry(&section, BLOCKED_KEY) {
        Option::Some(j) => j,
        Option::None => {
            // No blocked flag; nothing to clear.
            return fields;
        },
    };
    let blocked = match value_bool(&section[j].1) {
        Option::Some(b) => b,
        Option::None => {
            // The flag is not a boolean; left untouched.
            return fields;
        },
    };
    if !blocked {
        return fields;
    }
    let ghost sec0 = entries_view(section@);
    let mut section = section;
    let blocked_key = section[j].0.clone();
    section.set(j, (blocked_key, bool_value(false)));
    proof {
        assert(entries_view(section@) =~= sec0.update(j as int, (sec0[j as int].0, json_bool(
            false,
        ))));
    }
    let section_value = object_value(section);
    let driver_key = fields[i].0.clone();
    fields.set(i, (driver_key, section_value));
    proof {
        assert(entries_view(fields@) =~= es0.update(
            i as int,
            (es0[i as int].0, json_object(sec0.update(j as int, (sec0[j as int].0, json_bool(
                false,
            ))))),
        ));
    }
    fields
}

/// Reads one settings document and hands back its unblocked rendering.
///
/// A document that is not a JSON object is reported as corrupt; the caller
/// treats that as non-fatal and proceeds without it.
pub fn unblock_nanvr_driver_within_vrsettings(text: &str) -> (r: Result<String, SettingsError>)
    ensures
        r is Ok <==> vrsettings_parse(text@) is Some,
        r matches Ok(s) ==> s@ == json_render(unblock_view(vrsettings_parse(text@)->0)),
        r matches Err(e) ==> e == SettingsError::SettingsCorrupt,
{
    match parse_top_entries(text) {
        Option::Some(entries) => {
            let unblocked = unblock_entries(entries);
            Result::Ok(render_entries(&unblocked))
        },
        Option::None => Result::Err(SettingsError::SettingsCorrupt),
    }
}

/// Unblocking touches no top-level field other than the driver section:
/// under every other key the document keeps exactly the value it had.
pub proof fn lemma_unblock_preserves_other_fields(
    es: Seq<(Seq<char>, serde_json::Value)>,
    key: Seq<char>,
)
    requires
        key != DRIVER_KEY@,
    ensures
        entry_value(unblock_view(es), key) == entry_value(es, key),
{
    match find_key(es, DRIVER_KEY@) {
        Option::None => {
            lemma_find_key_bounds(es, DRIVER_KEY@);
            lemma_find_key_push(es, (DRIVER_KEY@, json_object(cleared_section())), key);
        },
        Option::Some(i) => {
            lemma_find_key_bounds(es, DRIVER_KEY@);
            match json_entries(es[i].1) {
                Option::None => {},
                Option::Some(sec) => {
                    match find_key(sec, BLOCKED_KEY@) {
                        Option::Some(j) => {
                            if json_bool_of(sec[j].1) == Option::Some(true) {
                                let p = (
                                    es[i].0,
                                    json_object(
                                        sec.update(j, (sec[j].0, json_bool(false))),
                                    ),
                                );
                                lemma_find_key_update(es, i, p, key);
                            }
                        },
                        Option::None => {},
                    }
                },
            }
        },
    }
}

/// After unblocking, the document always has a driver section whose
/// blocked flag reads `false` — except when it already read something
/// other than `true` (absent, already cleared, or not a boolean), in which
/// case the document is untouched.
pub proof fn lemma_unblock_clears_flag(es: Seq<(Seq<char>, serde_json::Value)>)
    requires
        match entry_value(es, DRIVER_KEY@) {
            Option::Some(v) => match json_entries(v) {
                Option::Some(sec) => match entry_value(sec, BLOCKED_KEY@) {
                    Option::Some(b) => json_bool_of(b) == Option::Some(true),
                    Option::None => false,
                },
                Option::None => false,
            },
            Option::None => true,
        },
    ensures
        match entry_value(unblock_view(es), DRIVER_KEY@) {
            Option::Some(v) => v == json_object(unblocked_section_of(es)),
            Option::None => false,
        },
{
    match find_key(es, DRIVER_KEY@) {
        Option::None => {
            lemma_find_key_bounds(es, DRIVER_KEY@);
            let p = (DRIVER_KEY@, json_object(cleared_section()));
            let es2 = es.push(p);
            lemma_find_key_is_last(es, p);
        },
        Option::Some(i) => {
            lemma_find_key_bounds(es, DRIVER_KEY@);
            let sec = json_entries(es[i].1)->0;
            let j = find_key(sec, BLOCKED_KEY@)->0;
            lemma_find_key_bounds(sec, BLOCKED_KEY@);
            let p = (es[i].0, json_object(sec.update(j, (sec[j].0, json_bool(false)))));
            lemma_find_key_update_same(es, i, p);
        },
    }
}

/// The section an unblocked document holds under the driver key, when the
/// flag was set or the section missing.
pub open spec fn unblocked_section_of(
    es: Seq<(Seq<char>, serde_json::Value)>,
) -> Seq<(Seq<char>, serde_json::Value)> {
    match find_key(es, DRIVER_KEY@) {
        Option::None => cleared_section(),
        Option::Some(i) => {
            let sec = json_entries(es[i].1)->0;
            let j = find_key(sec, BLOCKED_KEY@)->0;
            sec.update(j, (sec[j].0, json_bool(false)))
        },
    }
}

proof fn lemma_find_key_bounds(es: Seq<(Seq<char>, serde_json::Value)>, key: Seq<char>)
    ensures
        match find_key(es, key) {
            Option::Some(i) => 0 <= i < es.len() && es[i].0 == key && forall|j: int|
                0 <= j < i ==> #[trigger] es[j].0 != key,
            Option::None => forall|j: int| 0 <= j < es.len() ==> #[trigger] es[j].0 != key,
        },
    decreases es.len(),
{
    if es.len() > 0 && es[0].0 != key {
        lemma_find_key_bounds(es.drop_first(), key);
        assert(forall|j: int|
            0 < j < es.len() ==> #[trigger] es[j].0 == es.drop_first()[j - 1].0);
    }
}

proof fn lemma_find_key_push(
    es: Seq<(Seq<char>, serde_json::Value)>,
    p: (Seq<char>, serde_json::Value),
    key: Seq<char>,
)
    requires
        key != p.0,
    ensures
        entry_value(es.push(p), key) == entry_value(es, key),
{
    lemma_find_key_bounds(es, key);
    match find_key(es, key) {
        Option::Some(i) => {
            lemma_find_key_is(es.push(p), key, i);
            assert(es.push(p)[i] == es[i]);
        },
        Option::None => {
            lemma_find_key_is(es.push(p), key, es.len() as int + 1);
        },
    }
}

proof fn lemma_find_key_is_last(
    es: Seq<(Seq<char>, serde_json::Value)>,
    p: (Seq<char>, serde_json::Value),
)
    requires
        forall|j: int| 0 <= j < es.len() ==> #[trigger] es[j].0 != p.0,
    ensures
        entry_value(es.push(p), p.0) == Option::Some(p.1),
{
    lemma_find_key_is(es.push(p), p.0, es.len() as int);
    assert(es.push(p)[es.len() as int] == p);
}

proof fn lemma_find_key_update(
    es: Seq<(Seq<char>, serde_json::Value)>,
    i: int,
    p: (Seq<char>, serde_json::Value),
    key: Seq<char>,
)
    requires
        0 <= i < es.len(),
        es[i].0 == p.0,
        key != p.0,
    ensures
        entry_value(es.update(i, p), key) == entry_value(es, key),
{
    lemma_find_key_bounds(es, key);
    lemma_find_key_bounds(es.update(i, p), key);
    match find_key(es, key) {
        Option::Some(k) => {
            assert(es.update(i, p)[k] == es[k]);
            lemma_find_key_is(es.update(i, p), key, k);
        },
        Option::None => {
            lemma_find_key_is(es.update(i, p), key, es.len() as int);
        },
    }
}

proof fn lemma_find_key_update_same(
    es: Seq<(Seq<char>, serde_json::Value)>,
    i: int,
    p: (Seq<char>, serde_json::Value),
)
    requires
        0 <= i < es.len(),
        es[i].0 == p.0,
        find_key(es, p.0) == Option::Some(i),
    ensures
        entry_value(es.update(i, p), p.0) == Option::Some(p.1),
{
    lemma_find_key_bounds(es, p.0);
    lemma_find_key_is(es.update(i, p), p.0, i);
}

/// Relies on `serde_json::from_str::<Map<String, Value>>`: parses the
/// document, failing when the text is not valid JSON or its top level is
/// not an object. The entries come back in the map's own key order, which
/// is the order `vrsettings_parse` names.
#[verifier::external_body]
fn parse_top_entries(text: &str) -> (r: Option<Vec<(String, serde_json::Value)>>)
    ensures
        match r {
            Option::Some(es) => vrsettings_parse(text@) == Option::Some(entries_view(es@)),
            Option::None => vrsettings_parse(text@) is None,
        },
{
    match serde_json::from_str::<serde_json::Map<String, serde_json::Value>>(text) {
        Ok(m) => Some(m.into_iter().collect()),
        Err(_) => None,
    }
}

/// Relies on `serde_json::Value::as_object`: the entries an object value
/// holds, in the map's key order; `None` for any other value.
#[verifier::external_body]
fn value_entries(v: &serde_json::Value) -> (r: Option<Vec<(String, serde_json::Value)>>)
    ensures
        match r {
            Option::Some(es) => json_entries(*v) == Option::Some(entries_view(es@)),
            Option::None => json_entries(*v) is None,
        },
{
    v.as_object().map(|m| m.iter().map(|(k, vv)| (k.clone(), vv.clone())).collect())
}

/// Relies on `serde_json::Value::as_bool`: the boolean a value holds, or
/// `None` for any other value.
#[verifier::external_body]
fn value_bool(v: &serde_json::Value) -> (r: Option<bool>)
    ensures
        r == json_bool_of(*v),
{
    v.as_bool()
}

/// Relies on `serde_json::Value::Bool`: the boolean JSON value, which
/// `as_bool` reads back.
#[verifier::external_body]
fn bool_value(b: bool) -> (r: serde_json::Value)
    ensures
        r == json_bool(b),
        json_bool_of(r) == Option::Some(b),
{
    serde_json::Value::Bool(b)
}

/// Relies on `serde_json::Map::insert` and `serde_json::Value::Object`:
/// the object holding exactly the given entries.
#[verifier::external_body]
fn object_value(entries: Vec<(String, serde_json::Value)>) -> (r: serde_json::Value)
    ensures
        r == json_object(entries_view(entries@)),
{
    let mut m = serde_json::Map::new();
    for (k, v) in entries {
        m.insert(k, v);
    }
    serde_json::Value::Object(m)
}

/// Relies on `serde_json::to_string_pretty`: the pretty-printed rendering
/// of the document with the given top-level entries. Serializing a JSON
/// value cannot fail.
#[verifier::external_body]
fn render_entries(entries: &Vec<(String, serde_json::Value)>) -> (r: String)
    ensures
        r@ == json_render(entries_view(entries@)),
{
    let mut m = serde_json::Map::new();
    for (k, v) in entries {
        m.insert(k.clone(), v.clone());
    }
    serde_json::to_string_pretty(&serde_json::Value::Object(m)).unwrap_or_default()
}

#[verifier::external_type_specification]
#[verifier::external_body]
pub struct ExJsonValue(serde_json::Value);

} // verus!
