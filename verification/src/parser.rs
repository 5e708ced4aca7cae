//! Parsing a raw JSON payload into the lexical data model.
//!
//! The payload is an object carrying the word itself (required), an
//! optional pronunciation object of string variants, and a required
//! `results` array of senses. A sense carries a required `definition`
//! string, an optional `partOfSpeech` string, and five optional relation
//! lists under `antonyms`, `synonyms`, `typeOf`, `hasTypes` and `partOf`.
//! An absent or null optional field stays absent — it is not collapsed
//! into an empty value. Text that is not well-formed JSON is a syntax
//! error; well-formed JSON of the wrong shape is a shape error. Neither
//! aborts the caller, and neither touches the cache, which holds the raw
//! bytes regardless of parseability.

use vstd::prelude::*;
use crate::json::JsonView;
use crate::json::as_arr;
use crate::json::as_obj;
use crate::json::entries_match;
use crate::json::json_as_array;
use crate::json::json_as_str;
use crate::json::json_get;
use crate::json::json_is_null;
use crate::json::json_is_object;
use crate::json::json_object_entries;
use crate::json::json_of;
use crate::json::json_parse;
use crate::json::str_of;
use crate::json::value_view;
use crate::model::EntryView;
use crate::model::LexicalEntry;
use crate::model::WordRecord;
use crate::model::WordRecordView;
use crate::pairs::has_key;
use crate::pairs::lemma_pairs_map_of_distinct;
use crate::pairs::pairs_map;

verus! {

/// Why a payload did not parse.
#[derive(Clone, Copy, Debug, PartialEq, Eq, Structural)]
pub enum ParseError {
    /// The text is not well-formed JSON.
    Syntax,
    /// The JSON does not have the shape of a word record.
    Shape,
}

/// The value of a field of an object, where an absent field and a null
/// field are the same: no value.
pub open spec fn field_of(m: Map<Seq<char>, JsonView>, k: Seq<char>) -> Option<JsonView> {
    if m.contains_key(k) && !(m[k] is Null) {
        Some(m[k])
    } else {
        None
    }
}

/// Whether an optional string field is well-shaped: absent, null, or a
/// string.
pub open spec fn opt_str_ok(m: Map<Seq<char>, JsonView>, k: Seq<char>) -> bool {
    match field_of(m, k) {
        Some(j) => j is Str,
        None => true,
    }
}

/// The value of an optional string field.
pub open spec fn opt_str_of(m: Map<Seq<char>, JsonView>, k: Seq<char>) -> Option<Seq<char>> {
    match field_of(m, k) {
        Some(j) => Some(str_of(j)),
        None => None,
    }
}

/// Whether a tree is an array of strings.
pub open spec fn str_list_ok(j: JsonView) -> bool {
    match j {
        JsonView::Arr(els) => forall|i: int| 0 <= i < els.len() ==> (#[trigger] els[i]) is Str,
        _ => false,
    }
}

/// The strings of an array-of-strings tree, in order.
pub open spec fn str_list_of(j: JsonView) -> Seq<Seq<char>> {
    match j {
        JsonView::Arr(els) => Seq::new(els.len(), |i: int| str_of(els[i])),
        _ => Seq::empty(),
    }
}

/// Whether an optional relation-list field is well-shaped: absent, null,
/// or an array of strings.
pub open spec fn opt_list_ok(m: Map<Seq<char>, JsonView>, k: Seq<char>) -> bool {
    match field_of(m, k) {
        Some(j) => str_list_ok(j),
        None => true,
    }
}

/// The value of an optional relation-list field. An absent list stays
/// `None`: it is not collapsed into an empty list.
pub open spec fn opt_list_of(m: Map<Seq<char>, JsonView>, k: Seq<char>) -> Option<
    Seq<Seq<char>>,
> {
    match field_of(m, k) {
        Some(j) => Some(str_list_of(j)),
        None => None,
    }
}

/// Whether every value of an object is a string.
pub open spec fn str_map_ok(pm: Map<Seq<char>, JsonView>) -> bool {
    forall|k: Seq<char>| #[trigger] pm.contains_key(k) ==> pm[k] is Str
}

/// An all-strings object as a mapping from keys to their strings.
pub open spec fn str_map_of(pm: Map<Seq<char>, JsonView>) -> Map<Seq<char>, Seq<char>> {
    Map::new(|k: Seq<char>| pm.contains_key(k), |k: Seq<char>| str_of(pm[k]))
}

/// Whether a tree can stand as a pronunciation mapping: an object whose
/// values are all strings.
pub open spec fn pron_value_ok(j: JsonView) -> bool {
    match as_obj(j) {
        Some(pm) => str_map_ok(pm),
        None => false,
    }
}

/// Whether the record's pronunciation field is well-shaped: absent, null,
/// or an object of string variants.
pub open spec fn pron_ok(m: Map<Seq<char>, JsonView>) -> bool {
    match field_of(m, "pronunciation"@) {
        Some(j) => pron_value_ok(j),
        None => true,
    }
}

/// The record's pronunciation mapping, when the field carries one.
pub open spec fn pron_of(m: Map<Seq<char>, JsonView>) -> Option<Map<Seq<char>, Seq<char>>> {
    match field_of(m, "pronunciation"@) {
        Some(j) => match as_obj(j) {
            Some(pm) => Some(str_map_of(pm)),
            None => None,
        },
        None => None,
    }
}

/// Whether a tree has the shape of one sense: an object with a required
/// `definition` string, an optional `partOfSpeech` string, and the five
/// optional relation lists.
pub open spec fn entry_shape_ok(j: JsonView) -> bool {
    match as_obj(j) {
        Some(m) => {
            &&& m.contains_key("definition"@) && m["definition"@] is Str
            &&& opt_str_ok(m, "partOfSpeech"@)
            &&& opt_list_ok(m, "antonyms"@)
            &&& opt_list_ok(m, "synonyms"@)
            &&& opt_list_ok(m, "typeOf"@)
            &&& opt_list_ok(m, "hasTypes"@)
            &&& opt_list_ok(m, "partOf"@)
        },
        None => false,
    }
}

/// The sense that a well-shaped tree denotes.
pub open spec fn entry_of(j: JsonView) -> EntryView {
    match as_obj(j) {
        Some(m) => EntryView {
            part_of_speech: opt_str_of(m, "partOfSpeech"@),
            definition: str_of(m["definition"@]),
            antonyms: opt_list_of(m, "antonyms"@),
            synonyms: opt_list_of(m, "synonyms"@),
            hypernyms: opt_list_of(m, "typeOf"@),
            hyponyms: opt_list_of(m, "hasTypes"@),
            holonyms: opt_list_of(m, "partOf"@),
        },
        None => EntryView {
            part_of_speech: None,
            definition: Seq::empty(),
            antonyms: None,
            synonyms: None,
            hypernyms: None,
            hyponyms: None,
            holonyms: None,
        },
    }
}

/// Whether a tree is an array of well-shaped senses.
pub open spec fn entries_ok(j: JsonView) -> bool {
    match as_arr(j) {
        Some(els) => forall|i: int| 0 <= i < els.len() ==> entry_shape_ok(#[trigger] els[i]),
        None => false,
    }
}

/// The senses of a well-shaped array, in order.
pub open spec fn entries_of(j: JsonView) -> Seq<EntryView> {
    match as_arr(j) {
        Some(els) => Seq::new(els.len(), |i: int| entry_of(els[i])),
        None => Seq::empty(),
    }
}

/// Whether a tree has the shape of a whole word record.
pub open spec fn record_shape_ok(j: JsonView) -> bool {
    match as_obj(j) {
        Some(m) => {
            &&& m.contains_key("word"@) && m["word"@] is Str
            &&& pron_ok(m)
            &&& m.contains_key("results"@) && entries_ok(m["results"@])
        },
        None => false,
    }
}

/// The record that a well-shaped tree denotes.
pub open spec fn record_of(j: JsonView) -> WordRecordView {
    match as_obj(j) {
        Some(m) => WordRecordView {
            word: str_of(m["word"@]),
            pronunciation: pron_of(m),
            entries: entries_of(m["results"@]),
        },
        None => WordRecordView { word: Seq::empty(), pronunciation: None, entries: Seq::empty() },
    }
}

/// Reads a required string field of an object.
fn parse_req_string(v: &serde_json::Value, key: &str) -> (r: Result<String, ParseError>)
    requires
        value_view(*v) is Obj,
    ensures
        match r {
            Ok(s) => value_view(*v)->Obj_0.contains_key(key@) && value_view(*v)->Obj_0[key@]
                is Str && s@ == str_of(value_view(*v)->Obj_0[key@]),
            Err(e) => e == ParseError::Shape && !(value_view(*v)->Obj_0.contains_key(key@)
                && value_view(*v)->Obj_0[key@] is Str),
        },
{
    match json_get(v, key) {
        Some(f) => match json_as_str(f) {
            Some(s) => Ok(s.to_owned()),
            None => Err(ParseError::Shape),
        },
        None => Err(ParseError::Shape),
    }
}

/// Reads an optional string field of an object: absent and null both mean
/// no value.
fn parse_opt_string(v: &serde_json::Value, key: &str) -> (r: Result<
    Option<String>,
    ParseError,
>)
    requires
        value_view(*v) is Obj,
    ensures
        match r {
            Ok(s) => opt_str_ok(value_view(*v)->Obj_0, key@) && s.deep_view() == opt_str_of(
                value_view(*v)->Obj_0,
                key@,
            ),
            Err(e) => e == ParseError::Shape && !opt_str_ok(value_view(*v)->Obj_0, key@),
        },
{
    match json_get(v, key) {
        Some(f) => {
            if json_is_null(f) {
                Ok(None)
            } else {
                match json_as_str(f) {
                    Some(s) => Ok(Some(s.to_owned())),
                    None => Err(ParseError::Shape),
                }
            }
        },
        None => Ok(None),
    }
}

/// Reads an array of strings.
fn parse_string_list(v: &serde_json::Value) -> (r: Result<Vec<String>, ParseError>)
    ensures
        match r {
            Ok(xs) => str_list_ok(value_view(*v)) && xs.deep_view() == str_list_of(
                value_view(*v),
            ),
            Err(e) => e == ParseError::Shape && !str_list_ok(value_view(*v)),
        },
{
    let arr = match json_as_array(v) {
        Some(a) => a,
        None => {
            return Err(ParseError::Shape);
        },
    };
    let ghost els = as_arr(value_view(*v)).unwrap();
    let mut xs: Vec<String> = Vec::new();
    let mut i: usize = 0;
    while i < arr.len()
        invariant
            as_arr(value_view(*v)) == Some(els),
            arr@.len() == els.len(),
            forall|k: int| 0 <= k < els.len() ==> value_view(arr@[k]) == els[k],
            i <= els.len(),
            xs@.len() == i,
            forall|k: int| 0 <= k < i ==> (#[trigger] els[k]) is Str,
            forall|k: int| 0 <= k < i ==> (#[trigger] xs@[k])@ == str_of(els[k]),
        decreases els.len() - i,
    {
        match json_as_str(&arr[i]) {
            Some(s) => xs.push(s.to_owned()),
            None => {
                proof {
                    assert(!(els[i as int] is Str));
                    assert(!str_list_ok(value_view(*v))) by {
                        if str_list_ok(value_view(*v)) {
                            assert(els[i as int] is Str);
                        }
                    }
                }
                return Err(ParseError::Shape);
            },
        }
        i = i + 1;
    }
    proof {
        assert(xs.deep_view() =~= str_list_of(value_view(*v)));
    }
    Ok(xs)
}

/// Reads an optional relation-list field of an object: absent and null
/// both mean no list, which stays distinct from an empty list.
fn parse_opt_list(v: &serde_json::Value, key: &str) -> (r: Result<
    Option<Vec<String>>,
    ParseError,
>)
    requires
        value_view(*v) is Obj,
    ensures
        match r {
            Ok(xs) => opt_list_ok(value_view(*v)->Obj_0, key@) && xs.deep_view() == opt_list_of(
                value_view(*v)->Obj_0,
                key@,
            ),
            Err(e) => e == ParseError::Shape && !opt_list_ok(value_view(*v)->Obj_0, key@),
        },
{
    match json_get(v, key) {
        Some(f) => {
            if json_is_null(f) {
                Ok(None)
            } else {
                match parse_string_list(f) {
                    Ok(xs) => Ok(Some(xs)),
                    Err(e) => Err(e),
                }
            }
        },
        None => Ok(None),
    }
}

/// Reads one sense.
fn parse_entry(v: &serde_json::Value) -> (r: Result<LexicalEntry, ParseError>)
    ensures
        match r {
            Ok(e) => entry_shape_ok(value_view(*v)) && e@ == entry_of(value_view(*v)),
            Err(err) => err == ParseError::Shape && !entry_shape_ok(value_view(*v)),
        },
{
    if !json_is_object(v) {
        return Err(ParseError::Shape);
    }
    let definition = match parse_req_string(v, "definition") {
        Ok(s) => s,
        Err(e) => {
            return Err(e);
        },
    };
    let part_of_speech = match parse_opt_string(v, "partOfSpeech") {
        Ok(p) => p,
        Err(e) => {
            return Err(e);
        },
    };
    let antonyms = match parse_opt_list(v, "antonyms") {
        Ok(x) => x,
        Err(e) => {
            return Err(e);
        },
    };
    let synonyms = match parse_opt_list(v, "synonyms") {
        Ok(x) => x,
        Err(e) => {
            return Err(e);
        },
    };
    let hypernyms = match parse_opt_list(v, "typeOf") {
        Ok(x) => x,
        Err(e) => {
            return Err(e);
        },
    };
    let hyponyms = match parse_opt_list(v, "hasTypes") {
        Ok(x) => x,
        Err(e) => {
            return Err(e);
        },
    };
    let holonyms = match parse_opt_list(v, "partOf") {
        Ok(x) => x,
        Err(e) => {
            return Err(e);
        },
    };
    Ok(
        LexicalEntry {
            part_of_speech,
            definition,
            antonyms,
            synonyms,
            hypernyms,
            hyponyms,
            holonyms,
        },
    )
}

/// An array with one ill-shaped element is not a well-shaped sense array.
proof fn lemma_entries_not_ok(j: JsonView, els: Seq<JsonView>, i: int)
    requires
        as_arr(j) == Some(els),
        0 <= i < els.len(),
        !entry_shape_ok(els[i]),
    ensures
        !entries_ok(j),
{
    if entries_ok(j) {
        let els2 = as_arr(j).unwrap();
        assert(entry_shape_ok(els2[i]));
        assert(els2 == els);
    }
}

/// Reads the array of senses.
fn parse_entries(v: &serde_json::Value) -> (r: Result<Vec<LexicalEntry>, ParseError>)
    ensures
        match r {
            Ok(es) => entries_ok(value_view(*v)) && Seq::new(
                es@.len(),
                |i: int| es@[i]@,
            ) == entries_of(value_view(*v)),
            Err(e) => e == ParseError::Shape && !entries_ok(value_view(*v)),
        },
{
    let arr = match json_as_array(v) {
        Some(a) => a,
        None => {
            return Err(ParseError::Shape);
        },
    };
    let ghost els = as_arr(value_view(*v)).unwrap();
    let mut es: Vec<LexicalEntry> = Vec::new();
    let mut i: usize = 0;
    while i < arr.len()
        invariant
            as_arr(value_view(*v)) == Some(els),
            arr@.len() == els.len(),
            forall|k: int| 0 <= k < els.len() ==> value_view(arr@[k]) == els[k],
            i <= els.len(),
            es@.len() == i,
            forall|k: int| 0 <= k < i ==> entry_shape_ok(#[trigger] els[k]),
            forall|k: int| 0 <= k < i ==> (#[trigger] es@[k])@ == entry_of(els[k]),
        decreases els.len() - i,
    {
        match parse_entry(&arr[i]) {
            Ok(e) => es.push(e),
            Err(err) => {
                proof {
                    assert(!entry_shape_ok(els[i as int]));
                    lemma_entries_not_ok(value_view(*v), els, i as int);
                }
                return Err(err);
            },
        }
        i = i + 1;
    }
    proof {
        assert(Seq::new(es@.len(), |i: int| es@[i]@) =~= entries_of(value_view(*v)));
    }
    Ok(es)
}

/// Reads the pronunciation object into its variant-to-string pairs.
fn parse_pronunciation(v: &serde_json::Value) -> (r: Result<
    Vec<(String, String)>,
    ParseError,
>)
    ensures
        match r {
            Ok(ps) => pron_value_ok(value_view(*v)) && pairs_map(ps.deep_view()) == str_map_of(
                as_obj(value_view(*v)).unwrap(),
            ),
            Err(e) => e == ParseError::Shape && !pron_value_ok(value_view(*v)),
        },
{
    let entries = match json_object_entries(v) {
        Some(ps) => ps,
        None => {
            return Err(ParseError::Shape);
        },
    };
    let ghost pm = as_obj(value_view(*v)).unwrap();
    let mut out: Vec<(String, String)> = Vec::new();
    let mut i: usize = 0;
    while i < entries.len()
        invariant
            as_obj(value_view(*v)) == Some(pm),
            entries_match(entries@, pm),
            i <= entries@.len(),
            out@.len() == i,
            forall|k: int| 0 <= k < i ==> (#[trigger] out@[k]).0@ == entries@[k].0@,
            forall|k: int|
                0 <= k < i ==> value_view(#[trigger] entries@[k].1) is Str
                    && out@[k].1@ == str_of(value_view(entries@[k].1)),
        decreases entries@.len() - i,
    {
        let value = match json_as_str(&entries[i].1) {
            Some(s) => s.to_owned(),
            None => {
                proof {
                    let bad = entries@[i as int].0@;
                    assert(pm.contains_key(bad) && !(pm[bad] is Str));
                }
                return Err(ParseError::Shape);
            },
        };
        let key_clone = entries[i].0.clone();
        out.push((key_clone, value));
        i = i + 1;
    }
    proof {
        let dv = out.deep_view();
        assert(dv.len() == entries@.len());
        assert forall|k: int| 0 <= k < dv.len() implies (#[trigger] dv[k]).0 == entries@[k].0@
            && dv[k].1 == str_of(value_view(entries@[k].1)) by {
            assert(dv[k] == (out@[k].0@, out@[k].1@));
        }
        assert forall|a: int, b: int| 0 <= a < b < dv.len() implies dv[a].0 != dv[b].0 by {
            assert(dv[a].0 == entries@[a].0@);
            assert(dv[b].0 == entries@[b].0@);
        }
        lemma_pairs_map_of_distinct(dv);
        assert forall|k: Seq<char>| #[trigger] pm.contains_key(k) implies pm[k] is Str by {
            let idx = choose|idx: int|
                0 <= idx < entries@.len() && (#[trigger] entries@[idx].0)@ == k;
            assert(value_view(entries@[idx].1) is Str);
        }
        assert forall|k: Seq<char>| #[trigger] pairs_map(dv).contains_key(k) == pm.contains_key(
            k,
        ) by {
            if pairs_map(dv).contains_key(k) {
                let idx = choose|idx: int| 0 <= idx < dv.len() && dv[idx].0 == k;
                assert(pm.contains_key(entries@[idx].0@));
            }
            if pm.contains_key(k) {
                let idx = choose|idx: int|
                    0 <= idx < entries@.len() && (#[trigger] entries@[idx].0)@ == k;
                assert(dv[idx].0 == k);
                assert(has_key(dv, k));
            }
        }
        assert forall|k: Seq<char>| #[trigger] pairs_map(dv).contains_key(k) implies pairs_map(
            dv,
        )[k] == str_map_of(pm)[k] by {
            let idx = choose|idx: int| 0 <= idx < dv.len() && dv[idx].0 == k;
            assert(pairs_map(dv)[dv[idx].0] == dv[idx].1);
            assert(pm.contains_key(entries@[idx].0@));
            assert(dv[idx].1 == str_of(pm[k]));
        }
        assert(pairs_map(dv) =~= str_map_of(pm));
    }
    Ok(out)
}

/// Reads a whole word record from a JSON tree.
fn parse_record(v: &serde_json::Value) -> (r: Result<WordRecord, ParseError>)
    ensures
        match r {
            Ok(rec) => record_shape_ok(value_view(*v)) && rec@ == record_of(value_view(*v)),
            Err(e) => e == ParseError::Shape && !record_shape_ok(value_view(*v)),
        },
{
    if !json_is_object(v) {
        return Err(ParseError::Shape);
    }
    let word = match parse_req_string(v, "word") {
        Ok(s) => s,
        Err(e) => {
            return Err(e);
        },
    };
    let pronunciation = match json_get(v, "pronunciation") {
        Some(f) => {
            if json_is_null(f) {
                None
            } else {
                match parse_pronunciation(f) {
                    Ok(ps) => Some(ps),
                    Err(e) => {
                        return Err(e);
                    },
                }
            }
        },
        None => None,
    };
    let entries = match json_get(v, "results") {
        Some(f) => match parse_entries(f) {
            Ok(es) => es,
            Err(e) => {
                return Err(e);
            },
        },
        None => {
            return Err(ParseError::Shape);
        },
    };
    let rec = WordRecord { word, pronunciation, entries };
    proof {
        assert(rec@.entries =~= record_of(value_view(*v)).entries);
        assert(rec@ == record_of(value_view(*v)));
    }
    Ok(rec)
}

/// Parses a raw payload into a word record: a syntax error for text that
/// is not well-formed JSON, a shape error for JSON that is not a word
/// record, and otherwise exactly the record the tree denotes.
pub fn parse_word_json(s: &str) -> (r: Result<WordRecord, ParseError>)
    ensures
        match r {
            Ok(rec) => json_of(s@) matches Some(j) && record_shape_ok(j) && rec@ == record_of(j),
            Err(ParseError::Syntax) => json_of(s@) is None,
            Err(ParseError::Shape) => json_of(s@) matches Some(j) && !record_shape_ok(j),
        },
{
    let value = match json_parse(s) {
        Ok(v) => v,
        Err(_) => {
            return Err(ParseError::Syntax);
        },
    };
    match parse_record(&value) {
        Ok(rec) => Ok(rec),
        Err(e) => Err(e),
    }
}

} // verus!
