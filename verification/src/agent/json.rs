//! A JSON document tree holding plain values only: numbers keep their decimal
//! text, strings are ordinary `String`s, objects are ordered key/value lists.
//! Schema descriptors are built and inspected on this tree; contracts speak of
//! its ghost shape [`JsonModel`].
use vstd::prelude::*;

verus! {

broadcast use vstd::std_specs::vec::group_vec_axioms, vstd::seq::group_seq_axioms;

/// Ghost-level shape of a JSON document: strings as character sequences,
/// numbers as their decimal text, objects as ordered key/value sequences.
pub enum JsonModel {
    Null,
    Bool(bool),
    Num(Seq<char>),
    Str(Seq<char>),
    Arr(Seq<JsonModel>),
    Obj(Seq<(Seq<char>, JsonModel)>),
}

/// Executable JSON tree mirroring [`JsonModel`]. Numbers are carried as their
/// decimal text, so the tree holds no floating point.
#[derive(Debug, PartialEq, Eq)]
pub enum JsonValue {
    Null,
    Bool(bool),
    Num(String),
    Str(String),
    Arr(Vec<JsonValue>),
    Obj(Vec<(String, JsonValue)>),
}

impl JsonValue {
    /// The ghost shape of this document.
    pub open spec fn model(self) -> JsonModel
        decreases self,
    {
        match self {
            JsonValue::Null => JsonModel::Null,
            JsonValue::Bool(b) => JsonModel::Bool(b),
            JsonValue::Num(s) => JsonModel::Num(s@),
            JsonValue::Str(s) => JsonModel::Str(s@),
            JsonValue::Arr(items) => JsonModel::Arr(items_model(items@)),
            JsonValue::Obj(entries) => JsonModel::Obj(entries_model(entries@)),
        }
    }
}

/// The ghost shape of an array's item list.
pub open spec fn items_model(items: Seq<JsonValue>) -> Seq<JsonModel>
    decreases items,
{
    if items.len() == 0 {
        Seq::empty()
    } else {
        seq![items[0].model()] + items_model(items.drop_first())
    }
}

/// The ghost shape of an object's entry list.
pub open spec fn entries_model(entries: Seq<(String, JsonValue)>) -> Seq<(Seq<char>, JsonModel)>
    decreases entries,
{
    if entries.len() == 0 {
        Seq::empty()
    } else {
        seq![(entries[0].0@, entries[0].1.model())] + entries_model(entries.drop_first())
    }
}

/// An object's ghost entries are its entries' ghost shapes, index by index.
pub broadcast proof fn lemma_entries_model(entries: Seq<(String, JsonValue)>)
    ensures
        (#[trigger] entries_model(entries)).len() == entries.len(),
        forall|i: int|
            0 <= i < entries.len() ==> entries_model(entries)[i] == (
                entries[i].0@,
                entries[i].1.model(),
            ),
    decreases entries.len(),
{
    if entries.len() > 0 {
        lemma_entries_model(entries.drop_first());
    }
}

/// Whether an object holds `key`.
pub open spec fn obj_has_key(entries: Seq<(Seq<char>, JsonModel)>, key: Seq<char>) -> bool {
    exists|i: int| 0 <= i < entries.len() && entries[i].0 == key
}

/// The object's entries with every entry named `key` removed, order kept.
pub open spec fn strip_key(entries: Seq<(Seq<char>, JsonModel)>, key: Seq<char>) -> Seq<
    (Seq<char>, JsonModel),
>
    decreases entries.len(),
{
    if entries.len() == 0 {
        Seq::empty()
    } else if entries[0].0 == key {
        strip_key(entries.skip(1), key)
    } else {
        seq![entries[0]] + strip_key(entries.skip(1), key)
    }
}

/// Removes every entry named `key` from an object's entry list, keeping the
/// order of the remaining entries.
pub fn remove_entries(entries: Vec<(String, JsonValue)>, key: &str) -> (kept: Vec<
    (String, JsonValue),
>)
    ensures
        entries_model(kept@) == strip_key(entries_model(entries@), key@),
{
    broadcast use lemma_entries_model;

    let ghost all = entries_model(entries@);
    let mut rest = entries;
    let mut kept: Vec<(String, JsonValue)> = Vec::new();
    proof {
        assert(entries_model(kept@) + strip_key(entries_model(rest@), key@) =~= strip_key(
            all,
            key@,
        ));
    }
    while rest.len() > 0
        invariant
            entries_model(kept@) + strip_key(entries_model(rest@), key@) =~= strip_key(all, key@),
        decreases rest.len(),
    {
        let ghost rest_pre = entries_model(rest@);
        let entry = rest.remove(0);
        proof {
            assert(entries_model(rest@) =~= rest_pre.skip(1));
            assert(rest_pre[0] == (entry.0@, entry.1.model()));
        }
        if !string_eq(&entry.0, key) {
            let ghost kept_vec_pre = kept@;
            let ghost kept_pre = entries_model(kept@);
            kept.push(entry);
            proof {
                lemma_entries_model(kept_vec_pre);
                lemma_entries_model(kept@);
                assert(entries_model(kept@) =~= kept_pre + seq![rest_pre[0]]);
                assert(entries_model(kept@) + strip_key(entries_model(rest@), key@) =~= strip_key(
                    all,
                    key@,
                ));
            }
        }
    }
    proof {
        assert(entries_model(rest@) =~= Seq::empty());
        assert(entries_model(kept@) =~= strip_key(all, key@));
    }
    kept
}

/// Whether the entry list holds `key`, by scanning it.
pub fn contains_key(entries: &Vec<(String, JsonValue)>, key: &str) -> (r: bool)
    ensures
        r == obj_has_key(entries_model(entries@), key@),
{
    broadcast use lemma_entries_model;

    let mut i: usize = 0;
    while i < entries.len()
        invariant
            0 <= i <= entries@.len(),
            forall|j: int| 0 <= j < i ==> entries_model(entries@)[j].0 != key@,
        decreases entries@.len() - i,
    {
        proof {
            lemma_entries_model(entries@);
        }
        if string_eq(&entries[i].0, key) {
            proof {
                assert(entries_model(entries@)[i as int].0 == key@);
            }
            return true;
        }
        i += 1;
    }
    false
}

/// Compares a `String` against a `&str` by their characters.
pub fn string_eq(a: &String, b: &str) -> (r: bool)
    ensures
        r == (a@ == b@),
{
    let other = b.to_owned();
    *a == other
}

} // verus!
