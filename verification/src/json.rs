//! JSON values, as the key-value store holds them.
//!
//! The store keeps one JSON value under each key. `Json` is such a value in
//! plain data; its view, `JsonModel`, is the value it stands for: a list is a
//! sequence, a record is a finite map from names to values.

use vstd::prelude::*;
use crate::binary64::Binary64;

verus! {

/// A JSON number. A number written without fraction or exponent is held as
/// an integer where it fits in 64 bits, as `NegInt` when it is below zero;
/// every other number is held as a real.
#[derive(Clone, Copy, Debug, PartialEq, Eq, Structural)]
pub enum Number {
    PosInt(u64),
    NegInt(i64),
    Real(Binary64),
}

/// A JSON value. The entries of a record are kept in the order in which they
/// were written; where a name occurs more than once, the last entry counts.
#[derive(Debug, PartialEq, Eq)]
pub enum Json {
    Null,
    Bool(bool),
    Number(Number),
    Text(String),
    List(Vec<Json>),
    Record(Vec<(String, Json)>),
}

/// What a `Json` stands for.
#[verifier::ext_equal]
pub enum JsonModel {
    Null,
    Bool(bool),
    Number(Number),
    Text(Seq<char>),
    List(Seq<JsonModel>),
    Record(Map<Seq<char>, JsonModel>),
}

impl View for Json {
    type V = JsonModel;

    open spec fn view(&self) -> JsonModel
        decreases self,
    {
        match self {
            Json::Null => JsonModel::Null,
            Json::Bool(b) => JsonModel::Bool(*b),
            Json::Number(n) => JsonModel::Number(*n),
            Json::Text(s) => JsonModel::Text(s@),
            Json::List(items) => JsonModel::List(list_model(items@)),
            Json::Record(entries) => JsonModel::Record(record_model(entries@)),
        }
    }
}

/// The sequence that the items of a list stand for.
pub open spec fn list_model(items: Seq<Json>) -> Seq<JsonModel>
    decreases items,
{
    if items.len() == 0 {
        Seq::empty()
    } else {
        list_model(items.drop_last()).push(items.last()@)
    }
}

/// The map that the entries of a record stand for: each entry in turn
/// puts its value under its name, so a later entry replaces an earlier one
/// of the same name.
pub open spec fn record_model(entries: Seq<(String, Json)>) -> Map<Seq<char>, JsonModel>
    decreases entries,
{
    if entries.len() == 0 {
        Map::empty()
    } else {
        record_model(entries.drop_last()).insert(entries.last().0@, entries.last().1@)
    }
}

impl JsonModel {
    /// The value that a record holds under `name`.
    pub open spec fn field(self, name: Seq<char>) -> Option<JsonModel> {
        match self {
            JsonModel::Record(fields) => if fields.contains_key(name) {
                Some(fields[name])
            } else {
                None
            },
            _ => None,
        }
    }

    /// The number that the value is, if it is one.
    pub open spec fn number(self) -> Option<Number> {
        match self {
            JsonModel::Number(n) => Some(n),
            _ => None,
        }
    }
}

/// Entry `i` is the last one of `entries` that goes by `name`.
pub open spec fn last_named(entries: Seq<(String, Json)>, name: Seq<char>, i: int) -> bool {
    &&& 0 <= i < entries.len()
    &&& entries[i].0@ == name
    &&& forall|j: int| i < j < entries.len() ==> (#[trigger] entries[j]).0@ != name
}

/// A list stands for as many values as it has items, each item for its own.
pub proof fn lemma_list_model(items: Seq<Json>)
    ensures
        list_model(items).len() == items.len(),
        forall|i: int| 0 <= i < items.len() ==> (#[trigger] list_model(items)[i]) == items[i]@,
    decreases items.len(),
{
    if items.len() > 0 {
        lemma_list_model(items.drop_last());
        assert(list_model(items) == list_model(items.drop_last()).push(items.last()@));
    } else {
        assert(list_model(items) == Seq::<JsonModel>::empty());
    }
}

/// A record holds a value under a name exactly if one of its entries goes by
/// that name, and the value is that of the last such entry.
pub proof fn lemma_record_model(entries: Seq<(String, Json)>, name: Seq<char>)
    ensures
        record_model(entries).contains_key(name) <==> exists|i: int|
            0 <= i < entries.len() && (#[trigger] entries[i]).0@ == name,
        forall|i: int| #[trigger]
            last_named(entries, name, i) ==> record_model(entries)[name] == entries[i].1@,
    decreases entries.len(),
{
    if entries.len() == 0 {
        assert(record_model(entries) == Map::<Seq<char>, JsonModel>::empty());
    } else {
        let front: Seq<(String, Json)> = entries.drop_last();
        let last: int = entries.len() - 1;
        let before: Map<Seq<char>, JsonModel> = record_model(front);
        assert(record_model(entries) == before.insert(entries[last].0@, entries[last].1@));
        lemma_record_model(front, name);
        if entries[last].0@ != name {
            if before.contains_key(name) {
                let i: int = choose|i: int|
                    0 <= i < front.len() && (#[trigger] front[i]).0@ == name;
                assert(entries[i].0@ == name);
            }
            if exists|i: int| 0 <= i < entries.len() && (#[trigger] entries[i]).0@ == name {
                let i: int = choose|i: int|
                    0 <= i < entries.len() && (#[trigger] entries[i]).0@ == name;
                assert(front[i].0@ == name);
            }
        }
        assert forall|i: int| #[trigger] last_named(entries, name, i) implies record_model(
            entries,
        )[name] == entries[i].1@ by {
            if i != last {
                assert(entries[last].0@ != name);
                assert forall|j: int| i < j < front.len() implies (#[trigger] front[j]).0@
                    != name by {
                    assert(entries[j].0@ != name);
                }
                assert(last_named(front, name, i));
            }
        }
    }
}

/// One more entry at the end of a record puts its value under its name.
pub proof fn lemma_record_push(entries: Seq<(String, Json)>, name: String, value: Json)
    ensures
        record_model(entries.push((name, value))) == record_model(entries).insert(name@, value@),
{
    let longer: Seq<(String, Json)> = entries.push((name, value));
    assert(longer.drop_last() =~= entries);
    assert(record_model(longer) == record_model(longer.drop_last()).insert(
        longer.last().0@,
        longer.last().1@,
    ));
}

impl Json {
    /// The value that a record holds under `name`: that of the last entry
    /// that goes by the name. `None` where no entry does, and where `self` is
    /// no record.
    pub fn get(&self, name: &str) -> (found: Option<&Json>)
        ensures
            match found {
                Some(value) => self@.field(name@) == Some(value@),
                None => self@.field(name@) is None,
            },
    {
        match self {
            Json::Record(entries) => {
                let wanted: String = name.to_owned();
                let mut i: usize = entries.len();
                while i > 0
                    invariant
                        i <= entries.len(),
                        wanted@ == name@,
                        self@ == JsonModel::Record(record_model(entries@)),
                        forall|j: int| i <= j < entries.len() ==> (#[trigger] entries@[j]).0@ != name@,
                    decreases i,
                {
                    i = i - 1;
                    if entries[i].0 == wanted {
                        proof {
                            assert(last_named(entries@, name@, i as int));
                            lemma_record_model(entries@, name@);
                            assert(record_model(entries@).contains_key(name@));
                        }
                        return Some(&entries[i].1);
                    }
                }
                proof {
                    lemma_record_model(entries@, name@);
                }
                None
            },
            _ => None,
        }
    }

    /// The number that this value is, if it is one.
    pub fn as_number(&self) -> (number: Option<Number>)
        ensures
            number == self@.number(),
    {
        match self {
            Json::Number(n) => Some(*n),
            _ => None,
        }
    }
}

} // verus!
