//! Custom properties and traits: string values read as booleans, numbers or
//! text, kept under unique keys.
use vstd::prelude::*;

use crate::event::Dict;
use crate::json::{
    array, array_text, json_number_text, json_quoted, number_text, object, object_text, quote,
    quoted_member, quoted_member_text, texts,
};

verus! {

/// A property value.
#[derive(Debug)]
pub enum PropValue {
    Bool(bool),
    /// A number, as JSON text.
    Number(String),
    Text(String),
    List(Vec<String>),
}

/// What a property value holds.
pub enum PropModel {
    Bool(bool),
    Number(Seq<char>),
    Text(Seq<char>),
    List(Seq<Seq<char>>),
}

impl View for PropValue {
    type V = PropModel;

    open spec fn view(&self) -> PropModel {
        match self {
            PropValue::Bool(b) => PropModel::Bool(*b),
            PropValue::Number(t) => PropModel::Number(t@),
            PropValue::Text(s) => PropModel::Text(s@),
            PropValue::List(items) => PropModel::List(texts(items@)),
        }
    }
}

/// How a string value is read: `"true"` and `"false"` as booleans, a JSON
/// number as that number, anything else as the text itself.
pub open spec fn coerce(s: Seq<char>) -> PropModel {
    if s == "true"@ {
        PropModel::Bool(true)
    } else if s == "false"@ {
        PropModel::Bool(false)
    } else {
        match json_number_text(s) {
            Some(n) => PropModel::Number(n),
            None => PropModel::Text(s),
        }
    }
}

/// Reads a string value as a boolean, a number or text.
pub fn parse_value(value: &str) -> (r: PropValue)
    ensures
        r@ == coerce(value@),
        value@.len() == 0 ==> r@ == PropModel::Text(value@),
{
    proof {
        reveal_strlit("true");
        reveal_strlit("false");
    }
    let v = String::from_str(value);
    if v == String::from_str("true") {
        PropValue::Bool(true)
    } else if v == String::from_str("false") {
        PropValue::Bool(false)
    } else {
        match number_text(value) {
            Some(n) => PropValue::Number(n),
            None => PropValue::Text(v),
        }
    }
}

/// Where `key` first stands among the entries, or -1.
pub open spec fn key_index(ps: Seq<(Seq<char>, PropModel)>, key: Seq<char>) -> int
    decreases ps.len(),
{
    if ps.len() == 0 {
        -1
    } else {
        let i = key_index(ps.drop_last(), key);
        if i >= 0 {
            i
        } else if ps.last().0 == key {
            ps.len() - 1
        } else {
            -1
        }
    }
}

/// The entries after setting `key` to `value`: an existing entry keeps its
/// place and takes the new value, a new key goes last.
pub open spec fn prop_insert(ps: Seq<(Seq<char>, PropModel)>, key: Seq<char>, value: PropModel) -> Seq<
    (Seq<char>, PropModel),
> {
    let i = key_index(ps, key);
    if i >= 0 {
        ps.update(i, (key, value))
    } else {
        ps.push((key, value))
    }
}

/// The entries after setting each pair in turn, its value read by `coerce`.
pub open spec fn insert_all(ps: Seq<(Seq<char>, PropModel)>, pairs: Seq<(String, String)>) -> Seq<
    (Seq<char>, PropModel),
>
    decreases pairs.len(),
{
    if pairs.len() == 0 {
        ps
    } else {
        prop_insert(insert_all(ps, pairs.drop_last()), pairs.last().0@, coerce(pairs.last().1@))
    }
}

proof fn lemma_key_index_first(ps: Seq<(Seq<char>, PropModel)>, key: Seq<char>, i: int)
    requires
        0 <= i < ps.len(),
        ps[i].0 == key,
        forall|j: int| 0 <= j < i ==> ps[j].0 != key,
    ensures
        key_index(ps, key) == i,
    decreases ps.len(),
{
    if i < ps.len() - 1 {
        lemma_key_index_first(ps.drop_last(), key, i);
    } else {
        lemma_key_index_absent(ps.drop_last(), key);
    }
}

proof fn lemma_key_index_absent(ps: Seq<(Seq<char>, PropModel)>, key: Seq<char>)
    requires
        forall|j: int| 0 <= j < ps.len() ==> ps[j].0 != key,
    ensures
        key_index(ps, key) == -1,
    decreases ps.len(),
{
    if ps.len() > 0 {
        lemma_key_index_absent(ps.drop_last(), key);
    }
}

/// Named values, each key once, in the order the keys first came.
#[derive(Debug)]
pub struct Properties {
    pub entries: Vec<(String, PropValue)>,
}

impl View for Properties {
    type V = Seq<(Seq<char>, PropModel)>;

    open spec fn view(&self) -> Seq<(Seq<char>, PropModel)> {
        self.entries@.map_values(|e: (String, PropValue)| (e.0@, e.1@))
    }
}

impl Properties {
    pub fn new() -> (r: Properties)
        ensures
            r@ == Seq::<(Seq<char>, PropModel)>::empty(),
    {
        let r = Properties { entries: Vec::new() };
        assert(r@ =~= Seq::<(Seq<char>, PropModel)>::empty());
        r
    }

    /// Sets `key` to `value`.
    pub fn insert(&mut self, key: String, value: PropValue)
        ensures
            final(self)@ == prop_insert(old(self)@, key@, value@),
    {
        let mut i: usize = 0;
        while i < self.entries.len()
            invariant
                i <= self.entries.len(),
                self@ == old(self)@,
                forall|j: int| 0 <= j < i ==> self@[j].0 != key@,
            decreases self.entries.len() - i,
        {
            if self.entries[i].0 == key {
                proof {
                    lemma_key_index_first(self@, key@, i as int);
                }
                self.entries.set(i, (key, value));
                assert(self@ =~= old(self)@.update(i as int, (key@, value@)));
                return;
            }
            i = i + 1;
        }
        proof {
            lemma_key_index_absent(self@, key@);
        }
        self.entries.push((key, value));
        assert(self@ =~= old(self)@.push((key@, value@)));
    }

    /// Sets each pair in turn, its value read by `parse_value`.
    pub fn insert_all(&mut self, pairs: &Dict)
        ensures
            final(self)@ == insert_all(old(self)@, pairs@),
    {
        let mut i: usize = 0;
        while i < pairs.len()
            invariant
                i <= pairs.len(),
                self@ == insert_all(old(self)@, pairs@.subrange(0, i as int)),
            decreases pairs.len() - i,
        {
            let ghost next = pairs@.subrange(0, i + 1);
            proof {
                assert(next.drop_last() =~= pairs@.subrange(0, i as int));
            }
            let value = parse_value(pairs[i].1.as_str());
            self.insert(pairs[i].0.clone(), value);
            i = i + 1;
        }
        assert(pairs@.subrange(0, pairs.len() as int) =~= pairs@);
    }
}

/// A property value as JSON text.
pub open spec fn value_json(v: PropModel) -> Seq<char> {
    match v {
        PropModel::Bool(b) => if b {
            "true"@
        } else {
            "false"@
        },
        PropModel::Number(n) => n,
        PropModel::Text(s) => json_quoted(s),
        PropModel::List(items) => array_text(items.map_values(|i: Seq<char>| json_quoted(i))),
    }
}

/// The entries as JSON object members.
pub open spec fn entry_members(ps: Seq<(Seq<char>, PropModel)>) -> Seq<Seq<char>> {
    ps.map_values(|e: (Seq<char>, PropModel)| quoted_member_text(e.0, value_json(e.1)))
}

/// The entries as a JSON object.
pub open spec fn properties_json(ps: Seq<(Seq<char>, PropModel)>) -> Seq<char> {
    object_text(entry_members(ps))
}

fn list_to_json(items: &Vec<String>) -> (r: String)
    ensures
        r@ == array_text(texts(items@).map_values(|i: Seq<char>| json_quoted(i))),
{
    let mut quoted: Vec<String> = Vec::new();
    let mut i: usize = 0;
    while i < items.len()
        invariant
            i <= items.len(),
            texts(quoted@) =~= texts(items@.subrange(0, i as int)).map_values(
                |s: Seq<char>| json_quoted(s),
            ),
        decreases items.len() - i,
    {
        let ghost old_quoted = quoted@;
        let q = quote(items[i].as_str());
        quoted.push(q);
        proof {
            let prev = texts(items@.subrange(0, i as int));
            let next = texts(items@.subrange(0, i + 1));
            assert(next =~= prev.push(items@[i as int]@));
            assert(texts(quoted@) =~= texts(old_quoted).push(q@));
        }
        i = i + 1;
    }
    assert(items@.subrange(0, items.len() as int) =~= items@);
    array(&quoted)
}

impl PropValue {
    /// Writes the value as JSON text.
    pub fn to_json(&self) -> (r: String)
        ensures
            r@ == value_json(self@),
    {
        match self {
            PropValue::Bool(b) => if *b {
                String::from_str("true")
            } else {
                String::from_str("false")
            },
            PropValue::Number(n) => n.clone(),
            PropValue::Text(s) => quote(s.as_str()),
            PropValue::List(items) => list_to_json(items),
        }
    }
}

impl Properties {
    /// Writes the entries as a JSON object.
    pub fn to_json(&self) -> (r: String)
        ensures
            r@ == properties_json(self@),
    {
        let mut ms: Vec<String> = Vec::new();
        let mut i: usize = 0;
        while i < self.entries.len()
            invariant
                i <= self.entries.len(),
                texts(ms@) =~= entry_members(self@.subrange(0, i as int)),
            decreases self.entries.len() - i,
        {
            let ghost old_ms = ms@;
            let value = self.entries[i].1.to_json();
            let m = quoted_member(self.entries[i].0.as_str(), value.as_str());
            ms.push(m);
            proof {
                assert(self@.subrange(0, i + 1) =~= self@.subrange(0, i as int).push(self@[i as int]));
                assert(texts(ms@) =~= texts(old_ms).push(m@));
            }
            i = i + 1;
        }
        assert(self@.subrange(0, self.entries.len() as int) =~= self@);
        object(&ms)
    }
}

} // verus!
