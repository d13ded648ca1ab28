//! The raw data model: what a record looks like before it is decoded.
use vstd::prelude::*;
use crate::text::{decimal_value, same_text};

verus! {

/// A number as the serialized form carries it. Two numbers are the same when
/// they are written the same way.
#[derive(Debug)]
pub enum Number {
    /// An integer written without a sign.
    Unsigned(u64),
    /// An integer written with a sign.
    Signed(i64),
    /// A binary64 number, held as its bit pattern.
    Real(u64),
    /// A natural number too large for 64 bits, held as its decimal digits.
    Large(String),
}

/// The mathematical model of a [`Number`].
pub ghost enum NumberView {
    Unsigned(u64),
    Signed(i64),
    Real(u64),
    Large(Seq<char>),
}

impl NumberView {
    /// The natural number that this number is, where it is written as one.
    pub open spec fn natural(self) -> Option<nat> {
        match self {
            NumberView::Unsigned(n) => Some(n as nat),
            NumberView::Large(digits) => Some(decimal_value(digits)),
            _ => None,
        }
    }
}

impl View for Number {
    type V = NumberView;

    open spec fn view(&self) -> NumberView {
        match self {
            Number::Unsigned(n) => NumberView::Unsigned(*n),
            Number::Signed(n) => NumberView::Signed(*n),
            Number::Real(bits) => NumberView::Real(*bits),
            Number::Large(digits) => NumberView::Large(digits@),
        }
    }
}

impl DeepView for Number {
    type V = NumberView;

    open spec fn deep_view(&self) -> NumberView {
        self@
    }
}

impl PartialEq for Number {
    fn eq(&self, other: &Number) -> (same: bool) {
        match (self, other) {
            (Number::Unsigned(a), Number::Unsigned(b)) => *a == *b,
            (Number::Signed(a), Number::Signed(b)) => *a == *b,
            (Number::Real(a), Number::Real(b)) => *a == *b,
            (Number::Large(a), Number::Large(b)) => *a == *b,
            _ => false,
        }
    }
}

impl vstd::std_specs::cmp::PartialEqSpecImpl for Number {
    open spec fn obeys_eq_spec() -> bool {
        true
    }

    /// Two numbers are equal when their models are.
    open spec fn eq_spec(&self, other: &Number) -> bool {
        self@ == other@
    }
}

impl Clone for Number {
    fn clone(&self) -> (copy: Number)
        ensures
            copy@ == self@,
    {
        match self {
            Number::Unsigned(n) => Number::Unsigned(*n),
            Number::Signed(n) => Number::Signed(*n),
            Number::Real(bits) => Number::Real(*bits),
            Number::Large(digits) => Number::Large(digits.clone()),
        }
    }
}

/// One raw value: a scalar, a sequence, or a keyed mapping.
#[derive(Debug, PartialEq)]
pub enum Json {
    Null,
    Bool(bool),
    Number(Number),
    String(String),
    /// A sequence of values.
    Array(Vec<Json>),
    /// A mapping, as its entries in the order in which they were written.
    /// Where a key is repeated, the last entry counts.
    Object(Vec<(String, Json)>),
}

/// The mathematical model of a [`Json`] value.
pub ghost enum JsonView {
    Null,
    Bool(bool),
    Number(NumberView),
    String(Seq<char>),
    Array(Seq<JsonView>),
    Object(Seq<(Seq<char>, JsonView)>),
}

/// The value that the last entry under `key` holds, if any entry has that key.
pub open spec fn lookup<V>(entries: Seq<(Seq<char>, V)>, key: Seq<char>) -> Option<V>
    decreases entries.len(),
{
    if entries.len() == 0 {
        None
    } else if entries.last().0 == key {
        Some(entries.last().1)
    } else {
        lookup(entries.drop_last(), key)
    }
}

impl Json {
    /// The model of this value, taken all the way down.
    pub open spec fn model(&self) -> JsonView
        decreases self,
    {
        match self {
            Json::Null => JsonView::Null,
            Json::Bool(b) => JsonView::Bool(*b),
            Json::Number(n) => JsonView::Number(n@),
            Json::String(s) => JsonView::String(s@),
            Json::Array(items) => JsonView::Array(
                Seq::new(
                    items@.len(),
                    |i: int|
                        if 0 <= i < items@.len() {
                            items@[i].model()
                        } else {
                            JsonView::Null
                        },
                ),
            ),
            Json::Object(entries) => JsonView::Object(
                Seq::new(
                    entries@.len(),
                    |i: int|
                        if 0 <= i < entries@.len() {
                            (entries@[i].0@, entries@[i].1.model())
                        } else {
                            (Seq::empty(), JsonView::Null)
                        },
                ),
            ),
        }
    }

    /// The model of a sequence is the sequence of its items' models.
    pub proof fn lemma_array_model(items: Vec<Json>)
        ensures
            Json::Array(items)@ == JsonView::Array(items.deep_view()),
    {
        assert(Json::Array(items).model()->Array_0 =~= items.deep_view());
    }

    /// The model of a mapping is the sequence of its entries' models.
    pub proof fn lemma_object_model(entries: Vec<(String, Json)>)
        ensures
            Json::Object(entries)@ == JsonView::Object(entries.deep_view()),
    {
        assert(Json::Object(entries).model()->Object_0 =~= entries.deep_view());
    }
}

impl View for Json {
    type V = JsonView;

    open spec fn view(&self) -> JsonView {
        self.model()
    }
}

impl DeepView for Json {
    type V = JsonView;

    open spec fn deep_view(&self) -> JsonView {
        self.model()
    }
}

impl Clone for Json {
    fn clone(&self) -> (copy: Json)
        ensures
            copy@ == self@,
        decreases self,
    {
        match self {
            Json::Null => Json::Null,
            Json::Bool(b) => Json::Bool(*b),
            Json::Number(n) => Json::Number(n.clone()),
            Json::String(s) => Json::String(s.clone()),
            Json::Array(items) => {
                let mut copies: Vec<Json> = Vec::new();
                let mut i: usize = 0;
                while i < items.len()
                    invariant
                        i <= items.len(),
                        copies.len() == i,
                        decreases_to!(self => items),
                        forall|k: int| 0 <= k < i ==> copies@[k]@ == items@[k]@,
                    decreases items.len() - i,
                {
                    let item = items[i].clone();
                    copies.push(item);
                    i += 1;
                }
                assert(Json::Array(copies).model()->Array_0 =~= self.model()->Array_0);
                Json::Array(copies)
            },
            Json::Object(entries) => {
                let mut copies: Vec<(String, Json)> = Vec::new();
                let mut i: usize = 0;
                while i < entries.len()
                    invariant
                        i <= entries.len(),
                        copies.len() == i,
                        decreases_to!(self => entries),
                        forall|k: int|
                            0 <= k < i ==> copies@[k].0@ == entries@[k].0@ && copies@[k].1@
                                == entries@[k].1@,
                    decreases entries.len() - i,
                {
                    let key = entries[i].0.clone();
                    let item = entries[i].1.clone();
                    copies.push((key, item));
                    i += 1;
                }
                assert(Json::Object(copies).model()->Object_0 =~= self.model()->Object_0);
                Json::Object(copies)
            },
        }
    }
}

/// Finds the value of the last entry whose key is `key`.
pub fn find<'a, T: DeepView>(entries: &'a Vec<(String, T)>, key: &str) -> (found: Option<&'a T>)
    ensures
        found.deep_view() == lookup(entries.deep_view(), key@),
{
    let ghost all = entries.deep_view();
    let mut i: usize = entries.len();
    assert(all.subrange(0, i as int) =~= all);
    while i > 0
        invariant
            i <= entries.len(),
            all == entries.deep_view(),
            lookup(all, key@) == lookup(all.subrange(0, i as int), key@),
        decreases i,
    {
        i -= 1;
        proof {
            let upto = all.subrange(0, i + 1);
            assert(upto.drop_last() =~= all.subrange(0, i as int));
            assert(upto.last() == all[i as int]);
            assert(all[i as int] == entries@[i as int].deep_view());
        }
        if same_text(entries[i].0.as_str(), key) {
            return Some(&entries[i].1);
        }
    }
    None
}

} // verus!
