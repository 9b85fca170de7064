//! A JSON value type of the library's own.
//!
//! Response bodies reach the library as values of [`Json`]; the caller
//! (or the surrounding application) is responsible for turning wire
//! bytes into this shape.  Numbers are signed 64-bit integers: every
//! numeric field of the modelled API (durations in milliseconds,
//! popularity scores, disc and track numbers) is an integer on the
//! wire.  Contracts speak about the mathematical mirror [`JsonV`],
//! reached through `@`.

use vstd::prelude::*;

verus! {

use crate::text::str_eq;

/// The mathematical mirror of [`Json`]: strings become `Seq<char>`,
/// vectors become `Seq`.  An object is a sequence of key/value pairs,
/// so that serialization order is part of the value while lookup
/// ([`lookup`]) ignores it.
pub enum JsonV {
    Null,
    Bool(bool),
    Int(i64),
    Str(Seq<char>),
    Arr(Seq<JsonV>),
    Obj(Seq<(Seq<char>, JsonV)>),
}

/// A parsed JSON document, as the surrounding application hands it in.
#[derive(Debug, PartialEq, Eq)]
pub enum Json {
    Null,
    Bool(bool),
    Int(i64),
    Str(String),
    Arr(Vec<Json>),
    Obj(Vec<JsonPair>),
}

/// One `"key": value` member of a JSON object.
#[derive(Debug, PartialEq, Eq)]
pub struct JsonPair {
    pub key: String,
    pub val: Json,
}

/// The views of a sequence of array elements, element by element.
pub open spec fn elems_view(items: Seq<Json>) -> Seq<JsonV>
    decreases items,
{
    if items.len() == 0 {
        Seq::empty()
    } else {
        seq![items[0]@] + elems_view(items.drop_first())
    }
}

/// The views of a sequence of object members, member by member.
pub open spec fn pairs_view(pairs: Seq<JsonPair>) -> Seq<(Seq<char>, JsonV)>
    decreases pairs,
{
    if pairs.len() == 0 {
        Seq::empty()
    } else {
        seq![(pairs[0].key@, pairs[0].val@)] + pairs_view(pairs.drop_first())
    }
}

impl View for Json {
    type V = JsonV;

    open spec fn view(&self) -> JsonV
        decreases self,
    {
        match self {
            Json::Null => JsonV::Null,
            Json::Bool(b) => JsonV::Bool(*b),
            Json::Int(i) => JsonV::Int(*i),
            Json::Str(s) => JsonV::Str(s@),
            Json::Arr(items) => JsonV::Arr(elems_view(items@)),
            Json::Obj(pairs) => JsonV::Obj(pairs_view(pairs@)),
        }
    }
}

/// `elems_view` is a pointwise map over the element sequence.
pub proof fn lemma_elems_view(items: Seq<Json>)
    ensures
        elems_view(items).len() == items.len(),
        forall|i: int| 0 <= i < items.len() ==> #[trigger] elems_view(items)[i] == items[i]@,
    decreases items.len(),
{
    if items.len() > 0 {
        lemma_elems_view(items.drop_first());
        assert(elems_view(items) == seq![items[0]@] + elems_view(items.drop_first()));
        assert(elems_view(items).len() == items.len());
        assert forall|i: int| 0 <= i < items.len() implies #[trigger] elems_view(items)[i] == items[i]@ by {
            if i > 0 {
                assert(items.drop_first()[i - 1] == items[i]);
                assert(elems_view(items)[i] == elems_view(items.drop_first())[i - 1]);
            }
        }
    }
}

/// `pairs_view` is a pointwise map over the member sequence.
pub proof fn lemma_pairs_view(pairs: Seq<JsonPair>)
    ensures
        pairs_view(pairs).len() == pairs.len(),
        forall|i: int|
            0 <= i < pairs.len() ==> #[trigger] pairs_view(pairs)[i] == (
            pairs[i].key@,
            pairs[i].val@,
            ),
    decreases pairs.len(),
{
    if pairs.len() > 0 {
        lemma_pairs_view(pairs.drop_first());
        assert(pairs_view(pairs) == seq![(pairs[0].key@, pairs[0].val@)] + pairs_view(
            pairs.drop_first(),
        ));
        assert forall|i: int|
            0 <= i < pairs.len() implies #[trigger] pairs_view(pairs)[i] == (
            pairs[i].key@,
            pairs[i].val@,
            ) by {
            if i > 0 {
                assert(pairs.drop_first()[i - 1] == pairs[i]);
                assert(pairs_view(pairs)[i] == pairs_view(pairs.drop_first())[i - 1]);
            }
        }
    }
}

/// The value under `key` in an object's pair sequence, taking the first
/// occurrence; `None` when the key is absent.
pub open spec fn lookup(pairs: Seq<(Seq<char>, JsonV)>, key: Seq<char>) -> Option<JsonV>
    decreases pairs.len(),
{
    if pairs.len() == 0 {
        None
    } else if pairs[0].0 == key {
        Some(pairs[0].1)
    } else {
        lookup(pairs.drop_first(), key)
    }
}

/// When the first `i` keys differ from `key` and the key at `i` is
/// `key`, lookup lands exactly on position `i`.
pub proof fn lemma_lookup_at(pairs: Seq<(Seq<char>, JsonV)>, i: int, key: Seq<char>)
    requires
        0 <= i < pairs.len(),
        forall|j: int| 0 <= j < i ==> pairs[j].0 != key,
        pairs[i].0 == key,
    ensures
        lookup(pairs, key) == Some(pairs[i].1),
    decreases i,
{
    if i > 0 {
        lemma_lookup_at(pairs.drop_first(), i - 1, key);
    }
}

/// Looking a key up in a concatenation first searches the front part,
/// then the back part.
pub proof fn lemma_lookup_concat(s1: Seq<(Seq<char>, JsonV)>, s2: Seq<(Seq<char>, JsonV)>, key: Seq<char>)
    ensures
        lookup(s1 + s2, key) == if lookup(s1, key) is Some {
            lookup(s1, key)
        } else {
            lookup(s2, key)
        },
    decreases s1.len(),
{
    if s1.len() == 0 {
        assert(s1 + s2 =~= s2);
    } else {
        assert((s1 + s2).drop_first() =~= s1.drop_first() + s2);
        lemma_lookup_concat(s1.drop_first(), s2, key);
    }
}

/// Looks `key` up among an object's members, first occurrence first.
pub fn lookup_key<'a>(pairs: &'a Vec<JsonPair>, key: &str) -> (r: Option<&'a Json>)
    ensures
        match r {
            Some(v) => lookup(pairs_view(pairs@), key@) == Some(v@),
            None => lookup(pairs_view(pairs@), key@) is None,
        },
{
    let ghost pv = pairs_view(pairs@);
    proof {
        lemma_pairs_view(pairs@);
        assert(pv.skip(0) =~= pv);
    }
    let n: usize = pairs.len();
    for i in 0..n
        invariant
            n == pairs.len(),
            pv == pairs_view(pairs@),
            pv.len() == n,
            forall|j: int| 0 <= j < n ==> pv[j] == (pairs[j].key@, pairs[j].val@),
            forall|j: int| 0 <= j < i ==> pv[j].0 != key@,
            lookup(pv, key@) == lookup(pv.skip(i as int), key@),
    {
        proof {
            assert(pv.skip(i as int)[0] == pv[i as int]);
        }
        if str_eq(pairs[i].key.as_str(), key) {
            return Some(&pairs[i].val);
        }
        proof {
            assert(pv.skip(i as int).drop_first() =~= pv.skip(i + 1));
        }
    }
    proof {
        assert(pv.skip(n as int).len() == 0);
    }
    None
}

impl Json {
    /// Looks `key` up in an object value, first occurrence first.
    /// Returns `None` when the key is absent or `self` is no object.
    pub fn get<'a>(&'a self, key: &str) -> (r: Option<&'a Json>)
        ensures
            match r {
                Some(v) => self@ matches JsonV::Obj(pairs) && lookup(pairs, key@) == Some(v@),
                None => !(self@ matches JsonV::Obj(pairs) && lookup(pairs, key@) is Some),
            },
    {
        match self {
            Json::Obj(pairs) => lookup_key(pairs, key),
            _ => None,
        }
    }
}

} // verus!
