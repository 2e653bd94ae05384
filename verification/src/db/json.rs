//! A JSON value as plain data (`JsonValue`), and `deepmerge`: the recursive merge of two JSON
//! values in which arrays concatenate, objects merge key by key and any other value is replaced.

use vstd::prelude::*;
use vstd::string::*;
use crate::strmap::StrMap;

verus! {

/// A JSON number, held as its decimal text (as a JSON serializer writes it).
#[derive(Debug, Clone, PartialEq, Eq)]
pub struct JsonNumber {
    /// The number's JSON text.
    pub text: String,
}

/// A JSON value. An object's members are keyed by string, in increasing key order.
#[derive(Debug, PartialEq, Eq)]
pub enum JsonValue {
    /// `null`
    Null,
    /// `true` / `false`
    Bool(bool),
    /// A number.
    Number(JsonNumber),
    /// A string.
    String(String),
    /// An array.
    Array(Vec<JsonValue>),
    /// An object.
    Object(StrMap<JsonValue>),
}

/// Whether `b` is a copy of `a`: the same value, texts compared by their characters.
pub open spec fn same_json(a: JsonValue, b: JsonValue) -> bool
    decreases a,
{
    match a {
        JsonValue::Null => b is Null,
        JsonValue::Bool(x) => b == JsonValue::Bool(x),
        JsonValue::Number(n) => b matches JsonValue::Number(m) && m.text@ == n.text@,
        JsonValue::String(s) => b matches JsonValue::String(t) && t@ == s@,
        JsonValue::Array(items) => {
            proof {
                assert forall|i: int| 0 <= i < items@.len() implies decreases_to!(a => #[trigger] items@[i]) by {
                    assert(decreases_to!(a => items));
                    assert(decreases_to!(items => items@));
                    assert(decreases_to!(items@ => items@[i]));
                }
            }
            b matches JsonValue::Array(other) && other@.len() == items@.len() && (forall|i: int|
                0 <= i < items@.len() ==> same_json(#[trigger] items@[i], other@[i]))
        },
        JsonValue::Object(m) => {
            proof {
                m.lemma_view_values_decrease();
                assert(decreases_to!(a => m));
            }
            b matches JsonValue::Object(o) && o@.dom() == m@.dom() && (forall|k: Seq<char>|
                m@.contains_key(k) ==> same_json(#[trigger] m@[k], o@[k]))
        },
    }
}

impl Clone for JsonValue {
    /// A copy of the value, member by member.
    fn clone(&self) -> (r: Self)
        ensures
            same_json(*self, r),
        decreases self,
    {
        match self {
            JsonValue::Null => JsonValue::Null,
            JsonValue::Bool(b) => JsonValue::Bool(*b),
            JsonValue::Number(n) => JsonValue::Number(JsonNumber { text: n.text.clone() }),
            JsonValue::String(s) => JsonValue::String(s.clone()),
            JsonValue::Array(items) => {
                let mut out: Vec<JsonValue> = Vec::new();
                let mut i: usize = 0;
                while i < items.len()
                    invariant
                        *self == JsonValue::Array(*items),
                        i <= items@.len(),
                        out@.len() == i,
                        forall|t: int| 0 <= t < i ==> same_json(#[trigger] items@[t], out@[t]),
                    decreases items.len() - i,
                {
                    proof {
                        assert(decreases_to!(*self => (*self)->Array_0));
                        assert(decreases_to!(*items => items@));
                        assert(decreases_to!(items@ => items@[i as int]));
                    }
                    let c = items[i].clone();
                    out.push(c);
                    i += 1;
                }
                JsonValue::Array(out)
            },
            JsonValue::Object(members) => {
                let mut out: StrMap<JsonValue> = StrMap::new();
                let n = members.len();
                proof {
                    members.lemma_canonical();
                }
                let mut i: usize = 0;
                while i < n
                    invariant
                        *self == JsonValue::Object(*members),
                        n == members.size(),
                        members.shape(),
                        forall|t: int| 0 <= t < n ==> #[trigger] members.values()[t] == members@[members.keys()[t]],
                        i <= n,
                        forall|t: int| 0 <= t < i ==> out@.contains_key(#[trigger] members.keys()[t]),
                        forall|k: Seq<char>| #[trigger] out@.contains_key(k) ==> members@.contains_key(k)
                            && same_json(members@[k], out@[k]),
                    decreases n - i,
                {
                    proof {
                        assert(decreases_to!(*self => (*self)->Object_0));
                        members.lemma_values_decrease(i as int);
                    }
                    let key = members.key_at(i).clone();
                    let value = members.value_at(i).clone();
                    proof {
                        assert(members.values()[i as int] == members@[members.keys()[i as int]]);
                        assert(members@.contains_key(members.keys()[i as int]));
                    }
                    out.insert(key, value);
                    i += 1;
                }
                proof {
                    assert forall|k: Seq<char>| members@.contains_key(k) implies out@.contains_key(k) by {
                        let t = members.keys().index_of(k);
                        assert(members.keys()[t] == k);
                    }
                    assert(out@.dom() =~= members@.dom());
                }
                JsonValue::Object(out)
            },
        }
    }
}

/// Whether `r` is the merge of `source` into `target`: two arrays concatenate; two objects merge
/// key by key, a key of both holding the merge of its two values and a key of one holding that
/// one's value; anything else is replaced by `source`.
pub open spec fn merge_of(target: JsonValue, source: JsonValue, r: JsonValue) -> bool
    decreases target,
{
    match (target, source) {
        (JsonValue::Array(a), JsonValue::Array(b)) => r matches JsonValue::Array(c) && c@ == a@ + b@,
        (JsonValue::Object(a), JsonValue::Object(b)) => {
            proof {
                a.lemma_view_values_decrease();
                assert(decreases_to!(target => a));
            }
            r matches JsonValue::Object(c) && c@.dom() == a@.dom().union(b@.dom()) && (forall|k: Seq<char>|
                a@.contains_key(k) ==> if b@.contains_key(k) {
                    merge_of(#[trigger] a@[k], b@[k], c@[k])
                } else {
                    c@[k] == a@[k]
                }) && (forall|k: Seq<char>| !a@.contains_key(k) && b@.contains_key(k) ==> #[trigger] c@[k] == b@[k])
        },
        _ => r == source,
    }
}

/// Where target and source are not both arrays and not both objects, the source replaces the
/// target.
pub proof fn lemma_merge_other_kinds_take_source(target: JsonValue, source: JsonValue, r: JsonValue)
    requires
        merge_of(target, source, r),
        !(target is Array && source is Array),
        !(target is Object && source is Object),
    ensures
        r == source,
{
}

/// Merging two arrays gives the target's items followed by the source's.
pub proof fn lemma_merge_arrays_concatenate(a: Vec<JsonValue>, b: Vec<JsonValue>, r: JsonValue)
    requires
        merge_of(JsonValue::Array(a), JsonValue::Array(b), r),
    ensures
        r matches JsonValue::Array(c) && c@.len() == a@.len() + b@.len() && c@.subrange(0, a@.len() as int) == a@
            && c@.subrange(a@.len() as int, c@.len() as int) == b@,
{
    let c = r->Array_0;
    assert(c@.subrange(0, a@.len() as int) =~= a@);
    assert(c@.subrange(a@.len() as int, c@.len() as int) =~= b@);
}

/// Merging two objects keeps every key of either: the result's keys are the union of theirs.
pub proof fn lemma_merge_objects_keys(a: StrMap<JsonValue>, b: StrMap<JsonValue>, r: JsonValue)
    requires
        merge_of(JsonValue::Object(a), JsonValue::Object(b), r),
    ensures
        r matches JsonValue::Object(c) && forall|k: Seq<char>|
            #[trigger] c@.contains_key(k) <==> a@.contains_key(k) || b@.contains_key(k),
{
}

/// Merging objects merges the members of a key both hold with the same merge, whatever their
/// kind: the result's member is the merge of the target's member and the source's.
pub proof fn lemma_merge_shared_key_recurses(a: StrMap<JsonValue>, b: StrMap<JsonValue>, r: JsonValue, k: Seq<char>)
    requires
        merge_of(JsonValue::Object(a), JsonValue::Object(b), r),
        a@.contains_key(k),
        b@.contains_key(k),
    ensures
        r matches JsonValue::Object(c) && c@.contains_key(k) && merge_of(a@[k], b@[k], c@[k]),
{
}

/// Two arrays under a key both objects hold concatenate: the target's items, then the source's.
pub proof fn lemma_merge_shared_arrays_concatenate(
    a: StrMap<JsonValue>,
    b: StrMap<JsonValue>,
    r: JsonValue,
    k: Seq<char>,
)
    requires
        merge_of(JsonValue::Object(a), JsonValue::Object(b), r),
        a@.contains_key(k) && a@[k] is Array,
        b@.contains_key(k) && b@[k] is Array,
    ensures
        r matches JsonValue::Object(c) && c@[k] matches JsonValue::Array(items) && items@ == a@[k]->Array_0@
            + b@[k]->Array_0@,
{
    lemma_merge_shared_key_recurses(a, b, r, k);
}

/// A key only one object holds keeps that object's member.
pub proof fn lemma_merge_unshared_key_kept(a: StrMap<JsonValue>, b: StrMap<JsonValue>, r: JsonValue, k: Seq<char>)
    requires
        merge_of(JsonValue::Object(a), JsonValue::Object(b), r),
        a@.contains_key(k) != b@.contains_key(k),
    ensures
        r matches JsonValue::Object(c) && c@.contains_key(k) && c@[k] == if a@.contains_key(k) {
            a@[k]
        } else {
            b@[k]
        },
{
}

/// Merging an empty object into an object leaves its members as they are.
pub proof fn lemma_merge_empty_object(a: StrMap<JsonValue>, e: StrMap<JsonValue>, r: JsonValue)
    requires
        e@ == Map::<Seq<char>, JsonValue>::empty(),
        merge_of(JsonValue::Object(a), JsonValue::Object(e), r),
    ensures
        r matches JsonValue::Object(c) && c@ == a@,
{
    let c = r->Object_0;
    assert(c@ =~= a@);
}

/// Merging an empty array into an array leaves its items as they are.
pub proof fn lemma_merge_empty_array(a: Vec<JsonValue>, e: Vec<JsonValue>, r: JsonValue)
    requires
        e@.len() == 0,
        merge_of(JsonValue::Array(a), JsonValue::Array(e), r),
    ensures
        r matches JsonValue::Array(c) && c@ == a@,
{
    let c = r->Array_0;
    assert(c@ =~= a@);
}

/// A source that is neither an array nor an object replaces the target, whatever it is.
pub proof fn lemma_merge_scalar_source(target: JsonValue, source: JsonValue, r: JsonValue)
    requires
        merge_of(target, source, r),
        !(source is Array),
        !(source is Object),
    ensures
        r == source,
{
}

/// Merge `source` into `target`: arrays concatenate, objects merge key by key (recursing on the
/// keys they share), and any other value is replaced by `source`.
pub fn deepmerge(target: JsonValue, source: JsonValue) -> (r: JsonValue)
    ensures
        merge_of(target, source, r),
    decreases target,
{
    let ghost t0 = target;
    let ghost s0 = source;
    match target {
        JsonValue::Array(t) => match source {
            JsonValue::Array(s) => {
                let mut t = t;
                let mut s = s;
                t.append(&mut s);
                JsonValue::Array(t)
            },
            other => other,
        },
        JsonValue::Object(t) => match source {
            JsonValue::Object(s) => {
                let ghost a = t@;
                let ghost b = s@;
                proof {
                    t.lemma_view_values_decrease();
                    assert(decreases_to!(t0 => t));
                }
                let n = s.len();
                let ghost keys = s.keys();
                proof {
                    s.lemma_canonical();
                }
                let ghost values = s.values();
                let mut rest = s.into_entries();
                let mut out = t;
                let mut i: usize = 0;
                while rest.len() > 0
                    invariant
                        keys.len() == n,
                        crate::strmap::keys_increasing(keys),
                        forall|k: Seq<char>| keys.contains(k) <==> b.contains_key(k),
                        forall|j: int| 0 <= j < n ==> #[trigger] values[j] == b[keys[j]],
                        t0 == target,
                        forall|k: Seq<char>| a.contains_key(k) ==> decreases_to!(t0 => #[trigger] a[k]),
                        i <= n,
                        rest@.len() == n - i,
                        forall|j: int| 0 <= j < rest@.len() ==> (#[trigger] rest@[j]).0@ == keys[j + i] && rest@[j].1 == values[j + i],
                        out@.dom() == a.dom().union(keys.take(i as int).to_set()),
                        forall|k: Seq<char>| #[trigger] out@.contains_key(k) && !keys.take(i as int).contains(k) ==> out@[k] == a[k],
                        forall|k: Seq<char>| keys.take(i as int).contains(k) ==> if a.contains_key(k) {
                            merge_of(a[k], b[k], #[trigger] out@[k])
                        } else {
                            out@[k] == b[k]
                        },
                    decreases rest.len(),
                {
                    let (key, value) = rest.remove(0);
                    let ghost k0 = key@;
                    proof {
                        assert(k0 == keys[i as int]);
                        assert(keys.contains(k0));
                        assert(value == b[k0]);
                        assert(!keys.take(i as int).contains(k0)) by {
                            if keys.take(i as int).contains(k0) {
                                let p = choose|p: int| 0 <= p < i && #[trigger] keys.take(i as int)[p] == k0;
                                assert(crate::text::text_lt(keys[p], keys[i as int]));
                                crate::text::lemma_text_lt_irreflexive(k0);
                            }
                        }
                        assert(keys.take(i + 1) =~= keys.take(i as int).push(k0));
                    }
                    let ghost before = out@;
                    match out.remove(key.as_str()) {
                        Some(existing) => {
                            proof {
                                assert(before.contains_key(k0));
                                assert(a.contains_key(k0));
                                assert(existing == a[k0]);
                                assert(decreases_to!(target => existing));
                            }
                            let merged = deepmerge(existing, value);
                            out.insert(key, merged);
                        },
                        None => {
                            out.insert(key, value);
                        },
                    }
                    i += 1;
                    proof {
                        assert(keys.take(i as int)[i - 1] == k0);
                        assert forall|x: Seq<char>| keys.take(i as int).contains(x) <==> (keys.take(i - 1).contains(x) || x == k0) by {
                            if keys.take(i as int).contains(x) {
                                let p = choose|p: int| 0 <= p < i && #[trigger] keys.take(i as int)[p] == x;
                                if p < i - 1 {
                                    assert(keys.take(i - 1)[p] == x);
                                }
                            }
                            if keys.take(i - 1).contains(x) {
                                let p = choose|p: int| 0 <= p < i - 1 && #[trigger] keys.take(i - 1)[p] == x;
                                assert(keys.take(i as int)[p] == x);
                            }
                        }
                        assert(keys.take(i as int).to_set() =~= keys.take(i - 1).to_set().insert(k0));
                        assert(out@.dom() =~= a.dom().union(keys.take(i as int).to_set()));
                        assert(keys.take(i as int).contains(k0));
                        assert forall|k: Seq<char>| #[trigger] out@.contains_key(k) && !keys.take(i as int).contains(k) implies out@[k] == a[k] by {
                            assert(k != k0);
                            assert(!keys.take(i - 1).contains(k));
                            assert(before.contains_key(k));
                        }
                        assert forall|k: Seq<char>| keys.take(i as int).contains(k) implies if a.contains_key(k) {
                            merge_of(a[k], b[k], #[trigger] out@[k])
                        } else {
                            out@[k] == b[k]
                        } by {
                            if k != k0 {
                                assert(keys.take(i - 1).contains(k));
                            }
                        }
                    }
                }
                proof {
                    assert(keys.take(n as int) =~= keys);
                    assert(out@.dom() =~= a.dom().union(b.dom()));
                    assert forall|k: Seq<char>| a.contains_key(k) implies if b.contains_key(k) {
                        merge_of(#[trigger] a[k], b[k], out@[k])
                    } else {
                        out@[k] == a[k]
                    } by {
                        if !b.contains_key(k) {
                            assert(!keys.contains(k));
                            assert(out@.contains_key(k));
                        }
                    }
                    assert forall|k: Seq<char>| !a.contains_key(k) && b.contains_key(k) implies #[trigger] out@[k] == b[k] by {
                        assert(keys.contains(k));
                    }
                }
                JsonValue::Object(out)
            },
            other => other,
        },
        _ => source,
    }
}

} // verus!
