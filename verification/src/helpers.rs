//! Structural equality of JSON values: the relation used by the `const` and
//! `enum` keywords. Scalars compare by value, numbers by mathematical value
//! (so an integer-tagged `1` equals a float-tagged `1.0`), arrays element by
//! element in order, and objects by key set, ignoring entry order.

use vstd::prelude::*;

use crate::numeric::{num_cmp, Cmp};
use crate::value::{arr_view, obj_view, Json, Value};

verus! {

broadcast use {vstd::std_specs::vec::group_vec_axioms, crate::value::group_value_views};

/// Whether some entry of `entries` has the key `key`.
pub open spec fn has_key(entries: Seq<(Seq<char>, Json)>, key: Seq<char>) -> bool {
    exists|i: int| 0 <= i < entries.len() && (#[trigger] entries[i]).0 == key
}

/// Whether the entry `e` is matched in `y`: some entry of `y` carries the
/// same key and a structurally equal value.
pub open spec fn entry_matched(e: (Seq<char>, Json), y: Seq<(Seq<char>, Json)>) -> bool
    decreases e, 0int,
{
    exists|j: int|
        {
            &&& 0 <= j < y.len()
            &&& (#[trigger] y[j]).0 == e.0
            &&& values_equal(e.1, y[j].1)
        }
}

/// Structural equality of two objects: the same number of entries, every
/// entry of `x` matched by key in `y`, and every key of `y` present in `x`.
/// For well-formed objects (distinct keys) this is equality of the key sets
/// with structurally equal values key by key, whatever the entry order.
pub open spec fn objects_equal(x: Seq<(Seq<char>, Json)>, y: Seq<(Seq<char>, Json)>) -> bool
    decreases x, 1int,
{
    &&& x.len() == y.len()
    &&& forall|i: int| 0 <= i < x.len() ==> entry_matched(#[trigger] x[i], y)
    &&& forall|j: int| 0 <= j < y.len() ==> has_key(x, (#[trigger] y[j]).0)
}

/// Structural equality of two arrays: element by element, in order.
pub open spec fn arrays_equal(x: Seq<Json>, y: Seq<Json>) -> bool
    decreases x, 1int,
{
    &&& x.len() == y.len()
    &&& forall|i: int| 0 <= i < x.len() ==> values_equal(#[trigger] x[i], y[i])
}

/// Structural equality of two JSON values.
pub open spec fn values_equal(a: Json, b: Json) -> bool
    decreases a, 2int,
{
    match (a, b) {
        (Json::Null, Json::Null) => true,
        (Json::Bool(x), Json::Bool(y)) => x == y,
        (Json::String(x), Json::String(y)) => x == y,
        (Json::Array(x), Json::Array(y)) => arrays_equal(x, y),
        (Json::Object(x), Json::Object(y)) => objects_equal(x, y),
        _ => a.is_number() && b.is_number() && a.num() == b.num(),
    }
}

/// The index of the first entry carrying `key`, if any.
fn find_index(entries: &Vec<(String, Value)>, key: &String) -> (o: Option<usize>)
    ensures
        match o {
            Some(j) => 0 <= j < entries@.len() && entries@[j as int].0@ == key@,
            None => forall|t: int| 0 <= t < entries@.len() ==> (#[trigger] entries@[t]).0@ != key@,
        },
{
    let mut j: usize = 0;
    while j < entries.len()
        invariant
            j <= entries@.len(),
            forall|t: int| 0 <= t < j ==> (#[trigger] entries@[t]).0@ != key@,
        decreases entries@.len() - j,
    {
        if entries[j].0.eq(key) {
            return Some(j);
        }
        j = j + 1;
    }
    None
}

/// Decides structural equality of two well-formed values.
#[verifier::loop_isolation(false)]
pub fn equal(a: &Value, b: &Value) -> (r: bool)
    requires
        a@.wf(),
        b@.wf(),
    ensures
        r == values_equal(a@, b@),
    decreases *a,
{
    match (a, b) {
        (Value::Null, Value::Null) => true,
        (Value::Bool(x), Value::Bool(y)) => *x == *y,
        (Value::String(x), Value::String(y)) => x.eq(y),
        (Value::Int(_), Value::Int(_))
        | (Value::Int(_), Value::Float(_))
        | (Value::Float(_), Value::Int(_))
        | (Value::Float(_), Value::Float(_)) => match num_cmp(a, b) {
            Cmp::Equal => true,
            _ => false,
        },
        (Value::Array(x), Value::Array(y)) => {
            let ghost sx = arr_view(x@);
            let ghost sy = arr_view(y@);
            if x.len() != y.len() {
                return false;
            }
            let mut i: usize = 0;
            while i < x.len()
                invariant
                    i <= x@.len(),
                    forall|t: int| 0 <= t < i ==> values_equal(#[trigger] sx[t], sy[t]),
                decreases x@.len() - i,
            {
                proof {
                    assert(sx[i as int] == x@[i as int]@);
                    assert(sy[i as int] == y@[i as int]@);
                }
                if !equal(&x[i], &y[i]) {
                    proof {
                        assert(!arrays_equal(sx, sy));
                    }
                    return false;
                }
                i = i + 1;
            }
            proof {
                assert(arrays_equal(sx, sy));
            }
            true
        },
        (Value::Object(x), Value::Object(y)) => {
            let ghost sx = obj_view(x@);
            let ghost sy = obj_view(y@);
            if x.len() != y.len() {
                return false;
            }
            let mut i: usize = 0;
            while i < x.len()
                invariant
                    i <= x@.len(),
                    forall|t: int| 0 <= t < i ==> entry_matched(#[trigger] sx[t], sy),
                decreases x@.len() - i,
            {
                proof {
                    assert(sx[i as int] == (x@[i as int].0@, x@[i as int].1@));
                }
                match find_index(y, &x[i].0) {
                    None => {
                        proof {
                            assert(forall|j: int|
                                0 <= j < sy.len() ==> (#[trigger] sy[j]).0 != sx[i as int].0);
                            assert(!entry_matched(sx[i as int], sy));
                            assert(!objects_equal(sx, sy));
                        }
                        return false;
                    },
                    Some(j) => {
                        proof {
                            assert(sy[j as int] == (y@[j as int].0@, y@[j as int].1@));
                        }
                        if !equal(&x[i].1, &y[j].1) {
                            proof {
                                assert forall|j2: int|
                                    0 <= j2 < sy.len() && (#[trigger] sy[j2]).0 == sx[
                                    i as int].0 implies !values_equal(sx[i as int].1, sy[j2].1) by {
                                    assert(sy[j2].0 == sy[j as int].0);
                                    assert(j2 == j as int);
                                }
                                assert(!entry_matched(sx[i as int], sy));
                                assert(!objects_equal(sx, sy));
                            }
                            return false;
                        }
                        proof {
                            assert(entry_matched(sx[i as int], sy));
                        }
                    },
                }
                i = i + 1;
            }
            let mut j: usize = 0;
            while j < y.len()
                invariant
                    j <= y@.len(),
                    forall|t: int| 0 <= t < j ==> has_key(sx, (#[trigger] sy[t]).0),
                decreases y@.len() - j,
            {
                proof {
                    assert(sy[j as int] == (y@[j as int].0@, y@[j as int].1@));
                }
                match find_index(x, &y[j].0) {
                    None => {
                        proof {
                            assert(forall|t: int|
                                0 <= t < sx.len() ==> (#[trigger] sx[t]).0 != sy[j as int].0);
                            assert(!has_key(sx, sy[j as int].0));
                            assert(!objects_equal(sx, sy));
                        }
                        return false;
                    },
                    Some(w) => {
                        proof {
                            assert(sx[w as int].0 == sy[j as int].0);
                            assert(has_key(sx, sy[j as int].0));
                        }
                    },
                }
                j = j + 1;
            }
            proof {
                assert(objects_equal(sx, sy));
            }
            true
        },
        _ => false,
    }
}

/// Compares a string slice against a keyword or type name.
pub(crate) fn str_is(s: &str, lit: &str) -> (r: bool)
    ensures
        r == (s@ == lit@),
{
    let a = s.to_owned();
    let b = lit.to_owned();
    a.eq(&b)
}

/// Structural equality is reflexive.
pub proof fn lemma_equal_refl(a: Json)
    ensures
        values_equal(a, a),
    decreases a,
{
    match a {
        Json::Array(x) => {
            assert forall|i: int| 0 <= i < x.len() implies values_equal(#[trigger] x[i], x[i]) by {
                lemma_equal_refl(x[i]);
            }
            assert(arrays_equal(x, x));
        },
        Json::Object(x) => {
            assert forall|i: int| 0 <= i < x.len() implies entry_matched(#[trigger] x[i], x) by {
                lemma_equal_refl(x[i].1);
                assert(x[i].0 == x[i].0 && values_equal(x[i].1, x[i].1));
            }
            assert forall|j: int| 0 <= j < x.len() implies has_key(x, (#[trigger] x[j]).0) by {
                assert(x[j].0 == x[j].0);
            }
            assert(objects_equal(x, x));
        },
        _ => {},
    }
}

/// Structural equality of well-formed values is symmetric.
pub proof fn lemma_equal_symm(a: Json, b: Json)
    requires
        a.wf(),
        b.wf(),
        values_equal(a, b),
    ensures
        values_equal(b, a),
    decreases a,
{
    match (a, b) {
        (Json::Array(x), Json::Array(y)) => {
            assert(arrays_equal(x, y));
            assert forall|i: int| 0 <= i < y.len() implies values_equal(#[trigger] y[i], x[i]) by {
                assert(values_equal(x[i], y[i]));
                lemma_equal_symm(x[i], y[i]);
            }
            assert(arrays_equal(y, x));
        },
        (Json::Object(x), Json::Object(y)) => {
            assert(objects_equal(x, y));
            assert forall|j: int| 0 <= j < y.len() implies entry_matched(#[trigger] y[j], x) by {
                assert(has_key(x, y[j].0));
                let i = choose|i: int| 0 <= i < x.len() && (#[trigger] x[i]).0 == y[j].0;
                assert(entry_matched(x[i], y));
                let j2 = choose|j2: int|
                    {
                        &&& 0 <= j2 < y.len()
                        &&& (#[trigger] y[j2]).0 == x[i].0
                        &&& values_equal(x[i].1, y[j2].1)
                    };
                assert(y[j2].0 == y[j].0);
                assert(j2 == j);
                lemma_equal_symm(x[i].1, y[j].1);
                assert(0 <= i < x.len() && x[i].0 == y[j].0 && values_equal(y[j].1, x[i].1));
            }
            assert forall|i: int| 0 <= i < x.len() implies has_key(y, (#[trigger] x[i]).0) by {
                assert(entry_matched(x[i], y));
                let j = choose|j: int|
                    {
                        &&& 0 <= j < y.len()
                        &&& (#[trigger] y[j]).0 == x[i].0
                        &&& values_equal(x[i].1, y[j].1)
                    };
                assert(y[j].0 == x[i].0);
            }
            assert(objects_equal(y, x));
        },
        _ => {},
    }
}

/// Structural equality of well-formed values is transitive.
pub proof fn lemma_equal_trans(a: Json, b: Json, c: Json)
    requires
        a.wf(),
        b.wf(),
        c.wf(),
        values_equal(a, b),
        values_equal(b, c),
    ensures
        values_equal(a, c),
    decreases a,
{
    match (a, b, c) {
        (Json::Array(x), Json::Array(y), Json::Array(z)) => {
            assert(arrays_equal(x, y));
            assert(arrays_equal(y, z));
            assert forall|i: int| 0 <= i < x.len() implies values_equal(#[trigger] x[i], z[i]) by {
                assert(values_equal(x[i], y[i]));
                assert(values_equal(y[i], z[i]));
                lemma_equal_trans(x[i], y[i], z[i]);
            }
            assert(arrays_equal(x, z));
        },
        (Json::Object(x), Json::Object(y), Json::Object(z)) => {
            assert(objects_equal(x, y));
            assert(objects_equal(y, z));
            assert forall|i: int| 0 <= i < x.len() implies entry_matched(#[trigger] x[i], z) by {
                assert(entry_matched(x[i], y));
                let j = choose|j: int|
                    {
                        &&& 0 <= j < y.len()
                        &&& (#[trigger] y[j]).0 == x[i].0
                        &&& values_equal(x[i].1, y[j].1)
                    };
                assert(entry_matched(y[j], z));
                let j2 = choose|j2: int|
                    {
                        &&& 0 <= j2 < z.len()
                        &&& (#[trigger] z[j2]).0 == y[j].0
                        &&& values_equal(y[j].1, z[j2].1)
                    };
                lemma_equal_trans(x[i].1, y[j].1, z[j2].1);
                assert(0 <= j2 < z.len() && z[j2].0 == x[i].0 && values_equal(x[i].1, z[j2].1));
            }
            assert forall|j: int| 0 <= j < z.len() implies has_key(x, (#[trigger] z[j]).0) by {
                assert(has_key(y, z[j].0));
                let jy = choose|jy: int| 0 <= jy < y.len() && (#[trigger] y[jy]).0 == z[j].0;
                assert(has_key(x, y[jy].0));
            }
            assert(objects_equal(x, z));
        },
        _ => {},
    }
}

/// Decides well-formedness of a value: every float within the ranges of a
/// finite double, every object's keys distinct. Hosts that build values by
/// hand can establish the precondition of the engine with this check.
#[verifier::loop_isolation(false)]
pub fn check_wf(v: &Value) -> (r: bool)
    ensures
        r == v@.wf(),
    decreases *v,
{
    match v {
        Value::Null => true,
        Value::Bool(_) => true,
        Value::Int(_) => true,
        Value::String(_) => true,
        Value::Float(b) => b.mant < 0x20000000000000 && -1074 <= b.exp && b.exp <= 971,
        Value::Array(items) => {
            let ghost s = arr_view(items@);
            let mut k: usize = 0;
            while k < items.len()
                invariant
                    k <= items@.len(),
                    forall|t: int| 0 <= t < k ==> (#[trigger] s[t]).wf(),
                decreases items@.len() - k,
            {
                proof {
                    assert(s[k as int] == items@[k as int]@);
                }
                if !check_wf(&items[k]) {
                    proof {
                        assert(!Json::Array(s).wf());
                    }
                    return false;
                }
                k = k + 1;
            }
            proof {
                assert(Json::Array(s).wf());
            }
            true
        },
        Value::Object(entries) => {
            let ghost s = obj_view(entries@);
            let mut k: usize = 0;
            while k < entries.len()
                invariant
                    k <= entries@.len(),
                    forall|t: int| 0 <= t < k ==> (#[trigger] s[t]).1.wf(),
                decreases entries@.len() - k,
            {
                proof {
                    assert(s[k as int] == (entries@[k as int].0@, entries@[k as int].1@));
                }
                if !check_wf(&entries[k].1) {
                    proof {
                        assert(!Json::Object(s).wf());
                    }
                    return false;
                }
                k = k + 1;
            }
            let mut i: usize = 1;
            while i < entries.len()
                invariant
                    1 <= i,
                    forall|t1: int, t2: int|
                        0 <= t1 < t2 < i ==> (#[trigger] s[t1]).0 != (#[trigger] s[t2]).0,
                decreases entries@.len() - i,
            {
                let mut j: usize = 0;
                while j < i
                    invariant
                        j <= i,
                        forall|t: int| 0 <= t < j ==> (#[trigger] s[t]).0 != s[i as int].0,
                    decreases i - j,
                {
                    proof {
                        assert(s[j as int] == (entries@[j as int].0@, entries@[j as int].1@));
                        assert(s[i as int] == (entries@[i as int].0@, entries@[i as int].1@));
                    }
                    if entries[j].0.eq(&entries[i].0) {
                        proof {
                            assert(s[j as int].0 == s[i as int].0);
                            assert(!Json::Object(s).wf());
                        }
                        return false;
                    }
                    j = j + 1;
                }
                i = i + 1;
            }
            proof {
                assert(Json::Object(s).wf());
            }
            true
        },
    }
}

} // verus!




