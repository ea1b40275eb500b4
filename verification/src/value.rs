//! The JSON value model: an immutable recursive sum type with numbers tagged
//! as integer-origin or float-origin, its ghost mirror used by every
//! contract, and the specification of a number's exact mathematical value.

use vstd::arithmetic::power2::pow2;
use vstd::prelude::*;

verus! {

broadcast use vstd::std_specs::vec::group_vec_axioms;

/// A finite IEEE 754 double, held exactly as sign, integral mantissa and
/// binary exponent: the represented value is `(-1)^neg * mant * 2^exp`.
///
/// Every finite double can be written this way with `mant < 2^53` and
/// `-1074 <= exp <= 971`; the representation is not required to be canonical
/// (the mantissa may be even), only to lie in those ranges.
#[derive(Clone, Copy)]
pub struct Binary64 {
    pub neg: bool,
    pub mant: u64,
    pub exp: i32,
}

/// A JSON value. Numbers keep the integer/float distinction made when the
/// value was built, because the `integer` type test depends on it.
pub enum Value {
    Null,
    Bool(bool),
    Int(i64),
    Float(Binary64),
    String(String),
    Array(Vec<Value>),
    Object(Vec<(String, Value)>),
}

/// The mathematical shape of a [`Value`]: what every contract of this crate
/// speaks about. An object is a sequence of key-value pairs in insertion
/// order; well-formed objects have distinct keys.
pub ghost enum Json {
    Null,
    Bool(bool),
    Int(int),
    Float(Binary64),
    String(Seq<char>),
    Array(Seq<Json>),
    Object(Seq<(Seq<char>, Json)>),
}

/// The ghost mirror of a sequence of values.
pub open spec fn arr_view(items: Seq<Value>) -> Seq<Json>
    decreases items,
{
    Seq::new(
        items.len(),
        |i: int|
            if 0 <= i < items.len() {
                items[i]@
            } else {
                Json::Null
            },
    )
}

/// The ghost mirror of a sequence of object entries.
pub open spec fn obj_view(entries: Seq<(String, Value)>) -> Seq<(Seq<char>, Json)>
    decreases entries,
{
    Seq::new(
        entries.len(),
        |i: int|
            if 0 <= i < entries.len() {
                (entries[i].0@, entries[i].1@)
            } else {
                (Seq::empty(), Json::Null)
            },
    )
}

impl View for Value {
    type V = Json;

    open spec fn view(&self) -> Json
        decreases self,
    {
        match self {
            Value::Null => Json::Null,
            Value::Bool(b) => Json::Bool(*b),
            Value::Int(i) => Json::Int(*i as int),
            Value::Float(f) => Json::Float(*f),
            Value::String(s) => Json::String(s@),
            Value::Array(items) => Json::Array(arr_view(items@)),
            Value::Object(entries) => Json::Object(obj_view(entries@)),
        }
    }
}

/// How a value's ghost mirror is built from its parts. The mirror is defined
/// by recursion through sequence constructions, which the solver does not
/// unfold on its own; this shape lemma stands in for the definition.
pub broadcast proof fn lemma_view_shape(v: Value)
    ensures
        v matches Value::Null ==> (#[trigger] v@) == Json::Null,
        v matches Value::Bool(b) ==> v@ == Json::Bool(b),
        v matches Value::Int(i) ==> v@ == Json::Int(i as int),
        v matches Value::Float(f) ==> v@ == Json::Float(f),
        v matches Value::String(s) ==> v@ == Json::String(s@),
        v matches Value::Array(items) ==> v@ == Json::Array(arr_view(items@)),
        v matches Value::Object(entries) ==> v@ == Json::Object(obj_view(entries@)),
{
    reveal_with_fuel(<Value as View>::view, 1);
}

/// Length and elements of a mirrored value sequence.
pub broadcast proof fn lemma_arr_view(items: Seq<Value>)
    ensures
        (#[trigger] arr_view(items)).len() == items.len(),
        forall|i: int| 0 <= i < items.len() ==> #[trigger] arr_view(items)[i] == items[i]@,
{
    reveal_with_fuel(arr_view, 1);
}

/// Length and elements of a mirrored entry sequence.
pub broadcast proof fn lemma_obj_view(entries: Seq<(String, Value)>)
    ensures
        (#[trigger] obj_view(entries)).len() == entries.len(),
        forall|i: int|
            0 <= i < entries.len() ==> #[trigger] obj_view(entries)[i] == (
            entries[i].0@,
            entries[i].1@,
        ),
{
    reveal_with_fuel(obj_view, 1);
}

/// What well-formedness means for an array, spelled out for the solver.
pub broadcast proof fn lemma_wf_array(items: Seq<Json>)
    ensures
        (#[trigger] Json::Array(items).wf()) <==> forall|i: int|
            0 <= i < items.len() ==> (#[trigger] items[i]).wf(),
{
    reveal_with_fuel(Json::wf, 2);
    if Json::Array(items).wf() {
        assert forall|i: int| 0 <= i < items.len() implies (#[trigger] items[i]).wf() by {
            let v = Json::Array(items);
            assert(v->Array_0 == items);
            assert(v->Array_0[i].wf());
        }
    }
}

/// What well-formedness means for an object, spelled out for the solver.
pub broadcast proof fn lemma_wf_object(entries: Seq<(Seq<char>, Json)>)
    ensures
        (#[trigger] Json::Object(entries).wf()) <==> {
            &&& forall|i: int, j: int|
                0 <= i < j < entries.len() ==> (#[trigger] entries[i]).0 != (
                #[trigger] entries[j]).0
            &&& forall|i: int| 0 <= i < entries.len() ==> (#[trigger] entries[i]).1.wf()
        },
{
    reveal_with_fuel(Json::wf, 2);
    if Json::Object(entries).wf() {
        let v = Json::Object(entries);
        assert(v->Object_0 == entries);
        assert forall|i: int| 0 <= i < entries.len() implies (#[trigger] entries[i]).1.wf() by {
            assert(v->Object_0[i].1.wf());
        }
        assert forall|i: int, j: int|
            0 <= i < j < entries.len() implies (#[trigger] entries[i]).0 != (
        #[trigger] entries[j]).0 by {
            assert(v->Object_0[i].0 != v->Object_0[j].0);
        }
    }
}

/// Well-formedness of the scalar values, spelled out for the solver.
pub broadcast proof fn lemma_wf_scalar(v: Json)
    ensures
        (#[trigger] v.wf()) ==> match v {
            Json::Int(i) => i64::MIN <= i <= i64::MAX,
            Json::Float(b) => b.wf(),
            _ => true,
        },
        v is Null || v is Bool || v is String ==> v.wf(),
        v matches Json::Int(i) && i64::MIN <= i <= i64::MAX ==> v.wf(),
        v matches Json::Float(b) && b.wf() ==> v.wf(),
{
    reveal_with_fuel(Json::wf, 2);
}

/// Every fact of this module that ties a value to its ghost mirror or
/// unfolds well-formedness.
pub broadcast group group_value_views {
    lemma_view_shape,
    lemma_arr_view,
    lemma_obj_view,
    lemma_wf_array,
    lemma_wf_object,
    lemma_wf_scalar,
}

/// The value `(-1)^neg * mant * 2^exp`, scaled by `2^1074` so that every
/// number in the ranges of a finite double (and every 64-bit integer, with
/// `exp == 0`) maps to a mathematical integer.
pub open spec fn scaled_of(neg: bool, mant: u64, exp: i32) -> int {
    let mag = mant * pow2((exp + 1074) as nat);
    if neg {
        -mag
    } else {
        mag as int
    }
}

impl Binary64 {
    /// The ranges of a finite double's mantissa and exponent.
    pub open spec fn wf(self) -> bool {
        self.mant < 0x20000000000000 && -1074 <= self.exp <= 971
    }

    /// The represented value, scaled by `2^1074` so that it is an integer.
    pub open spec fn scaled(self) -> int {
        scaled_of(self.neg, self.mant, self.exp)
    }

    /// Whether the represented value is a mathematical integer, that is,
    /// whether its fractional part is zero.
    pub open spec fn is_integral(self) -> bool {
        self.scaled() % (pow2(1074) as int) == 0
    }
}

impl Json {
    /// Whether this value is a number (integer-tagged or float-tagged).
    pub open spec fn is_number(self) -> bool {
        self is Int || self is Float
    }

    /// The mathematical value of a number, scaled by `2^1074` so that every
    /// representable number maps to an integer. Two numbers are equal, or
    /// ordered, exactly as their scaled values are.
    pub open spec fn num(self) -> int
        recommends
            self.is_number(),
    {
        match self {
            Json::Int(i) => i * pow2(1074),
            Json::Float(b) => b.scaled(),
            _ => 0,
        }
    }

    /// A value is well formed when every integer fits 64 signed bits, every
    /// float lies in the ranges of a finite double, and every object's keys
    /// are distinct.
    pub open spec fn wf(self) -> bool
        decreases self,
    {
        match self {
            Json::Null => true,
            Json::Bool(_) => true,
            Json::Int(i) => i64::MIN <= i <= i64::MAX,
            Json::Float(b) => b.wf(),
            Json::String(_) => true,
            Json::Array(items) => forall|i: int|
                0 <= i < items.len() ==> (#[trigger] items[i]).wf(),
            Json::Object(entries) => {
                &&& forall|i: int, j: int|
                    0 <= i < j < entries.len() ==> (#[trigger] entries[i]).0 != (
                    #[trigger] entries[j]).0
                &&& forall|i: int| 0 <= i < entries.len() ==> (#[trigger] entries[i]).1.wf()
            },
        }
    }
}

impl Clone for Value {
    /// Deep copy: the copy mirrors to the same ghost value.
    #[verifier::loop_isolation(false)]
    fn clone(&self) -> (r: Self)
        ensures
            r@ == self@,
        decreases *self,
    {
        match self {
            Value::Null => Value::Null,
            Value::Bool(b) => Value::Bool(*b),
            Value::Int(i) => Value::Int(*i),
            Value::Float(f) => Value::Float(*f),
            Value::String(s) => Value::String(s.clone()),
            Value::Array(items) => {
                let mut out: Vec<Value> = Vec::new();
                let mut k: usize = 0;
                while k < items.len()
                    invariant
                        k <= items@.len(),
                        out@.len() == k,
                        forall|t: int| 0 <= t < k ==> (#[trigger] out@[t])@ == items@[t]@,
                    decreases items@.len() - k,
                {
                    proof {
                        assert(decreases_to!(*self => *items));
                        assert(decreases_to!(*items => items@));
                        assert(decreases_to!(items@ => items@[k as int]));
                    }
                    out.push(items[k].clone());
                    k = k + 1;
                }
                proof {
                    assert(arr_view(out@) =~= arr_view(items@));
                }
                Value::Array(out)
            },
            Value::Object(entries) => {
                let mut out: Vec<(String, Value)> = Vec::new();
                let mut k: usize = 0;
                while k < entries.len()
                    invariant
                        k <= entries@.len(),
                        out@.len() == k,
                        forall|t: int|
                            0 <= t < k ==> (#[trigger] out@[t]).0@ == entries@[t].0@ && out@[
                            t].1@ == entries@[t].1@,
                    decreases entries@.len() - k,
                {
                    proof {
                        assert(decreases_to!(*self => *entries));
                        assert(decreases_to!(*entries => entries@));
                        assert(decreases_to!(entries@ => entries@[k as int]));
                        assert(decreases_to!(entries@[k as int] => entries@[k as int].1));
                    }
                    let pair = &entries[k];
                    out.push((pair.0.clone(), pair.1.clone()));
                    k = k + 1;
                }
                proof {
                    assert(obj_view(out@) =~= obj_view(entries@));
                }
                Value::Object(out)
            },
        }
    }
}

} // verus!


