//! The `type` keyword under draft 7: the value of this keyword MUST be
//! either a string naming one of the seven primitive types, or an array of
//! such strings. An instance validates if its primitive type is among the
//! named ones; `integer` matches integer-tagged numbers and any number whose
//! fractional part is zero.

use vstd::prelude::*;

use crate::compilation::{CompilationContext, Draft, JSONSchema};
use crate::error::{CompilationError, PrimitiveType, ValidationError, ValidationErrorKind};
use crate::helpers::{str_is, values_equal};
use crate::keywords::{CompilationResult, Validate, Validator, ValidatorModel};
use crate::numeric::float_is_integral;
use crate::value::{arr_view, Json, Value};

verus! {

broadcast use {vstd::std_specs::vec::group_vec_axioms, crate::value::group_value_views};

/// Whether an instance is of a primitive type. `Number` covers both number
/// tags; `Integer` covers integer-tagged numbers, and under draft 7 also
/// float-tagged numbers whose value is a mathematical integer.
pub open spec fn type_matches(t: PrimitiveType, draft: Draft, v: Json) -> bool {
    match t {
        PrimitiveType::Null => v is Null,
        PrimitiveType::Boolean => v is Bool,
        PrimitiveType::String => v is String,
        PrimitiveType::Array => v is Array,
        PrimitiveType::Object => v is Object,
        PrimitiveType::Number => v.is_number(),
        PrimitiveType::Integer => v is Int || (draft is Draft7 && (v matches Json::Float(b)
            && b.is_integral())),
    }
}

/// The primitive type a name denotes, if any.
pub open spec fn type_from_name(s: Seq<char>) -> Option<PrimitiveType> {
    if s == "integer"@ {
        Some(PrimitiveType::Integer)
    } else if s == "null"@ {
        Some(PrimitiveType::Null)
    } else if s == "boolean"@ {
        Some(PrimitiveType::Boolean)
    } else if s == "string"@ {
        Some(PrimitiveType::String)
    } else if s == "array"@ {
        Some(PrimitiveType::Array)
    } else if s == "object"@ {
        Some(PrimitiveType::Object)
    } else if s == "number"@ {
        Some(PrimitiveType::Number)
    } else {
        None
    }
}

/// The primitive types named by an array of type names, or nothing when
/// some element is not a string or names no type.
pub open spec fn parse_types(items: Seq<Json>) -> Option<Seq<PrimitiveType>>
    decreases items.len(),
{
    if items.len() == 0 {
        Some(Seq::empty())
    } else {
        match parse_types(items.drop_last()) {
            None => None,
            Some(pre) => match items.last() {
                Json::String(n) => match type_from_name(n) {
                    Some(t) => Some(pre.push(t)),
                    None => None,
                },
                _ => None,
            },
        }
    }
}

/// What compiling a single type name yields under draft 7.
pub open spec fn single_spec(name: Seq<char>) -> Option<
    Result<ValidatorModel, CompilationError>,
> {
    match type_from_name(name) {
        Some(t) => Some(Ok(ValidatorModel::SingleType { t, draft: Draft::Draft7 })),
        None => Some(Err(CompilationError::SchemaError)),
    }
}

/// What compiling `type` yields under draft 7: a single-type validator for a
/// string or a one-element array, a multiple-types validator for a longer
/// array, and the schema error for anything else.
pub open spec fn compile_spec(v: Json) -> Option<Result<ValidatorModel, CompilationError>> {
    match v {
        Json::String(name) => single_spec(name),
        Json::Array(items) => if items.len() == 1 {
            match items[0] {
                Json::String(name) => single_spec(name),
                _ => Some(Err(CompilationError::SchemaError)),
            }
        } else {
            match parse_types(items) {
                Some(ts) => Some(
                    Ok(ValidatorModel::MultipleTypes { types: ts, draft: Draft::Draft7 }),
                ),
                None => Some(Err(CompilationError::SchemaError)),
            }
        },
        _ => Some(Err(CompilationError::SchemaError)),
    }
}

/// Decides whether an instance is of a primitive type, under the draft 7
/// integer rule.
pub(crate) fn matches_primitive(t: PrimitiveType, instance: &Value) -> (r: bool)
    requires
        instance@.wf(),
    ensures
        r == type_matches(t, Draft::Draft7, instance@),
{
    match t {
        PrimitiveType::Null => matches!(instance, Value::Null),
        PrimitiveType::Boolean => matches!(instance, Value::Bool(_)),
        PrimitiveType::String => matches!(instance, Value::String(_)),
        PrimitiveType::Array => matches!(instance, Value::Array(_)),
        PrimitiveType::Object => matches!(instance, Value::Object(_)),
        PrimitiveType::Number => matches!(instance, Value::Int(_) | Value::Float(_)),
        PrimitiveType::Integer => match instance {
            Value::Int(_) => true,
            Value::Float(b) => float_is_integral(b),
            _ => false,
        },
    }
}

/// An instance validates if and only if it is in any of the types listed
/// for this keyword.
pub struct MultipleTypesValidator {
    pub types: Vec<PrimitiveType>,
}

impl MultipleTypesValidator {
    /// Compiles an array of type names.
    #[verifier::loop_isolation(false)]
    pub fn compile(items: &Vec<Value>) -> (r: CompilationResult)
        requires
            forall|k: int| 0 <= k < items@.len() ==> (#[trigger] items@[k]@).wf(),
        ensures
            match parse_types(arr_view(items@)) {
                Some(ts) => r matches Ok(v) && v.model() == (ValidatorModel::MultipleTypes {
                    types: ts,
                    draft: Draft::Draft7,
                }),
                None => r == Err::<Validator, _>(CompilationError::SchemaError),
            },
    {
        let ghost si = arr_view(items@);
        let mut types: Vec<PrimitiveType> = Vec::new();
        let mut k: usize = 0;
        while k < items.len()
            invariant
                k <= items@.len(),
                parse_types(si.subrange(0, k as int)) == Some(types@),
            decreases items@.len() - k,
        {
            proof {
                assert(si[k as int] == items@[k as int]@);
                assert(si.subrange(0, k + 1 as int).drop_last() =~= si.subrange(0, k as int));
                assert(si.subrange(0, k + 1 as int).last() == si[k as int]);
            }
            let named: Option<PrimitiveType> = match &items[k] {
                Value::String(s) => name_to_type(s.as_str()),
                _ => None,
            };
            match named {
                Some(t) => types.push(t),
                None => {
                    proof {
                        lemma_parse_types_none_extends(si, k + 1 as int);
                    }
                    return Err(CompilationError::SchemaError);
                },
            }
            k = k + 1;
        }
        proof {
            assert(si.subrange(0, si.len() as int) =~= si);
        }
        Ok(Validator::MultipleTypes(MultipleTypesValidator { types }))
    }
}

/// Once a prefix of the names fails to parse, the whole array fails.
pub(crate) proof fn lemma_parse_types_none_extends(items: Seq<Json>, k: int)
    requires
        0 <= k <= items.len(),
        parse_types(items.subrange(0, k)) is None,
    ensures
        parse_types(items) is None,
    decreases items.len() - k,
{
    if k < items.len() {
        assert(items.subrange(0, k + 1).drop_last() =~= items.subrange(0, k));
        lemma_parse_types_none_extends(items, k + 1);
    } else {
        assert(items.subrange(0, items.len() as int) =~= items);
    }
}

/// The primitive type a name denotes, if any.
pub(crate) fn name_to_type(item: &str) -> (r: Option<PrimitiveType>)
    ensures
        r == type_from_name(item@),
{
    if str_is(item, "integer") {
        Some(PrimitiveType::Integer)
    } else if str_is(item, "null") {
        Some(PrimitiveType::Null)
    } else if str_is(item, "boolean") {
        Some(PrimitiveType::Boolean)
    } else if str_is(item, "string") {
        Some(PrimitiveType::String)
    } else if str_is(item, "array") {
        Some(PrimitiveType::Array)
    } else if str_is(item, "object") {
        Some(PrimitiveType::Object)
    } else if str_is(item, "number") {
        Some(PrimitiveType::Number)
    } else {
        None
    }
}

impl Validate for MultipleTypesValidator {
    open spec fn model(&self) -> ValidatorModel {
        ValidatorModel::MultipleTypes { types: self.types@, draft: Draft::Draft7 }
    }

    #[verifier::loop_isolation(false)]
    fn is_valid(&self, _schema: &JSONSchema, instance: &Value) -> (r: bool) {
        let mut k: usize = 0;
        while k < self.types.len()
            invariant
                k <= self.types@.len(),
                forall|t: int|
                    0 <= t < k ==> !type_matches(#[trigger] self.types@[t], Draft::Draft7,
                    instance@),
            decreases self.types@.len() - k,
        {
            if matches_primitive(self.types[k], instance) {
                proof {
                    assert(type_matches(self.model()->types[k as int], Draft::Draft7, instance@));
                }
                return true;
            }
            k = k + 1;
        }
        false
    }

    fn validate(&self, schema: &JSONSchema, instance: &Value) -> (e: Option<ValidationError>) {
        if self.is_valid(schema, instance) {
            None
        } else {
            Some(
                ValidationError {
                    instance: instance.clone(),
                    kind: ValidationErrorKind::MultipleType { expected: clone_types(&self.types) },
                },
            )
        }
    }

    fn name(&self) -> (s: String) {
        "type".to_owned()
    }
}

/// Copies a list of primitive types.
pub(crate) fn clone_types(types: &Vec<PrimitiveType>) -> (r: Vec<PrimitiveType>)
    ensures
        r@ == types@,
{
    let mut out: Vec<PrimitiveType> = Vec::new();
    let mut k: usize = 0;
    while k < types.len()
        invariant
            k <= types@.len(),
            out@ == types@.subrange(0, k as int),
        decreases types@.len() - k,
    {
        out.push(types[k]);
        proof {
            assert(out@ =~= types@.subrange(0, k + 1 as int));
        }
        k = k + 1;
    }
    proof {
        assert(types@.subrange(0, types@.len() as int) =~= types@);
    }
    out
}

pub struct NullTypeValidator {}

impl NullTypeValidator {
    /// Yields the `null` type validator.
    pub fn compile() -> (r: CompilationResult)
        ensures
            r matches Ok(v) && v.model() == (ValidatorModel::SingleType {
                t: PrimitiveType::Null,
                draft: Draft::Draft7,
            }),
    {
        Ok(Validator::Null(NullTypeValidator {  }))
    }
}

impl Validate for NullTypeValidator {
    open spec fn model(&self) -> ValidatorModel {
        ValidatorModel::SingleType { t: PrimitiveType::Null, draft: Draft::Draft7 }
    }

    fn is_valid(&self, _schema: &JSONSchema, instance: &Value) -> (r: bool) {
        matches!(instance, Value::Null)
    }

    fn validate(&self, schema: &JSONSchema, instance: &Value) -> (e: Option<ValidationError>) {
        if self.is_valid(schema, instance) {
            None
        } else {
            Some(
                ValidationError {
                    instance: instance.clone(),
                    kind: ValidationErrorKind::SingleType { expected: PrimitiveType::Null },
                },
            )
        }
    }

    fn name(&self) -> (s: String) {
        "type".to_owned()
    }
}

pub struct BooleanTypeValidator {}

impl BooleanTypeValidator {
    /// Yields the `boolean` type validator.
    pub fn compile() -> (r: CompilationResult)
        ensures
            r matches Ok(v) && v.model() == (ValidatorModel::SingleType {
                t: PrimitiveType::Boolean,
                draft: Draft::Draft7,
            }),
    {
        Ok(Validator::Boolean(BooleanTypeValidator {  }))
    }
}

impl Validate for BooleanTypeValidator {
    open spec fn model(&self) -> ValidatorModel {
        ValidatorModel::SingleType { t: PrimitiveType::Boolean, draft: Draft::Draft7 }
    }

    fn is_valid(&self, _schema: &JSONSchema, instance: &Value) -> (r: bool) {
        matches!(instance, Value::Bool(_))
    }

    fn validate(&self, schema: &JSONSchema, instance: &Value) -> (e: Option<ValidationError>) {
        if self.is_valid(schema, instance) {
            None
        } else {
            Some(
                ValidationError {
                    instance: instance.clone(),
                    kind: ValidationErrorKind::SingleType { expected: PrimitiveType::Boolean },
                },
            )
        }
    }

    fn name(&self) -> (s: String) {
        "type".to_owned()
    }
}

pub struct StringTypeValidator {}

impl StringTypeValidator {
    /// Yields the `string` type validator.
    pub fn compile() -> (r: CompilationResult)
        ensures
            r matches Ok(v) && v.model() == (ValidatorModel::SingleType {
                t: PrimitiveType::String,
                draft: Draft::Draft7,
            }),
    {
        Ok(Validator::String(StringTypeValidator {  }))
    }
}

impl Validate for StringTypeValidator {
    open spec fn model(&self) -> ValidatorModel {
        ValidatorModel::SingleType { t: PrimitiveType::String, draft: Draft::Draft7 }
    }

    fn is_valid(&self, _schema: &JSONSchema, instance: &Value) -> (r: bool) {
        matches!(instance, Value::String(_))
    }

    fn validate(&self, schema: &JSONSchema, instance: &Value) -> (e: Option<ValidationError>) {
        if self.is_valid(schema, instance) {
            None
        } else {
            Some(
                ValidationError {
                    instance: instance.clone(),
                    kind: ValidationErrorKind::SingleType { expected: PrimitiveType::String },
                },
            )
        }
    }

    fn name(&self) -> (s: String) {
        "type".to_owned()
    }
}

pub struct ArrayTypeValidator {}

impl ArrayTypeValidator {
    /// Yields the `array` type validator.
    pub fn compile() -> (r: CompilationResult)
        ensures
            r matches Ok(v) && v.model() == (ValidatorModel::SingleType {
                t: PrimitiveType::Array,
                draft: Draft::Draft7,
            }),
    {
        Ok(Validator::Array(ArrayTypeValidator {  }))
    }
}

impl Validate for ArrayTypeValidator {
    open spec fn model(&self) -> ValidatorModel {
        ValidatorModel::SingleType { t: PrimitiveType::Array, draft: Draft::Draft7 }
    }

    fn is_valid(&self, _schema: &JSONSchema, instance: &Value) -> (r: bool) {
        matches!(instance, Value::Array(_))
    }

    fn validate(&self, schema: &JSONSchema, instance: &Value) -> (e: Option<ValidationError>) {
        if self.is_valid(schema, instance) {
            None
        } else {
            Some(
                ValidationError {
                    instance: instance.clone(),
                    kind: ValidationErrorKind::SingleType { expected: PrimitiveType::Array },
                },
            )
        }
    }

    fn name(&self) -> (s: String) {
        "type".to_owned()
    }
}

pub struct ObjectTypeValidator {}

impl ObjectTypeValidator {
    /// Yields the `object` type validator.
    pub fn compile() -> (r: CompilationResult)
        ensures
            r matches Ok(v) && v.model() == (ValidatorModel::SingleType {
                t: PrimitiveType::Object,
                draft: Draft::Draft7,
            }),
    {
        Ok(Validator::Object(ObjectTypeValidator {  }))
    }
}

impl Validate for ObjectTypeValidator {
    open spec fn model(&self) -> ValidatorModel {
        ValidatorModel::SingleType { t: PrimitiveType::Object, draft: Draft::Draft7 }
    }

    fn is_valid(&self, _schema: &JSONSchema, instance: &Value) -> (r: bool) {
        matches!(instance, Value::Object(_))
    }

    fn validate(&self, schema: &JSONSchema, instance: &Value) -> (e: Option<ValidationError>) {
        if self.is_valid(schema, instance) {
            None
        } else {
            Some(
                ValidationError {
                    instance: instance.clone(),
                    kind: ValidationErrorKind::SingleType { expected: PrimitiveType::Object },
                },
            )
        }
    }

    fn name(&self) -> (s: String) {
        "type".to_owned()
    }
}

pub struct NumberTypeValidator {}

impl NumberTypeValidator {
    /// Yields the `number` type validator.
    pub fn compile() -> (r: CompilationResult)
        ensures
            r matches Ok(v) && v.model() == (ValidatorModel::SingleType {
                t: PrimitiveType::Number,
                draft: Draft::Draft7,
            }),
    {
        Ok(Validator::Number(NumberTypeValidator {  }))
    }
}

impl Validate for NumberTypeValidator {
    open spec fn model(&self) -> ValidatorModel {
        ValidatorModel::SingleType { t: PrimitiveType::Number, draft: Draft::Draft7 }
    }

    fn is_valid(&self, _schema: &JSONSchema, instance: &Value) -> (r: bool) {
        matches!(instance, Value::Int(_) | Value::Float(_))
    }

    fn validate(&self, schema: &JSONSchema, instance: &Value) -> (e: Option<ValidationError>) {
        if self.is_valid(schema, instance) {
            None
        } else {
            Some(
                ValidationError {
                    instance: instance.clone(),
                    kind: ValidationErrorKind::SingleType { expected: PrimitiveType::Number },
                },
            )
        }
    }

    fn name(&self) -> (s: String) {
        "type".to_owned()
    }
}

pub struct IntegerTypeValidator {}

impl IntegerTypeValidator {
    /// Yields the draft 7 `integer` type validator.
    pub fn compile() -> (r: CompilationResult)
        ensures
            r matches Ok(v) && v.model() == (ValidatorModel::SingleType {
                t: PrimitiveType::Integer,
                draft: Draft::Draft7,
            }),
    {
        Ok(Validator::Integer(IntegerTypeValidator {  }))
    }
}

impl Validate for IntegerTypeValidator {
    open spec fn model(&self) -> ValidatorModel {
        ValidatorModel::SingleType { t: PrimitiveType::Integer, draft: Draft::Draft7 }
    }

    fn is_valid(&self, _schema: &JSONSchema, instance: &Value) -> (r: bool) {
        match instance {
            Value::Int(_) => true,
            Value::Float(b) => float_is_integral(b),
            _ => false,
        }
    }

    fn validate(&self, schema: &JSONSchema, instance: &Value) -> (e: Option<ValidationError>) {
        if self.is_valid(schema, instance) {
            None
        } else {
            Some(
                ValidationError {
                    instance: instance.clone(),
                    kind: ValidationErrorKind::SingleType { expected: PrimitiveType::Integer },
                },
            )
        }
    }

    fn name(&self) -> (s: String) {
        "type".to_owned()
    }
}

/// The registry's compile function for `type` under draft 7.
pub fn compile(
    _parent: &Vec<(String, Value)>,
    schema: &Value,
    _context: &CompilationContext,
) -> (r: Option<CompilationResult>)
    requires
        schema@.wf(),
    ensures
        match (r, compile_spec(schema@)) {
            (Some(Ok(v)), Some(Ok(m))) => v.model() == m && crate::keywords::model_inv(m),
            (Some(Err(e1)), Some(Err(e2))) => e1 == e2,
            (None, None) => true,
            _ => false,
        },
{
    match schema {
        Value::String(item) => compile_single_type(item.as_str()),
        Value::Array(items) => {
            if items.len() == 1 {
                proof {
                    assert(arr_view(items@)[0] == items@[0]@);
                }
                match &items[0] {
                    Value::String(item) => compile_single_type(item.as_str()),
                    _ => Some(Err(CompilationError::SchemaError)),
                }
            } else {
                proof {
                    assert forall|k: int|
                        0 <= k < items@.len() implies (#[trigger] items@[k]@).wf() by {
                        assert(arr_view(items@)[k] == items@[k]@);
                        assert(arr_view(items@)[k].wf());
                    }
                }
                Some(MultipleTypesValidator::compile(items))
            }
        },
        _ => Some(Err(CompilationError::SchemaError)),
    }
}

/// Compiles a single type name under draft 7.
pub fn compile_single_type(item: &str) -> (r: Option<CompilationResult>)
    ensures
        match (r, single_spec(item@)) {
            (Some(Ok(v)), Some(Ok(m))) => v.model() == m,
            (Some(Err(e1)), Some(Err(e2))) => e1 == e2,
            _ => false,
        },
{
    match name_to_type(item) {
        Some(PrimitiveType::Integer) => Some(IntegerTypeValidator::compile()),
        Some(PrimitiveType::Null) => Some(NullTypeValidator::compile()),
        Some(PrimitiveType::Boolean) => Some(BooleanTypeValidator::compile()),
        Some(PrimitiveType::String) => Some(StringTypeValidator::compile()),
        Some(PrimitiveType::Array) => Some(ArrayTypeValidator::compile()),
        Some(PrimitiveType::Object) => Some(ObjectTypeValidator::compile()),
        Some(PrimitiveType::Number) => Some(NumberTypeValidator::compile()),
        None => Some(Err(CompilationError::SchemaError)),
    }
}

/// Structurally equal name arrays parse to the same types: equality of two
/// strings is equality of their character sequences, and a non-string never
/// equals a string.
pub proof fn lemma_parse_types_equiv(x: Seq<Json>, y: Seq<Json>)
    requires
        x.len() == y.len(),
        forall|i: int| 0 <= i < x.len() ==> values_equal(#[trigger] x[i], y[i]),
    ensures
        parse_types(x) == parse_types(y),
    decreases x.len(),
{
    if x.len() > 0 {
        assert forall|i: int|
            0 <= i < x.drop_last().len() implies values_equal(
            #[trigger] x.drop_last()[i],
            y.drop_last()[i],
        ) by {
            assert(x.drop_last()[i] == x[i]);
            assert(y.drop_last()[i] == y[i]);
            assert(values_equal(x[i], y[i]));
        }
        lemma_parse_types_equiv(x.drop_last(), y.drop_last());
        assert(values_equal(x[x.len() - 1], y[y.len() - 1]));
        assert(x.last() == x[x.len() - 1]);
        assert(y.last() == y[y.len() - 1]);
    }
}

} // verus!

