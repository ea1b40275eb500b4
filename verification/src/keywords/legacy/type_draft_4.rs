//! The `type` keyword under draft 4. The only difference from draft 7 is
//! the `integer` rule: here it matches integer-tagged numbers only, never a
//! float-tagged number, whatever its value.

use vstd::prelude::*;

use crate::compilation::{CompilationContext, Draft, JSONSchema};
use crate::error::{CompilationError, PrimitiveType, ValidationError, ValidationErrorKind};
use crate::keywords::type_::{self, type_from_name, type_matches};
use crate::keywords::{CompilationResult, Validate, Validator, ValidatorModel};
use crate::value::{arr_view, Json, Value};

verus! {

broadcast use {vstd::std_specs::vec::group_vec_axioms, crate::value::group_value_views};

/// What compiling a single type name yields under draft 4. Only the
/// `integer` validator differs from draft 7; the other six types behave the
/// same under both drafts and their validators carry the draft 7 tag.
pub open spec fn single_spec(name: Seq<char>) -> Option<
    Result<ValidatorModel, CompilationError>,
> {
    match type_from_name(name) {
        Some(PrimitiveType::Integer) => Some(
            Ok(ValidatorModel::SingleType { t: PrimitiveType::Integer, draft: Draft::Draft4 }),
        ),
        Some(t) => Some(Ok(ValidatorModel::SingleType { t, draft: Draft::Draft7 })),
        None => Some(Err(CompilationError::SchemaError)),
    }
}

/// What compiling `type` yields under draft 4.
pub open spec fn compile_spec(v: Json) -> Option<Result<ValidatorModel, CompilationError>> {
    match v {
        Json::String(name) => single_spec(name),
        Json::Array(items) => if items.len() == 1 {
            match items[0] {
                Json::String(name) => single_spec(name),
                _ => Some(Err(CompilationError::SchemaError)),
            }
        } else {
            match type_::parse_types(items) {
                Some(ts) => Some(
                    Ok(ValidatorModel::MultipleTypes { types: ts, draft: Draft::Draft4 }),
                ),
                None => Some(Err(CompilationError::SchemaError)),
            }
        },
        _ => Some(Err(CompilationError::SchemaError)),
    }
}

/// Decides whether an instance is of a primitive type, under the draft 4
/// integer rule.
fn matches_primitive(t: PrimitiveType, instance: &Value) -> (r: bool)
    requires
        instance@.wf(),
    ensures
        r == type_matches(t, Draft::Draft4, instance@),
{
    match t {
        PrimitiveType::Null => matches!(instance, Value::Null),
        PrimitiveType::Boolean => matches!(instance, Value::Bool(_)),
        PrimitiveType::String => matches!(instance, Value::String(_)),
        PrimitiveType::Array => matches!(instance, Value::Array(_)),
        PrimitiveType::Object => matches!(instance, Value::Object(_)),
        PrimitiveType::Number => matches!(instance, Value::Int(_) | Value::Float(_)),
        PrimitiveType::Integer => matches!(instance, Value::Int(_)),
    }
}

/// An instance matches successfully if its primitive type is one of the
/// types defined by this keyword. Recall: `number` includes `integer`.
pub struct MultipleTypesValidator {
    pub types: Vec<PrimitiveType>,
}

impl MultipleTypesValidator {
    /// Compiles an array of type names.
    #[verifier::loop_isolation(false)]
    pub fn compile(items: &Vec<Value>) -> (r: CompilationResult)
        requires
            forall|k: int| 0 <= k < items@.len() ==> (#[trigger] items@[k]@).wf(),
        ensures
            match type_::parse_types(arr_view(items@)) {
                Some(ts) => r matches Ok(v) && v.model() == (ValidatorModel::MultipleTypes {
                    types: ts,
                    draft: Draft::Draft4,
                }),
                None => r == Err::<Validator, _>(CompilationError::SchemaError),
            },
    {
        let ghost si = arr_view(items@);
        let mut types: Vec<PrimitiveType> = Vec::new();
        let mut k: usize = 0;
        while k < items.len()
            invariant
                k <= items@.len(),
                type_::parse_types(si.subrange(0, k as int)) == Some(types@),
            decreases items@.len() - k,
        {
            proof {
                assert(si[k as int] == items@[k as int]@);
                assert(si.subrange(0, k + 1 as int).drop_last() =~= si.subrange(0, k as int));
                assert(si.subrange(0, k + 1 as int).last() == si[k as int]);
            }
            let named: Option<PrimitiveType> = match &items[k] {
                Value::String(s) => type_::name_to_type(s.as_str()),
                _ => None,
            };
            match named {
                Some(t) => types.push(t),
                None => {
                    proof {
                        type_::lemma_parse_types_none_extends(si, k + 1 as int);
                    }
                    return Err(CompilationError::SchemaError);
                },
            }
            k = k + 1;
        }
        proof {
            assert(si.subrange(0, si.len() as int) =~= si);
        }
        Ok(Validator::MultipleTypesDraft4(MultipleTypesValidator { types }))
    }
}

impl Validate for MultipleTypesValidator {
    open spec fn model(&self) -> ValidatorModel {
        ValidatorModel::MultipleTypes { types: self.types@, draft: Draft::Draft4 }
    }

    #[verifier::loop_isolation(false)]
    fn is_valid(&self, _schema: &JSONSchema, instance: &Value) -> (r: bool) {
        let mut k: usize = 0;
        while k < self.types.len()
            invariant
                k <= self.types@.len(),
                forall|t: int|
                    0 <= t < k ==> !type_matches(#[trigger] self.types@[t], Draft::Draft4,
                    instance@),
            decreases self.types@.len() - k,
        {
            if matches_primitive(self.types[k], instance) {
                proof {
                    assert(type_matches(self.model()->types[k as int], Draft::Draft4, instance@));
                }
                return true;
            }
            k = k + 1;
        }
        false
    }

    fn validate(&self, schema: &JSONSchema, instance: &Value) -> (e: Option<ValidationError>) {
        if self.is_valid(schema, instance) {
            None
        } else {
            Some(
                ValidationError {
                    instance: instance.clone(),
                    kind: ValidationErrorKind::MultipleType {
                        expected: type_::clone_types(&self.types),
                    },
                },
            )
        }
    }

    fn name(&self) -> (s: String) {
        "type".to_owned()
    }
}

/// The `integer` type validator of draft 4: integer-tagged numbers only.
pub struct IntegerTypeValidator {}

impl IntegerTypeValidator {
    /// Yields the draft 4 `integer` type validator.
    pub fn compile() -> (r: CompilationResult)
        ensures
            r matches Ok(v) && v.model() == (ValidatorModel::SingleType {
                t: PrimitiveType::Integer,
                draft: Draft::Draft4,
            }),
    {
        Ok(Validator::IntegerDraft4(IntegerTypeValidator {  }))
    }
}

impl Validate for IntegerTypeValidator {
    open spec fn model(&self) -> ValidatorModel {
        ValidatorModel::SingleType { t: PrimitiveType::Integer, draft: Draft::Draft4 }
    }

    fn is_valid(&self, _schema: &JSONSchema, instance: &Value) -> (r: bool) {
        matches!(instance, Value::Int(_))
    }

    fn validate(&self, schema: &JSONSchema, instance: &Value) -> (e: Option<ValidationError>) {
        if self.is_valid(schema, instance) {
            None
        } else {
            Some(
                ValidationError {
                    instance: instance.clone(),
                    kind: ValidationErrorKind::SingleType { expected: PrimitiveType::Integer },
                },
            )
        }
    }

    fn name(&self) -> (s: String) {
        "type".to_owned()
    }
}

/// The registry's compile function for `type` under draft 4.
pub fn compile(
    _parent: &Vec<(String, Value)>,
    schema: &Value,
    _context: &CompilationContext,
) -> (r: Option<CompilationResult>)
    requires
        schema@.wf(),
    ensures
        match (r, compile_spec(schema@)) {
            (Some(Ok(v)), Some(Ok(m))) => v.model() == m && crate::keywords::model_inv(m),
            (Some(Err(e1)), Some(Err(e2))) => e1 == e2,
            (None, None) => true,
            _ => false,
        },
{
    match schema {
        Value::String(item) => compile_single_type(item.as_str()),
        Value::Array(items) => {
            if items.len() == 1 {
                proof {
                    assert(arr_view(items@)[0] == items@[0]@);
                }
                match &items[0] {
                    Value::String(item) => compile_single_type(item.as_str()),
                    _ => Some(Err(CompilationError::SchemaError)),
                }
            } else {
                proof {
                    assert forall|k: int|
                        0 <= k < items@.len() implies (#[trigger] items@[k]@).wf() by {
                        assert(arr_view(items@)[k] == items@[k]@);
                        assert(arr_view(items@)[k].wf());
                    }
                }
                Some(MultipleTypesValidator::compile(items))
            }
        },
        _ => Some(Err(CompilationError::SchemaError)),
    }
}

/// Compiles a single type name under draft 4.
pub fn compile_single_type(item: &str) -> (r: Option<CompilationResult>)
    ensures
        match (r, single_spec(item@)) {
            (Some(Ok(v)), Some(Ok(m))) => v.model() == m,
            (Some(Err(e1)), Some(Err(e2))) => e1 == e2,
            _ => false,
        },
{
    match crate::keywords::type_::compile_single_type(item) {
        Some(Ok(v)) => match v {
            Validator::Integer(_) => Some(IntegerTypeValidator::compile()),
            other => Some(Ok(other)),
        },
        other => other,
    }
}

} // verus!
