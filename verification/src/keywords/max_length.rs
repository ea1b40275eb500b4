//! The `maxLength` keyword: a upper bound on the length of string
//! instances, measured in Unicode scalar values. Non-string instances
//! trivially pass.

use vstd::prelude::*;

use vstd::string::StrSliceExecFns;

use crate::compilation::{CompilationContext, JSONSchema};
use crate::error::{CompilationError, ValidationError, ValidationErrorKind};
use crate::keywords::{CompilationResult, Validate, Validator, ValidatorModel};
use crate::value::{Json, Value};

verus! {

broadcast use {vstd::std_specs::vec::group_vec_axioms, crate::value::group_value_views};

/// The value of `maxLength` MUST be a non-negative integer.
pub struct MaxLengthValidator {
    pub limit: u64,
}

/// What compiling `maxLength` yields: the length limit, or the schema error
/// when the keyword's value is not a non-negative integer.
pub open spec fn compile_spec(v: Json) -> Option<Result<ValidatorModel, CompilationError>> {
    if v matches Json::Int(i) && i >= 0 {
        Some(Ok(ValidatorModel::MaxLength { limit: v->Int_0 }))
    } else {
        Some(Err(CompilationError::SchemaError))
    }
}

impl MaxLengthValidator {
    /// Compiles the keyword's value.
    pub fn compile(schema: &Value) -> (r: CompilationResult)
        requires
            schema@.wf(),
        ensures
            Some(match r {
                Ok(v) => Ok(v.model()),
                Err(e) => Err(e),
            }) == compile_spec(schema@),
    {
        match schema {
            Value::Int(i) => {
                if *i >= 0 {
                    Ok(Validator::MaxLength(MaxLengthValidator { limit: *i as u64 }))
                } else {
                    Err(CompilationError::SchemaError)
                }
            },
            _ => Err(CompilationError::SchemaError),
        }
    }
}

/// A string instance is valid against this keyword if its number of
/// characters is less than, or equal to the value of this keyword.
impl Validate for MaxLengthValidator {
    open spec fn model(&self) -> ValidatorModel {
        ValidatorModel::MaxLength { limit: self.limit as int }
    }

    fn is_valid(&self, _schema: &JSONSchema, instance: &Value) -> (r: bool) {
        match instance {
            Value::String(item) => {
                let len = item.as_str().unicode_len();
                !((len as u64) > self.limit)
            },
            _ => true,
        }
    }

    fn validate(&self, schema: &JSONSchema, instance: &Value) -> (e: Option<ValidationError>) {
        if self.is_valid(schema, instance) {
            None
        } else {
            Some(
                ValidationError {
                    instance: instance.clone(),
                    kind: ValidationErrorKind::MaxLength { limit: self.limit },
                },
            )
        }
    }

    fn name(&self) -> (s: String) {
        "maxLength".to_owned()
    }
}

/// The registry's compile function for `maxLength`.
pub fn compile(
    _parent: &Vec<(String, Value)>,
    schema: &Value,
    _context: &CompilationContext,
) -> (r: Option<CompilationResult>)
    requires
        schema@.wf(),
    ensures
        match (r, compile_spec(schema@)) {
            (Some(Ok(v)), Some(Ok(m))) => v.model() == m && crate::keywords::model_inv(m),
            (Some(Err(e1)), Some(Err(e2))) => e1 == e2,
            (None, None) => true,
            _ => false,
        },
{
    Some(MaxLengthValidator::compile(schema))
}

} // verus!
