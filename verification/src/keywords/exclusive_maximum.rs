//! The `exclusiveMaximum` keyword: a strict upper limit for a numeric instance.
//! Non-numeric instances trivially pass.

use vstd::prelude::*;

use crate::compilation::{CompilationContext, JSONSchema};
use crate::error::{CompilationError, ValidationError, ValidationErrorKind};
use crate::keywords::{CompilationResult, Validate, Validator, ValidatorModel};
use crate::numeric::{num_cmp, Cmp};
use crate::value::{Json, Value};

verus! {

broadcast use {vstd::std_specs::vec::group_vec_axioms, crate::value::group_value_views};

/// The value of `exclusiveMaximum` MUST be a number: a strict upper limit for numeric instances.
pub struct ExclusiveMaximumValidator {
    pub limit: Value,
}

/// What compiling `exclusiveMaximum` yields: the numeric limit, or the schema error
/// when the keyword's value is not a number.
pub open spec fn compile_spec(v: Json) -> Option<Result<ValidatorModel, CompilationError>> {
    if v.is_number() {
        Some(Ok(ValidatorModel::ExclusiveMaximum { limit: v }))
    } else {
        Some(Err(CompilationError::SchemaError))
    }
}

impl ExclusiveMaximumValidator {
    /// Compiles the keyword's value.
    pub fn compile(schema: &Value) -> (r: CompilationResult)
        requires
            schema@.wf(),
        ensures
            Some(match r {
                Ok(v) => Ok(v.model()),
                Err(e) => Err(e),
            }) == compile_spec(schema@),
            r matches Ok(v) ==> v.model() == (ValidatorModel::ExclusiveMaximum { limit: schema@ }),
    {
        match schema {
            Value::Int(_) | Value::Float(_) => Ok(
                Validator::ExclusiveMaximum(ExclusiveMaximumValidator { limit: schema.clone() }),
            ),
            _ => Err(CompilationError::SchemaError),
        }
    }
}

/// An instance number validates only if it is strictly less than the limit.
impl Validate for ExclusiveMaximumValidator {
    open spec fn model(&self) -> ValidatorModel {
        ValidatorModel::ExclusiveMaximum { limit: self.limit@ }
    }

    fn is_valid(&self, _schema: &JSONSchema, instance: &Value) -> (r: bool) {
        match instance {
            Value::Int(_) | Value::Float(_) => match num_cmp(instance, &self.limit) {
                Cmp::Less => true,
                _ => false,
            },
            _ => true,
        }
    }

    fn validate(&self, schema: &JSONSchema, instance: &Value) -> (e: Option<ValidationError>) {
        if self.is_valid(schema, instance) {
            None
        } else {
            Some(
                ValidationError {
                    instance: instance.clone(),
                    kind: ValidationErrorKind::ExclusiveMaximum { limit: self.limit.clone() },
                },
            )
        }
    }

    fn name(&self) -> (s: String) {
        "exclusiveMaximum".to_owned()
    }
}

/// The registry's compile function for `exclusiveMaximum`.
pub fn compile(
    _parent: &Vec<(String, Value)>,
    schema: &Value,
    _context: &CompilationContext,
) -> (r: Option<CompilationResult>)
    requires
        schema@.wf(),
    ensures
        match (r, compile_spec(schema@)) {
            (Some(Ok(v)), Some(Ok(m))) => v.model() == m && crate::keywords::model_inv(m),
            (Some(Err(e1)), Some(Err(e2))) => e1 == e2,
            (None, None) => true,
            _ => false,
        },
{
    Some(ExclusiveMaximumValidator::compile(schema))
}

} // verus!
