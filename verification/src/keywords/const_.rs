//! The `const` keyword: an instance validates exactly when it is
//! structurally equal to the keyword's value.

use vstd::prelude::*;

use crate::compilation::{CompilationContext, JSONSchema};
use crate::error::{CompilationError, ValidationError, ValidationErrorKind};
use crate::helpers::equal;
use crate::keywords::{CompilationResult, Validate, Validator, ValidatorModel};
use crate::value::{Json, Value};

verus! {

broadcast use {vstd::std_specs::vec::group_vec_axioms, crate::value::group_value_views};

/// The value of this keyword MAY be of any type, including null.
pub struct ConstValidator {
    pub value: Value,
}

/// What compiling `const` yields: the expected value; it never fails.
pub open spec fn compile_spec(v: Json) -> Option<Result<ValidatorModel, CompilationError>> {
    Some(Ok(ValidatorModel::Const { value: v }))
}

impl ConstValidator {
    /// Compiles the keyword's value, which is cloned and owned.
    pub fn compile(value: &Value) -> (r: CompilationResult)
        requires
            value@.wf(),
        ensures
            Some(match r {
                Ok(v) => Ok(v.model()),
                Err(e) => Err(e),
            }) == compile_spec(value@),
    {
        Ok(Validator::Const(ConstValidator { value: value.clone() }))
    }
}

/// An instance validates successfully against this keyword if its value is
/// equal to the value of the keyword.
impl Validate for ConstValidator {
    open spec fn model(&self) -> ValidatorModel {
        ValidatorModel::Const { value: self.value@ }
    }

    fn is_valid(&self, _schema: &JSONSchema, instance: &Value) -> (r: bool) {
        equal(instance, &self.value)
    }

    fn validate(&self, schema: &JSONSchema, instance: &Value) -> (e: Option<ValidationError>) {
        if self.is_valid(schema, instance) {
            None
        } else {
            Some(
                ValidationError {
                    instance: instance.clone(),
                    kind: ValidationErrorKind::Constant { expected: self.value.clone() },
                },
            )
        }
    }

    fn name(&self) -> (s: String) {
        "const".to_owned()
    }
}

/// The registry's compile function for `const`.
pub fn compile(
    _parent: &Vec<(String, Value)>,
    schema: &Value,
    _context: &CompilationContext,
) -> (r: Option<CompilationResult>)
    requires
        schema@.wf(),
    ensures
        match (r, compile_spec(schema@)) {
            (Some(Ok(v)), Some(Ok(m))) => v.model() == m && crate::keywords::model_inv(m),
            (Some(Err(e1)), Some(Err(e2))) => e1 == e2,
            (None, None) => true,
            _ => false,
        },
{
    Some(ConstValidator::compile(schema))
}

} // verus!
