//! The `enum` keyword: an instance validates exactly when it is structurally
//! equal to one of the elements of the keyword's array.

use vstd::prelude::*;

use crate::compilation::{CompilationContext, JSONSchema};
use crate::error::{CompilationError, ValidationError, ValidationErrorKind};
use crate::helpers::{equal, values_equal};
use crate::keywords::{CompilationResult, Validate, Validator, ValidatorModel};
use crate::value::{arr_view, Json, Value};

verus! {

broadcast use {vstd::std_specs::vec::group_vec_axioms, crate::value::group_value_views};

/// The value of this keyword MUST be an array. Elements in the array might
/// be of any value, including null; duplicates are tolerated but redundant.
pub struct EnumValidator {
    pub options: Vec<Value>,
}

/// What compiling `enum` yields: the candidate values, or the schema error
/// when the keyword's value is not an array.
pub open spec fn compile_spec(v: Json) -> Option<Result<ValidatorModel, CompilationError>> {
    match v {
        Json::Array(items) => Some(Ok(ValidatorModel::Enum { options: items })),
        _ => Some(Err(CompilationError::SchemaError)),
    }
}

/// Deep copy of a value sequence: the copy mirrors to the same ghost values.
fn clone_items(items: &Vec<Value>) -> (r: Vec<Value>)
    ensures
        arr_view(r@) == arr_view(items@),
{
    let mut out: Vec<Value> = Vec::new();
    let mut k: usize = 0;
    while k < items.len()
        invariant
            k <= items@.len(),
            out@.len() == k,
            forall|t: int| 0 <= t < k ==> (#[trigger] out@[t])@ == items@[t]@,
        decreases items@.len() - k,
    {
        out.push(items[k].clone());
        k = k + 1;
    }
    proof {
        assert(arr_view(out@) =~= arr_view(items@));
    }
    out
}

impl EnumValidator {
    /// Compiles the keyword's value, cloning the candidate array.
    pub fn compile(schema: &Value) -> (r: CompilationResult)
        requires
            schema@.wf(),
        ensures
            Some(match r {
                Ok(v) => Ok(v.model()),
                Err(e) => Err(e),
            }) == compile_spec(schema@),
    {
        match schema {
            Value::Array(items) => Ok(
                Validator::Enum(EnumValidator { options: clone_items(items) }),
            ),
            _ => Err(CompilationError::SchemaError),
        }
    }
}

/// An instance validates successfully against this keyword if its value is
/// equal to one of the elements in this keyword's array value.
impl Validate for EnumValidator {
    open spec fn model(&self) -> ValidatorModel {
        ValidatorModel::Enum { options: arr_view(self.options@) }
    }

    #[verifier::loop_isolation(false)]
    fn is_valid(&self, _schema: &JSONSchema, instance: &Value) -> (r: bool) {
        let ghost opts = arr_view(self.options@);

        let mut k: usize = 0;
        while k < self.options.len()
            invariant
                k <= self.options@.len(),
                forall|t: int| 0 <= t < k ==> !values_equal(instance@, #[trigger] opts[t]),
            decreases self.options@.len() - k,
        {
            proof {
                assert(opts[k as int] == self.options@[k as int]@);
                assert(self.model()->options[k as int].wf());
            }
            if equal(instance, &self.options[k]) {
                proof {
                    assert(values_equal(instance@, self.model()->options[k as int]));
                }
                return true;
            }
            k = k + 1;
        }
        false
    }

    fn validate(&self, schema: &JSONSchema, instance: &Value) -> (e: Option<ValidationError>) {
        if self.is_valid(schema, instance) {
            None
        } else {
            Some(
                ValidationError {
                    instance: instance.clone(),
                    kind: ValidationErrorKind::Enumeration {
                        options: clone_items(&self.options),
                    },
                },
            )
        }
    }

    fn name(&self) -> (s: String) {
        "enum".to_owned()
    }
}

/// The registry's compile function for `enum`.
pub fn compile(
    _parent: &Vec<(String, Value)>,
    schema: &Value,
    _context: &CompilationContext,
) -> (r: Option<CompilationResult>)
    requires
        schema@.wf(),
    ensures
        match (r, compile_spec(schema@)) {
            (Some(Ok(v)), Some(Ok(m))) => v.model() == m && crate::keywords::model_inv(m),
            (Some(Err(e1)), Some(Err(e2))) => e1 == e2,
            (None, None) => true,
            _ => false,
        },
{
    Some(EnumValidator::compile(schema))
}

} // verus!
