//! Core of a JSON Schema validation engine: a compiler that turns a schema
//! document into a tree of keyword validators, and an evaluator that applies
//! the tree to JSON instances.

use vstd::prelude::*;

mod compilation;
mod error;
mod helpers;
pub mod keywords;
mod numeric;
mod value;

pub use compilation::draft_or_default;
pub use compilation::lemma_compile_deterministic;
pub use compilation::lemma_compile_pure;
pub use compilation::lemma_consistency;
pub use compilation::lemma_evaluation_deterministic;
pub use compilation::errors_view;
pub use compilation::keyword_compile;
pub use compilation::models_of;
pub use compilation::schema_errors;
pub use compilation::schema_valid;
pub use compilation::spec_compile;
pub use compilation::CompilationContext;
pub use compilation::Draft;
pub use compilation::JSONSchema;
pub use error::CompilationError;
pub use error::ErrorKindModel;
pub use error::ErrorModel;
pub use error::PrimitiveType;
pub use error::ValidationError;
pub use error::ValidationErrorKind;
pub use helpers::arrays_equal;
pub use helpers::check_wf;
pub use helpers::entry_matched;
pub use helpers::equal;
pub use helpers::has_key;
pub use helpers::lemma_equal_refl;
pub use helpers::lemma_equal_symm;
pub use helpers::lemma_equal_trans;
pub use helpers::objects_equal;
pub use helpers::values_equal;
pub use keywords::Validate;
pub use keywords::Validator;
pub use numeric::Cmp;
pub use value::arr_view;
pub use value::obj_view;
pub use value::scaled_of;
pub use value::Binary64;
pub use value::Json;
pub use value::Value;

verus! {

/// Compiles `schema` under the default draft (7), then reports whether
/// `instance` satisfies it. Fails exactly when the schema is malformed
/// under the compile rules of the recognised keywords.
pub fn is_valid(schema: &Value, instance: &Value) -> (r: Result<bool, CompilationError>)
    requires
        schema@.wf(),
        instance@.wf(),
    ensures
        match compilation::spec_compile(schema@, compilation::Draft::Draft7) {
            Ok(ms) => r matches Ok(b) && b == compilation::schema_valid(ms, instance@),
            Err(e) => r == Err::<bool, CompilationError>(e),
        },
{
    match JSONSchema::compile(schema, None) {
        Ok(compiled) => Ok(compiled.is_valid(instance)),
        Err(e) => Err(e),
    }
}

} // verus!
