//! The error taxonomy: compilation errors for malformed schemas, and
//! validation errors for instances that do not conform, each carrying the
//! offending instance and the keyword's payload.

use vstd::prelude::*;

use crate::value::{arr_view, Json, Value};

verus! {

broadcast use {vstd::std_specs::vec::group_vec_axioms, crate::value::group_value_views};

/// The seven primitive JSON Schema type names.
#[derive(Clone, Copy, PartialEq, Eq, Structural, Debug)]
pub enum PrimitiveType {
    Null,
    Boolean,
    String,
    Array,
    Object,
    Number,
    Integer,
}

/// A schema that is not well formed for the recognised keywords.
#[derive(Clone, Copy, PartialEq, Eq, Structural, Debug)]
pub enum CompilationError {
    SchemaError,
}

/// The kind of a validation error, with the keyword's payload.
#[allow(inconsistent_fields)]
pub enum ValidationErrorKind {
    Constant { expected: Value },
    Enumeration { options: Vec<Value> },
    Minimum { limit: Value },
    Maximum { limit: Value },
    ExclusiveMinimum { limit: Value },
    ExclusiveMaximum { limit: Value },
    MinLength { limit: u64 },
    MaxLength { limit: u64 },
    SingleType { expected: PrimitiveType },
    MultipleType { expected: Vec<PrimitiveType> },
}

/// An instance that does not conform: the offending instance and the kind.
pub struct ValidationError {
    pub instance: Value,
    pub kind: ValidationErrorKind,
}

/// The ghost mirror of a validation error kind.
#[allow(inconsistent_fields)]
pub ghost enum ErrorKindModel {
    Constant { expected: Json },
    Enumeration { options: Seq<Json> },
    Minimum { limit: Json },
    Maximum { limit: Json },
    ExclusiveMinimum { limit: Json },
    ExclusiveMaximum { limit: Json },
    MinLength { limit: int },
    MaxLength { limit: int },
    SingleType { expected: PrimitiveType },
    MultipleType { expected: Seq<PrimitiveType> },
}

/// The ghost mirror of a validation error.
pub ghost struct ErrorModel {
    pub instance: Json,
    pub kind: ErrorKindModel,
}

impl View for ValidationErrorKind {
    type V = ErrorKindModel;

    open spec fn view(&self) -> ErrorKindModel {
        match self {
            ValidationErrorKind::Constant { expected } => ErrorKindModel::Constant {
                expected: expected@,
            },
            ValidationErrorKind::Enumeration { options } => ErrorKindModel::Enumeration {
                options: arr_view(options@),
            },
            ValidationErrorKind::Minimum { limit } => ErrorKindModel::Minimum { limit: limit@ },
            ValidationErrorKind::Maximum { limit } => ErrorKindModel::Maximum { limit: limit@ },
            ValidationErrorKind::ExclusiveMinimum { limit } => ErrorKindModel::ExclusiveMinimum {
                limit: limit@,
            },
            ValidationErrorKind::ExclusiveMaximum { limit } => ErrorKindModel::ExclusiveMaximum {
                limit: limit@,
            },
            ValidationErrorKind::MinLength { limit } => ErrorKindModel::MinLength {
                limit: *limit as int,
            },
            ValidationErrorKind::MaxLength { limit } => ErrorKindModel::MaxLength {
                limit: *limit as int,
            },
            ValidationErrorKind::SingleType { expected } => ErrorKindModel::SingleType {
                expected: *expected,
            },
            ValidationErrorKind::MultipleType { expected } => ErrorKindModel::MultipleType {
                expected: expected@,
            },
        }
    }
}

impl View for ValidationError {
    type V = ErrorModel;

    open spec fn view(&self) -> ErrorModel {
        ErrorModel { instance: self.instance@, kind: self.kind@ }
    }
}

} // verus!
