//! The keyword validators: one compiled unit per recognised keyword, each
//! offering the capability set `is_valid` / `validate` / `name`, with the
//! meaning of every unit pinned down by a ghost model.

pub mod const_;
pub mod enum_;
pub mod exclusive_maximum;
pub mod exclusive_minimum;
pub mod legacy;
pub mod max_length;
pub mod maximum;
pub mod min_length;
pub mod minimum;
pub mod type_;

use vstd::prelude::*;

use crate::compilation::{Draft, JSONSchema};
use crate::error::{CompilationError, ErrorKindModel, ErrorModel, PrimitiveType, ValidationError};
use crate::helpers::values_equal;
use crate::keywords::type_::type_matches;
use crate::value::{Json, Value};

verus! {

/// The ghost model of a compiled validator: the keyword and the immutable
/// data it captured at compile time.
pub ghost enum ValidatorModel {
    Const { value: Json },
    Enum { options: Seq<Json> },
    Minimum { limit: Json },
    Maximum { limit: Json },
    ExclusiveMinimum { limit: Json },
    ExclusiveMaximum { limit: Json },
    MinLength { limit: int },
    MaxLength { limit: int },
    SingleType { t: PrimitiveType, draft: Draft },
    MultipleTypes { types: Seq<PrimitiveType>, draft: Draft },
}

/// Well-formedness of a validator's compiled data.
pub open spec fn model_inv(m: ValidatorModel) -> bool {
    match m {
        ValidatorModel::Const { value } => value.wf(),
        ValidatorModel::Enum { options } => forall|k: int|
            0 <= k < options.len() ==> (#[trigger] options[k]).wf(),
        ValidatorModel::Minimum { limit } => limit.is_number() && limit.wf(),
        ValidatorModel::Maximum { limit } => limit.is_number() && limit.wf(),
        ValidatorModel::ExclusiveMinimum { limit } => limit.is_number() && limit.wf(),
        ValidatorModel::ExclusiveMaximum { limit } => limit.is_number() && limit.wf(),
        ValidatorModel::MinLength { limit } => 0 <= limit <= u64::MAX,
        ValidatorModel::MaxLength { limit } => 0 <= limit <= u64::MAX,
        ValidatorModel::SingleType { .. } => true,
        ValidatorModel::MultipleTypes { .. } => true,
    }
}

/// Whether the instance satisfies the validator: the exact meaning of each
/// keyword on every instance.
pub open spec fn validator_valid(m: ValidatorModel, inst: Json) -> bool {
    match m {
        ValidatorModel::Const { value } => values_equal(inst, value),
        ValidatorModel::Enum { options } => exists|k: int|
            0 <= k < options.len() && values_equal(inst, #[trigger] options[k]),
        ValidatorModel::Minimum { limit } => inst.is_number() ==> inst.num() >= limit.num(),
        ValidatorModel::Maximum { limit } => inst.is_number() ==> inst.num() <= limit.num(),
        ValidatorModel::ExclusiveMinimum { limit } => inst.is_number() ==> inst.num()
            > limit.num(),
        ValidatorModel::ExclusiveMaximum { limit } => inst.is_number() ==> inst.num()
            < limit.num(),
        ValidatorModel::MinLength { limit } => inst matches Json::String(s) ==> s.len() >= limit,
        ValidatorModel::MaxLength { limit } => inst matches Json::String(s) ==> s.len() <= limit,
        ValidatorModel::SingleType { t, draft } => type_matches(t, draft, inst),
        ValidatorModel::MultipleTypes { types, draft } => exists|k: int|
            0 <= k < types.len() && type_matches(#[trigger] types[k], draft, inst),
    }
}

/// The error a validator reports when the instance does not satisfy it.
pub open spec fn validator_error(m: ValidatorModel, inst: Json) -> ErrorModel {
    ErrorModel {
        instance: inst,
        kind: match m {
            ValidatorModel::Const { value } => ErrorKindModel::Constant { expected: value },
            ValidatorModel::Enum { options } => ErrorKindModel::Enumeration { options },
            ValidatorModel::Minimum { limit } => ErrorKindModel::Minimum { limit },
            ValidatorModel::Maximum { limit } => ErrorKindModel::Maximum { limit },
            ValidatorModel::ExclusiveMinimum { limit } => ErrorKindModel::ExclusiveMinimum {
                limit,
            },
            ValidatorModel::ExclusiveMaximum { limit } => ErrorKindModel::ExclusiveMaximum {
                limit,
            },
            ValidatorModel::MinLength { limit } => ErrorKindModel::MinLength { limit },
            ValidatorModel::MaxLength { limit } => ErrorKindModel::MaxLength { limit },
            ValidatorModel::SingleType { t, .. } => ErrorKindModel::SingleType { expected: t },
            ValidatorModel::MultipleTypes { types, .. } => ErrorKindModel::MultipleType {
                expected: types,
            },
        },
    }
}

/// The keyword a validator was compiled from, as its diagnostic name.
pub open spec fn validator_name(m: ValidatorModel) -> Seq<char> {
    match m {
        ValidatorModel::Const { .. } => "const"@,
        ValidatorModel::Enum { .. } => "enum"@,
        ValidatorModel::Minimum { .. } => "minimum"@,
        ValidatorModel::Maximum { .. } => "maximum"@,
        ValidatorModel::ExclusiveMinimum { .. } => "exclusiveMinimum"@,
        ValidatorModel::ExclusiveMaximum { .. } => "exclusiveMaximum"@,
        ValidatorModel::MinLength { .. } => "minLength"@,
        ValidatorModel::MaxLength { .. } => "maxLength"@,
        ValidatorModel::SingleType { .. } => "type"@,
        ValidatorModel::MultipleTypes { .. } => "type"@,
    }
}

/// The capability set every keyword validator offers. `validate` reports at
/// most one error and is consistent with `is_valid`: it reports none exactly
/// when the instance is valid.
pub trait Validate: Sized {
    /// The ghost model of this compiled validator.
    spec fn model(&self) -> ValidatorModel;

    /// Fast path: decides validity without building an error.
    fn is_valid(&self, schema: &JSONSchema, instance: &Value) -> (r: bool)
        requires
            model_inv(self.model()),
            instance@.wf(),
        ensures
            r == validator_valid(self.model(), instance@),
    ;

    /// Diagnostic path: reports the keyword's error when the instance does
    /// not conform.
    fn validate(&self, schema: &JSONSchema, instance: &Value) -> (e: Option<ValidationError>)
        requires
            model_inv(self.model()),
            instance@.wf(),
        ensures
            match e {
                None => validator_valid(self.model(), instance@),
                Some(err) => !validator_valid(self.model(), instance@) && err@ == validator_error(
                    self.model(),
                    instance@,
                ),
            },
    ;

    /// The keyword's name, for diagnostics.
    fn name(&self) -> (s: String)
        ensures
            s@ == validator_name(self.model()),
    ;
}

/// A compiled validator: the closed set of keyword validators.
pub enum Validator {
    Const(const_::ConstValidator),
    Enum(enum_::EnumValidator),
    ExclusiveMaximum(exclusive_maximum::ExclusiveMaximumValidator),
    ExclusiveMinimum(exclusive_minimum::ExclusiveMinimumValidator),
    MaxLength(max_length::MaxLengthValidator),
    Maximum(maximum::MaximumValidator),
    MinLength(min_length::MinLengthValidator),
    Minimum(minimum::MinimumValidator),
    MultipleTypes(type_::MultipleTypesValidator),
    Null(type_::NullTypeValidator),
    Boolean(type_::BooleanTypeValidator),
    String(type_::StringTypeValidator),
    Array(type_::ArrayTypeValidator),
    Object(type_::ObjectTypeValidator),
    Number(type_::NumberTypeValidator),
    Integer(type_::IntegerTypeValidator),
    MultipleTypesDraft4(legacy::type_draft_4::MultipleTypesValidator),
    IntegerDraft4(legacy::type_draft_4::IntegerTypeValidator),
}

/// What a compile function yields: a ready validator, or the schema error.
pub type CompilationResult = Result<Validator, CompilationError>;

impl Validate for Validator {
    open spec fn model(&self) -> ValidatorModel {
        match self {
            Validator::Const(v) => v.model(),
            Validator::Enum(v) => v.model(),
            Validator::ExclusiveMaximum(v) => v.model(),
            Validator::ExclusiveMinimum(v) => v.model(),
            Validator::MaxLength(v) => v.model(),
            Validator::Maximum(v) => v.model(),
            Validator::MinLength(v) => v.model(),
            Validator::Minimum(v) => v.model(),
            Validator::MultipleTypes(v) => v.model(),
            Validator::Null(v) => v.model(),
            Validator::Boolean(v) => v.model(),
            Validator::String(v) => v.model(),
            Validator::Array(v) => v.model(),
            Validator::Object(v) => v.model(),
            Validator::Number(v) => v.model(),
            Validator::Integer(v) => v.model(),
            Validator::MultipleTypesDraft4(v) => v.model(),
            Validator::IntegerDraft4(v) => v.model(),
        }
    }

    fn is_valid(&self, schema: &JSONSchema, instance: &Value) -> (r: bool) {
        match self {
            Validator::Const(v) => v.is_valid(schema, instance),
            Validator::Enum(v) => v.is_valid(schema, instance),
            Validator::ExclusiveMaximum(v) => v.is_valid(schema, instance),
            Validator::ExclusiveMinimum(v) => v.is_valid(schema, instance),
            Validator::MaxLength(v) => v.is_valid(schema, instance),
            Validator::Maximum(v) => v.is_valid(schema, instance),
            Validator::MinLength(v) => v.is_valid(schema, instance),
            Validator::Minimum(v) => v.is_valid(schema, instance),
            Validator::MultipleTypes(v) => v.is_valid(schema, instance),
            Validator::Null(v) => v.is_valid(schema, instance),
            Validator::Boolean(v) => v.is_valid(schema, instance),
            Validator::String(v) => v.is_valid(schema, instance),
            Validator::Array(v) => v.is_valid(schema, instance),
            Validator::Object(v) => v.is_valid(schema, instance),
            Validator::Number(v) => v.is_valid(schema, instance),
            Validator::Integer(v) => v.is_valid(schema, instance),
            Validator::MultipleTypesDraft4(v) => v.is_valid(schema, instance),
            Validator::IntegerDraft4(v) => v.is_valid(schema, instance),
        }
    }

    fn validate(&self, schema: &JSONSchema, instance: &Value) -> (e: Option<ValidationError>) {
        match self {
            Validator::Const(v) => v.validate(schema, instance),
            Validator::Enum(v) => v.validate(schema, instance),
            Validator::ExclusiveMaximum(v) => v.validate(schema, instance),
            Validator::ExclusiveMinimum(v) => v.validate(schema, instance),
            Validator::MaxLength(v) => v.validate(schema, instance),
            Validator::Maximum(v) => v.validate(schema, instance),
            Validator::MinLength(v) => v.validate(schema, instance),
            Validator::Minimum(v) => v.validate(schema, instance),
            Validator::MultipleTypes(v) => v.validate(schema, instance),
            Validator::Null(v) => v.validate(schema, instance),
            Validator::Boolean(v) => v.validate(schema, instance),
            Validator::String(v) => v.validate(schema, instance),
            Validator::Array(v) => v.validate(schema, instance),
            Validator::Object(v) => v.validate(schema, instance),
            Validator::Number(v) => v.validate(schema, instance),
            Validator::Integer(v) => v.validate(schema, instance),
            Validator::MultipleTypesDraft4(v) => v.validate(schema, instance),
            Validator::IntegerDraft4(v) => v.validate(schema, instance),
        }
    }

    fn name(&self) -> (s: String) {
        match self {
            Validator::Const(v) => v.name(),
            Validator::Enum(v) => v.name(),
            Validator::ExclusiveMaximum(v) => v.name(),
            Validator::ExclusiveMinimum(v) => v.name(),
            Validator::MaxLength(v) => v.name(),
            Validator::Maximum(v) => v.name(),
            Validator::MinLength(v) => v.name(),
            Validator::Minimum(v) => v.name(),
            Validator::MultipleTypes(v) => v.name(),
            Validator::Null(v) => v.name(),
            Validator::Boolean(v) => v.name(),
            Validator::String(v) => v.name(),
            Validator::Array(v) => v.name(),
            Validator::Object(v) => v.name(),
            Validator::Number(v) => v.name(),
            Validator::Integer(v) => v.name(),
            Validator::MultipleTypesDraft4(v) => v.name(),
            Validator::IntegerDraft4(v) => v.name(),
        }
    }
}

} // verus!
