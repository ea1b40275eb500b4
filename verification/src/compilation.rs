//! The compiler and engine: a registry of per-keyword compile functions
//! keyed by keyword name and schema draft, the `JSONSchema` root that owns
//! the compiled validator tree, and the error collection machinery.

use vstd::prelude::*;

use crate::error::{CompilationError, ErrorModel, ValidationError};
use crate::keywords::{
    self, model_inv, validator_error, validator_valid, CompilationResult, Validate, Validator,
    ValidatorModel,
};
use crate::helpers::{
    entry_matched, has_key, lemma_equal_symm, lemma_equal_trans, values_equal,
};
use crate::value::{obj_view, Json, Value};

verus! {

broadcast use {vstd::std_specs::vec::group_vec_axioms, crate::value::group_value_views};

/// The supported schema drafts. The only behavioural divergence between them
/// in this core is the `integer` type test.
#[derive(Clone, Copy, PartialEq, Eq, Structural)]
pub enum Draft {
    Draft4,
    Draft7,
}

/// The ambient state of one compilation: the active draft.
#[derive(Clone, Copy)]
pub struct CompilationContext {
    pub draft: Draft,
}

/// The draft used when none is asked for.
pub open spec fn draft_or_default(d: Option<Draft>) -> Draft {
    match d {
        Some(x) => x,
        None => Draft::Draft7,
    }
}

/// What compiling one keyword yields: `None` when the keyword is not
/// recognised (unknown keywords are ignored), a validator model, or the
/// schema error.
pub open spec fn keyword_compile(key: Seq<char>, v: Json, draft: Draft) -> Option<
    Result<ValidatorModel, CompilationError>,
> {
    if key == "const"@ {
        crate::keywords::const_::compile_spec(v)
    } else if key == "enum"@ {
        crate::keywords::enum_::compile_spec(v)
    } else if key == "minimum"@ {
        crate::keywords::minimum::compile_spec(v)
    } else if key == "maximum"@ {
        crate::keywords::maximum::compile_spec(v)
    } else if key == "exclusiveMinimum"@ {
        crate::keywords::exclusive_minimum::compile_spec(v)
    } else if key == "exclusiveMaximum"@ {
        crate::keywords::exclusive_maximum::compile_spec(v)
    } else if key == "minLength"@ {
        crate::keywords::min_length::compile_spec(v)
    } else if key == "maxLength"@ {
        crate::keywords::max_length::compile_spec(v)
    } else if key == "type"@ {
        if draft is Draft4 {
            crate::keywords::legacy::type_draft_4::compile_spec(v)
        } else {
            crate::keywords::type_::compile_spec(v)
        }
    } else {
        None
    }
}

/// What compiling an object's entries yields: the validators of the
/// recognised keywords, in entry order, or the first schema error.
pub open spec fn spec_compile_entries(entries: Seq<(Seq<char>, Json)>, draft: Draft) -> Result<
    Seq<ValidatorModel>,
    CompilationError,
>
    decreases entries.len(),
{
    if entries.len() == 0 {
        Ok(Seq::empty())
    } else {
        match spec_compile_entries(entries.drop_last(), draft) {
            Err(e) => Err(e),
            Ok(pre) => match keyword_compile(entries.last().0, entries.last().1, draft) {
                None => Ok(pre),
                Some(Ok(m)) => Ok(pre.push(m)),
                Some(Err(e)) => Err(e),
            },
        }
    }
}

/// What compiling a schema value yields. Only objects compile; every
/// recognised keyword of the object contributes one validator.
pub open spec fn spec_compile(s: Json, draft: Draft) -> Result<
    Seq<ValidatorModel>,
    CompilationError,
> {
    match s {
        Json::Object(entries) => spec_compile_entries(entries, draft),
        _ => Err(CompilationError::SchemaError),
    }
}

/// An instance is valid against a compiled schema exactly when every child
/// validator accepts it.
pub open spec fn schema_valid(ms: Seq<ValidatorModel>, inst: Json) -> bool {
    forall|k: int| 0 <= k < ms.len() ==> validator_valid(#[trigger] ms[k], inst)
}

/// The errors a compiled schema reports: each failing validator contributes
/// its error, in keyword order.
pub open spec fn schema_errors(ms: Seq<ValidatorModel>, inst: Json) -> Seq<ErrorModel>
    decreases ms.len(),
{
    if ms.len() == 0 {
        Seq::empty()
    } else {
        let rest = schema_errors(ms.drop_last(), inst);
        if validator_valid(ms.last(), inst) {
            rest
        } else {
            rest.push(validator_error(ms.last(), inst))
        }
    }
}

/// The ghost mirror of a sequence of compiled validators.
pub open spec fn models_of(vs: Seq<Validator>) -> Seq<ValidatorModel> {
    Seq::new(vs.len(), |k: int| vs[k].model())
}

/// The ghost mirror of a sequence of validation errors.
pub open spec fn errors_view(es: Seq<ValidationError>) -> Seq<ErrorModel> {
    Seq::new(es.len(), |k: int| es[k]@)
}

/// The compiled root: an ordered sequence of keyword validators plus the
/// draft they were compiled under.
pub struct JSONSchema {
    pub validators: Vec<Validator>,
    pub draft: Draft,
}

/// Compares a string key against a keyword name.
fn key_is(k: &String, lit: &str) -> (r: bool)
    ensures
        r == (k@ == lit@),
{
    let owned = lit.to_owned();
    k.eq(&owned)
}

impl JSONSchema {
    /// The ghost models of the compiled validators, in order.
    pub open spec fn models(&self) -> Seq<ValidatorModel> {
        models_of(self.validators@)
    }

    /// The compiled data of every validator is well formed.
    pub open spec fn inv(&self) -> bool {
        forall|k: int| 0 <= k < self.models().len() ==> model_inv(#[trigger] self.models()[k])
    }

    /// Compiles a schema value under the given draft (draft 7 when `None`).
    #[verifier::loop_isolation(false)]
    pub fn compile(schema: &Value, draft: Option<Draft>) -> (r: Result<
        JSONSchema,
        CompilationError,
    >)
        requires
            schema@.wf(),
        ensures
            match r {
                Ok(js) => {
                    &&& js.inv()
                    &&& js.draft == draft_or_default(draft)
                    &&& spec_compile(schema@, draft_or_default(draft)) == Ok::<_, CompilationError>(
                        js.models(),
                    )
                },
                Err(e) => spec_compile(schema@, draft_or_default(draft)) == Err::<
                    Seq<ValidatorModel>,
                    _,
                >(e),
            },
    {
        let d: Draft = match draft {
            Some(x) => x,
            None => Draft::Draft7,
        };
        let context = CompilationContext { draft: d };
        match schema {
            Value::Object(entries) => {
                let ghost se = obj_view(entries@);
                let mut validators: Vec<Validator> = Vec::new();
                let mut i: usize = 0;
                proof {
                    assert(se.subrange(0, 0) =~= Seq::<(Seq<char>, Json)>::empty());
                    assert(models_of(validators@) =~= Seq::<ValidatorModel>::empty());
                }
                while i < entries.len()
                    invariant
                        i <= entries@.len(),
                        spec_compile_entries(se.subrange(0, i as int), d) == Ok::<
                            _,
                            CompilationError,
                        >(models_of(validators@)),
                        forall|k: int|
                            0 <= k < validators@.len() ==> model_inv(
                                #[trigger] models_of(validators@)[k],
                            ),
                    decreases entries@.len() - i,
                {
                    proof {
                        assert(se[i as int] == (entries@[i as int].0@, entries@[i as int].1@));
                        assert(se[i as int].1.wf());
                    }
                    let key = &entries[i].0;
                    let val = &entries[i].1;
                    let item: Option<CompilationResult> = if key_is(key, "const") {
                        keywords::const_::compile(entries, val, &context)
                    } else if key_is(key, "enum") {
                        keywords::enum_::compile(entries, val, &context)
                    } else if key_is(key, "minimum") {
                        keywords::minimum::compile(entries, val, &context)
                    } else if key_is(key, "maximum") {
                        keywords::maximum::compile(entries, val, &context)
                    } else if key_is(key, "exclusiveMinimum") {
                        keywords::exclusive_minimum::compile(entries, val, &context)
                    } else if key_is(key, "exclusiveMaximum") {
                        keywords::exclusive_maximum::compile(entries, val, &context)
                    } else if key_is(key, "minLength") {
                        keywords::min_length::compile(entries, val, &context)
                    } else if key_is(key, "maxLength") {
                        keywords::max_length::compile(entries, val, &context)
                    } else if key_is(key, "type") {
                        match d {
                            Draft::Draft4 => keywords::legacy::type_draft_4::compile(
                                entries,
                                val,
                                &context,
                            ),
                            Draft::Draft7 => keywords::type_::compile(entries, val, &context),
                        }
                    } else {
                        None
                    };
                    let ghost pre_models = models_of(validators@);
                    proof {
                        lemma_compile_entries_step(se, d, i as int);
                    }
                    match item {
                        None => {},
                        Some(Ok(v)) => {
                            validators.push(v);
                            proof {
                                assert(models_of(validators@) =~= pre_models.push(
                                    validators@.last().model(),
                                ));
                                assert forall|k: int|
                                    0 <= k < validators@.len() implies model_inv(
                                    #[trigger] models_of(validators@)[k],
                                ) by {
                                    if k < validators@.len() - 1 {
                                        assert(models_of(validators@)[k] == pre_models[k]);
                                        assert(model_inv(pre_models[k]));
                                    }
                                }
                            }
                        },
                        Some(Err(e)) => {
                            proof {
                                lemma_compile_err_extends(se, d, i + 1 as int);
                            }
                            return Err(e);
                        },
                    }
                    i = i + 1;
                }
                proof {
                    assert(se.subrange(0, se.len() as int) =~= se);
                }
                Ok(JSONSchema { validators, draft: d })
            },
            _ => Err(CompilationError::SchemaError),
        }
    }

    /// Fast path: the instance is valid exactly when every child validator
    /// accepts it; stops at the first failure.
    #[verifier::loop_isolation(false)]
    pub fn is_valid(&self, instance: &Value) -> (r: bool)
        requires
            self.inv(),
            instance@.wf(),
        ensures
            r == schema_valid(self.models(), instance@),
    {
        let mut k: usize = 0;
        while k < self.validators.len()
            invariant
                k <= self.validators@.len(),
                forall|t: int|
                    0 <= t < k ==> validator_valid(#[trigger] self.models()[t], instance@),
            decreases self.validators@.len() - k,
        {
            proof {
                assert(self.models()[k as int] == self.validators@[k as int].model());
            }
            if !self.validators[k].is_valid(self, instance) {
                return false;
            }
            k = k + 1;
        }
        true
    }

    /// Diagnostic path: the errors of every failing child validator, in
    /// keyword order. The list is empty exactly when the instance is valid.
    #[verifier::loop_isolation(false)]
    pub fn validate(&self, instance: &Value) -> (errs: Vec<ValidationError>)
        requires
            self.inv(),
            instance@.wf(),
        ensures
            errors_view(errs@) == schema_errors(self.models(), instance@),
            (errs@.len() == 0) == schema_valid(self.models(), instance@),
    {
        let mut errs: Vec<ValidationError> = Vec::new();
        let mut k: usize = 0;
        while k < self.validators.len()
            invariant
                k <= self.validators@.len(),
                errors_view(errs@) == schema_errors(self.models().subrange(0, k as int), instance@),
                (errs@.len() == 0) == schema_valid(self.models().subrange(0, k as int), instance@),
            decreases self.validators@.len() - k,
        {
            let ghost pre = self.models().subrange(0, k as int);
            proof {
                assert(self.models()[k as int] == self.validators@[k as int].model());
                assert(self.models().subrange(0, k + 1 as int).drop_last() =~= pre);
                assert(self.models().subrange(0, k + 1 as int).last() == self.models()[k as int]);
            }
            match self.validators[k].validate(self, instance) {
                None => {
                    proof {
                        let nxt = self.models().subrange(0, k + 1 as int);
                        if schema_valid(pre, instance@) {
                            assert forall|t: int|
                                0 <= t < nxt.len() implies validator_valid(
                                #[trigger] nxt[t],
                                instance@,
                            ) by {
                                if t < k {
                                    assert(nxt[t] == pre[t]);
                                    assert(validator_valid(pre[t], instance@));
                                } else {
                                    assert(nxt[t] == self.models()[k as int]);
                                }
                            }
                            assert(schema_valid(nxt, instance@));
                        } else {
                            let w = choose|t: int|
                                0 <= t < pre.len() && !validator_valid(#[trigger] pre[t], instance@);
                            assert(nxt[w] == pre[w]);
                            assert(!schema_valid(nxt, instance@));
                        }
                    }
                },
                Some(err) => {
                    errs.push(err);
                    proof {
                        assert(errors_view(errs@) =~= errors_view(errs@.drop_last()).push(
                            errs@.last()@,
                        ));
                        let m = self.models()[k as int];
                        assert(!validator_valid(m, instance@));
                        assert(!schema_valid(self.models().subrange(0, k + 1 as int), instance@));
                    }
                },
            }
            k = k + 1;
        }
        proof {
            assert(self.models().subrange(0, self.models().len() as int) =~= self.models());
        }
        errs
    }
}

/// One more entry extends a compiled prefix by whatever the entry's keyword
/// yields.
proof fn lemma_compile_entries_step(entries: Seq<(Seq<char>, Json)>, draft: Draft, k: int)
    requires
        0 <= k < entries.len(),
    ensures
        spec_compile_entries(entries.subrange(0, k + 1), draft) == (match spec_compile_entries(
            entries.subrange(0, k),
            draft,
        ) {
            Err(e) => Err(e),
            Ok(pre) => match keyword_compile(entries[k].0, entries[k].1, draft) {
                None => Ok::<_, CompilationError>(pre),
                Some(Ok(m)) => Ok(pre.push(m)),
                Some(Err(e)) => Err(e),
            },
        }),
{
    assert(entries.subrange(0, k + 1).drop_last() =~= entries.subrange(0, k));
    assert(entries.subrange(0, k + 1).last() == entries[k]);
}

/// Once an entry prefix fails to compile, the whole object fails with the
/// same error.
proof fn lemma_compile_err_extends(entries: Seq<(Seq<char>, Json)>, draft: Draft, k: int)
    requires
        0 <= k <= entries.len(),
        spec_compile_entries(entries.subrange(0, k), draft) is Err,
    ensures
        spec_compile_entries(entries, draft) == spec_compile_entries(
            entries.subrange(0, k),
            draft,
        ),
    decreases entries.len() - k,
{
    if k < entries.len() {
        assert(entries.subrange(0, k + 1).drop_last() =~= entries.subrange(0, k));
        lemma_compile_err_extends(entries, draft, k + 1);
    } else {
        assert(entries.subrange(0, entries.len() as int) =~= entries);
    }
}

/// Consistency: a compiled schema reports no error exactly when the
/// instance is valid, for every validator list and instance.
pub proof fn lemma_consistency(ms: Seq<ValidatorModel>, inst: Json)
    ensures
        (schema_errors(ms, inst).len() == 0) <==> schema_valid(ms, inst),
    decreases ms.len(),
{
    if ms.len() == 0 {
        assert(schema_valid(ms, inst));
    } else {
        lemma_consistency(ms.drop_last(), inst);
        if schema_valid(ms, inst) {
            assert forall|k: int|
                0 <= k < ms.drop_last().len() implies validator_valid(
                #[trigger] ms.drop_last()[k],
                inst,
            ) by {
                assert(ms.drop_last()[k] == ms[k]);
            }
            assert(schema_valid(ms.drop_last(), inst));
            assert(validator_valid(ms.last(), inst));
        }
        if schema_errors(ms, inst).len() == 0 {
            assert(validator_valid(ms.last(), inst));
            assert(schema_errors(ms.drop_last(), inst).len() == 0);
            assert forall|k: int| 0 <= k < ms.len() implies validator_valid(
                #[trigger] ms[k],
                inst,
            ) by {
                if k < ms.len() - 1 {
                    assert(ms.drop_last()[k] == ms[k]);
                    assert(validator_valid(ms.drop_last()[k], inst));
                }
            }
        }
    }
}

/// Determinism: evaluating the same compiled schema against the same
/// instance always yields the same verdict, because the verdict is a
/// function of the two.
pub proof fn lemma_evaluation_deterministic(
    ms: Seq<ValidatorModel>,
    inst: Json,
    r1: bool,
    r2: bool,
)
    requires
        r1 == schema_valid(ms, inst),
        r2 == schema_valid(ms, inst),
    ensures
        r1 == r2,
{
}

/// Determinism of compilation: the same schema value under the same draft
/// always compiles to the same validator models.
pub proof fn lemma_compile_deterministic(
    s: Json,
    draft: Draft,
    r1: Result<Seq<ValidatorModel>, CompilationError>,
    r2: Result<Seq<ValidatorModel>, CompilationError>,
)
    requires
        r1 == spec_compile(s, draft),
        r2 == spec_compile(s, draft),
    ensures
        r1 == r2,
{
}

/// Whether one keyword is recognised depends on the key alone, never on the
/// keyword's value.
proof fn lemma_keyword_none_same(key: Seq<char>, v1: Json, v2: Json, draft: Draft)
    ensures
        (keyword_compile(key, v1, draft) is None) == (keyword_compile(key, v2, draft) is None),
{
}

/// Structurally equal keyword values that both compile yield validators that
/// accept exactly the same well-formed instances.
proof fn lemma_keyword_compile_equiv(
    key: Seq<char>,
    w1: Json,
    w2: Json,
    draft: Draft,
    m1: ValidatorModel,
    m2: ValidatorModel,
    inst: Json,
)
    requires
        w1.wf(),
        w2.wf(),
        inst.wf(),
        values_equal(w1, w2),
        keyword_compile(key, w1, draft) == Some(Ok::<_, CompilationError>(m1)),
        keyword_compile(key, w2, draft) == Some(Ok::<_, CompilationError>(m2)),
    ensures
        validator_valid(m1, inst) == validator_valid(m2, inst),
{
    broadcast use vstd::arithmetic::power2::lemma_pow2_pos;

    if key == "const"@ {
        assert(m1 == (ValidatorModel::Const { value: w1 }));
        assert(m2 == (ValidatorModel::Const { value: w2 }));
        if values_equal(inst, w1) {
            lemma_equal_trans(inst, w1, w2);
        }
        if values_equal(inst, w2) {
            lemma_equal_symm(w1, w2);
            lemma_equal_trans(inst, w2, w1);
        }
    } else if key == "enum"@ {
        let o1 = w1->Array_0;
        let o2 = w2->Array_0;
        assert(m1 == (ValidatorModel::Enum { options: o1 }));
        assert(m2 == (ValidatorModel::Enum { options: o2 }));
        assert(crate::helpers::arrays_equal(o1, o2));
        if validator_valid(m1, inst) {
            let k = choose|k: int| 0 <= k < o1.len() && values_equal(inst, #[trigger] o1[k]);
            assert(values_equal(o1[k], o2[k]));
            assert(o1[k].wf() && o2[k].wf());
            lemma_equal_trans(inst, o1[k], o2[k]);
            assert(values_equal(inst, m2->options[k]));
            assert(validator_valid(m2, inst));
        }
        if validator_valid(m2, inst) {
            let k = choose|k: int| 0 <= k < o2.len() && values_equal(inst, #[trigger] o2[k]);
            assert(values_equal(o1[k], o2[k]));
            assert(o1[k].wf() && o2[k].wf());
            lemma_equal_symm(o1[k], o2[k]);
            lemma_equal_trans(inst, o2[k], o1[k]);
            assert(values_equal(inst, m1->options[k]));
            assert(validator_valid(m1, inst));
        }
    } else if key == "minimum"@ || key == "maximum"@ || key == "exclusiveMinimum"@ || key
        == "exclusiveMaximum"@ {
        assert(w1.is_number() && w2.is_number());
        assert(w1.num() == w2.num());
    } else if key == "minLength"@ || key == "maxLength"@ {
        let i1 = w1->Int_0;
        let i2 = w2->Int_0;
        assert(w1.num() == w2.num());
        assert(i1 * vstd::arithmetic::power2::pow2(1074) == i2 * vstd::arithmetic::power2::pow2(
            1074,
        ));
        assert(i1 == i2) by (nonlinear_arith)
            requires
                i1 * vstd::arithmetic::power2::pow2(1074) == i2
                    * vstd::arithmetic::power2::pow2(1074),
                vstd::arithmetic::power2::pow2(1074) >= 1,
        ;
        assert(m1 == m2);
    } else if key == "type"@ {
        lemma_type_compile_equiv(w1, w2, draft, m1, m2);
        assert(m1 == m2);
    }
}

/// Structurally equal `type` values that both compile yield the same model:
/// the names they carry are the same character sequences.
proof fn lemma_type_compile_equiv(
    w1: Json,
    w2: Json,
    draft: Draft,
    m1: ValidatorModel,
    m2: ValidatorModel,
)
    requires
        values_equal(w1, w2),
        (if draft is Draft4 {
            crate::keywords::legacy::type_draft_4::compile_spec(w1)
        } else {
            crate::keywords::type_::compile_spec(w1)
        }) == Some(Ok::<_, CompilationError>(m1)),
        (if draft is Draft4 {
            crate::keywords::legacy::type_draft_4::compile_spec(w2)
        } else {
            crate::keywords::type_::compile_spec(w2)
        }) == Some(Ok::<_, CompilationError>(m2)),
    ensures
        m1 == m2,
{
    match (w1, w2) {
        (Json::String(n1), Json::String(n2)) => {
            assert(n1 == n2);
        },
        (Json::Array(x), Json::Array(y)) => {
            assert(crate::helpers::arrays_equal(x, y));
            if x.len() == 1 {
                assert(values_equal(x[0], y[0]));
                match (x[0], y[0]) {
                    (Json::String(n1), Json::String(n2)) => {
                        assert(n1 == n2);
                    },
                    _ => {},
                }
            } else {
                assert forall|i: int| 0 <= i < x.len() implies values_equal(
                    #[trigger] x[i],
                    y[i],
                ) by {
                    assert(values_equal(x[i], y[i]));
                }
                crate::keywords::type_::lemma_parse_types_equiv(x, y);
            }
        },
        _ => {},
    }
}

/// What a successful compilation says of each entry: no entry's keyword
/// errs, every recognised entry's model is in the list, and every model in
/// the list comes from some recognised entry.
proof fn lemma_compile_entries_ok(
    entries: Seq<(Seq<char>, Json)>,
    draft: Draft,
    ms: Seq<ValidatorModel>,
)
    requires
        spec_compile_entries(entries, draft) == Ok::<_, CompilationError>(ms),
    ensures
        forall|i: int|
            0 <= i < entries.len() ==> match keyword_compile(
                (#[trigger] entries[i]).0,
                entries[i].1,
                draft,
            ) {
                Some(Ok(m)) => ms.contains(m),
                Some(Err(_)) => false,
                None => true,
            },
        forall|k: int|
            0 <= k < ms.len() ==> exists|i: int|
                0 <= i < entries.len() && keyword_compile(
                    (#[trigger] entries[i]).0,
                    entries[i].1,
                    draft,
                ) == Some(Ok::<_, CompilationError>(#[trigger] ms[k])),
    decreases entries.len(),
{
    if entries.len() > 0 {
        let el = entries.drop_last();
        let pre = spec_compile_entries(el, draft)->Ok_0;
        lemma_compile_entries_ok(el, draft, pre);
        assert forall|i: int|
            0 <= i < entries.len() implies match keyword_compile(
            (#[trigger] entries[i]).0,
            entries[i].1,
            draft,
        ) {
            Some(Ok(m)) => ms.contains(m),
            Some(Err(_)) => false,
            None => true,
        } by {
            if i < entries.len() - 1 {
                assert(el[i] == entries[i]);
                match keyword_compile(entries[i].0, entries[i].1, draft) {
                    Some(Ok(m)) => {
                        assert(pre.contains(m));
                        let t = choose|t: int| 0 <= t < pre.len() && pre[t] == m;
                        assert(ms[t] == m);
                        assert(ms.contains(m));
                    },
                    _ => {},
                }
            } else {
                assert(entries[i] == entries.last());
                match keyword_compile(entries[i].0, entries[i].1, draft) {
                    Some(Ok(m)) => {
                        assert(ms == pre.push(m));
                        assert(ms[ms.len() - 1] == m);
                        assert(ms.contains(m));
                    },
                    _ => {},
                }
            }
        }
        assert forall|k: int| 0 <= k < ms.len() implies exists|i: int|
            0 <= i < entries.len() && keyword_compile(
                (#[trigger] entries[i]).0,
                entries[i].1,
                draft,
            ) == Some(Ok::<_, CompilationError>(#[trigger] ms[k])) by {
            if k < pre.len() {
                assert(pre[k] == ms[k]);
                let i = choose|i: int|
                    0 <= i < el.len() && keyword_compile(
                        (#[trigger] el[i]).0,
                        el[i].1,
                        draft,
                    ) == Some(Ok::<_, CompilationError>(pre[k]));
                assert(entries[i] == el[i]);
                assert(keyword_compile(entries[i].0, entries[i].1, draft) == Some(Ok::<
                    _,
                    CompilationError,
                >(ms[k])));
            } else {
                let i = entries.len() - 1;
                assert(entries[i] == entries.last());
                assert(keyword_compile(entries[i].0, entries[i].1, draft) == Some(Ok::<
                    _,
                    CompilationError,
                >(ms[k])));
            }
        }
    }
}

/// Carries validity across two structurally equal compiled objects, one
/// direction at a time.
proof fn lemma_schema_valid_transfer(
    e1: Seq<(Seq<char>, Json)>,
    e2: Seq<(Seq<char>, Json)>,
    draft: Draft,
    ms1: Seq<ValidatorModel>,
    ms2: Seq<ValidatorModel>,
    inst: Json,
)
    requires
        Json::Object(e1).wf(),
        Json::Object(e2).wf(),
        inst.wf(),
        crate::helpers::objects_equal(e1, e2),
        spec_compile_entries(e1, draft) == Ok::<_, CompilationError>(ms1),
        spec_compile_entries(e2, draft) == Ok::<_, CompilationError>(ms2),
        schema_valid(ms1, inst),
    ensures
        schema_valid(ms2, inst),
{
    lemma_compile_entries_ok(e1, draft, ms1);
    lemma_compile_entries_ok(e2, draft, ms2);
    assert forall|k2: int| 0 <= k2 < ms2.len() implies validator_valid(
        #[trigger] ms2[k2],
        inst,
    ) by {
        let j = choose|j: int|
            0 <= j < e2.len() && keyword_compile((#[trigger] e2[j]).0, e2[j].1, draft) == Some(
                Ok::<_, CompilationError>(ms2[k2]),
            );
        assert(has_key(e1, e2[j].0));
        let i = choose|i: int| 0 <= i < e1.len() && (#[trigger] e1[i]).0 == e2[j].0;
        assert(entry_matched(e1[i], e2));
        let j2 = choose|j2: int|
            {
                &&& 0 <= j2 < e2.len()
                &&& (#[trigger] e2[j2]).0 == e1[i].0
                &&& values_equal(e1[i].1, e2[j2].1)
            };
        assert(e2[j2].0 == e2[j].0);
        assert(j2 == j);
        assert(values_equal(e1[i].1, e2[j].1));
        lemma_keyword_none_same(e1[i].0, e1[i].1, e2[j].1, draft);
        assert(!(keyword_compile(e1[i].0, e1[i].1, draft) is None));
        let m1 = keyword_compile(e1[i].0, e1[i].1, draft)->Some_0->Ok_0;
        assert(keyword_compile(e1[i].0, e1[i].1, draft) == Some(Ok::<_, CompilationError>(m1)));
        assert(ms1.contains(m1));
        let k1 = choose|k1: int| 0 <= k1 < ms1.len() && ms1[k1] == m1;
        assert(validator_valid(ms1[k1], inst));
        assert(e1[i].1.wf());
        assert(e2[j].1.wf());
        lemma_keyword_compile_equiv(e1[i].0, e1[i].1, e2[j].1, draft, m1, ms2[k2], inst);
    }
}

/// Purity of compilation: structurally equal schemas that both compile
/// yield behaviourally equal validator trees, whatever the order of their
/// entries. A malformed keyword value can make one of two structurally
/// equal schemas fail to compile while the other succeeds, so the law is
/// stated of schemas that both compile.
pub proof fn lemma_compile_pure(
    s1: Json,
    s2: Json,
    draft: Draft,
    ms1: Seq<ValidatorModel>,
    ms2: Seq<ValidatorModel>,
    inst: Json,
)
    requires
        s1.wf(),
        s2.wf(),
        inst.wf(),
        values_equal(s1, s2),
        spec_compile(s1, draft) == Ok::<_, CompilationError>(ms1),
        spec_compile(s2, draft) == Ok::<_, CompilationError>(ms2),
    ensures
        schema_valid(ms1, inst) == schema_valid(ms2, inst),
{
    let e1 = s1->Object_0;
    let e2 = s2->Object_0;
    assert(s1 is Object && s2 is Object);
    assert(crate::helpers::objects_equal(e1, e2));
    if schema_valid(ms1, inst) {
        lemma_schema_valid_transfer(e1, e2, draft, ms1, ms2, inst);
    }
    if schema_valid(ms2, inst) {
        lemma_equal_symm(s1, s2);
        assert(crate::helpers::objects_equal(e2, e1));
        lemma_schema_valid_transfer(e2, e1, draft, ms2, ms1, inst);
    }
}

} // verus!



