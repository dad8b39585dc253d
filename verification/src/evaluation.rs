//! The meaning of the synthesized constructor and mutators.
//!
//! A constructed subject instance is modelled as one content slot per field:
//! either the absent sentinel (the `None` every optional field is
//! initialized to) or a value. Evaluating the synthesized constructor's
//! initializer lines over the values supplied for the parameters-type fields
//! yields such an instance; a mutator overwrites exactly the slot of the
//! field it targets. The two laws here pin the round trip down: a subject
//! built from a parameters value alone holds every required field's value at
//! its renumbered position and leaves every optional field absent, and a
//! mutator changes its own field and no other.

use vstd::prelude::*;
use vstd::pervasive::VecAdditionalExecFns;

use crate::build_struct::NamedFieldBuilderView;
use crate::build_struct::UnnamedFieldBuilderView;
use crate::build_struct::is_required_field;
use crate::build_struct::spec_field_ident;
use crate::build_struct::spec_named_descriptors;
use crate::build_struct::spec_required_count;
use crate::build_struct::spec_required_prefix;
use crate::build_struct::spec_unnamed_descriptors;
use crate::build_struct::lemma_required_prefix_full;
use crate::build_struct::lemma_required_prefix_le;
use crate::build_struct::spec_build_plan;
use crate::impl_builder_fns::spec_builder_impl;
use crate::impl_subject_fn_builder::spec_ctor_inits_named;
use crate::impl_subject_fn_builder::spec_ctor_inits_unnamed;
use crate::impl_subject_fn_builder::spec_required_before;
use crate::impl_subject_fn_builder::spec_subject_impl;
use crate::model::Field;
use crate::model::Subject;
use crate::model::opt_string_view;
use crate::model::subject_wf;
use crate::model::field_list;
use crate::output::CtorInit;
use crate::output::CtorInitView;
use crate::output::FieldDef;
use crate::output::FieldDefView;
use crate::output::FieldInit;
use crate::output::FieldInitView;
use crate::output::FieldRef;
use crate::output::FieldRefView;
use crate::output::FieldsDefView;
use crate::params_struct::spec_force_public;
use crate::params_struct::spec_params_fields_named;
use crate::params_struct::spec_params_fields_unnamed;
use crate::params_struct::spec_params_struct;
use crate::struct_builder::spec_builder_context;

verus! {

/// The content of one field slot of a constructed instance.
#[derive(Clone, Copy, PartialEq, Eq, Debug)]
pub enum FieldContent<V> {
    /// The absent sentinel every optional field is initialized to.
    Absent,
    /// A concrete value.
    Value(V),
}

/// The position of the first synthesized field carrying the given
/// identifier (the length of the list when none does).
pub open spec fn spec_ident_index(fields: Seq<FieldDefView>, name: Seq<char>) -> int
    decreases fields.len(),
{
    if fields.len() == 0 {
        0
    } else if fields[0].ident == Option::Some(name) {
        0
    } else {
        1 + spec_ident_index(fields.drop_first(), name)
    }
}

/// The position of the first subject field carrying the given identifier
/// (the length of the list when none does).
pub open spec fn spec_named_position(fs: Seq<Field>, name: Seq<char>) -> int
    decreases fs.len(),
{
    if fs.len() == 0 {
        0
    } else if opt_string_view(fs[0].ident) == Option::Some(name) {
        0
    } else {
        1 + spec_named_position(fs.drop_first(), name)
    }
}

/// The subject field a synthesized field reference resolves to: an index
/// resolves to itself, a name to the first subject field carrying it.
pub open spec fn spec_resolve_field_ref(fs: Seq<Field>, r: FieldRefView) -> int {
    match r {
        FieldRefView::Named(n) => spec_named_position(fs, n),
        FieldRefView::Index(k) => k,
    }
}

/// No two named fields of the list share an identifier.
pub open spec fn named_idents_distinct(fs: Seq<Field>) -> bool {
    forall|i: int, j: int|
        0 <= i < j < fs.len() ==> spec_field_ident(fs[i]) != spec_field_ident(fs[j])
}

/// What one initializer line evaluates to, given the synthesized
/// parameters-type fields and the value supplied for each of them.
pub open spec fn spec_eval_init<V>(
    init: FieldInitView,
    params_fields: Seq<FieldDefView>,
    vals: Seq<V>,
) -> FieldContent<V> {
    match init {
        FieldInitView::Absent => FieldContent::Absent,
        FieldInitView::FromParams(FieldRefView::Index(k)) => if 0 <= k < vals.len() {
            FieldContent::Value(vals[k])
        } else {
            FieldContent::Absent
        },
        FieldInitView::FromParams(FieldRefView::Named(n)) => {
            let k = spec_ident_index(params_fields, n);
            if 0 <= k < vals.len() {
                FieldContent::Value(vals[k])
            } else {
                FieldContent::Absent
            }
        },
    }
}

/// What the synthesized constructor's initializer lines evaluate to, slot by
/// slot.
pub open spec fn spec_eval_ctor<V>(
    inits: Seq<CtorInitView>,
    params_fields: Seq<FieldDefView>,
    vals: Seq<V>,
) -> Seq<FieldContent<V>> {
    Seq::new(inits.len(), |i: int| spec_eval_init(inits[i].init, params_fields, vals))
}

/// The instance `builder(params).build()` produces: the synthesized
/// constructor's initializer lines, evaluated over the values supplied for
/// the synthesized parameters-type fields. The builder wrapper is
/// transparent: the constructor wraps exactly this instance and `build`
/// unwraps it unchanged.
pub open spec fn spec_constructed_instance<V>(s: Subject, vals: Seq<V>) -> Seq<FieldContent<V>> {
    let ctx = spec_builder_context(s);
    let plan = spec_build_plan(s.fields);
    let ctor = spec_subject_impl(ctx, plan)->0;
    let pdecl = spec_params_struct(ctx, plan)->0;
    let pfields = match pdecl.fields {
        FieldsDefView::Named(pfs) => pfs,
        FieldsDefView::Unnamed(pfs) => pfs,
    };
    spec_eval_ctor(ctor.inits, pfields, vals)
}

proof fn lemma_ident_index_first(fields: Seq<FieldDefView>, name: Seq<char>, k: int)
    requires
        0 <= k < fields.len(),
        fields[k].ident == Option::Some(name),
        forall|j: int| 0 <= j < k ==> fields[j].ident != Option::Some(name),
    ensures
        spec_ident_index(fields, name) == k,
    decreases k,
{
    if k > 0 {
        assert(forall|j: int|
            0 <= j < k - 1 ==> fields.drop_first()[j].ident != Option::Some(name));
        assert(fields.drop_first()[k - 1].ident == Option::Some(name));
        lemma_ident_index_first(fields.drop_first(), name, k - 1);
    }
}

proof fn lemma_named_position_first(fs: Seq<Field>, name: Seq<char>, k: int)
    requires
        0 <= k < fs.len(),
        opt_string_view(fs[k].ident) == Option::Some(name),
        forall|j: int| 0 <= j < k ==> opt_string_view(fs[j].ident) != Option::Some(name),
    ensures
        spec_named_position(fs, name) == k,
    decreases k,
{
    if k > 0 {
        assert(forall|j: int|
            0 <= j < k - 1 ==> opt_string_view(fs.drop_first()[j].ident) != Option::Some(name));
        assert(opt_string_view(fs.drop_first()[k - 1].ident) == Option::Some(name));
        lemma_named_position_first(fs.drop_first(), name, k - 1);
    }
}

proof fn lemma_ident_index_missing(fields: Seq<FieldDefView>, name: Seq<char>)
    requires
        forall|j: int| 0 <= j < fields.len() ==> fields[j].ident != Option::Some(name),
    ensures
        spec_ident_index(fields, name) == fields.len(),
    decreases fields.len(),
{
    if fields.len() > 0 {
        assert(forall|j: int|
            0 <= j < fields.drop_first().len() ==> fields.drop_first()[j].ident != Option::Some(
                name,
            ));
        lemma_ident_index_missing(fields.drop_first(), name);
    }
}

/// How many of the first `i` named descriptors are required.
pub open spec fn spec_required_before_named(ds: Seq<NamedFieldBuilderView>, i: int) -> int
    decreases i,
{
    if i <= 0 {
        0
    } else {
        spec_required_before_named(ds, i - 1) + if ds[i - 1].required {
            1int
        } else {
            0int
        }
    }
}

proof fn lemma_before_named_agrees(ds: Seq<NamedFieldBuilderView>, i: int)
    requires
        0 <= i < ds.len(),
    ensures
        spec_required_before_named(ds.drop_last(), i) == spec_required_before_named(ds, i),
    decreases i,
{
    if i > 0 {
        lemma_before_named_agrees(ds, i - 1);
    }
}

/// The parameters-type field list is exactly the required subset of the
/// descriptor list, in original order, forced public: the parameters field
/// at renumbered position `spec_required_before_named(ds, i)` is descriptor
/// `i`'s field.
#[verifier::spinoff_prover]
pub proof fn lemma_params_fields_named_char(ds: Seq<NamedFieldBuilderView>)
    ensures
        spec_params_fields_named(ds).len() == spec_required_before_named(ds, ds.len() as int),
        forall|i: int|
            0 <= i < ds.len() && (#[trigger] ds[i]).required ==> 0 <= spec_required_before_named(
                ds,
                i,
            ) < spec_params_fields_named(ds).len() && spec_params_fields_named(
                ds,
            )[spec_required_before_named(ds, i)] == spec_force_public(ds[i].field),
    decreases ds.len(),
{
    let p = spec_params_fields_named(ds);
    if ds.len() == 0 {
    } else {
        let ds0 = ds.drop_last();
        let p0 = spec_params_fields_named(ds0);
        lemma_params_fields_named_char(ds0);
        assert forall|i: int| 0 <= i < ds.len() implies spec_required_before_named(ds0, i)
            == #[trigger] spec_required_before_named(ds, i) by {
            lemma_before_named_agrees(ds, i);
        }
        assert forall|i: int| 0 <= i < ds.len() && (#[trigger] ds[i]).required implies 0
            <= spec_required_before_named(ds, i) < p.len() && p[spec_required_before_named(ds, i)]
            == spec_force_public(ds[i].field) by {
            if i < ds.len() - 1 {
                assert(ds0[i] == ds[i]);
            } else {
                assert(spec_required_before_named(ds, i) == p0.len());
            }
        }
    }
}

/// Every parameters-type field arises from a required descriptor, at that
/// descriptor's renumbered position.
#[verifier::spinoff_prover]
pub proof fn lemma_params_fields_named_surj(ds: Seq<NamedFieldBuilderView>, k: int)
    requires
        0 <= k < spec_params_fields_named(ds).len(),
    ensures
        exists|i: int|
            0 <= i < ds.len() && (#[trigger] ds[i]).required && spec_required_before_named(ds, i)
                == k,
    decreases ds.len(),
{
    let p = spec_params_fields_named(ds);
    let ds0 = ds.drop_last();
    let p0 = spec_params_fields_named(ds0);
    lemma_params_fields_named_char(ds);
    assert forall|i: int| 0 <= i < ds.len() implies spec_required_before_named(ds0, i)
        == #[trigger] spec_required_before_named(ds, i) by {
        lemma_before_named_agrees(ds, i);
    }
    if ds.last().required && k == p0.len() {
        lemma_params_fields_named_char(ds0);
        assert(ds[ds.len() - 1].required && spec_required_before_named(ds, ds.len() - 1) == k);
    } else {
        lemma_params_fields_named_surj(ds0, k);
        let i0 = choose|i: int|
            0 <= i < ds0.len() && (#[trigger] ds0[i]).required && spec_required_before_named(
                ds0,
                i,
            ) == k;
        assert(ds[i0] == ds0[i0]);
        assert(ds[i0].required && spec_required_before_named(ds, i0) == k);
    }
}

/// The descriptor-level required count at position `i` agrees with the
/// field-level prefix count.
pub proof fn lemma_named_rank_bridge(fs: Seq<Field>, i: int)
    requires
        0 <= i <= fs.len(),
    ensures
        spec_required_before_named(spec_named_descriptors(fs), i) == spec_required_prefix(fs, i),
    decreases i,
{
    if i > 0 {
        lemma_named_rank_bridge(fs, i - 1);
        assert(spec_named_descriptors(fs)[i - 1] == crate::build_struct::spec_named_descriptor(
            fs[i - 1],
        ));
    }
}

/// The descriptor-level required count of unnamed descriptors agrees with
/// the field-level prefix count.
pub proof fn lemma_unnamed_rank_bridge(fs: Seq<Field>, i: int)
    requires
        0 <= i <= fs.len(),
    ensures
        spec_required_before(spec_unnamed_descriptors(fs), i) == spec_required_prefix(fs, i),
    decreases i,
{
    if i > 0 {
        lemma_unnamed_rank_bridge(fs, i - 1);
        assert(spec_unnamed_descriptors(fs)[i - 1] == crate::build_struct::spec_unnamed_descriptor(
            i - 1,
            fs[i - 1],
        ));
    }
}

/// Looking a required descriptor's identifier up in the parameters-type
/// field list finds exactly that descriptor's renumbered position, provided
/// the identifiers are distinct.
proof fn lemma_params_ident_lookup(ds: Seq<NamedFieldBuilderView>, i: int)
    requires
        forall|j: int|
            0 <= j < ds.len() ==> (#[trigger] ds[j]).field.ident == Option::Some(ds[j].ident),
        forall|j1: int, j2: int| 0 <= j1 < j2 < ds.len() ==> ds[j1].ident != ds[j2].ident,
        0 <= i < ds.len(),
        ds[i].required,
    ensures
        spec_ident_index(spec_params_fields_named(ds), ds[i].ident) == spec_required_before_named(
            ds,
            i,
        ),
{
    let p = spec_params_fields_named(ds);
    let k = spec_required_before_named(ds, i);
    lemma_params_fields_named_char(ds);
    assert(p[k] == spec_force_public(ds[i].field));
    assert(p[k].ident == Option::Some(ds[i].ident));
    assert forall|k2: int| 0 <= k2 < k implies p[k2].ident != Option::Some(ds[i].ident) by {
        lemma_params_fields_named_surj(ds, k2);
        let i2 = choose|j: int|
            0 <= j < ds.len() && (#[trigger] ds[j]).required && spec_required_before_named(ds, j)
                == k2;
        assert(p[k2] == spec_force_public(ds[i2].field));
        assert(i2 != i);
        assert(ds[i2].ident != ds[i].ident);
        assert(p[k2].ident == Option::Some(ds[i2].ident));
    }
    lemma_ident_index_first(p, ds[i].ident, k);
}

/// Round trip through the constructor: a subject built from a parameters
/// value alone — `builder(params).build()` with no mutator call — holds, in
/// every required field, the value supplied for the corresponding
/// parameters-type field (the field at its renumbered position), and the
/// absent sentinel in every optional field. For a named subject the field
/// identifiers must be distinct, as they are in any valid declaration.
pub proof fn lemma_round_trip<V>(s: Subject, vals: Seq<V>)
    requires
        subject_wf(s),
        !(s.fields is Unit),
        s.fields is Named ==> named_idents_distinct(field_list(s.fields)),
        vals.len() == spec_required_count(field_list(s.fields)),
    ensures
        spec_constructed_instance::<V>(s, vals).len() == field_list(s.fields).len(),
        forall|i: int|
            0 <= i < field_list(s.fields).len() && is_required_field(
                #[trigger] field_list(s.fields)[i],
            ) ==> spec_constructed_instance::<V>(s, vals)[i] == FieldContent::Value(
                vals[spec_required_prefix(field_list(s.fields), i)],
            ),
        forall|i: int|
            0 <= i < field_list(s.fields).len() && !is_required_field(
                #[trigger] field_list(s.fields)[i],
            ) ==> spec_constructed_instance::<V>(s, vals)[i] == FieldContent::<V>::Absent,
{
    let fs = field_list(s.fields);
    let inst = spec_constructed_instance::<V>(s, vals);
    lemma_required_prefix_full(fs);
    match s.fields {
        crate::model::Fields::Named(_) => {
            let ds = spec_named_descriptors(fs);
            assert forall|j: int|
                0 <= j < ds.len() implies (#[trigger] ds[j]).field.ident == Option::Some(
                ds[j].ident,
            ) && ds[j].ident == spec_field_ident(fs[j]) && ds[j].required == is_required_field(
                fs[j],
            ) && spec_required_before_named(ds, j) == spec_required_prefix(fs, j) by {
                assert(ds[j] == crate::build_struct::spec_named_descriptor(fs[j]));
                assert(fs[j].ident is Some);
                lemma_named_rank_bridge(fs, j);
            }
            let ctx = spec_builder_context(s);
            let plan = spec_build_plan(s.fields);
            let ctor = spec_subject_impl(ctx, plan)->0;
            let pdecl = spec_params_struct(ctx, plan)->0;
            assert(ctor.inits == spec_ctor_inits_named(ds));
            assert(pdecl.fields == FieldsDefView::Named(spec_params_fields_named(ds)));
            assert forall|i: int|
                0 <= i < fs.len() && is_required_field(#[trigger] fs[i]) implies inst[i]
                == FieldContent::Value(vals[spec_required_prefix(fs, i)]) by {
                assert forall|j1: int, j2: int| 0 <= j1 < j2 < ds.len() implies ds[j1].ident
                    != ds[j2].ident by {
                    assert(spec_field_ident(fs[j1]) != spec_field_ident(fs[j2]));
                }
                assert(ctor.inits[i].init == FieldInitView::FromParams(
                    FieldRefView::Named(ds[i].ident),
                ));
                assert(inst[i] == spec_eval_init(
                    ctor.inits[i].init,
                    spec_params_fields_named(ds),
                    vals,
                ));
                lemma_params_ident_lookup(ds, i);
                lemma_required_prefix_le(fs, 0, i);
                lemma_required_prefix_le(fs, i, fs.len() as int);
            }
            assert forall|i: int|
                0 <= i < fs.len() && !is_required_field(#[trigger] fs[i]) implies inst[i]
                == FieldContent::<V>::Absent by {
                assert(ds[i] == crate::build_struct::spec_named_descriptor(fs[i]));
            }
        },
        crate::model::Fields::Unnamed(_) => {
            let ds = spec_unnamed_descriptors(fs);
            let ctx = spec_builder_context(s);
            let plan = spec_build_plan(s.fields);
            let ctor = spec_subject_impl(ctx, plan)->0;
            assert(ctor.inits == spec_ctor_inits_unnamed(ds));
            assert forall|i: int|
                0 <= i < fs.len() && is_required_field(#[trigger] fs[i]) implies inst[i]
                == FieldContent::Value(vals[spec_required_prefix(fs, i)]) by {
                assert(ds[i] == crate::build_struct::spec_unnamed_descriptor(i, fs[i]));
                assert(ctor.inits[i].init == FieldInitView::FromParams(
                    FieldRefView::Index(spec_required_before(ds, i)),
                ));
                lemma_unnamed_rank_bridge(fs, i);
                lemma_required_prefix_le(fs, 0, i);
                lemma_required_prefix_le(fs, i, fs.len() as int);
            }
            assert forall|i: int|
                0 <= i < fs.len() && !is_required_field(#[trigger] fs[i]) implies inst[i]
                == FieldContent::<V>::Absent by {
                assert(ds[i] == crate::build_struct::spec_unnamed_descriptor(i, fs[i]));
            }
        },
        crate::model::Fields::Unit => {},
    }
}

/// Mutator overwrite: the `i`-th synthesized mutator targets exactly the
/// `i`-th subject field, so applying it with value `v` to an instance yields
/// an instance whose `i`-th slot is `v` and whose every other slot is
/// unchanged. For a named subject the field identifiers must be distinct, as
/// they are in any valid declaration.
pub proof fn lemma_mutator_overwrite<V>(
    s: Subject,
    inst: Seq<FieldContent<V>>,
    i: int,
    v: FieldContent<V>,
)
    requires
        subject_wf(s),
        !(s.fields is Unit),
        s.fields is Named ==> named_idents_distinct(field_list(s.fields)),
        inst.len() == field_list(s.fields).len(),
        0 <= i < field_list(s.fields).len(),
    ensures
        spec_builder_impl(spec_builder_context(s), spec_build_plan(s.fields))->0.mutators.len()
            == field_list(s.fields).len(),
        spec_resolve_field_ref(
            field_list(s.fields),
            spec_builder_impl(
                spec_builder_context(s),
                spec_build_plan(s.fields),
            )->0.mutators[i].field,
        ) == i,
        inst.update(i, v)[i] == v,
        forall|j: int| 0 <= j < inst.len() && j != i ==> inst.update(i, v)[j] == inst[j],
{
    let fs = field_list(s.fields);
    let ms = spec_builder_impl(spec_builder_context(s), spec_build_plan(s.fields))->0.mutators;
    match s.fields {
        crate::model::Fields::Named(_) => {
            let ds = spec_named_descriptors(fs);
            assert(ds[i] == crate::build_struct::spec_named_descriptor(fs[i]));
            assert(ms[i].field == FieldRefView::Named(spec_field_ident(fs[i])));
            assert(fs[i].ident is Some);
            assert(opt_string_view(fs[i].ident) == Option::Some(spec_field_ident(fs[i])));
            assert forall|j: int| 0 <= j < i implies opt_string_view(fs[j].ident) != Option::Some(
                spec_field_ident(fs[i]),
            ) by {
                assert(fs[j].ident is Some);
                assert(spec_field_ident(fs[j]) != spec_field_ident(fs[i]));
            }
            lemma_named_position_first(fs, spec_field_ident(fs[i]), i);
        },
        crate::model::Fields::Unnamed(_) => {
            let ds = spec_unnamed_descriptors(fs);
            assert(ds[i] == crate::build_struct::spec_unnamed_descriptor(i, fs[i]));
            assert(ms[i].field == FieldRefView::Index(i));
        },
        crate::model::Fields::Unit => {},
    }
}

/// The position of the first synthesized field carrying the given
/// identifier, or the list's length when none does.
pub fn find_param_index(params_fields: &Vec<FieldDef>, name: &String) -> (k: usize)
    ensures
        k as int == spec_ident_index(params_fields.deep_view(), name@),
        k <= params_fields@.len(),
{
    let ghost pv = params_fields.deep_view();
    let mut i: usize = 0;
    while i < params_fields.len()
        invariant
            0 <= i <= params_fields@.len(),
            pv == params_fields.deep_view(),
            pv.len() == params_fields@.len(),
            forall|j: int| 0 <= j < i ==> pv[j].ident != Option::Some(name@),
        decreases params_fields@.len() - i,
    {
        let hit: bool = match &params_fields[i].ident {
            Option::Some(s) => s.eq(name),
            Option::None => false,
        };
        if hit {
            proof {
                assert(pv[i as int] == params_fields@[i as int]@);
                lemma_ident_index_first(pv, name@, i as int);
            }
            return i;
        }
        proof {
            assert(pv[i as int] == params_fields@[i as int]@);
        }
        i = i + 1;
    }
    proof {
        lemma_ident_index_missing(pv, name@);
    }
    params_fields.len()
}

/// Evaluate the synthesized constructor's initializer lines over the values
/// supplied for the parameters-type fields, slot by slot.
pub fn eval_ctor<V: Copy>(
    inits: &Vec<CtorInit>,
    params_fields: &Vec<FieldDef>,
    vals: &Vec<V>,
) -> (r: Vec<FieldContent<V>>)
    ensures
        r@ == spec_eval_ctor(inits.deep_view(), params_fields.deep_view(), vals@),
{
    let ghost iv = inits.deep_view();
    let ghost goal = spec_eval_ctor(inits.deep_view(), params_fields.deep_view(), vals@);
    let mut out: Vec<FieldContent<V>> = Vec::new();
    let mut i: usize = 0;
    while i < inits.len()
        invariant
            0 <= i <= inits@.len(),
            iv == inits.deep_view(),
            iv.len() == inits@.len(),
            goal == spec_eval_ctor(inits.deep_view(), params_fields.deep_view(), vals@),
            out@.len() == i,
            forall|j: int| 0 <= j < i ==> out@[j] == goal[j],
        decreases inits@.len() - i,
    {
        proof {
            assert(iv[i as int] == inits@[i as int]@);
        }
        let slot: FieldContent<V> = match &inits[i].init {
            FieldInit::Absent => FieldContent::Absent,
            FieldInit::FromParams(FieldRef::Index(k)) => {
                if *k < vals.len() {
                    FieldContent::Value(vals[*k])
                } else {
                    FieldContent::Absent
                }
            },
            FieldInit::FromParams(FieldRef::Named(n)) => {
                let k = find_param_index(params_fields, n);
                if k < vals.len() {
                    FieldContent::Value(vals[k])
                } else {
                    FieldContent::Absent
                }
            },
        };
        out.push(slot);
        i = i + 1;
    }
    proof {
        assert(out@ =~= goal);
    }
    out
}

/// Resolve a synthesized field reference against the subject's field list:
/// an index resolves to itself, a name to the first field carrying it (the
/// list's length when none does).
#[verifier::loop_isolation(false)]
pub fn resolve_field_ref(fields: &Vec<Field>, r: &FieldRef) -> (k: usize)
    ensures
        r@ is Named ==> k as int == spec_named_position(fields@, r@->Named_0) && k
            <= fields@.len(),
        r@ is Index ==> k as int == r@->Index_0,
{
    match r {
        FieldRef::Index(k) => *k,
        FieldRef::Named(name) => {
            let mut i: usize = 0;
            while i < fields.len()
                invariant
                    0 <= i <= fields@.len(),
                    forall|j: int|
                        0 <= j < i ==> opt_string_view(fields@[j].ident) != Option::Some(name@),
                decreases fields@.len() - i,
            {
                let hit: bool = match &fields[i].ident {
                    Option::Some(s) => s.eq(name),
                    Option::None => false,
                };
                if hit {
                    proof {
                        lemma_named_position_first(fields@, name@, i as int);
                    }
                    return i;
                }
                i = i + 1;
            }
            proof {
                lemma_named_position_missing(fields@, name@);
            }
            fields.len()
        },
    }
}

proof fn lemma_named_position_missing(fs: Seq<Field>, name: Seq<char>)
    requires
        forall|j: int| 0 <= j < fs.len() ==> opt_string_view(fs[j].ident) != Option::Some(name),
    ensures
        spec_named_position(fs, name) == fs.len(),
    decreases fs.len(),
{
    if fs.len() > 0 {
        assert(forall|j: int|
            0 <= j < fs.drop_first().len() ==> opt_string_view(fs.drop_first()[j].ident)
                != Option::Some(name));
        lemma_named_position_missing(fs.drop_first(), name);
    }
}

/// Overwrite one slot of a constructed instance, as the synthesized mutator
/// for that field does, leaving every other slot unchanged.
pub fn set_field<V>(inst: &mut Vec<FieldContent<V>>, i: usize, v: FieldContent<V>)
    requires
        i < old(inst)@.len(),
    ensures
        final(inst)@ == old(inst)@.update(i as int, v),
{
    inst.set(i, v);
}

proof fn lemma_before_unnamed_agrees(ds: Seq<UnnamedFieldBuilderView>, i: int)
    requires
        0 <= i < ds.len(),
    ensures
        spec_required_before(ds.drop_last(), i) == spec_required_before(ds, i),
    decreases i,
{
    if i > 0 {
        lemma_before_unnamed_agrees(ds, i - 1);
    }
}

/// The unnamed parameters-type field list is exactly the required subset of
/// the descriptor list, in original order, forced public, renumbered
/// contiguously from zero: the parameters field at renumbered position
/// `spec_required_before(ds, i)` is descriptor `i`'s field.
#[verifier::spinoff_prover]
pub proof fn lemma_params_fields_unnamed_char(ds: Seq<UnnamedFieldBuilderView>)
    ensures
        spec_params_fields_unnamed(ds).len() == spec_required_before(ds, ds.len() as int),
        forall|i: int|
            0 <= i < ds.len() && (#[trigger] ds[i]).required ==> 0 <= spec_required_before(ds, i)
                < spec_params_fields_unnamed(ds).len() && spec_params_fields_unnamed(
                ds,
            )[spec_required_before(ds, i)] == spec_force_public(ds[i].field),
    decreases ds.len(),
{
    let p = spec_params_fields_unnamed(ds);
    if ds.len() == 0 {
    } else {
        let ds0 = ds.drop_last();
        let p0 = spec_params_fields_unnamed(ds0);
        lemma_params_fields_unnamed_char(ds0);
        assert forall|i: int| 0 <= i < ds.len() implies spec_required_before(ds0, i)
            == #[trigger] spec_required_before(ds, i) by {
            lemma_before_unnamed_agrees(ds, i);
        }
        assert(spec_required_before(ds, ds.len() as int) == spec_required_before(ds, ds.len() - 1)
            + if ds[ds.len() - 1].required {
            1int
        } else {
            0int
        });
        assert(p0.len() == spec_required_before(ds0, ds0.len() as int));
        assert(spec_required_before(ds0, ds0.len() as int) == spec_required_before(
            ds,
            ds.len() - 1,
        ));
        if ds.last().required {
            assert(p == p0.push(spec_force_public(ds.last().field)));
            assert forall|i: int| 0 <= i < ds.len() && (#[trigger] ds[i]).required implies 0
                <= spec_required_before(ds, i) < p.len() && p[spec_required_before(ds, i)]
                == spec_force_public(ds[i].field) by {
                if i < ds.len() - 1 {
                    assert(ds0[i] == ds[i]);
                } else {
                    assert(spec_required_before(ds, i) == p0.len());
                }
            }
        } else {
            assert(p == p0);
            assert forall|i: int| 0 <= i < ds.len() && (#[trigger] ds[i]).required implies 0
                <= spec_required_before(ds, i) < p.len() && p[spec_required_before(ds, i)]
                == spec_force_public(ds[i].field) by {
                assert(i < ds.len() - 1);
                assert(ds0[i] == ds[i]);
            }
        }
    }
}

} // verus!
