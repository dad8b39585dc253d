//! The subject-constructor synthesizer.
//!
//! Emits the function `builder(params) -> Builder` attached to the subject
//! type. The constructed subject instance reads every required field from
//! the corresponding parameters-type field — for an unnamed subject the
//! parameters index is the field's renumbered position over the required
//! subset — and sets every optional field to the absent sentinel. The fresh
//! instance is wrapped into the builder. A unit subject emits nothing.

use vstd::prelude::*;

use crate::build_struct::BuildPlan;
use crate::build_struct::BuildPlanView;
use crate::build_struct::NamedFieldBuilderView;
use crate::build_struct::UnnamedFieldBuilderView;
use crate::build_struct::spec_build_plan;
use crate::build_struct::struct_builder_from_fields;
use crate::model::Subject;
use crate::model::clone_generic_params;
use crate::model::clone_opt_string;
use crate::model::subject_wf;
use crate::output::CtorInit;
use crate::output::CtorInitView;
use crate::output::FieldInit;
use crate::output::FieldInitView;
use crate::output::FieldRef;
use crate::output::FieldRefView;
use crate::output::SubjectImplDecl;
use crate::output::SubjectImplDeclView;
use crate::struct_builder::BuilderContext;
use crate::struct_builder::BuilderContextView;
use crate::struct_builder::spec_builder_context;
use crate::struct_builder::spec_builder_type_ref;
use crate::struct_builder::spec_params_type_ref;
use crate::struct_builder::spec_subject_type_ref;

verus! {

/// The constructor's initializer lines for a named subject: each required
/// field reads the parameters field of the same name, each optional field is
/// absent.
pub open spec fn spec_ctor_inits_named(ds: Seq<NamedFieldBuilderView>) -> Seq<CtorInitView> {
    Seq::new(
        ds.len(),
        |i: int|
            CtorInitView {
                field: FieldRefView::Named(ds[i].ident),
                init: if ds[i].required {
                    FieldInitView::FromParams(FieldRefView::Named(ds[i].ident))
                } else {
                    FieldInitView::Absent
                },
            },
    )
}

/// How many of the first `i` descriptors are required: the renumbered
/// parameters index of the field at position `i`, when that field is
/// required.
pub open spec fn spec_required_before(ds: Seq<UnnamedFieldBuilderView>, i: int) -> int
    decreases i,
{
    if i <= 0 {
        0
    } else {
        spec_required_before(ds, i - 1) + if ds[i - 1].required {
            1int
        } else {
            0int
        }
    }
}

/// The constructor's initializer lines for an unnamed subject: each required
/// field reads the parameters field at its renumbered position, each
/// optional field is absent.
pub open spec fn spec_ctor_inits_unnamed(ds: Seq<UnnamedFieldBuilderView>) -> Seq<CtorInitView> {
    Seq::new(
        ds.len(),
        |i: int|
            CtorInitView {
                field: FieldRefView::Index(i),
                init: if ds[i].required {
                    FieldInitView::FromParams(FieldRefView::Index(spec_required_before(ds, i)))
                } else {
                    FieldInitView::Absent
                },
            },
    )
}

/// The constructor a subject synthesizes: nothing for a unit subject.
pub open spec fn spec_subject_impl(ctx: BuilderContextView, plan: BuildPlanView) -> Option<
    SubjectImplDeclView,
> {
    let inits = match plan {
        BuildPlanView::Named(b) => spec_ctor_inits_named(b.field_builders),
        BuildPlanView::Unnamed(b) => spec_ctor_inits_unnamed(b.field_builders),
        BuildPlanView::Unit(_) => Seq::empty(),
    };
    if plan is Unit {
        Option::None
    } else {
        Option::Some(
            SubjectImplDeclView {
                generics_def: ctx.generics.generics_def,
                where_clause: ctx.generics.where_clause,
                self_ty: spec_subject_type_ref(ctx),
                params_argument: ctx.params_argument,
                params_ty: spec_params_type_ref(ctx),
                builder_ty: spec_builder_type_ref(ctx),
                builder_subject_field: ctx.builder_subject_field,
                inits,
            },
        )
    }
}

/// Spec-level value of the synthesizer's optional output.
pub open spec fn spec_opt_decl_view(r: Option<SubjectImplDecl>) -> Option<SubjectImplDeclView> {
    match r {
        Option::Some(d) => Option::Some(d@),
        Option::None => Option::None,
    }
}

/// The subject-constructor synthesizer: the shared context and the subject's
/// field descriptors.
pub struct ImplSubjectFnBuilder {
    pub ctx: BuilderContext,
    pub plan: BuildPlan,
}

impl ImplSubjectFnBuilder {
    /// Prepare the synthesizer for one subject.
    pub fn from(subject: &Subject) -> (r: ImplSubjectFnBuilder)
        requires
            subject_wf(*subject),
        ensures
            r.ctx@ == spec_builder_context(*subject),
            r.plan@ == spec_build_plan(subject.fields),
    {
        ImplSubjectFnBuilder {
            ctx: BuilderContext::from(subject),
            plan: struct_builder_from_fields(&subject.fields),
        }
    }

    /// Emit the constructor, or nothing for a unit subject.
    pub fn synthesize(&self) -> (r: Option<SubjectImplDecl>)
        ensures
            spec_opt_decl_view(r) == spec_subject_impl(self.ctx@, self.plan@),
    {
        let inits: Vec<CtorInit> = match &self.plan {
            BuildPlan::Named(b) => {
                let ghost dsv = b.field_builders.deep_view();
                let ghost goal = spec_ctor_inits_named(dsv);
                let mut out: Vec<CtorInit> = Vec::new();
                let mut i: usize = 0;
                while i < b.field_builders.len()
                    invariant
                        0 <= i <= b.field_builders@.len(),
                        dsv == b.field_builders.deep_view(),
                        dsv.len() == b.field_builders@.len(),
                        goal == spec_ctor_inits_named(dsv),
                        out@.len() == i,
                        forall|j: int| 0 <= j < i ==> out@[j]@ == goal[j],
                    decreases b.field_builders@.len() - i,
                {
                    proof {
                        assert(dsv[i as int] == b.field_builders@[i as int].deep_view());
                    }
                    let fb = &b.field_builders[i];
                    let init: FieldInit = if fb.required {
                        FieldInit::FromParams(FieldRef::Named(fb.ident.clone()))
                    } else {
                        FieldInit::Absent
                    };
                    out.push(CtorInit { field: FieldRef::Named(fb.ident.clone()), init });
                    i = i + 1;
                }
                proof {
                    assert(out.deep_view() =~= goal);
                }
                out
            },
            BuildPlan::Unnamed(b) => {
                let ghost dsv = b.field_builders.deep_view();
                let ghost goal = spec_ctor_inits_unnamed(dsv);
                let mut out: Vec<CtorInit> = Vec::new();
                let mut next_index: usize = 0;
                let mut i: usize = 0;
                while i < b.field_builders.len()
                    invariant
                        0 <= i <= b.field_builders@.len(),
                        dsv == b.field_builders.deep_view(),
                        dsv.len() == b.field_builders@.len(),
                        goal == spec_ctor_inits_unnamed(dsv),
                        out@.len() == i,
                        next_index <= i,
                        next_index == spec_required_before(dsv, i as int),
                        forall|j: int| 0 <= j < i ==> out@[j]@ == goal[j],
                    decreases b.field_builders@.len() - i,
                {
                    proof {
                        assert(dsv[i as int] == b.field_builders@[i as int].deep_view());
                    }
                    let fb = &b.field_builders[i];
                    let init: FieldInit = if fb.required {
                        let k = next_index;
                        next_index = next_index + 1;
                        FieldInit::FromParams(FieldRef::Index(k))
                    } else {
                        FieldInit::Absent
                    };
                    out.push(CtorInit { field: FieldRef::Index(i), init });
                    i = i + 1;
                }
                proof {
                    assert(out.deep_view() =~= goal);
                }
                out
            },
            BuildPlan::Unit(_) => {
                return Option::None;
            },
        };
        Option::Some(
            SubjectImplDecl {
                generics_def: clone_generic_params(&self.ctx.generics.generics_def),
                where_clause: clone_opt_string(&self.ctx.generics.where_clause),
                self_ty: self.ctx.subject_type_ref(),
                params_argument: self.ctx.params_argument.clone(),
                params_ty: self.ctx.params_type_ref(),
                builder_ty: self.ctx.builder_type_ref(),
                builder_subject_field: self.ctx.builder_subject_field.clone(),
                inits,
            },
        )
    }
}

/// The renumbered parameters index never exceeds the number of fields seen.
pub proof fn lemma_required_before_bound(ds: Seq<UnnamedFieldBuilderView>, i: int)
    requires
        0 <= i <= ds.len(),
    ensures
        0 <= spec_required_before(ds, i) <= i,
    decreases i,
{
    if i > 0 {
        lemma_required_before_bound(ds, i - 1);
    }
}

} // verus!
