//! The builder-mutator-functions synthesizer.
//!
//! Emits the builder's function block: one mutator per subject field — every
//! field, required or optional, since required fields may also need
//! post-construction adjustment — plus the terminal `build` that unwraps and
//! returns the subject. A mutator is named `with_<identifier>` for a named
//! field and `with_<index>` for an unnamed one; it takes ownership of the
//! builder, overwrites exactly its field on the wrapped instance with its
//! argument (whose type is the field's declared type, copied verbatim), and
//! returns the builder for chaining. A unit subject emits nothing.

use vstd::prelude::*;

use crate::build_struct::BuildPlan;
use crate::build_struct::BuildPlanView;
use crate::build_struct::NamedFieldBuilderView;
use crate::build_struct::UnnamedFieldBuilderView;
use crate::build_struct::spec_build_plan;
use crate::build_struct::struct_builder_from_fields;
use crate::model::Subject;
use crate::model::clone_generic_params;
use crate::model::clone_opt_string;
use crate::model::subject_wf;
use crate::names::spec_dec_string;
use crate::names::with_ident_name;
use crate::names::with_index_name;
use crate::output::BuilderImplDecl;
use crate::output::BuilderImplDeclView;
use crate::output::FieldRef;
use crate::output::FieldRefView;
use crate::output::MutatorDecl;
use crate::output::MutatorDeclView;
use crate::struct_builder::BuilderContext;
use crate::struct_builder::BuilderContextView;
use crate::struct_builder::spec_builder_context;
use crate::struct_builder::spec_builder_type_ref;
use crate::struct_builder::spec_subject_type_ref;

verus! {

/// The mutators of a named subject, one per field in order.
pub open spec fn spec_mutators_named(ds: Seq<NamedFieldBuilderView>) -> Seq<MutatorDeclView> {
    Seq::new(
        ds.len(),
        |i: int|
            MutatorDeclView {
                fn_name: "with_"@ + ds[i].ident,
                field: FieldRefView::Named(ds[i].ident),
                value_ty: ds[i].field.ty,
            },
    )
}

/// The mutators of an unnamed subject, one per field in order, named by the
/// field's index over the original field list.
pub open spec fn spec_mutators_unnamed(ds: Seq<UnnamedFieldBuilderView>) -> Seq<MutatorDeclView> {
    Seq::new(
        ds.len(),
        |i: int|
            MutatorDeclView {
                fn_name: "with_"@ + spec_dec_string(i as nat),
                field: FieldRefView::Index(i),
                value_ty: ds[i].field.ty,
            },
    )
}

/// The builder function block a subject synthesizes: nothing for a unit
/// subject.
pub open spec fn spec_builder_impl(ctx: BuilderContextView, plan: BuildPlanView) -> Option<
    BuilderImplDeclView,
> {
    let mutators = match plan {
        BuildPlanView::Named(b) => spec_mutators_named(b.field_builders),
        BuildPlanView::Unnamed(b) => spec_mutators_unnamed(b.field_builders),
        BuildPlanView::Unit(_) => Seq::empty(),
    };
    if plan is Unit {
        Option::None
    } else {
        Option::Some(
            BuilderImplDeclView {
                generics_def: ctx.generics.generics_def,
                where_clause: ctx.generics.where_clause,
                self_ty: spec_builder_type_ref(ctx),
                subject_ty: spec_subject_type_ref(ctx),
                builder_subject_field: ctx.builder_subject_field,
                mutators,
            },
        )
    }
}

/// Spec-level value of the synthesizer's optional output.
pub open spec fn spec_opt_decl_view(r: Option<BuilderImplDecl>) -> Option<BuilderImplDeclView> {
    match r {
        Option::Some(d) => Option::Some(d@),
        Option::None => Option::None,
    }
}

/// The builder-mutator-functions synthesizer: the shared context and the
/// subject's field descriptors.
pub struct ImplBuilderFns {
    pub ctx: BuilderContext,
    pub plan: BuildPlan,
}

impl ImplBuilderFns {
    /// Prepare the synthesizer for one subject.
    pub fn from(subject: &Subject) -> (r: ImplBuilderFns)
        requires
            subject_wf(*subject),
        ensures
            r.ctx@ == spec_builder_context(*subject),
            r.plan@ == spec_build_plan(subject.fields),
    {
        ImplBuilderFns {
            ctx: BuilderContext::from(subject),
            plan: struct_builder_from_fields(&subject.fields),
        }
    }

    /// Emit the builder's function block, or nothing for a unit subject.
    pub fn synthesize(&self) -> (r: Option<BuilderImplDecl>)
        ensures
            spec_opt_decl_view(r) == spec_builder_impl(self.ctx@, self.plan@),
    {
        let mutators: Vec<MutatorDecl> = match &self.plan {
            BuildPlan::Named(b) => {
                let ghost dsv = b.field_builders.deep_view();
                let ghost goal = spec_mutators_named(dsv);
                let mut out: Vec<MutatorDecl> = Vec::new();
                let mut i: usize = 0;
                while i < b.field_builders.len()
                    invariant
                        0 <= i <= b.field_builders@.len(),
                        dsv == b.field_builders.deep_view(),
                        dsv.len() == b.field_builders@.len(),
                        goal == spec_mutators_named(dsv),
                        out@.len() == i,
                        forall|j: int| 0 <= j < i ==> out@[j]@ == goal[j],
                    decreases b.field_builders@.len() - i,
                {
                    proof {
                        assert(dsv[i as int] == b.field_builders@[i as int].deep_view());
                    }
                    let fb = &b.field_builders[i];
                    out.push(
                        MutatorDecl {
                            fn_name: with_ident_name(&fb.ident),
                            field: FieldRef::Named(fb.ident.clone()),
                            value_ty: fb.field.ty.clone(),
                        },
                    );
                    i = i + 1;
                }
                proof {
                    assert(out.deep_view() =~= goal);
                }
                out
            },
            BuildPlan::Unnamed(b) => {
                let ghost dsv = b.field_builders.deep_view();
                let ghost goal = spec_mutators_unnamed(dsv);
                let mut out: Vec<MutatorDecl> = Vec::new();
                let mut i: usize = 0;
                while i < b.field_builders.len()
                    invariant
                        0 <= i <= b.field_builders@.len(),
                        dsv == b.field_builders.deep_view(),
                        dsv.len() == b.field_builders@.len(),
                        goal == spec_mutators_unnamed(dsv),
                        out@.len() == i,
                        forall|j: int| 0 <= j < i ==> out@[j]@ == goal[j],
                    decreases b.field_builders@.len() - i,
                {
                    proof {
                        assert(dsv[i as int] == b.field_builders@[i as int].deep_view());
                    }
                    let fb = &b.field_builders[i];
                    out.push(
                        MutatorDecl {
                            fn_name: with_index_name(i),
                            field: FieldRef::Index(i),
                            value_ty: fb.field.ty.clone(),
                        },
                    );
                    i = i + 1;
                }
                proof {
                    assert(out.deep_view() =~= goal);
                }
                out
            },
            BuildPlan::Unit(_) => {
                return Option::None;
            },
        };
        Option::Some(
            BuilderImplDecl {
                generics_def: clone_generic_params(&self.ctx.generics.generics_def),
                where_clause: clone_opt_string(&self.ctx.generics.where_clause),
                self_ty: self.ctx.builder_type_ref(),
                subject_ty: self.ctx.subject_type_ref(),
                builder_subject_field: self.ctx.builder_subject_field.clone(),
                mutators,
            },
        )
    }
}

} // verus!
