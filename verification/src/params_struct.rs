//! The parameters-type synthesizer.
//!
//! Emits a new struct named `<Subject>Params` containing exactly the
//! subject's required fields, in original order, with forced-public
//! visibility; unnamed fields are renumbered contiguously from zero over the
//! required subset by their position. The struct carries the subject's
//! propagated outer attributes, and repeats the subject's generic parameters
//! (with the `where` clause) exactly when some required field depends on
//! them. A unit subject emits nothing.

use vstd::prelude::*;

use crate::build_struct::BuildPlan;
use crate::build_struct::BuildPlanView;
use crate::build_struct::NamedFieldBuilderView;
use crate::build_struct::UnnamedFieldBuilderView;
use crate::build_struct::spec_build_plan;
use crate::build_struct::struct_builder_from_fields;
use crate::model::GenericParam;
use crate::model::Subject;
use crate::model::Vis;
use crate::model::VisView;
use crate::model::clone_generic_params;
use crate::model::clone_opt_string;
use crate::model::clone_strings;
use crate::model::subject_wf;
use crate::output::FieldDef;
use crate::output::FieldDefView;
use crate::output::FieldsDef;
use crate::output::FieldsDefView;
use crate::output::ParamsStructDecl;
use crate::output::ParamsStructDeclView;
use crate::struct_builder::BuilderContext;
use crate::struct_builder::BuilderContextView;
use crate::struct_builder::spec_builder_context;

verus! {

/// A synthesized field with its visibility forced public.
pub open spec fn spec_force_public(f: FieldDefView) -> FieldDefView {
    FieldDefView { attrs: f.attrs, vis: VisView::Public, ident: f.ident, ty: f.ty }
}

/// The required subset of a named field list, in order, forced public.
pub open spec fn spec_params_fields_named(ds: Seq<NamedFieldBuilderView>) -> Seq<FieldDefView>
    decreases ds.len(),
{
    if ds.len() == 0 {
        Seq::empty()
    } else {
        let rest = spec_params_fields_named(ds.drop_last());
        if ds.last().required {
            rest.push(spec_force_public(ds.last().field))
        } else {
            rest
        }
    }
}

/// The required subset of an unnamed field list, in order, forced public;
/// the renumbering from zero is the position in this sequence.
pub open spec fn spec_params_fields_unnamed(ds: Seq<UnnamedFieldBuilderView>) -> Seq<FieldDefView>
    decreases ds.len(),
{
    if ds.len() == 0 {
        Seq::empty()
    } else {
        let rest = spec_params_fields_unnamed(ds.drop_last());
        if ds.last().required {
            rest.push(spec_force_public(ds.last().field))
        } else {
            rest
        }
    }
}

/// The parameters type a subject synthesizes: nothing for a unit subject.
pub open spec fn spec_params_struct(ctx: BuilderContextView, plan: BuildPlanView) -> Option<
    ParamsStructDeclView,
> {
    let include_generics = ctx.fields_metadata.generic_required_fields_count > 0;
    match plan {
        BuildPlanView::Named(b) => Option::Some(
            ParamsStructDeclView {
                attrs: ctx.attributes,
                ident: ctx.params,
                generics: if include_generics {
                    ctx.generics.generics_def
                } else {
                    Seq::empty()
                },
                where_clause: if include_generics {
                    ctx.generics.where_clause
                } else {
                    Option::None
                },
                fields: FieldsDefView::Named(spec_params_fields_named(b.field_builders)),
            },
        ),
        BuildPlanView::Unnamed(b) => Option::Some(
            ParamsStructDeclView {
                attrs: ctx.attributes,
                ident: ctx.params,
                generics: if include_generics {
                    ctx.generics.generics_def
                } else {
                    Seq::empty()
                },
                where_clause: if include_generics {
                    ctx.generics.where_clause
                } else {
                    Option::None
                },
                fields: FieldsDefView::Unnamed(spec_params_fields_unnamed(b.field_builders)),
            },
        ),
        BuildPlanView::Unit(_) => Option::None,
    }
}

/// Spec-level value of the synthesizer's optional output.
pub open spec fn spec_opt_decl_view(r: Option<ParamsStructDecl>) -> Option<ParamsStructDeclView> {
    match r {
        Option::Some(d) => Option::Some(d@),
        Option::None => Option::None,
    }
}

/// Copy a synthesized field, forcing its visibility public.
fn force_public(d: &FieldDef) -> (r: FieldDef)
    ensures
        r@ == spec_force_public(d@),
{
    FieldDef {
        attrs: clone_strings(&d.attrs),
        vis: Vis::Public,
        ident: clone_opt_string(&d.ident),
        ty: d.ty.clone(),
    }
}

/// The parameters-type synthesizer: the shared context and the subject's
/// field descriptors.
pub struct ParamsStruct {
    pub ctx: BuilderContext,
    pub plan: BuildPlan,
}

impl ParamsStruct {
    /// Prepare the synthesizer for one subject.
    pub fn from(subject: &Subject) -> (r: ParamsStruct)
        requires
            subject_wf(*subject),
        ensures
            r.ctx@ == spec_builder_context(*subject),
            r.plan@ == spec_build_plan(subject.fields),
    {
        ParamsStruct {
            ctx: BuilderContext::from(subject),
            plan: struct_builder_from_fields(&subject.fields),
        }
    }

    /// Emit the parameters type, or nothing for a unit subject.
    pub fn synthesize(&self) -> (r: Option<ParamsStructDecl>)
        ensures
            spec_opt_decl_view(r) == spec_params_struct(self.ctx@, self.plan@),
    {
        let fields: FieldsDef = match &self.plan {
            BuildPlan::Named(b) => {
                let ghost dsv = b.field_builders.deep_view();
                let mut out: Vec<FieldDef> = Vec::new();
                let mut i: usize = 0;
                while i < b.field_builders.len()
                    invariant
                        0 <= i <= b.field_builders@.len(),
                        dsv == b.field_builders.deep_view(),
                        dsv.len() == b.field_builders@.len(),
                        out.deep_view() =~= spec_params_fields_named(dsv.take(i as int)),
                    decreases b.field_builders@.len() - i,
                {
                    proof {
                        assert(dsv.take(i + 1int).drop_last() =~= dsv.take(i as int));
                        assert(dsv.take(i + 1int).last() == dsv[i as int]);
                        assert(dsv[i as int] == b.field_builders@[i as int].deep_view());
                    }
                    let fb = &b.field_builders[i];
                    if fb.required {
                        out.push(force_public(&fb.field));
                    }
                    i = i + 1;
                }
                proof {
                    assert(dsv.take(dsv.len() as int) =~= dsv);
                }
                FieldsDef::Named(out)
            },
            BuildPlan::Unnamed(b) => {
                let ghost dsv = b.field_builders.deep_view();
                let mut out: Vec<FieldDef> = Vec::new();
                let mut i: usize = 0;
                while i < b.field_builders.len()
                    invariant
                        0 <= i <= b.field_builders@.len(),
                        dsv == b.field_builders.deep_view(),
                        dsv.len() == b.field_builders@.len(),
                        out.deep_view() =~= spec_params_fields_unnamed(dsv.take(i as int)),
                    decreases b.field_builders@.len() - i,
                {
                    proof {
                        assert(dsv.take(i + 1int).drop_last() =~= dsv.take(i as int));
                        assert(dsv.take(i + 1int).last() == dsv[i as int]);
                        assert(dsv[i as int] == b.field_builders@[i as int].deep_view());
                    }
                    let fb = &b.field_builders[i];
                    if fb.required {
                        out.push(force_public(&fb.field));
                    }
                    i = i + 1;
                }
                proof {
                    assert(dsv.take(dsv.len() as int) =~= dsv);
                }
                FieldsDef::Unnamed(out)
            },
            BuildPlan::Unit(_) => {
                return Option::None;
            },
        };
        let include_generics = self.ctx.fields_metadata.generic_required_fields_count > 0;
        let generics: Vec<GenericParam> = if include_generics {
            clone_generic_params(&self.ctx.generics.generics_def)
        } else {
            Vec::new()
        };
        proof {
            if !include_generics {
                assert(generics.deep_view() =~= Seq::<crate::model::GenericParamView>::empty());
            }
        }
        let where_clause: Option<String> = if include_generics {
            clone_opt_string(&self.ctx.generics.where_clause)
        } else {
            Option::None
        };
        Option::Some(
            ParamsStructDecl {
                attrs: clone_strings(&self.ctx.attributes.outer_attrs),
                ident: self.ctx.params.clone(),
                generics,
                where_clause,
                fields,
            },
        )
    }
}

} // verus!
