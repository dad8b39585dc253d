//! The builder-type synthesizer.
//!
//! Emits a new wrapper struct named `<Subject>Builder` containing a single
//! field, `inner`, of the subject's own type with its generics in expression
//! form; the struct header restates the subject's generic parameters and
//! `where` clause. A unit subject emits nothing.

use vstd::prelude::*;

use crate::model::Fields;
use crate::model::Subject;
use crate::model::clone_generic_params;
use crate::model::clone_opt_string;
use crate::output::BuilderStructDecl;
use crate::output::BuilderStructDeclView;
use crate::struct_builder::BuilderContext;
use crate::struct_builder::BuilderContextView;
use crate::struct_builder::spec_builder_context;
use crate::struct_builder::spec_subject_type_ref;

verus! {

/// The builder type a subject synthesizes: nothing for a unit subject.
pub open spec fn spec_builder_struct(ctx: BuilderContextView, unit: bool) -> Option<
    BuilderStructDeclView,
> {
    if unit {
        Option::None
    } else {
        Option::Some(
            BuilderStructDeclView {
                ident: ctx.builder,
                generics: ctx.generics.generics_def,
                where_clause: ctx.generics.where_clause,
                builder_subject_field: ctx.builder_subject_field,
                subject_ty: spec_subject_type_ref(ctx),
            },
        )
    }
}

/// Spec-level value of the synthesizer's optional output.
pub open spec fn spec_opt_decl_view(r: Option<BuilderStructDecl>) -> Option<
    BuilderStructDeclView,
> {
    match r {
        Option::Some(d) => Option::Some(d@),
        Option::None => Option::None,
    }
}

/// The builder-type synthesizer: the shared context and whether the subject
/// is unit-shaped.
pub struct BuilderStruct {
    pub ctx: BuilderContext,
    pub unit: bool,
}

impl BuilderStruct {
    /// Prepare the synthesizer for one subject.
    pub fn from(subject: &Subject) -> (r: BuilderStruct)
        ensures
            r.ctx@ == spec_builder_context(*subject),
            r.unit == (subject.fields is Unit),
    {
        let unit = match &subject.fields {
            Fields::Unit => true,
            Fields::Named(_) => false,
            Fields::Unnamed(_) => false,
        };
        BuilderStruct { ctx: BuilderContext::from(subject), unit }
    }

    /// Emit the builder type, or nothing for a unit subject.
    pub fn synthesize(&self) -> (r: Option<BuilderStructDecl>)
        ensures
            spec_opt_decl_view(r) == spec_builder_struct(self.ctx@, self.unit),
    {
        if self.unit {
            Option::None
        } else {
            Option::Some(
                BuilderStructDecl {
                    ident: self.ctx.builder.clone(),
                    generics: clone_generic_params(&self.ctx.generics.generics_def),
                    where_clause: clone_opt_string(&self.ctx.generics.where_clause),
                    builder_subject_field: self.ctx.builder_subject_field.clone(),
                    subject_ty: self.ctx.subject_type_ref(),
                },
            )
        }
    }
}

} // verus!
