//! The builder-to-subject conversion synthesizer.
//!
//! Emits a conversion unwrapping a builder back to its subject by discarding
//! the wrapper. A unit subject emits nothing.

use vstd::prelude::*;

use crate::model::Fields;
use crate::model::Subject;
use crate::model::clone_generic_params;
use crate::model::clone_opt_string;
use crate::output::ConversionKind;
use crate::output::FromImplDecl;
use crate::output::FromImplDeclView;
use crate::struct_builder::BuilderContext;
use crate::struct_builder::BuilderContextView;
use crate::struct_builder::spec_builder_context;
use crate::struct_builder::spec_builder_type_ref;
use crate::struct_builder::spec_subject_type_ref;

verus! {

/// The builder-to-subject conversion a subject synthesizes: nothing for a
/// unit subject.
pub open spec fn spec_from_builder_for_subject(ctx: BuilderContextView, unit: bool) -> Option<
    FromImplDeclView,
> {
    if unit {
        Option::None
    } else {
        Option::Some(
            FromImplDeclView {
                kind: ConversionKind::BuilderToSubject,
                generics_def: ctx.generics.generics_def,
                where_clause: ctx.generics.where_clause,
                from_ty: spec_builder_type_ref(ctx),
                self_ty: spec_subject_type_ref(ctx),
                builder_subject_field: ctx.builder_subject_field,
            },
        )
    }
}

/// Spec-level value of the synthesizer's optional output.
pub open spec fn spec_opt_decl_view(r: Option<FromImplDecl>) -> Option<FromImplDeclView> {
    match r {
        Option::Some(d) => Option::Some(d@),
        Option::None => Option::None,
    }
}

/// The builder-to-subject conversion synthesizer.
pub struct ImplFromBuilderForSubject {
    pub ctx: BuilderContext,
    pub unit: bool,
}

impl ImplFromBuilderForSubject {
    /// Prepare the synthesizer for one subject.
    pub fn from(subject: &Subject) -> (r: ImplFromBuilderForSubject)
        ensures
            r.ctx@ == spec_builder_context(*subject),
            r.unit == (subject.fields is Unit),
    {
        let unit = match &subject.fields {
            Fields::Unit => true,
            Fields::Named(_) => false,
            Fields::Unnamed(_) => false,
        };
        ImplFromBuilderForSubject { ctx: BuilderContext::from(subject), unit }
    }

    /// Emit the conversion, or nothing for a unit subject.
    pub fn synthesize(&self) -> (r: Option<FromImplDecl>)
        ensures
            spec_opt_decl_view(r) == spec_from_builder_for_subject(self.ctx@, self.unit),
    {
        if self.unit {
            Option::None
        } else {
            Option::Some(
                FromImplDecl {
                    kind: ConversionKind::BuilderToSubject,
                    generics_def: clone_generic_params(&self.ctx.generics.generics_def),
                    where_clause: clone_opt_string(&self.ctx.generics.where_clause),
                    from_ty: self.ctx.builder_type_ref(),
                    self_ty: self.ctx.subject_type_ref(),
                    builder_subject_field: self.ctx.builder_subject_field.clone(),
                },
            )
        }
    }
}

} // verus!
