//! The builder context: everything the synthesizers share.
//!
//! Built once per subject: the derived companion identifiers, the propagated
//! outer attributes, the subject's generics partitioned into definition form
//! (full parameters with bounds), expression form (bare identifiers only) and
//! the isolated `where` clause, and the aggregated field metadata that
//! decides whether companion declarations repeat the subject's generic
//! parameters.

use vstd::prelude::*;

use crate::build_struct::is_required_field;
use crate::generic_resolution::field_has_generic;
use crate::generic_resolution::spec_field_has_generic;
use crate::model::Field;
use crate::model::Fields;
use crate::model::GenericArg;
use crate::model::GenericArgView;
use crate::model::GenericParam;
use crate::model::GenericParamView;
use crate::model::Subject;
use crate::model::clone_generic_args;
use crate::model::clone_generic_params;
use crate::model::clone_opt_string;
use crate::model::clone_strings;
use crate::model::field_list;
use crate::model::subject_wf;
use crate::model::opt_string_view;
use crate::names::InternalIdents;
use crate::names::ItemIdents;
use crate::output::TypeRef;
use crate::output::TypeRefView;
use crate::required::is_required;

verus! {

/// The outer attributes propagated from the subject to the parameters type.
#[derive(Debug, PartialEq, Eq, Clone)]
pub struct AttributesContext {
    pub outer_attrs: Vec<String>,
}

impl View for AttributesContext {
    type V = Seq<Seq<char>>;

    open spec fn view(&self) -> Seq<Seq<char>> {
        self.outer_attrs.deep_view()
    }
}

impl AttributesContext {
    /// Copy the subject's outer attributes.
    pub fn from(subject: &Subject) -> (r: AttributesContext)
        ensures
            r@ == subject.attrs.deep_view(),
    {
        AttributesContext { outer_attrs: clone_strings(&subject.attrs) }
    }
}

/// The bare-identifier argument a generic parameter reduces to in expression
/// form.
pub open spec fn spec_generic_arg_of(g: GenericParam) -> GenericArgView {
    match g {
        GenericParam::Lifetime { ident, bounds: _ } => GenericArgView::Lifetime { ident: ident@ },
        GenericParam::Type { ident, bounds: _, default: _ } => GenericArgView::Ident {
            ident: ident@,
        },
        GenericParam::Const { ident, ty: _, default: _ } => GenericArgView::Ident { ident: ident@ },
    }
}

/// The expression form of a generic-parameter list: every parameter reduced
/// to its bare identifier, order preserved.
pub open spec fn spec_generics_expr(gs: Seq<GenericParam>) -> Seq<GenericArgView> {
    Seq::new(gs.len(), |i: int| spec_generic_arg_of(gs[i]))
}

/// The subject's generics, partitioned into the three forms the
/// synthesizers need.
#[derive(Debug, PartialEq, Eq, Clone)]
pub struct GenericsContext {
    /// Definition form: the parameter list with all bounds, for headers that
    /// must restate them.
    pub generics_def: Vec<GenericParam>,
    /// Expression form: bare identifiers only, for referencing the subject
    /// or a companion as an argument.
    pub generics_expr: Vec<GenericArg>,
    /// The trailing constraint clause, carried separately.
    pub where_clause: Option<String>,
}

/// Spec-level value of a [`GenericsContext`].
pub struct GenericsContextView {
    pub generics_def: Seq<GenericParamView>,
    pub generics_expr: Seq<GenericArgView>,
    pub where_clause: Option<Seq<char>>,
}

impl View for GenericsContext {
    type V = GenericsContextView;

    open spec fn view(&self) -> GenericsContextView {
        GenericsContextView {
            generics_def: self.generics_def.deep_view(),
            generics_expr: self.generics_expr.deep_view(),
            where_clause: opt_string_view(self.where_clause),
        }
    }
}

/// The partition a subject's generics produce: definition form keeps every
/// parameter and bound, expression form strips each parameter to its bare
/// identifier, and the constraint clause is carried on the side.
pub open spec fn spec_generics_context(s: Subject) -> GenericsContextView {
    GenericsContextView {
        generics_def: s.generics.deep_view(),
        generics_expr: spec_generics_expr(s.generics@),
        where_clause: opt_string_view(s.where_clause),
    }
}

impl GenericsContext {
    /// Partition the subject's generic-parameter list.
    pub fn from(subject: &Subject) -> (r: GenericsContext)
        ensures
            r@ == spec_generics_context(*subject),
    {
        let generics_def = clone_generic_params(&subject.generics);
        let mut generics_expr: Vec<GenericArg> = Vec::new();
        let mut i: usize = 0;
        while i < subject.generics.len()
            invariant
                0 <= i <= subject.generics.len(),
                generics_expr@.len() == i,
                forall|j: int|
                    0 <= j < i ==> generics_expr@[j]@ == spec_generic_arg_of(subject.generics@[j]),
            decreases subject.generics.len() - i,
        {
            let arg: GenericArg = match &subject.generics[i] {
                GenericParam::Lifetime { ident, bounds: _ } => GenericArg::Lifetime {
                    ident: ident.clone(),
                },
                GenericParam::Type { ident, bounds: _, default: _ } => GenericArg::Ident {
                    ident: ident.clone(),
                },
                GenericParam::Const { ident, ty: _, default: _ } => GenericArg::Ident {
                    ident: ident.clone(),
                },
            };
            generics_expr.push(arg);
            i = i + 1;
        }
        proof {
            assert(generics_expr.deep_view() =~= spec_generics_expr(subject.generics@));
        }
        GenericsContext {
            generics_def,
            generics_expr,
            where_clause: clone_opt_string(&subject.where_clause),
        }
    }
}

/// How many fields are required and free of the subject's generics.
pub open spec fn spec_required_plain_count(gs: Seq<GenericParam>, fs: Seq<Field>) -> int
    decreases fs.len(),
{
    if fs.len() == 0 {
        0
    } else {
        spec_required_plain_count(gs, fs.drop_last()) + if is_required_field(fs.last())
            && !spec_field_has_generic(gs, fs.last()) {
            1int
        } else {
            0int
        }
    }
}

/// How many fields are optional and free of the subject's generics.
pub open spec fn spec_optional_plain_count(gs: Seq<GenericParam>, fs: Seq<Field>) -> int
    decreases fs.len(),
{
    if fs.len() == 0 {
        0
    } else {
        spec_optional_plain_count(gs, fs.drop_last()) + if !is_required_field(fs.last())
            && !spec_field_has_generic(gs, fs.last()) {
            1int
        } else {
            0int
        }
    }
}

/// How many fields are required and depend on the subject's generics.
pub open spec fn spec_required_generic_count(gs: Seq<GenericParam>, fs: Seq<Field>) -> int
    decreases fs.len(),
{
    if fs.len() == 0 {
        0
    } else {
        spec_required_generic_count(gs, fs.drop_last()) + if is_required_field(fs.last())
            && spec_field_has_generic(gs, fs.last()) {
            1int
        } else {
            0int
        }
    }
}

/// How many fields are optional and depend on the subject's generics.
pub open spec fn spec_optional_generic_count(gs: Seq<GenericParam>, fs: Seq<Field>) -> int
    decreases fs.len(),
{
    if fs.len() == 0 {
        0
    } else {
        spec_optional_generic_count(gs, fs.drop_last()) + if !is_required_field(fs.last())
            && spec_field_has_generic(gs, fs.last()) {
            1int
        } else {
            0int
        }
    }
}

/// Every field falls in exactly one of the four classes, so the four counts
/// partition the subject's field list.
pub proof fn lemma_metadata_partition(gs: Seq<GenericParam>, fs: Seq<Field>)
    ensures
        0 <= spec_required_plain_count(gs, fs) <= fs.len(),
        0 <= spec_optional_plain_count(gs, fs) <= fs.len(),
        0 <= spec_required_generic_count(gs, fs) <= fs.len(),
        0 <= spec_optional_generic_count(gs, fs) <= fs.len(),
        spec_required_plain_count(gs, fs) + spec_optional_plain_count(gs, fs)
            + spec_required_generic_count(gs, fs) + spec_optional_generic_count(gs, fs)
            == fs.len(),
    decreases fs.len(),
{
    if fs.len() > 0 {
        lemma_metadata_partition(gs, fs.drop_last());
    }
}

/// Metadata conservation: for every subject, the four aggregated counts
/// (required and optional, each split into generic-dependent and not)
/// together account for every field exactly once.
pub proof fn lemma_metadata_conservation(s: Subject)
    ensures
        spec_fields_metadata(s).required_fields_count + spec_fields_metadata(
            s,
        ).optional_fields_count + spec_fields_metadata(s).generic_required_fields_count
            + spec_fields_metadata(s).generic_optional_fields_count == field_list(s.fields).len(),
{
    lemma_metadata_partition(s.generics@, field_list(s.fields));
}

/// The aggregated field metadata: one count per class of field. The only
/// decision the synthesizers draw from it: companion declarations repeat the
/// subject's generic parameters exactly when a required field depends on
/// them (`generic_required_fields_count > 0`), because optional fields are
/// never copied from the parameters type.
#[derive(Debug, PartialEq, Eq, Clone)]
pub struct FieldsMetadata {
    pub required_fields_count: usize,
    pub optional_fields_count: usize,
    pub generic_required_fields_count: usize,
    pub generic_optional_fields_count: usize,
}

/// Spec-level value of a [`FieldsMetadata`].
pub struct FieldsMetadataView {
    pub required_fields_count: int,
    pub optional_fields_count: int,
    pub generic_required_fields_count: int,
    pub generic_optional_fields_count: int,
}

impl View for FieldsMetadata {
    type V = FieldsMetadataView;

    open spec fn view(&self) -> FieldsMetadataView {
        FieldsMetadataView {
            required_fields_count: self.required_fields_count as int,
            optional_fields_count: self.optional_fields_count as int,
            generic_required_fields_count: self.generic_required_fields_count as int,
            generic_optional_fields_count: self.generic_optional_fields_count as int,
        }
    }
}

/// The metadata a subject aggregates to.
pub open spec fn spec_fields_metadata(s: Subject) -> FieldsMetadataView {
    FieldsMetadataView {
        required_fields_count: spec_required_plain_count(s.generics@, field_list(s.fields)),
        optional_fields_count: spec_optional_plain_count(s.generics@, field_list(s.fields)),
        generic_required_fields_count: spec_required_generic_count(
            s.generics@,
            field_list(s.fields),
        ),
        generic_optional_fields_count: spec_optional_generic_count(
            s.generics@,
            field_list(s.fields),
        ),
    }
}

impl FieldsMetadata {
    /// Aggregate the four counts over the subject's fields, classifying each
    /// field independently as required/optional and as generic-dependent or
    /// not.
    pub fn from(subject: &Subject) -> (r: FieldsMetadata)
        ensures
            r@ == spec_fields_metadata(*subject),
    {
        let fields: &Vec<Field> = match &subject.fields {
            Fields::Named(fs) => fs,
            Fields::Unnamed(fs) => fs,
            Fields::Unit => {
                proof {
                    lemma_metadata_partition(subject.generics@, field_list(subject.fields));
                }
                return FieldsMetadata {
                    required_fields_count: 0,
                    optional_fields_count: 0,
                    generic_required_fields_count: 0,
                    generic_optional_fields_count: 0,
                };
            },
        };
        let ghost gs = subject.generics@;
        let mut required_fields_count: usize = 0;
        let mut optional_fields_count: usize = 0;
        let mut generic_required_fields_count: usize = 0;
        let mut generic_optional_fields_count: usize = 0;
        let mut i: usize = 0;
        proof {
            assert(fields@ == field_list(subject.fields));
        }
        while i < fields.len()
            invariant
                0 <= i <= fields.len(),
                required_fields_count == spec_required_plain_count(gs, fields@.take(i as int)),
                optional_fields_count == spec_optional_plain_count(gs, fields@.take(i as int)),
                generic_required_fields_count == spec_required_generic_count(
                    gs,
                    fields@.take(i as int),
                ),
                generic_optional_fields_count == spec_optional_generic_count(
                    gs,
                    fields@.take(i as int),
                ),
                required_fields_count + optional_fields_count + generic_required_fields_count
                    + generic_optional_fields_count == i,
                gs == subject.generics@,
            decreases fields.len() - i,
        {
            let field = &fields[i];
            let generic = field_has_generic(&subject.generics, field);
            let required = is_required(field);
            proof {
                assert(fields@.take(i + 1int).drop_last() =~= fields@.take(i as int));
                assert(fields@.take(i + 1int).last() == fields@[i as int]);
            }
            if generic && required {
                generic_required_fields_count = generic_required_fields_count + 1;
            } else if generic && !required {
                generic_optional_fields_count = generic_optional_fields_count + 1;
            } else if !generic && required {
                required_fields_count = required_fields_count + 1;
            } else {
                optional_fields_count = optional_fields_count + 1;
            }
            i = i + 1;
        }
        proof {
            assert(fields@.take(fields@.len() as int) =~= fields@);
        }
        FieldsMetadata {
            required_fields_count,
            optional_fields_count,
            generic_required_fields_count,
            generic_optional_fields_count,
        }
    }
}

/// Everything a synthesizer reads about one subject: the subject identifier,
/// the derived companion identifiers, the fixed internal names, the
/// propagated attributes, the partitioned generics and the field metadata.
#[derive(Debug, PartialEq, Eq, Clone)]
pub struct BuilderContext {
    pub subject: String,
    pub params: String,
    pub params_argument: String,
    pub builder: String,
    pub builder_subject_field: String,
    pub attributes: AttributesContext,
    pub generics: GenericsContext,
    pub fields_metadata: FieldsMetadata,
}

/// Spec-level value of a [`BuilderContext`].
pub struct BuilderContextView {
    pub subject: Seq<char>,
    pub params: Seq<char>,
    pub params_argument: Seq<char>,
    pub builder: Seq<char>,
    pub builder_subject_field: Seq<char>,
    pub attributes: Seq<Seq<char>>,
    pub generics: GenericsContextView,
    pub fields_metadata: FieldsMetadataView,
}

impl View for BuilderContext {
    type V = BuilderContextView;

    open spec fn view(&self) -> BuilderContextView {
        BuilderContextView {
            subject: self.subject@,
            params: self.params@,
            params_argument: self.params_argument@,
            builder: self.builder@,
            builder_subject_field: self.builder_subject_field@,
            attributes: self.attributes@,
            generics: self.generics@,
            fields_metadata: self.fields_metadata@,
        }
    }
}

/// The context a subject derives: companion names by suffixing the
/// subject's identifier, the fixed argument and field names, and the
/// propagated attribute, generics and metadata aggregates.
pub open spec fn spec_builder_context(s: Subject) -> BuilderContextView {
    BuilderContextView {
        subject: s.ident@,
        params: s.ident@ + "Params"@,
        params_argument: "params"@,
        builder: s.ident@ + "Builder"@,
        builder_subject_field: "inner"@,
        attributes: s.attrs.deep_view(),
        generics: spec_generics_context(s),
        fields_metadata: spec_fields_metadata(s),
    }
}

/// The reference every synthesizer makes to the subject type: its identifier
/// applied to the full expression-form generics.
pub open spec fn spec_subject_type_ref(ctx: BuilderContextView) -> TypeRefView {
    TypeRefView { name: ctx.subject, args: ctx.generics.generics_expr }
}

/// The reference every synthesizer makes to the builder type: its identifier
/// applied to the full expression-form generics.
pub open spec fn spec_builder_type_ref(ctx: BuilderContextView) -> TypeRefView {
    TypeRefView { name: ctx.builder, args: ctx.generics.generics_expr }
}

/// The reference every synthesizer makes to the parameters type: it carries
/// the expression-form generics exactly when some required field depends on
/// them, since only then does the parameters type declare them.
pub open spec fn spec_params_type_ref(ctx: BuilderContextView) -> TypeRefView {
    TypeRefView {
        name: ctx.params,
        args: if ctx.fields_metadata.generic_required_fields_count > 0 {
            ctx.generics.generics_expr
        } else {
            Seq::empty()
        },
    }
}

impl BuilderContext {
    /// Build the reference to the subject type.
    pub fn subject_type_ref(&self) -> (r: TypeRef)
        ensures
            r@ == spec_subject_type_ref(self@),
    {
        TypeRef {
            name: self.subject.clone(),
            args: clone_generic_args(&self.generics.generics_expr),
        }
    }

    /// Build the reference to the builder type.
    pub fn builder_type_ref(&self) -> (r: TypeRef)
        ensures
            r@ == spec_builder_type_ref(self@),
    {
        TypeRef {
            name: self.builder.clone(),
            args: clone_generic_args(&self.generics.generics_expr),
        }
    }

    /// Build the reference to the parameters type.
    pub fn params_type_ref(&self) -> (r: TypeRef)
        ensures
            r@ == spec_params_type_ref(self@),
    {
        let args: Vec<GenericArg> = if self.fields_metadata.generic_required_fields_count > 0 {
            clone_generic_args(&self.generics.generics_expr)
        } else {
            Vec::new()
        };
        proof {
            if self.fields_metadata.generic_required_fields_count == 0 {
                assert(args.deep_view() =~= Seq::<GenericArgView>::empty());
            }
        }
        TypeRef { name: self.params.clone(), args }
    }
}

impl BuilderContext {
    /// Derive the full context of one subject.
    pub fn from(subject: &Subject) -> (r: BuilderContext)
        ensures
            r@ == spec_builder_context(*subject),
    {
        let item_idents = ItemIdents::new(&subject.ident);
        let internal_idents = InternalIdents::default();
        BuilderContext {
            subject: item_idents.subject_ident,
            params: item_idents.params_ident,
            params_argument: internal_idents.params_argument,
            builder: item_idents.builder_ident,
            builder_subject_field: internal_idents.builder_subject_field,
            attributes: AttributesContext::from(subject),
            generics: GenericsContext::from(subject),
            fields_metadata: FieldsMetadata::from(subject),
        }
    }
}

/// Why a subject was rejected outright. The engine synthesizes nothing for a
/// malformed subject: partial output would only fail later, further from the
/// cause.
#[derive(Clone, Copy, PartialEq, Eq, Structural, Debug)]
pub enum BuildError {
    /// A field of a named-shape subject carries no identifier; `index` is
    /// the first such position in the field list.
    MissingFieldIdent { index: usize },
}

impl BuildError {
    /// A description of the rejection.
    pub fn message(&self) -> (r: String)
        ensures
            r@ == "named field is missing identifier"@,
    {
        String::from_str("named field is missing identifier")
    }
}

/// The position of the first field without an identifier (the length of the
/// list when every field has one).
pub open spec fn spec_first_missing_ident(fs: Seq<Field>) -> int
    decreases fs.len(),
{
    if fs.len() == 0 {
        0
    } else if fs[0].ident is None {
        0
    } else {
        1 + spec_first_missing_ident(fs.drop_first())
    }
}

proof fn lemma_first_missing_ident(fs: Seq<Field>, i: int)
    requires
        0 <= i < fs.len(),
        fs[i].ident is None,
        forall|j: int| 0 <= j < i ==> fs[j].ident is Some,
    ensures
        spec_first_missing_ident(fs) == i,
    decreases i,
{
    if i > 0 {
        assert(forall|j: int| 0 <= j < i - 1 ==> fs.drop_first()[j].ident is Some);
        assert(fs.drop_first()[i - 1].ident is None);
        lemma_first_missing_ident(fs.drop_first(), i - 1);
    }
}

/// The full set of companion declarations a well-formed subject synthesizes,
/// in the fixed order: the parameters type, the subject constructor, the
/// builder type, the builder functions, and the three conversions. A
/// zero-field subject synthesizes nothing at all.
pub open spec fn spec_decls(s: Subject) -> Seq<crate::output::DeclView> {
    let ctx = spec_builder_context(s);
    let plan = crate::build_struct::spec_build_plan(s.fields);
    let unit = s.fields is Unit;
    if unit {
        Seq::empty()
    } else {
        seq![
            crate::output::DeclView::ParamsStruct(
                crate::params_struct::spec_params_struct(ctx, plan)->0,
            ),
            crate::output::DeclView::SubjectImpl(
                crate::impl_subject_fn_builder::spec_subject_impl(ctx, plan)->0,
            ),
            crate::output::DeclView::BuilderStruct(
                crate::builder_struct::spec_builder_struct(ctx, unit)->0,
            ),
            crate::output::DeclView::BuilderImpl(
                crate::impl_builder_fns::spec_builder_impl(ctx, plan)->0,
            ),
            crate::output::DeclView::FromImpl(
                crate::impl_from_params_for_subject::spec_from_params_for_subject(ctx, unit)->0,
            ),
            crate::output::DeclView::FromImpl(
                crate::impl_from_subject_for_builder::spec_from_subject_for_builder(ctx, unit)->0,
            ),
            crate::output::DeclView::FromImpl(
                crate::impl_from_builder_for_subject::spec_from_builder_for_subject(ctx, unit)->0,
            ),
        ]
    }
}

/// A zero-field subject synthesizes no companion declarations at all: every
/// synthesizer is a no-op on the unit shape.
pub proof fn lemma_unit_subject_no_output(s: Subject)
    requires
        s.fields is Unit,
    ensures
        spec_decls(s) == Seq::<crate::output::DeclView>::empty(),
{
}

/// The orchestrator: holds one subject and drives every synthesizer over it
/// in the fixed order.
pub struct StructBuilder(pub Subject);

impl StructBuilder {
    /// Wrap a subject for synthesis.
    pub fn from(item: Subject) -> (r: StructBuilder)
        ensures
            r.0 == item,
    {
        StructBuilder(item)
    }

    /// Synthesize every companion declaration of the subject, in the fixed
    /// order, or reject a malformed subject outright with the first offense.
    #[verifier::loop_isolation(false)]
    pub fn synthesize(&self) -> (r: Result<Vec<crate::output::Decl>, BuildError>)
        ensures
            r is Ok <==> subject_wf(self.0),
            r is Ok ==> r->Ok_0.deep_view() == spec_decls(self.0),
            r is Err ==> self.0.fields is Named && r->Err_0->index == spec_first_missing_ident(
                field_list(self.0.fields),
            ),
    {
        if let Fields::Named(fs) = &self.0.fields {
            let mut i: usize = 0;
            while i < fs.len()
                invariant
                    0 <= i <= fs.len(),
                    forall|j: int| 0 <= j < i ==> fs@[j].ident is Some,
                decreases fs.len() - i,
            {
                if fs[i].ident.is_none() {
                    proof {
                        assert(self.0.fields == Fields::Named(*fs));
                        assert(field_list(self.0.fields) == fs@);
                        lemma_first_missing_ident(fs@, i as int);
                        assert(!crate::model::fields_wf(self.0.fields));
                    }
                    return Result::Err(BuildError::MissingFieldIdent { index: i });
                }
                i = i + 1;
            }
        }
        let subject = &self.0;
        if let Fields::Unit = &subject.fields {
            let decls: Vec<crate::output::Decl> = Vec::new();
            proof {
                assert(decls.deep_view() =~= spec_decls(self.0));
            }
            return Result::Ok(decls);
        }
        let mut decls: Vec<crate::output::Decl> = Vec::new();
        let params_struct = crate::params_struct::ParamsStruct::from(subject).synthesize();
        let subject_impl = crate::impl_subject_fn_builder::ImplSubjectFnBuilder::from(
            subject,
        ).synthesize();
        let builder_struct = crate::builder_struct::BuilderStruct::from(subject).synthesize();
        let builder_impl = crate::impl_builder_fns::ImplBuilderFns::from(subject).synthesize();
        let from_params = crate::impl_from_params_for_subject::ImplFromParamsForSubject::from(
            subject,
        ).synthesize();
        let from_subject = crate::impl_from_subject_for_builder::ImplFromSubjectForBuilder::from(
            subject,
        ).synthesize();
        let from_builder = crate::impl_from_builder_for_subject::ImplFromBuilderForSubject::from(
            subject,
        ).synthesize();
        match params_struct {
            Option::Some(d) => decls.push(crate::output::Decl::ParamsStruct(d)),
            Option::None => {
                proof {
                    assert(false);
                }
            },
        }
        match subject_impl {
            Option::Some(d) => decls.push(crate::output::Decl::SubjectImpl(d)),
            Option::None => {
                proof {
                    assert(false);
                }
            },
        }
        match builder_struct {
            Option::Some(d) => decls.push(crate::output::Decl::BuilderStruct(d)),
            Option::None => {
                proof {
                    assert(false);
                }
            },
        }
        match builder_impl {
            Option::Some(d) => decls.push(crate::output::Decl::BuilderImpl(d)),
            Option::None => {
                proof {
                    assert(false);
                }
            },
        }
        match from_params {
            Option::Some(d) => decls.push(crate::output::Decl::FromImpl(d)),
            Option::None => {
                proof {
                    assert(false);
                }
            },
        }
        match from_subject {
            Option::Some(d) => decls.push(crate::output::Decl::FromImpl(d)),
            Option::None => {
                proof {
                    assert(false);
                }
            },
        }
        match from_builder {
            Option::Some(d) => decls.push(crate::output::Decl::FromImpl(d)),
            Option::None => {
                proof {
                    assert(false);
                }
            },
        }
        proof {
            assert(decls.deep_view() =~= spec_decls(self.0));
        }
        Result::Ok(decls)
    }
}

} // verus!
