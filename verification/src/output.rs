//! Structural model of the synthesized companion declarations.
//!
//! The engine emits declarations in the same structural style as its input:
//! identifiers, attribute and bound token text, and verbatim copies of field
//! types. A back end outside this crate renders these values to source text;
//! nothing here depends on that rendering.

use vstd::prelude::*;

use crate::model::GenericArg;
use crate::model::GenericArgView;
use crate::model::GenericParam;
use crate::model::GenericParamView;
use crate::model::Field;
use crate::model::Vis;
use crate::model::VisView;
use crate::model::clone_opt_string;
use crate::model::clone_strings;
use crate::model::opt_string_view;

verus! {

/// A synthesized field: the attributes and identifier it keeps from the
/// subject field it copies, its (possibly forced) visibility, and the
/// verbatim token text of its declared type.
#[derive(Debug, PartialEq, Eq, Clone)]
pub struct FieldDef {
    pub attrs: Vec<String>,
    pub vis: Vis,
    pub ident: Option<String>,
    pub ty: String,
}

/// Spec-level value of a [`FieldDef`].
pub struct FieldDefView {
    pub attrs: Seq<Seq<char>>,
    pub vis: VisView,
    pub ident: Option<Seq<char>>,
    pub ty: Seq<char>,
}

impl View for FieldDef {
    type V = FieldDefView;

    open spec fn view(&self) -> FieldDefView {
        FieldDefView {
            attrs: self.attrs.deep_view(),
            vis: self.vis@,
            ident: opt_string_view(self.ident),
            ty: self.ty@,
        }
    }
}

impl DeepView for FieldDef {
    type V = FieldDefView;

    open spec fn deep_view(&self) -> FieldDefView {
        self.view()
    }
}

/// The spec-level field a subject field turns into when copied verbatim.
pub open spec fn spec_field_def_of(f: Field) -> FieldDefView {
    FieldDefView {
        attrs: f.attrs.deep_view(),
        vis: f.vis@,
        ident: opt_string_view(f.ident),
        ty: f.ty.tokens@,
    }
}

impl FieldDef {
    /// Copy a subject field verbatim.
    pub fn of_field(f: &Field) -> (r: FieldDef)
        ensures
            r@ == spec_field_def_of(*f),
    {
        FieldDef {
            attrs: clone_strings(&f.attrs),
            vis: f.vis.clone(),
            ident: clone_opt_string(&f.ident),
            ty: f.ty.tokens.clone(),
        }
    }
}

/// A reference to one subject field: by name for a named subject, by index
/// over the original field list for an unnamed one.
#[derive(Debug, PartialEq, Eq, Clone)]
pub enum FieldRef {
    Named(String),
    Index(usize),
}

/// Spec-level value of a [`FieldRef`].
pub enum FieldRefView {
    Named(Seq<char>),
    Index(int),
}

impl View for FieldRef {
    type V = FieldRefView;

    open spec fn view(&self) -> FieldRefView {
        match self {
            FieldRef::Named(s) => FieldRefView::Named(s@),
            FieldRef::Index(i) => FieldRefView::Index(*i as int),
        }
    }
}

impl DeepView for FieldRef {
    type V = FieldRefView;

    open spec fn deep_view(&self) -> FieldRefView {
        self.view()
    }
}

/// The initializer the constructor gives one subject field: the
/// corresponding parameters-type field for a required field, the absent
/// sentinel (`None`) for an optional one.
#[derive(Debug, PartialEq, Eq, Clone)]
pub enum FieldInit {
    FromParams(FieldRef),
    Absent,
}

/// Spec-level value of a [`FieldInit`].
pub enum FieldInitView {
    FromParams(FieldRefView),
    Absent,
}

impl View for FieldInit {
    type V = FieldInitView;

    open spec fn view(&self) -> FieldInitView {
        match self {
            FieldInit::FromParams(r) => FieldInitView::FromParams(r@),
            FieldInit::Absent => FieldInitView::Absent,
        }
    }
}

impl DeepView for FieldInit {
    type V = FieldInitView;

    open spec fn deep_view(&self) -> FieldInitView {
        self.view()
    }
}

/// One line of the constructor's record expression: the subject field being
/// initialized and its initializer.
#[derive(Debug, PartialEq, Eq, Clone)]
pub struct CtorInit {
    pub field: FieldRef,
    pub init: FieldInit,
}

/// Spec-level value of a [`CtorInit`].
pub struct CtorInitView {
    pub field: FieldRefView,
    pub init: FieldInitView,
}

impl View for CtorInit {
    type V = CtorInitView;

    open spec fn view(&self) -> CtorInitView {
        CtorInitView { field: self.field@, init: self.init@ }
    }
}

impl DeepView for CtorInit {
    type V = CtorInitView;

    open spec fn deep_view(&self) -> CtorInitView {
        self.view()
    }
}

/// A reference to the subject or to a companion type: its identifier and the
/// generic arguments it is applied to (in expression form; empty when the
/// type takes none).
#[derive(Debug, PartialEq, Eq, Clone)]
pub struct TypeRef {
    pub name: String,
    pub args: Vec<GenericArg>,
}

/// Spec-level value of a [`TypeRef`].
pub struct TypeRefView {
    pub name: Seq<char>,
    pub args: Seq<GenericArgView>,
}

impl View for TypeRef {
    type V = TypeRefView;

    open spec fn view(&self) -> TypeRefView {
        TypeRefView { name: self.name@, args: self.args.deep_view() }
    }
}

impl DeepView for TypeRef {
    type V = TypeRefView;

    open spec fn deep_view(&self) -> TypeRefView {
        self.view()
    }
}

/// The field list of a synthesized struct declaration.
#[derive(Debug, PartialEq, Eq, Clone)]
pub enum FieldsDef {
    Named(Vec<FieldDef>),
    Unnamed(Vec<FieldDef>),
}

/// Spec-level value of a [`FieldsDef`].
pub enum FieldsDefView {
    Named(Seq<FieldDefView>),
    Unnamed(Seq<FieldDefView>),
}

impl View for FieldsDef {
    type V = FieldsDefView;

    open spec fn view(&self) -> FieldsDefView {
        match self {
            FieldsDef::Named(fs) => FieldsDefView::Named(fs.deep_view()),
            FieldsDef::Unnamed(fs) => FieldsDefView::Unnamed(fs.deep_view()),
        }
    }
}

/// The parameters type: a new struct holding exactly the subject's required
/// fields, with the subject's propagated outer attributes, and the subject's
/// generic parameters only when a required field depends on them.
#[derive(Debug, PartialEq, Eq, Clone)]
pub struct ParamsStructDecl {
    pub attrs: Vec<String>,
    pub ident: String,
    pub generics: Vec<GenericParam>,
    pub where_clause: Option<String>,
    pub fields: FieldsDef,
}

/// Spec-level value of a [`ParamsStructDecl`].
pub struct ParamsStructDeclView {
    pub attrs: Seq<Seq<char>>,
    pub ident: Seq<char>,
    pub generics: Seq<GenericParamView>,
    pub where_clause: Option<Seq<char>>,
    pub fields: FieldsDefView,
}

impl View for ParamsStructDecl {
    type V = ParamsStructDeclView;

    open spec fn view(&self) -> ParamsStructDeclView {
        ParamsStructDeclView {
            attrs: self.attrs.deep_view(),
            ident: self.ident@,
            generics: self.generics.deep_view(),
            where_clause: opt_string_view(self.where_clause),
            fields: self.fields@,
        }
    }
}

/// The constructor attached to the subject: `fn builder(params) -> Builder`,
/// building a subject instance in which every required field reads the
/// corresponding parameters field and every optional field is absent, then
/// wrapping it in the builder.
#[derive(Debug, PartialEq, Eq, Clone)]
pub struct SubjectImplDecl {
    pub generics_def: Vec<GenericParam>,
    pub where_clause: Option<String>,
    pub self_ty: TypeRef,
    pub params_argument: String,
    pub params_ty: TypeRef,
    pub builder_ty: TypeRef,
    pub builder_subject_field: String,
    pub inits: Vec<CtorInit>,
}

/// Spec-level value of a [`SubjectImplDecl`].
pub struct SubjectImplDeclView {
    pub generics_def: Seq<GenericParamView>,
    pub where_clause: Option<Seq<char>>,
    pub self_ty: TypeRefView,
    pub params_argument: Seq<char>,
    pub params_ty: TypeRefView,
    pub builder_ty: TypeRefView,
    pub builder_subject_field: Seq<char>,
    pub inits: Seq<CtorInitView>,
}

impl View for SubjectImplDecl {
    type V = SubjectImplDeclView;

    open spec fn view(&self) -> SubjectImplDeclView {
        SubjectImplDeclView {
            generics_def: self.generics_def.deep_view(),
            where_clause: opt_string_view(self.where_clause),
            self_ty: self.self_ty@,
            params_argument: self.params_argument@,
            params_ty: self.params_ty@,
            builder_ty: self.builder_ty@,
            builder_subject_field: self.builder_subject_field@,
            inits: self.inits.deep_view(),
        }
    }
}

/// The builder type: a new struct wrapping one fully formed subject
/// instance.
#[derive(Debug, PartialEq, Eq, Clone)]
pub struct BuilderStructDecl {
    pub ident: String,
    pub generics: Vec<GenericParam>,
    pub where_clause: Option<String>,
    pub builder_subject_field: String,
    pub subject_ty: TypeRef,
}

/// Spec-level value of a [`BuilderStructDecl`].
pub struct BuilderStructDeclView {
    pub ident: Seq<char>,
    pub generics: Seq<GenericParamView>,
    pub where_clause: Option<Seq<char>>,
    pub builder_subject_field: Seq<char>,
    pub subject_ty: TypeRefView,
}

impl View for BuilderStructDecl {
    type V = BuilderStructDeclView;

    open spec fn view(&self) -> BuilderStructDeclView {
        BuilderStructDeclView {
            ident: self.ident@,
            generics: self.generics.deep_view(),
            where_clause: opt_string_view(self.where_clause),
            builder_subject_field: self.builder_subject_field@,
            subject_ty: self.subject_ty@,
        }
    }
}

/// One mutator of the builder: it takes ownership of the builder, overwrites
/// exactly one field of the wrapped instance with its argument, and returns
/// the builder for chaining.
#[derive(Debug, PartialEq, Eq, Clone)]
pub struct MutatorDecl {
    pub fn_name: String,
    pub field: FieldRef,
    pub value_ty: String,
}

/// Spec-level value of a [`MutatorDecl`].
pub struct MutatorDeclView {
    pub fn_name: Seq<char>,
    pub field: FieldRefView,
    pub value_ty: Seq<char>,
}

impl View for MutatorDecl {
    type V = MutatorDeclView;

    open spec fn view(&self) -> MutatorDeclView {
        MutatorDeclView { fn_name: self.fn_name@, field: self.field@, value_ty: self.value_ty@ }
    }
}

impl DeepView for MutatorDecl {
    type V = MutatorDeclView;

    open spec fn deep_view(&self) -> MutatorDeclView {
        self.view()
    }
}

/// The builder's function block: one mutator per subject field (required
/// fields get one too), plus the terminal `build` that unwraps and returns
/// the subject.
#[derive(Debug, PartialEq, Eq, Clone)]
pub struct BuilderImplDecl {
    pub generics_def: Vec<GenericParam>,
    pub where_clause: Option<String>,
    pub self_ty: TypeRef,
    pub subject_ty: TypeRef,
    pub builder_subject_field: String,
    pub mutators: Vec<MutatorDecl>,
}

/// Spec-level value of a [`BuilderImplDecl`].
pub struct BuilderImplDeclView {
    pub generics_def: Seq<GenericParamView>,
    pub where_clause: Option<Seq<char>>,
    pub self_ty: TypeRefView,
    pub subject_ty: TypeRefView,
    pub builder_subject_field: Seq<char>,
    pub mutators: Seq<MutatorDeclView>,
}

impl View for BuilderImplDecl {
    type V = BuilderImplDeclView;

    open spec fn view(&self) -> BuilderImplDeclView {
        BuilderImplDeclView {
            generics_def: self.generics_def.deep_view(),
            where_clause: opt_string_view(self.where_clause),
            self_ty: self.self_ty@,
            subject_ty: self.subject_ty@,
            builder_subject_field: self.builder_subject_field@,
            mutators: self.mutators.deep_view(),
        }
    }
}

/// Which conversion a synthesized `From` implementation performs; the kind
/// fixes the body.
#[derive(Clone, Copy, PartialEq, Eq, Structural, Debug)]
pub enum ConversionKind {
    /// Params to subject: construct through the builder, then finalize.
    ParamsToSubject,
    /// Subject to builder: wrap the value as-is, preserving every field.
    SubjectToBuilder,
    /// Builder to subject: unwrap, discarding the wrapper.
    BuilderToSubject,
}

/// A synthesized conversion between two of the three forms.
#[derive(Debug, PartialEq, Eq, Clone)]
pub struct FromImplDecl {
    pub kind: ConversionKind,
    pub generics_def: Vec<GenericParam>,
    pub where_clause: Option<String>,
    pub from_ty: TypeRef,
    pub self_ty: TypeRef,
    pub builder_subject_field: String,
}

/// Spec-level value of a [`FromImplDecl`].
pub struct FromImplDeclView {
    pub kind: ConversionKind,
    pub generics_def: Seq<GenericParamView>,
    pub where_clause: Option<Seq<char>>,
    pub from_ty: TypeRefView,
    pub self_ty: TypeRefView,
    pub builder_subject_field: Seq<char>,
}

impl View for FromImplDecl {
    type V = FromImplDeclView;

    open spec fn view(&self) -> FromImplDeclView {
        FromImplDeclView {
            kind: self.kind,
            generics_def: self.generics_def.deep_view(),
            where_clause: opt_string_view(self.where_clause),
            from_ty: self.from_ty@,
            self_ty: self.self_ty@,
            builder_subject_field: self.builder_subject_field@,
        }
    }
}

/// One synthesized companion declaration.
#[derive(Debug, PartialEq, Eq, Clone)]
pub enum Decl {
    ParamsStruct(ParamsStructDecl),
    SubjectImpl(SubjectImplDecl),
    BuilderStruct(BuilderStructDecl),
    BuilderImpl(BuilderImplDecl),
    FromImpl(FromImplDecl),
}

/// Spec-level value of a [`Decl`].
pub enum DeclView {
    ParamsStruct(ParamsStructDeclView),
    SubjectImpl(SubjectImplDeclView),
    BuilderStruct(BuilderStructDeclView),
    BuilderImpl(BuilderImplDeclView),
    FromImpl(FromImplDeclView),
}

impl View for Decl {
    type V = DeclView;

    open spec fn view(&self) -> DeclView {
        match self {
            Decl::ParamsStruct(d) => DeclView::ParamsStruct(d@),
            Decl::SubjectImpl(d) => DeclView::SubjectImpl(d@),
            Decl::BuilderStruct(d) => DeclView::BuilderStruct(d@),
            Decl::BuilderImpl(d) => DeclView::BuilderImpl(d@),
            Decl::FromImpl(d) => DeclView::FromImpl(d@),
        }
    }
}

impl DeepView for Decl {
    type V = DeclView;

    open spec fn deep_view(&self) -> DeclView {
        self.view()
    }
}

} // verus!
