//! Structural model of a subject struct declaration.
//!
//! A [`Subject`] is the input of the synthesis engine: the struct's
//! identifier, its outer attributes, its generic parameters with their
//! bounds, an optional trailing `where` clause, and its field list in one of
//! three shapes (named, unnamed, unit).
//!
//! Only as much structure is modelled as the engine reads. A field's declared
//! type carries both its verbatim token text (copied unchanged into the
//! synthesized declarations) and a [`TypeExpr`] shape used for the shallow
//! structural analysis: required/optional classification and
//! generic-dependency resolution. Attribute lists, bounds and `where` clauses
//! are carried as opaque token text, since the engine only ever copies them.

use vstd::prelude::*;

verus! {

/// One segment of a type path: its identifier, and whether the segment
/// carries generic or parenthesized arguments (`Option<T>` has arguments,
/// a bare `T` does not).
#[derive(Debug, PartialEq, Eq, Clone)]
pub struct PathSegment {
    pub ident: String,
    pub has_arguments: bool,
}

/// Spec-level value of a [`PathSegment`].
pub struct PathSegmentView {
    pub ident: Seq<char>,
    pub has_arguments: bool,
}

impl View for PathSegment {
    type V = PathSegmentView;

    open spec fn view(&self) -> PathSegmentView {
        PathSegmentView { ident: self.ident@, has_arguments: self.has_arguments }
    }
}

/// The structural shape of a declared type, as far as classification and
/// generic-dependency resolution inspect it.
///
/// Existential (`impl Trait`) and trait-object (`dyn Trait`) types are kept
/// opaque and are never considered generic-dependent; this is a deliberate,
/// documented limitation of the resolution policy, not an error case. Any
/// shape outside this grammar is carried as [`TypeExpr::Other`] and treated
/// conservatively in the same way.
#[derive(Debug, PartialEq, Eq)]
pub enum TypeExpr {
    /// A (possibly qualified) path type such as `std::option::Option<T>`.
    /// A qualified path (`<T as Trait>::Item`) stores its self type in
    /// `qself`.
    Path { qself: Option<Box<TypeExpr>>, leading_colon: bool, segments: Vec<PathSegment> },
    /// An array type `[T; N]`; only the element type is inspected.
    Array { elem: Box<TypeExpr> },
    /// A slice type `[T]`.
    Slice { elem: Box<TypeExpr> },
    /// A raw pointer type `*const T` / `*mut T`.
    Ptr { elem: Box<TypeExpr> },
    /// A type wrapped by the compiler in an invisible group.
    Group { elem: Box<TypeExpr> },
    /// A parenthesized type `(T)`.
    Paren { elem: Box<TypeExpr> },
    /// A reference type `&'a T`, with its optional lifetime.
    Reference { lifetime: Option<String>, elem: Box<TypeExpr> },
    /// A tuple type `(A, B, C)`.
    Tuple { elems: Vec<TypeExpr> },
    /// A bare function type `for<'a> fn(A, B) -> C`, with the lifetimes it
    /// binds itself.
    BareFn { lifetimes: Vec<String>, inputs: Vec<TypeExpr>, output: Option<Box<TypeExpr>> },
    /// An existential type `impl Trait`: opaque to resolution.
    ImplTrait,
    /// A trait object `dyn Trait`: opaque to resolution.
    TraitObject,
    /// Any other shape: treated conservatively as not generic-dependent.
    Other,
}

/// A field's declared type: the verbatim token text used whenever the type
/// is re-emitted, and the structural shape used by the analysis.
#[derive(Debug, PartialEq, Eq)]
pub struct FieldType {
    pub tokens: String,
    pub shape: TypeExpr,
}

/// The visibility of a field as written on the subject.
#[derive(Debug, PartialEq, Eq)]
pub enum Vis {
    Public,
    Restricted(String),
    Inherited,
}

/// Spec-level value of a [`Vis`].
pub enum VisView {
    Public,
    Restricted(Seq<char>),
    Inherited,
}

impl View for Vis {
    type V = VisView;

    open spec fn view(&self) -> VisView {
        match self {
            Vis::Public => VisView::Public,
            Vis::Restricted(s) => VisView::Restricted(s@),
            Vis::Inherited => VisView::Inherited,
        }
    }
}

impl Clone for Vis {
    fn clone(&self) -> (res: Self)
        ensures
            res@ == self@,
    {
        match self {
            Vis::Public => Vis::Public,
            Vis::Restricted(s) => Vis::Restricted(s.clone()),
            Vis::Inherited => Vis::Inherited,
        }
    }
}

/// One field of the subject. An unnamed (tuple) field has no identifier;
/// its identity is its position in the field list.
#[derive(Debug, PartialEq, Eq)]
pub struct Field {
    pub attrs: Vec<String>,
    pub vis: Vis,
    pub ident: Option<String>,
    pub ty: FieldType,
}

/// The subject's field list, in one of the three field shapes.
#[derive(Debug, PartialEq, Eq)]
pub enum Fields {
    Named(Vec<Field>),
    Unnamed(Vec<Field>),
    Unit,
}

/// A generic parameter of the subject, with everything needed to restate the
/// parameter in a companion declaration header. Bounds, const-parameter
/// types and defaults are opaque token text: the engine only copies or
/// strips them.
#[derive(Debug, PartialEq, Eq)]
pub enum GenericParam {
    Lifetime { ident: String, bounds: Vec<String> },
    Type { ident: String, bounds: Vec<String>, default: Option<String> },
    Const { ident: String, ty: String, default: Option<String> },
}

/// Spec-level value of a [`GenericParam`].
pub enum GenericParamView {
    Lifetime { ident: Seq<char>, bounds: Seq<Seq<char>> },
    Type { ident: Seq<char>, bounds: Seq<Seq<char>>, default: Option<Seq<char>> },
    Const { ident: Seq<char>, ty: Seq<char>, default: Option<Seq<char>> },
}

/// Spec-level value of an `Option<String>`.
pub open spec fn opt_string_view(o: Option<String>) -> Option<Seq<char>> {
    match o {
        Option::Some(s) => Option::Some(s@),
        Option::None => Option::None,
    }
}

impl View for GenericParam {
    type V = GenericParamView;

    open spec fn view(&self) -> GenericParamView {
        match self {
            GenericParam::Lifetime { ident, bounds } => GenericParamView::Lifetime {
                ident: ident@,
                bounds: bounds.deep_view(),
            },
            GenericParam::Type { ident, bounds, default } => GenericParamView::Type {
                ident: ident@,
                bounds: bounds.deep_view(),
                default: opt_string_view(*default),
            },
            GenericParam::Const { ident, ty, default } => GenericParamView::Const {
                ident: ident@,
                ty: ty@,
                default: opt_string_view(*default),
            },
        }
    }
}

impl DeepView for GenericParam {
    type V = GenericParamView;

    open spec fn deep_view(&self) -> GenericParamView {
        self.view()
    }
}

/// A generic argument in expression form: a single bare identifier, either a
/// lifetime or a type/const parameter name.
#[derive(Debug, PartialEq, Eq)]
pub enum GenericArg {
    Lifetime { ident: String },
    Ident { ident: String },
}

/// Spec-level value of a [`GenericArg`].
pub enum GenericArgView {
    Lifetime { ident: Seq<char> },
    Ident { ident: Seq<char> },
}

impl View for GenericArg {
    type V = GenericArgView;

    open spec fn view(&self) -> GenericArgView {
        match self {
            GenericArg::Lifetime { ident } => GenericArgView::Lifetime { ident: ident@ },
            GenericArg::Ident { ident } => GenericArgView::Ident { ident: ident@ },
        }
    }
}

impl DeepView for GenericArg {
    type V = GenericArgView;

    open spec fn deep_view(&self) -> GenericArgView {
        self.view()
    }
}

impl Clone for GenericArg {
    /// Copy a generic argument, preserving its spec-level value.
    fn clone(&self) -> (res: Self)
        ensures
            res@ == self@,
    {
        match self {
            GenericArg::Lifetime { ident } => GenericArg::Lifetime { ident: ident.clone() },
            GenericArg::Ident { ident } => GenericArg::Ident { ident: ident.clone() },
        }
    }
}

/// Copy a generic-argument list, preserving its spec-level value.
pub fn clone_generic_args(v: &Vec<GenericArg>) -> (r: Vec<GenericArg>)
    ensures
        r.deep_view() == v.deep_view(),
{
    let mut out: Vec<GenericArg> = Vec::new();
    let mut i: usize = 0;
    while i < v.len()
        invariant
            0 <= i <= v.len(),
            out@.len() == i,
            forall|j: int| 0 <= j < i ==> out@[j].deep_view() == v@[j].deep_view(),
        decreases v.len() - i,
    {
        out.push(v[i].clone());
        i = i + 1;
    }
    proof {
        assert forall|j: int| 0 <= j < v@.len() implies out.deep_view()[j] == v.deep_view()[j] by {
            assert(out@[j].deep_view() == v@[j].deep_view());
        }
        assert(out.deep_view() =~= v.deep_view());
    }
    out
}

/// The subject declaration the engine transforms.
#[derive(Debug, PartialEq, Eq)]
pub struct Subject {
    pub attrs: Vec<String>,
    pub ident: String,
    pub generics: Vec<GenericParam>,
    pub where_clause: Option<String>,
    pub fields: Fields,
}

/// The field list of a subject, flattened: a unit subject has no fields.
pub open spec fn field_list(fields: Fields) -> Seq<Field> {
    match fields {
        Fields::Named(fs) => fs@,
        Fields::Unnamed(fs) => fs@,
        Fields::Unit => Seq::empty(),
    }
}

/// A well-formed field list: every named field carries an identifier. The
/// engine rejects a subject that violates this before synthesizing anything,
/// rather than emit incomplete companions.
pub open spec fn fields_wf(fields: Fields) -> bool {
    match fields {
        Fields::Named(fs) => forall|i: int| 0 <= i < fs@.len() ==> fs@[i].ident is Some,
        Fields::Unnamed(_) => true,
        Fields::Unit => true,
    }
}

/// Well-formedness of a whole subject.
pub open spec fn subject_wf(s: Subject) -> bool {
    fields_wf(s.fields)
}

/// Copy a list of opaque token strings.
pub fn clone_strings(v: &Vec<String>) -> (r: Vec<String>)
    ensures
        r.deep_view() == v.deep_view(),
{
    let mut out: Vec<String> = Vec::new();
    let mut i: usize = 0;
    while i < v.len()
        invariant
            0 <= i <= v.len(),
            out@.len() == i,
            forall|j: int| 0 <= j < i ==> out@[j]@ == v@[j]@,
        decreases v.len() - i,
    {
        out.push(v[i].clone());
        i = i + 1;
    }
    proof {
        assert forall|j: int| 0 <= j < v@.len() implies out.deep_view()[j] == v.deep_view()[j] by {
            assert(out@[j]@ == v@[j]@);
        }
        assert(out.deep_view() =~= v.deep_view());
    }
    out
}

/// Copy an optional identifier.
pub fn clone_opt_string(o: &Option<String>) -> (r: Option<String>)
    ensures
        opt_string_view(r) == opt_string_view(*o),
{
    match o {
        Option::Some(s) => Option::Some(s.clone()),
        Option::None => Option::None,
    }
}

impl Clone for GenericParam {
    /// Copy a generic parameter, preserving its spec-level value.
    fn clone(&self) -> (res: Self)
        ensures
            res@ == self@,
    {
        match self {
            GenericParam::Lifetime { ident, bounds } => GenericParam::Lifetime {
                ident: ident.clone(),
                bounds: clone_strings(bounds),
            },
            GenericParam::Type { ident, bounds, default } => GenericParam::Type {
                ident: ident.clone(),
                bounds: clone_strings(bounds),
                default: clone_opt_string(default),
            },
            GenericParam::Const { ident, ty, default } => GenericParam::Const {
                ident: ident.clone(),
                ty: ty.clone(),
                default: clone_opt_string(default),
            },
        }
    }
}

/// Copy a generic-parameter list, preserving its spec-level value.
pub fn clone_generic_params(v: &Vec<GenericParam>) -> (r: Vec<GenericParam>)
    ensures
        r.deep_view() == v.deep_view(),
{
    let mut out: Vec<GenericParam> = Vec::new();
    let mut i: usize = 0;
    while i < v.len()
        invariant
            0 <= i <= v.len(),
            out@.len() == i,
            forall|j: int| 0 <= j < i ==> out@[j].deep_view() == v@[j].deep_view(),
        decreases v.len() - i,
    {
        out.push(v[i].clone());
        i = i + 1;
    }
    proof {
        assert forall|j: int| 0 <= j < v@.len() implies out.deep_view()[j] == v.deep_view()[j] by {
            assert(out@[j].deep_view() == v@[j].deep_view());
        }
        assert(out.deep_view() =~= v.deep_view());
    }
    out
}

} // verus!
