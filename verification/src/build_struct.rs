//! Per-field descriptors and field-count statistics.
//!
//! Classification runs once over the subject's field list and produces one
//! descriptor per field: the field's identity (name or index), a verbatim
//! copy of the field for re-emission, and its required flag. The synthesizers
//! consume these descriptors rather than re-inspecting declared types.

use vstd::prelude::*;

use crate::model::Field;
use crate::model::Fields;
use crate::model::fields_wf;
use crate::output::FieldDef;
use crate::output::FieldDefView;
use crate::output::spec_field_def_of;
use crate::required::is_required;
use crate::required::spec_is_required;

verus! {

/// Whether a field is required, from its declared type's shape.
pub open spec fn is_required_field(f: Field) -> bool {
    spec_is_required(f.ty.shape)
}

/// The identifier of a named field; the empty sequence when it has none
/// (well-formed named field lists never lack one).
pub open spec fn spec_field_ident(f: Field) -> Seq<char> {
    match f.ident {
        Option::Some(s) => s@,
        Option::None => Seq::empty(),
    }
}

/// How many fields of the list are required.
pub open spec fn spec_required_count(fs: Seq<Field>) -> int
    decreases fs.len(),
{
    if fs.len() == 0 {
        0
    } else {
        spec_required_count(fs.drop_last()) + if is_required_field(fs.last()) {
            1int
        } else {
            0int
        }
    }
}

/// How many fields of the list are optional.
pub open spec fn spec_optional_count(fs: Seq<Field>) -> int
    decreases fs.len(),
{
    if fs.len() == 0 {
        0
    } else {
        spec_optional_count(fs.drop_last()) + if is_required_field(fs.last()) {
            0int
        } else {
            1int
        }
    }
}

/// How many of the first `i` fields are required: the renumbered position a
/// required field at position `i` takes among the required subset.
pub open spec fn spec_required_prefix(fs: Seq<Field>, i: int) -> int
    decreases i,
{
    if i <= 0 {
        0
    } else {
        spec_required_prefix(fs, i - 1) + if is_required_field(fs[i - 1]) {
            1int
        } else {
            0int
        }
    }
}

/// The required-prefix count is monotone, strictly so across a required
/// field, and reaches the total required count at the end of the list.
pub proof fn lemma_required_prefix_le(fs: Seq<Field>, i: int, j: int)
    requires
        0 <= i <= j,
    ensures
        spec_required_prefix(fs, i) <= spec_required_prefix(fs, j),
        i < j && is_required_field(fs[i]) ==> spec_required_prefix(fs, i) < spec_required_prefix(
            fs,
            j,
        ),
    decreases j - i,
{
    if i < j {
        lemma_required_prefix_le(fs, i, j - 1);
        if i == j - 1 {
        }
    }
}

/// At the end of the list the prefix count is the required count.
pub proof fn lemma_required_prefix_full(fs: Seq<Field>)
    ensures
        spec_required_prefix(fs, fs.len() as int) == spec_required_count(fs),
        spec_required_prefix(fs, fs.len() as int) >= 0,
    decreases fs.len(),
{
    if fs.len() > 0 {
        lemma_required_prefix_full(fs.drop_last());
        lemma_required_prefix_agrees(fs, fs.len() - 1);
    }
}

/// The prefix count reads only the first `i` fields, so dropping the last
/// field does not change it.
pub proof fn lemma_required_prefix_agrees(fs: Seq<Field>, i: int)
    requires
        0 <= i < fs.len(),
    ensures
        spec_required_prefix(fs.drop_last(), i) == spec_required_prefix(fs, i),
    decreases i,
{
    if i > 0 {
        lemma_required_prefix_agrees(fs, i - 1);
    }
}

/// Every field is either required or optional, so the two counts partition
/// the field list.
pub proof fn lemma_stats_partition(fs: Seq<Field>)
    ensures
        0 <= spec_required_count(fs) <= fs.len(),
        0 <= spec_optional_count(fs) <= fs.len(),
        spec_required_count(fs) + spec_optional_count(fs) == fs.len(),
    decreases fs.len(),
{
    if fs.len() > 0 {
        lemma_stats_partition(fs.drop_last());
    }
}

/// Counts of required and optional fields of one subject.
#[derive(Debug, PartialEq, Eq, Clone)]
pub struct BuildStructStats {
    /// Number of required fields.
    pub required_count: usize,
    /// Number of optional fields (fields of the shallow `Option` shape).
    pub optional_count: usize,
}

/// Spec-level value of a [`BuildStructStats`].
pub struct BuildStructStatsView {
    pub required_count: int,
    pub optional_count: int,
}

impl View for BuildStructStats {
    type V = BuildStructStatsView;

    open spec fn view(&self) -> BuildStructStatsView {
        BuildStructStatsView {
            required_count: self.required_count as int,
            optional_count: self.optional_count as int,
        }
    }
}

/// The statistics of a field list.
pub open spec fn spec_stats(fs: Seq<Field>) -> BuildStructStatsView {
    BuildStructStatsView {
        required_count: spec_required_count(fs),
        optional_count: spec_optional_count(fs),
    }
}

/// One named field's descriptor: its identifier, a verbatim copy of the
/// field, and its classification.
#[derive(Debug, PartialEq, Eq, Clone)]
pub struct NamedFieldBuilder {
    pub ident: String,
    pub field: FieldDef,
    pub required: bool,
}

/// Spec-level value of a [`NamedFieldBuilder`].
pub struct NamedFieldBuilderView {
    pub ident: Seq<char>,
    pub field: FieldDefView,
    pub required: bool,
}

impl View for NamedFieldBuilder {
    type V = NamedFieldBuilderView;

    open spec fn view(&self) -> NamedFieldBuilderView {
        NamedFieldBuilderView { ident: self.ident@, field: self.field@, required: self.required }
    }
}

impl DeepView for NamedFieldBuilder {
    type V = NamedFieldBuilderView;

    open spec fn deep_view(&self) -> NamedFieldBuilderView {
        self.view()
    }
}

/// One unnamed field's descriptor: its index over the original field list, a
/// verbatim copy of the field, and its classification.
#[derive(Debug, PartialEq, Eq, Clone)]
pub struct UnnamedFieldBuilder {
    pub index: usize,
    pub field: FieldDef,
    pub required: bool,
}

/// Spec-level value of an [`UnnamedFieldBuilder`].
pub struct UnnamedFieldBuilderView {
    pub index: int,
    pub field: FieldDefView,
    pub required: bool,
}

impl View for UnnamedFieldBuilder {
    type V = UnnamedFieldBuilderView;

    open spec fn view(&self) -> UnnamedFieldBuilderView {
        UnnamedFieldBuilderView {
            index: self.index as int,
            field: self.field@,
            required: self.required,
        }
    }
}

impl DeepView for UnnamedFieldBuilder {
    type V = UnnamedFieldBuilderView;

    open spec fn deep_view(&self) -> UnnamedFieldBuilderView {
        self.view()
    }
}

/// The descriptor a named field classifies into.
pub open spec fn spec_named_descriptor(f: Field) -> NamedFieldBuilderView {
    NamedFieldBuilderView {
        ident: spec_field_ident(f),
        field: spec_field_def_of(f),
        required: is_required_field(f),
    }
}

/// The descriptor an unnamed field at index `i` classifies into.
pub open spec fn spec_unnamed_descriptor(i: int, f: Field) -> UnnamedFieldBuilderView {
    UnnamedFieldBuilderView { index: i, field: spec_field_def_of(f), required: is_required_field(f) }
}

/// The descriptors of a named field list, in order.
pub open spec fn spec_named_descriptors(fs: Seq<Field>) -> Seq<NamedFieldBuilderView> {
    Seq::new(fs.len(), |i: int| spec_named_descriptor(fs[i]))
}

/// The descriptors of an unnamed field list, in order.
pub open spec fn spec_unnamed_descriptors(fs: Seq<Field>) -> Seq<UnnamedFieldBuilderView> {
    Seq::new(fs.len(), |i: int| spec_unnamed_descriptor(i, fs[i]))
}

/// Descriptors and statistics of a named-field subject.
#[derive(Debug, PartialEq, Eq, Clone)]
pub struct NamedStructBuilder {
    pub stats: BuildStructStats,
    pub field_builders: Vec<NamedFieldBuilder>,
}

/// Spec-level value of a [`NamedStructBuilder`].
pub struct NamedStructBuilderView {
    pub stats: BuildStructStatsView,
    pub field_builders: Seq<NamedFieldBuilderView>,
}

impl View for NamedStructBuilder {
    type V = NamedStructBuilderView;

    open spec fn view(&self) -> NamedStructBuilderView {
        NamedStructBuilderView {
            stats: self.stats@,
            field_builders: self.field_builders.deep_view(),
        }
    }
}

/// Descriptors and statistics of an unnamed-field subject.
#[derive(Debug, PartialEq, Eq, Clone)]
pub struct UnnamedStructBuilder {
    pub stats: BuildStructStats,
    pub field_builders: Vec<UnnamedFieldBuilder>,
}

/// Spec-level value of an [`UnnamedStructBuilder`].
pub struct UnnamedStructBuilderView {
    pub stats: BuildStructStatsView,
    pub field_builders: Seq<UnnamedFieldBuilderView>,
}

impl View for UnnamedStructBuilder {
    type V = UnnamedStructBuilderView;

    open spec fn view(&self) -> UnnamedStructBuilderView {
        UnnamedStructBuilderView {
            stats: self.stats@,
            field_builders: self.field_builders.deep_view(),
        }
    }
}

/// Statistics of a unit subject: there are no fields to describe.
#[derive(Debug, PartialEq, Eq, Clone)]
pub struct UnitStructBuilder {
    pub stats: BuildStructStats,
}

/// Spec-level value of a [`UnitStructBuilder`].
pub struct UnitStructBuilderView {
    pub stats: BuildStructStatsView,
}

impl View for UnitStructBuilder {
    type V = UnitStructBuilderView;

    open spec fn view(&self) -> UnitStructBuilderView {
        UnitStructBuilderView { stats: self.stats@ }
    }
}

impl NamedStructBuilder {
    /// Classify every field of a named field list.
    pub fn from(fields: &Vec<Field>) -> (r: NamedStructBuilder)
        requires
            fields_wf(Fields::Named(*fields)),
        ensures
            r@.field_builders == spec_named_descriptors(fields@),
            r@.stats == spec_stats(fields@),
    {
        let mut field_builders: Vec<NamedFieldBuilder> = Vec::new();
        let mut required_count: usize = 0;
        let mut optional_count: usize = 0;
        let mut i: usize = 0;
        while i < fields.len()
            invariant
                0 <= i <= fields.len(),
                fields_wf(Fields::Named(*fields)),
                field_builders@.len() == i,
                forall|j: int|
                    0 <= j < i ==> field_builders@[j].deep_view() == spec_named_descriptor(
                        fields@[j],
                    ),
                required_count == spec_required_count(fields@.take(i as int)),
                optional_count == spec_optional_count(fields@.take(i as int)),
                required_count + optional_count == i,
            decreases fields.len() - i,
        {
            let field = &fields[i];
            let ident: String = match &field.ident {
                Option::Some(s) => s.clone(),
                Option::None => {
                    proof {
                        assert(fields@[i as int].ident is Some);
                    }
                    // A well-formed named field list has no such field.
                    String::new()
                },
            };
            let required = is_required(field);
            field_builders.push(NamedFieldBuilder {
                ident,
                field: FieldDef::of_field(field),
                required,
            });
            proof {
                assert(fields@.take(i + 1int).drop_last() =~= fields@.take(i as int));
                assert(fields@.take(i + 1int).last() == fields@[i as int]);
            }
            if required {
                required_count = required_count + 1;
            } else {
                optional_count = optional_count + 1;
            }
            i = i + 1;
        }
        proof {
            assert(fields@.take(fields@.len() as int) =~= fields@);
            assert(field_builders.deep_view() =~= spec_named_descriptors(fields@));
        }
        NamedStructBuilder {
            stats: BuildStructStats { required_count, optional_count },
            field_builders,
        }
    }

    /// The statistics gathered during classification.
    pub fn stats(&self) -> (r: &BuildStructStats)
        ensures
            r@ == self@.stats,
    {
        &self.stats
    }
}

impl UnnamedStructBuilder {
    /// Classify every field of an unnamed field list, indexing the fields in
    /// order from zero.
    pub fn from(fields: &Vec<Field>) -> (r: UnnamedStructBuilder)
        ensures
            r@.field_builders == spec_unnamed_descriptors(fields@),
            r@.stats == spec_stats(fields@),
    {
        let mut field_builders: Vec<UnnamedFieldBuilder> = Vec::new();
        let mut required_count: usize = 0;
        let mut optional_count: usize = 0;
        let mut i: usize = 0;
        while i < fields.len()
            invariant
                0 <= i <= fields.len(),
                field_builders@.len() == i,
                forall|j: int|
                    0 <= j < i ==> field_builders@[j].deep_view() == spec_unnamed_descriptor(
                        j,
                        fields@[j],
                    ),
                required_count == spec_required_count(fields@.take(i as int)),
                optional_count == spec_optional_count(fields@.take(i as int)),
                required_count + optional_count == i,
            decreases fields.len() - i,
        {
            let field = &fields[i];
            let required = is_required(field);
            field_builders.push(UnnamedFieldBuilder {
                index: i,
                field: FieldDef::of_field(field),
                required,
            });
            proof {
                assert(fields@.take(i + 1int).drop_last() =~= fields@.take(i as int));
                assert(fields@.take(i + 1int).last() == fields@[i as int]);
            }
            if required {
                required_count = required_count + 1;
            } else {
                optional_count = optional_count + 1;
            }
            i = i + 1;
        }
        proof {
            assert(fields@.take(fields@.len() as int) =~= fields@);
            assert(field_builders.deep_view() =~= spec_unnamed_descriptors(fields@));
        }
        UnnamedStructBuilder {
            stats: BuildStructStats { required_count, optional_count },
            field_builders,
        }
    }

    /// The statistics gathered during classification.
    pub fn stats(&self) -> (r: &BuildStructStats)
        ensures
            r@ == self@.stats,
    {
        &self.stats
    }
}

impl UnitStructBuilder {
    /// The descriptor of a unit subject: both counts are zero.
    pub fn new() -> (r: UnitStructBuilder)
        ensures
            r@.stats == spec_stats(Seq::empty()),
    {
        UnitStructBuilder { stats: BuildStructStats { required_count: 0, optional_count: 0 } }
    }

    /// The statistics gathered during classification.
    pub fn stats(&self) -> (r: &BuildStructStats)
        ensures
            r@ == self@.stats,
    {
        &self.stats
    }
}

/// The descriptors of a whole field list, dispatched on its shape.
#[derive(Debug, PartialEq, Eq, Clone)]
pub enum BuildPlan {
    Named(NamedStructBuilder),
    Unnamed(UnnamedStructBuilder),
    Unit(UnitStructBuilder),
}

/// Spec-level value of a [`BuildPlan`].
pub enum BuildPlanView {
    Named(NamedStructBuilderView),
    Unnamed(UnnamedStructBuilderView),
    Unit(UnitStructBuilderView),
}

impl View for BuildPlan {
    type V = BuildPlanView;

    open spec fn view(&self) -> BuildPlanView {
        match self {
            BuildPlan::Named(b) => BuildPlanView::Named(b@),
            BuildPlan::Unnamed(b) => BuildPlanView::Unnamed(b@),
            BuildPlan::Unit(b) => BuildPlanView::Unit(b@),
        }
    }
}

/// The descriptors a well-formed field list classifies into.
pub open spec fn spec_build_plan(fields: Fields) -> BuildPlanView {
    match fields {
        Fields::Named(fs) => BuildPlanView::Named(
            NamedStructBuilderView {
                stats: spec_stats(fs@),
                field_builders: spec_named_descriptors(fs@),
            },
        ),
        Fields::Unnamed(fs) => BuildPlanView::Unnamed(
            UnnamedStructBuilderView {
                stats: spec_stats(fs@),
                field_builders: spec_unnamed_descriptors(fs@),
            },
        ),
        Fields::Unit => BuildPlanView::Unit(
            UnitStructBuilderView { stats: spec_stats(Seq::empty()) },
        ),
    }
}

/// Classify a whole field list, dispatching on its shape.
pub fn struct_builder_from_fields(fields: &Fields) -> (r: BuildPlan)
    requires
        fields_wf(*fields),
    ensures
        r@ == spec_build_plan(*fields),
{
    match fields {
        Fields::Named(fs) => BuildPlan::Named(NamedStructBuilder::from(fs)),
        Fields::Unnamed(fs) => BuildPlan::Unnamed(UnnamedStructBuilder::from(fs)),
        Fields::Unit => BuildPlan::Unit(UnitStructBuilder::new()),
    }
}

} // verus!
