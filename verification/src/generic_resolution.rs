//! Generic-dependency resolution.
//!
//! Decides whether a field's declared type structurally references one of
//! the subject's own generic parameters. The search recurses through wrapper
//! shapes (arrays, slices, pointers, groups, parentheses, references, tuples
//! and bare function signatures) and, for a qualified path, through its self
//! type. An unqualified path depends on a generic parameter only when it is
//! a single bare identifier equal to a declared type or const parameter
//! name; generic arguments of path segments are not inspected. Existential
//! and trait-object types are conservatively never considered dependent.

use vstd::prelude::*;

use crate::model::Field;
use crate::model::GenericParam;
use crate::model::TypeExpr;

verus! {

/// The declared generic-parameter identifiers a type shape is searched for:
/// type and const parameter names in order, and lifetime names in order.
pub struct SearchIdents {
    pub types: Vec<String>,
    pub lifetimes: Vec<String>,
}

/// The type and const parameter identifiers of a generic-parameter list, in
/// declaration order.
pub open spec fn spec_type_idents(gs: Seq<GenericParam>) -> Seq<Seq<char>>
    decreases gs.len(),
{
    if gs.len() == 0 {
        Seq::empty()
    } else {
        let rest = spec_type_idents(gs.drop_last());
        match gs.last() {
            GenericParam::Lifetime { ident: _, bounds: _ } => rest,
            GenericParam::Type { ident, bounds: _, default: _ } => rest.push(ident@),
            GenericParam::Const { ident, ty: _, default: _ } => rest.push(ident@),
        }
    }
}

/// The lifetime parameter identifiers of a generic-parameter list, in
/// declaration order.
pub open spec fn spec_lifetime_idents(gs: Seq<GenericParam>) -> Seq<Seq<char>>
    decreases gs.len(),
{
    if gs.len() == 0 {
        Seq::empty()
    } else {
        let rest = spec_lifetime_idents(gs.drop_last());
        match gs.last() {
            GenericParam::Lifetime { ident, bounds: _ } => rest.push(ident@),
            GenericParam::Type { ident: _, bounds: _, default: _ } => rest,
            GenericParam::Const { ident: _, ty: _, default: _ } => rest,
        }
    }
}

/// Whether a type shape structurally references one of the given type/const
/// or lifetime identifiers.
pub open spec fn spec_type_depends(
    types: Seq<Seq<char>>,
    lifetimes: Seq<Seq<char>>,
    t: TypeExpr,
) -> bool
    decreases t,
{
    match t {
        TypeExpr::Path { qself, leading_colon, segments } => match qself {
            Option::Some(b) => spec_type_depends(types, lifetimes, *b),
            Option::None => !leading_colon && segments@.len() == 1
                && !segments@[0].has_arguments && types.contains(segments@[0].ident@),
        },
        TypeExpr::Array { elem } => spec_type_depends(types, lifetimes, *elem),
        TypeExpr::Slice { elem } => spec_type_depends(types, lifetimes, *elem),
        TypeExpr::Ptr { elem } => spec_type_depends(types, lifetimes, *elem),
        TypeExpr::Group { elem } => spec_type_depends(types, lifetimes, *elem),
        TypeExpr::Paren { elem } => spec_type_depends(types, lifetimes, *elem),
        TypeExpr::Reference { lifetime, elem } => (match lifetime {
            Option::Some(lt) => lifetimes.contains(lt@),
            Option::None => false,
        }) || spec_type_depends(types, lifetimes, *elem),
        TypeExpr::Tuple { elems } => exists|i: int|
            0 <= i < elems@.len() && spec_type_depends(types, lifetimes, #[trigger] elems@[i]),
        TypeExpr::BareFn { lifetimes: own, inputs, output } => (exists|i: int|
            0 <= i < own@.len() && lifetimes.contains(#[trigger] own@[i]@)) || (exists|i: int|
            0 <= i < inputs@.len() && spec_type_depends(
                types,
                lifetimes,
                #[trigger] inputs@[i],
            )) || (match output {
            Option::Some(b) => spec_type_depends(types, lifetimes, *b),
            Option::None => false,
        }),
        TypeExpr::ImplTrait => false,
        TypeExpr::TraitObject => false,
        TypeExpr::Other => false,
    }
}

/// Whether a field's declared type depends on one of the subject's generic
/// parameters.
pub open spec fn spec_field_has_generic(gs: Seq<GenericParam>, f: Field) -> bool {
    spec_type_depends(spec_type_idents(gs), spec_lifetime_idents(gs), f.ty.shape)
}

/// Whether a sequence of strings contains the given character sequence, by
/// view.
pub open spec fn spec_strings_contain(v: Seq<String>, x: Seq<char>) -> bool {
    exists|i: int| 0 <= i < v.len() && v[i]@ == x
}

proof fn lemma_strings_contain_deep_view(v: Vec<String>, x: Seq<char>)
    ensures
        spec_strings_contain(v@, x) == v.deep_view().contains(x),
{
    assert(v.deep_view().len() == v@.len());
    if spec_strings_contain(v@, x) {
        let i = choose|i: int| 0 <= i < v@.len() && v@[i]@ == x;
        assert(v.deep_view()[i] == x);
    }
    if v.deep_view().contains(x) {
        let i = choose|i: int| 0 <= i < v.deep_view().len() && v.deep_view()[i] == x;
        assert(v@[i]@ == x);
    }
}

/// Whether one of the strings in `v` equals `x`.
fn strings_contain(v: &Vec<String>, x: &String) -> (r: bool)
    ensures
        r == spec_strings_contain(v@, x@),
{
    let mut i: usize = 0;
    while i < v.len()
        invariant
            0 <= i <= v.len(),
            forall|j: int| 0 <= j < i ==> v@[j]@ != x@,
        decreases v.len() - i,
    {
        if v[i].eq(x) {
            return true;
        }
        i = i + 1;
    }
    false
}

impl SearchIdents {
    /// The search identifiers gathered from a generic-parameter list.
    pub fn from_generics(generics: &Vec<GenericParam>) -> (r: SearchIdents)
        ensures
            r.types.deep_view() == spec_type_idents(generics@),
            r.lifetimes.deep_view() == spec_lifetime_idents(generics@),
    {
        let mut types: Vec<String> = Vec::new();
        let mut lifetimes: Vec<String> = Vec::new();
        let mut i: usize = 0;
        while i < generics.len()
            invariant
                0 <= i <= generics.len(),
                types.deep_view() =~= spec_type_idents(generics@.take(i as int)),
                lifetimes.deep_view() =~= spec_lifetime_idents(generics@.take(i as int)),
            decreases generics.len() - i,
        {
            proof {
                assert(generics@.take(i + 1int).drop_last() =~= generics@.take(i as int));
                assert(generics@.take(i + 1int).last() == generics@[i as int]);
            }
            match &generics[i] {
                GenericParam::Lifetime { ident, bounds: _ } => {
                    lifetimes.push(ident.clone());
                },
                GenericParam::Type { ident, bounds: _, default: _ } => {
                    types.push(ident.clone());
                },
                GenericParam::Const { ident, ty: _, default: _ } => {
                    types.push(ident.clone());
                },
            }
            i = i + 1;
        }
        proof {
            assert(generics@.take(generics@.len() as int) =~= generics@);
        }
        SearchIdents { types, lifetimes }
    }
}

/// Whether the type shape references one of the search identifiers; the
/// executable counterpart of [`spec_type_depends`].
#[verifier::loop_isolation(false)]
fn search_idents_contain_type(search_idents: &SearchIdents, ty: &TypeExpr) -> (r: bool)
    ensures
        r == spec_type_depends(
            search_idents.types.deep_view(),
            search_idents.lifetimes.deep_view(),
            *ty,
        ),
    decreases *ty,
{
    let ghost typs = search_idents.types.deep_view();
    let ghost lts = search_idents.lifetimes.deep_view();
    match ty {
        TypeExpr::Path { qself, leading_colon, segments } => match qself {
            Option::Some(b) => search_idents_contain_type(search_idents, b),
            Option::None => {
                if *leading_colon || segments.len() != 1 {
                    false
                } else if segments[0].has_arguments {
                    false
                } else {
                    proof {
                        lemma_strings_contain_deep_view(
                            search_idents.types,
                            segments@[0].ident@,
                        );
                    }
                    strings_contain(&search_idents.types, &segments[0].ident)
                }
            },
        },
        TypeExpr::Array { elem } => search_idents_contain_type(search_idents, elem),
        TypeExpr::Slice { elem } => search_idents_contain_type(search_idents, elem),
        TypeExpr::Ptr { elem } => search_idents_contain_type(search_idents, elem),
        TypeExpr::Group { elem } => search_idents_contain_type(search_idents, elem),
        TypeExpr::Paren { elem } => search_idents_contain_type(search_idents, elem),
        TypeExpr::Reference { lifetime, elem } => {
            let on_lifetime: bool = match lifetime {
                Option::Some(lt) => {
                    proof {
                        lemma_strings_contain_deep_view(search_idents.lifetimes, lt@);
                    }
                    strings_contain(&search_idents.lifetimes, lt)
                },
                Option::None => false,
            };
            if on_lifetime {
                true
            } else {
                search_idents_contain_type(search_idents, elem)
            }
        },
        TypeExpr::Tuple { elems } => {
            let mut i: usize = 0;
            while i < elems.len()
                invariant
                    0 <= i <= elems.len(),
                    forall|j: int| 0 <= j < i ==> !spec_type_depends(typs, lts, elems@[j]),
                    typs == search_idents.types.deep_view(),
                    lts == search_idents.lifetimes.deep_view(),
                decreases elems.len() - i,
            {
                proof {
                    assert(ty->Tuple_elems == *elems);
                    assert(decreases_to!(*ty => ty->Tuple_elems));
                    assert(decreases_to!(ty->Tuple_elems => ty->Tuple_elems@));
                    assert(0 <= i < ty->Tuple_elems@.len());
                    assert(decreases_to!(ty->Tuple_elems@ => ty->Tuple_elems@[i as int]));
                }
                if search_idents_contain_type(search_idents, &elems[i]) {
                    return true;
                }
                i = i + 1;
            }
            false
        },
        TypeExpr::BareFn { lifetimes, inputs, output } => {
            let mut i: usize = 0;
            while i < lifetimes.len()
                invariant
                    0 <= i <= lifetimes.len(),
                    forall|j: int| 0 <= j < i ==> !lts.contains(lifetimes@[j]@),
                    lts == search_idents.lifetimes.deep_view(),
                decreases lifetimes.len() - i,
            {
                proof {
                    lemma_strings_contain_deep_view(
                        search_idents.lifetimes,
                        lifetimes@[i as int]@,
                    );
                }
                if strings_contain(&search_idents.lifetimes, &lifetimes[i]) {
                    return true;
                }
                i = i + 1;
            }
            let mut k: usize = 0;
            while k < inputs.len()
                invariant
                    0 <= k <= inputs.len(),
                    forall|j: int| 0 <= j < k ==> !spec_type_depends(typs, lts, inputs@[j]),
                    forall|j: int| 0 <= j < lifetimes@.len() ==> !lts.contains(lifetimes@[j]@),
                    typs == search_idents.types.deep_view(),
                    lts == search_idents.lifetimes.deep_view(),
                decreases inputs.len() - k,
            {
                proof {
                    assert(*ty is BareFn);
                    assert(ty->BareFn_inputs == *inputs);
                    assert(decreases_to!(*ty => ty->BareFn_inputs));
                    assert(decreases_to!(ty->BareFn_inputs => ty->BareFn_inputs@));
                    assert(0 <= k < ty->BareFn_inputs@.len());
                    assert(decreases_to!(ty->BareFn_inputs@ => ty->BareFn_inputs@[k as int]));
                }
                if search_idents_contain_type(search_idents, &inputs[k]) {
                    return true;
                }
                k = k + 1;
            }
            match output {
                Option::Some(b) => search_idents_contain_type(search_idents, b),
                Option::None => false,
            }
        },
        TypeExpr::ImplTrait => false,
        TypeExpr::TraitObject => false,
        TypeExpr::Other => false,
    }
}

/// Whether a field's declared type structurally references one of the
/// subject's generic parameters.
pub fn field_has_generic(generics: &Vec<GenericParam>, field: &Field) -> (r: bool)
    ensures
        r == spec_field_has_generic(generics@, *field),
{
    let search_idents = SearchIdents::from_generics(generics);
    search_idents_contain_type(&search_idents, &field.ty.shape)
}

} // verus!
