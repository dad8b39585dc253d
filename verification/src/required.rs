//! Field classification: required versus optional.
//!
//! A field is optional exactly when its declared type is a path whose final
//! segment is named `Option`, and required in every other case. The match is
//! deliberately shallow and purely textual: `std::option::Option<T>`,
//! `option::Option<T>` and a bare `Option<T>` all classify as optional, and
//! so does any caller-supplied type whose path happens to end in a segment
//! literally named `Option`. This is documented policy, never an error.

use vstd::prelude::*;
use vstd::string::StringExecFns;

use crate::model::Field;
use crate::model::TypeExpr;

verus! {

/// Whether a type shape is a path whose final segment is named `Option`.
pub open spec fn spec_is_option_shape(t: TypeExpr) -> bool {
    match t {
        TypeExpr::Path { qself: _, leading_colon: _, segments } => segments@.len() > 0
            && segments@.last().ident@ == "Option"@,
        _ => false,
    }
}

/// Whether a field with the given type shape is required: true unless the
/// shape is the shallow `Option` path form.
pub open spec fn spec_is_required(t: TypeExpr) -> bool {
    !spec_is_option_shape(t)
}

/// Classify one field as required or optional from its declared type alone.
pub fn is_required(field: &Field) -> (r: bool)
    ensures
        r == spec_is_required(field.ty.shape),
{
    match &field.ty.shape {
        TypeExpr::Path { qself: _, leading_colon: _, segments } => {
            if segments.len() == 0 {
                true
            } else {
                let option_ident: String = String::from_str("Option");
                let last: &crate::model::PathSegment = &segments[segments.len() - 1];
                !(last.ident == option_ident)
            }
        },
        _ => true,
    }
}

} // verus!
