//! Synthesis of builder-pattern companion declarations for a struct
//! declaration.
//!
//! The crate analyses a structural description of a struct (its fields,
//! generic parameters and attributes), classifies every field as required or
//! optional, decides which fields depend on the struct's own generic
//! parameters, and assembles a fixed family of companion declarations: a
//! parameters struct holding exactly the required fields, a constructor
//! attached to the subject, a builder wrapper with one mutator per field, and
//! conversions between the three forms.

pub mod build_struct;
pub mod builder_struct;
pub mod evaluation;
pub mod generic_resolution;
pub mod impl_builder_fns;
pub mod impl_from_builder_for_subject;
pub mod impl_from_params_for_subject;
pub mod impl_from_subject_for_builder;
pub mod impl_subject_fn_builder;
pub mod model;
pub mod names;
pub mod output;
pub mod params_struct;
pub mod required;
pub mod struct_builder;
