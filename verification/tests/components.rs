use struct_builder::builder_struct::BuilderStruct;
use struct_builder::impl_builder_fns::ImplBuilderFns;
use struct_builder::impl_from_builder_for_subject::ImplFromBuilderForSubject;
use struct_builder::impl_from_params_for_subject::ImplFromParamsForSubject;
use struct_builder::impl_from_subject_for_builder::ImplFromSubjectForBuilder;
use struct_builder::impl_subject_fn_builder::ImplSubjectFnBuilder;
use struct_builder::model::Field;
use struct_builder::model::FieldType;
use struct_builder::model::Fields;
use struct_builder::model::GenericArg;
use struct_builder::model::GenericParam;
use struct_builder::model::PathSegment;
use struct_builder::model::Subject;
use struct_builder::model::TypeExpr;
use struct_builder::model::Vis;
use struct_builder::output::ConversionKind;
use struct_builder::output::CtorInit;
use struct_builder::output::FieldDef;
use struct_builder::output::FieldInit;
use struct_builder::output::FieldRef;
use struct_builder::output::FieldsDef;
use struct_builder::output::MutatorDecl;
use struct_builder::output::TypeRef;
use struct_builder::params_struct::ParamsStruct;

fn seg(name: &str, has_arguments: bool) -> PathSegment {
    PathSegment { ident: String::from(name), has_arguments }
}

fn path_shape(segments: Vec<PathSegment>) -> TypeExpr {
    TypeExpr::Path { qself: None, leading_colon: false, segments }
}

fn field(attrs: Vec<&str>, vis: Vis, ident: Option<&str>, tokens: &str, shape: TypeExpr) -> Field {
    Field {
        attrs: attrs.into_iter().map(String::from).collect(),
        vis,
        ident: ident.map(String::from),
        ty: FieldType { tokens: String::from(tokens), shape },
    }
}

fn type_param(ident: &str, bounds: Vec<&str>) -> GenericParam {
    GenericParam::Type {
        ident: String::from(ident),
        bounds: bounds.into_iter().map(String::from).collect(),
        default: None,
    }
}

fn sample_generics() -> Vec<GenericParam> {
    vec![type_param("T", vec![]), type_param("I", vec!["Send"]), type_param("W", vec![])]
}

fn sample_field_types() -> Vec<(Vec<&'static str>, Option<&'static str>, &'static str, TypeExpr)> {
    vec![
        (vec![], Some("public_field"), "String", path_shape(vec![seg("String", false)])),
        (vec![], Some("private_field"), "String", path_shape(vec![seg("String", false)])),
        (vec![], Some("optional"), "Option<usize>", path_shape(vec![seg("Option", true)])),
        (
            vec!["#[serde(rename = \"testMe\")]"],
            Some("test"),
            "std::option::Option<String>",
            path_shape(vec![seg("std", false), seg("option", false), seg("Option", true)]),
        ),
        (
            vec![],
            Some("test2"),
            "option::Option<T>",
            path_shape(vec![seg("option", false), seg("Option", true)]),
        ),
        (vec![], Some("dynamic"), "Box<dyn Send>", path_shape(vec![seg("Box", true)])),
        (vec![], Some("dynamic2"), "Box<Option<dyn Send>>", path_shape(vec![seg("Box", true)])),
        (
            vec!["#[serde(rename = \"simpleGeneric\")]"],
            Some("generic"),
            "T",
            path_shape(vec![seg("T", false)]),
        ),
        (vec![], Some("generic_inline"), "I", path_shape(vec![seg("I", false)])),
        (vec![], Some("generic_where"), "W", path_shape(vec![seg("W", false)])),
    ]
}

/// A named subject with three generic parameters (one bounded inline, one in
/// the `where` clause), three optional fields, and three required fields
/// whose types depend on the generics.
fn sample_named_subject() -> Subject {
    let fields = sample_field_types()
        .into_iter()
        .map(|(attrs, ident, tokens, shape)| {
            let vis = match ident {
                Some("private_field") | Some("optional") | Some("test2") => Vis::Inherited,
                _ => Vis::Public,
            };
            field(attrs, vis, ident, tokens, shape)
        })
        .collect();
    Subject {
        attrs: vec![String::from(
            "#[derive(Debug, Clone, serde::Serialize, serde::Deserialize)]",
        )],
        ident: String::from("MyStruct"),
        generics: sample_generics(),
        where_clause: Some(String::from("W: Sync")),
        fields: Fields::Named(fields),
    }
}

/// The same subject in tuple form: the fields lose their identifiers and
/// keep their order.
fn sample_unnamed_subject() -> Subject {
    let fields = sample_field_types()
        .into_iter()
        .map(|(attrs, _, tokens, shape)| field(attrs, Vis::Public, None, tokens, shape))
        .collect();
    Subject {
        attrs: Vec::new(),
        ident: String::from("MyStruct"),
        generics: sample_generics(),
        where_clause: Some(String::from("W: Sync")),
        fields: Fields::Unnamed(fields),
    }
}

fn sample_unit_subject() -> Subject {
    Subject {
        attrs: Vec::new(),
        ident: String::from("MyStruct"),
        generics: Vec::new(),
        where_clause: None,
        fields: Fields::Unit,
    }
}

fn expr_args() -> Vec<GenericArg> {
    vec![
        GenericArg::Ident { ident: String::from("T") },
        GenericArg::Ident { ident: String::from("I") },
        GenericArg::Ident { ident: String::from("W") },
    ]
}

fn generic_ref(name: &str) -> TypeRef {
    TypeRef { name: String::from(name), args: expr_args() }
}

fn public_def(attrs: Vec<&str>, ident: Option<&str>, tokens: &str) -> FieldDef {
    FieldDef {
        attrs: attrs.into_iter().map(String::from).collect(),
        vis: Vis::Public,
        ident: ident.map(String::from),
        ty: String::from(tokens),
    }
}

#[test]
fn impl_subject_fn_builder_test_with_named_fields() {
    let subject = sample_named_subject();
    let subject_impl = ImplSubjectFnBuilder::from(&subject).synthesize().unwrap();

    assert_eq!(subject_impl.generics_def, sample_generics());
    assert_eq!(subject_impl.where_clause, Some(String::from("W: Sync")));
    assert_eq!(subject_impl.self_ty, generic_ref("MyStruct"));
    assert_eq!(subject_impl.params_argument, String::from("params"));
    assert_eq!(subject_impl.params_ty, generic_ref("MyStructParams"));
    assert_eq!(subject_impl.builder_ty, generic_ref("MyStructBuilder"));
    assert_eq!(subject_impl.builder_subject_field, String::from("inner"));

    let from = |name: &str| CtorInit {
        field: FieldRef::Named(String::from(name)),
        init: FieldInit::FromParams(FieldRef::Named(String::from(name))),
    };
    let absent = |name: &str| CtorInit {
        field: FieldRef::Named(String::from(name)),
        init: FieldInit::Absent,
    };
    assert_eq!(
        subject_impl.inits,
        vec![
            from("public_field"),
            from("private_field"),
            absent("optional"),
            absent("test"),
            absent("test2"),
            from("dynamic"),
            from("dynamic2"),
            from("generic"),
            from("generic_inline"),
            from("generic_where"),
        ]
    );
}

#[test]
fn impl_subject_fn_builder_test_with_unnamed_fields() {
    let subject = sample_unnamed_subject();
    let subject_impl = ImplSubjectFnBuilder::from(&subject).synthesize().unwrap();

    assert_eq!(subject_impl.params_ty, generic_ref("MyStructParams"));
    let from = |i: usize, k: usize| CtorInit {
        field: FieldRef::Index(i),
        init: FieldInit::FromParams(FieldRef::Index(k)),
    };
    let absent = |i: usize| CtorInit { field: FieldRef::Index(i), init: FieldInit::Absent };
    assert_eq!(
        subject_impl.inits,
        vec![
            from(0, 0),
            from(1, 1),
            absent(2),
            absent(3),
            absent(4),
            from(5, 2),
            from(6, 3),
            from(7, 4),
            from(8, 5),
            from(9, 6),
        ]
    );
}

#[test]
fn impl_subject_fn_builder_test_with_unit_struct() {
    let subject = sample_unit_subject();
    assert_eq!(ImplSubjectFnBuilder::from(&subject).synthesize(), None);
}

#[test]
fn params_struct_test_with_named_fields() {
    let subject = sample_named_subject();
    let params_struct = ParamsStruct::from(&subject).synthesize().unwrap();

    assert_eq!(params_struct.attrs, subject.attrs);
    assert_eq!(params_struct.ident, String::from("MyStructParams"));
    assert_eq!(params_struct.generics, sample_generics());
    assert_eq!(params_struct.where_clause, Some(String::from("W: Sync")));
    assert_eq!(
        params_struct.fields,
        FieldsDef::Named(vec![
            public_def(vec![], Some("public_field"), "String"),
            public_def(vec![], Some("private_field"), "String"),
            public_def(vec![], Some("dynamic"), "Box<dyn Send>"),
            public_def(vec![], Some("dynamic2"), "Box<Option<dyn Send>>"),
            public_def(vec!["#[serde(rename = \"simpleGeneric\")]"], Some("generic"), "T"),
            public_def(vec![], Some("generic_inline"), "I"),
            public_def(vec![], Some("generic_where"), "W"),
        ])
    );
}

#[test]
fn params_struct_test_with_unnamed_fields() {
    let subject = sample_unnamed_subject();
    let params_struct = ParamsStruct::from(&subject).synthesize().unwrap();

    assert_eq!(params_struct.ident, String::from("MyStructParams"));
    assert_eq!(params_struct.generics, sample_generics());
    assert_eq!(params_struct.where_clause, Some(String::from("W: Sync")));
    assert_eq!(
        params_struct.fields,
        FieldsDef::Unnamed(vec![
            public_def(vec![], None, "String"),
            public_def(vec![], None, "String"),
            public_def(vec![], None, "Box<dyn Send>"),
            public_def(vec![], None, "Box<Option<dyn Send>>"),
            public_def(vec!["#[serde(rename = \"simpleGeneric\")]"], None, "T"),
            public_def(vec![], None, "I"),
            public_def(vec![], None, "W"),
        ])
    );
}

#[test]
fn params_struct_test_with_unit_struct() {
    let subject = sample_unit_subject();
    assert_eq!(ParamsStruct::from(&subject).synthesize(), None);
}

#[test]
fn builder_struct_test_with_named_fields() {
    let subject = sample_named_subject();
    let builder_struct = BuilderStruct::from(&subject).synthesize().unwrap();

    assert_eq!(builder_struct.ident, String::from("MyStructBuilder"));
    assert_eq!(builder_struct.generics, sample_generics());
    assert_eq!(builder_struct.where_clause, Some(String::from("W: Sync")));
    assert_eq!(builder_struct.builder_subject_field, String::from("inner"));
    assert_eq!(builder_struct.subject_ty, generic_ref("MyStruct"));
}

#[test]
fn builder_struct_test_with_unnamed_fields() {
    let subject = sample_unnamed_subject();
    let builder_struct = BuilderStruct::from(&subject).synthesize().unwrap();

    assert_eq!(builder_struct.ident, String::from("MyStructBuilder"));
    assert_eq!(builder_struct.generics, sample_generics());
    assert_eq!(builder_struct.subject_ty, generic_ref("MyStruct"));
}

#[test]
fn impl_builder_fns_test_with_named_fields() {
    let subject = sample_named_subject();
    let builder_impl = ImplBuilderFns::from(&subject).synthesize().unwrap();

    assert_eq!(builder_impl.generics_def, sample_generics());
    assert_eq!(builder_impl.where_clause, Some(String::from("W: Sync")));
    assert_eq!(builder_impl.self_ty, generic_ref("MyStructBuilder"));
    assert_eq!(builder_impl.subject_ty, generic_ref("MyStruct"));
    assert_eq!(builder_impl.builder_subject_field, String::from("inner"));

    let expected: Vec<MutatorDecl> = sample_field_types()
        .into_iter()
        .map(|(_, ident, tokens, _)| {
            let name = ident.unwrap();
            MutatorDecl {
                fn_name: format!("with_{}", name),
                field: FieldRef::Named(String::from(name)),
                value_ty: String::from(tokens),
            }
        })
        .collect();
    assert_eq!(builder_impl.mutators, expected);
}

#[test]
fn impl_builder_fns_test_with_unnamed_fields() {
    let subject = sample_unnamed_subject();
    let builder_impl = ImplBuilderFns::from(&subject).synthesize().unwrap();

    let expected: Vec<MutatorDecl> = sample_field_types()
        .into_iter()
        .enumerate()
        .map(|(i, (_, _, tokens, _))| MutatorDecl {
            fn_name: format!("with_{}", i),
            field: FieldRef::Index(i),
            value_ty: String::from(tokens),
        })
        .collect();
    assert_eq!(builder_impl.mutators, expected);
}

#[test]
fn impl_builder_fns_test_with_unit_struct() {
    let subject = sample_unit_subject();
    assert_eq!(ImplBuilderFns::from(&subject).synthesize(), None);
}

#[test]
fn impl_from_params_for_subject_test_with_named_fields() {
    let subject = sample_named_subject();
    let conv = ImplFromParamsForSubject::from(&subject).synthesize().unwrap();

    assert!(matches!(conv.kind, ConversionKind::ParamsToSubject));
    assert_eq!(conv.generics_def, sample_generics());
    assert_eq!(conv.where_clause, Some(String::from("W: Sync")));
    assert_eq!(conv.from_ty, generic_ref("MyStructParams"));
    assert_eq!(conv.self_ty, generic_ref("MyStruct"));
    assert_eq!(conv.builder_subject_field, String::from("inner"));
}

#[test]
fn impl_from_params_for_subject_test_with_unnamed_fields() {
    let subject = sample_unnamed_subject();
    let conv = ImplFromParamsForSubject::from(&subject).synthesize().unwrap();

    assert!(matches!(conv.kind, ConversionKind::ParamsToSubject));
    assert_eq!(conv.from_ty, generic_ref("MyStructParams"));
    assert_eq!(conv.self_ty, generic_ref("MyStruct"));
}

#[test]
fn impl_from_params_for_subject_test_with_unit_struct() {
    let subject = sample_unit_subject();
    assert_eq!(ImplFromParamsForSubject::from(&subject).synthesize(), None);
}

#[test]
fn impl_from_subject_for_builder_test_with_named_fields() {
    let subject = sample_named_subject();
    let conv = ImplFromSubjectForBuilder::from(&subject).synthesize().unwrap();

    assert!(matches!(conv.kind, ConversionKind::SubjectToBuilder));
    assert_eq!(conv.generics_def, sample_generics());
    assert_eq!(conv.where_clause, Some(String::from("W: Sync")));
    assert_eq!(conv.from_ty, generic_ref("MyStruct"));
    assert_eq!(conv.self_ty, generic_ref("MyStructBuilder"));
    assert_eq!(conv.builder_subject_field, String::from("inner"));
}

#[test]
fn impl_from_subject_for_builder_test_with_unnamed_fields() {
    let subject = sample_unnamed_subject();
    let conv = ImplFromSubjectForBuilder::from(&subject).synthesize().unwrap();

    assert!(matches!(conv.kind, ConversionKind::SubjectToBuilder));
    assert_eq!(conv.from_ty, generic_ref("MyStruct"));
    assert_eq!(conv.self_ty, generic_ref("MyStructBuilder"));
}

#[test]
fn impl_from_subject_for_builder_test_with_unit_struct() {
    let subject = sample_unit_subject();
    assert_eq!(ImplFromSubjectForBuilder::from(&subject).synthesize(), None);
}

#[test]
fn impl_from_builder_for_subject_test_with_named_fields() {
    let subject = sample_named_subject();
    let conv = ImplFromBuilderForSubject::from(&subject).synthesize().unwrap();

    assert!(matches!(conv.kind, ConversionKind::BuilderToSubject));
    assert_eq!(conv.generics_def, sample_generics());
    assert_eq!(conv.where_clause, Some(String::from("W: Sync")));
    assert_eq!(conv.from_ty, generic_ref("MyStructBuilder"));
    assert_eq!(conv.self_ty, generic_ref("MyStruct"));
    assert_eq!(conv.builder_subject_field, String::from("inner"));
}

#[test]
fn impl_from_builder_for_subject_test_with_unnamed_fields() {
    let subject = sample_unnamed_subject();
    let conv = ImplFromBuilderForSubject::from(&subject).synthesize().unwrap();

    assert!(matches!(conv.kind, ConversionKind::BuilderToSubject));
    assert_eq!(conv.from_ty, generic_ref("MyStructBuilder"));
    assert_eq!(conv.self_ty, generic_ref("MyStruct"));
}

#[test]
fn impl_from_builder_for_subject_test_with_unit_struct() {
    let subject = sample_unit_subject();
    assert_eq!(ImplFromBuilderForSubject::from(&subject).synthesize(), None);
}
