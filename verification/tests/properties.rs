use struct_builder::evaluation::eval_ctor;
use struct_builder::evaluation::resolve_field_ref;
use struct_builder::evaluation::set_field;
use struct_builder::evaluation::FieldContent;
use struct_builder::generic_resolution::field_has_generic;
use struct_builder::impl_builder_fns::ImplBuilderFns;
use struct_builder::impl_subject_fn_builder::ImplSubjectFnBuilder;
use struct_builder::model::Field;
use struct_builder::model::FieldType;
use struct_builder::model::Fields;
use struct_builder::model::GenericParam;
use struct_builder::model::PathSegment;
use struct_builder::model::Subject;
use struct_builder::model::TypeExpr;
use struct_builder::model::Vis;
use struct_builder::names::with_index_name;
use struct_builder::output::Decl;
use struct_builder::output::FieldsDef;
use struct_builder::params_struct::ParamsStruct;
use struct_builder::required::is_required;
use struct_builder::struct_builder::BuildError;
use struct_builder::struct_builder::FieldsMetadata;
use struct_builder::struct_builder::StructBuilder;

/// One concrete field value for the scenario subjects: a small closed set of
/// value shapes is enough to follow what the synthesized code would compute.
#[derive(Clone, Copy, PartialEq, Eq, Debug)]
enum Val {
    I(i64),
    U(u8),
    S(&'static str),
    None64,
    Some64(i64),
    SomeU8(u8),
}

fn seg(name: &str, has_arguments: bool) -> PathSegment {
    PathSegment { ident: String::from(name), has_arguments }
}

fn path_shape(segments: Vec<PathSegment>) -> TypeExpr {
    TypeExpr::Path { qself: None, leading_colon: false, segments }
}

fn named_field(name: &str, tokens: &str, shape: TypeExpr) -> Field {
    Field {
        attrs: Vec::new(),
        vis: Vis::Public,
        ident: Some(String::from(name)),
        ty: FieldType { tokens: String::from(tokens), shape },
    }
}

fn unnamed_field(tokens: &str, shape: TypeExpr) -> Field {
    Field {
        attrs: Vec::new(),
        vis: Vis::Public,
        ident: None,
        ty: FieldType { tokens: String::from(tokens), shape },
    }
}

fn plain_subject(ident: &str, fields: Fields) -> Subject {
    Subject {
        attrs: Vec::new(),
        ident: String::from(ident),
        generics: Vec::new(),
        where_clause: None,
        fields,
    }
}

fn instance(subject: &Subject, vals: Vec<Val>) -> Vec<FieldContent<Val>> {
    let ctor = ImplSubjectFnBuilder::from(subject).synthesize().unwrap();
    let params = ParamsStruct::from(subject).synthesize().unwrap();
    let params_fields = match params.fields {
        FieldsDef::Named(fs) => fs,
        FieldsDef::Unnamed(fs) => fs,
    };
    eval_ctor(&ctor.inits, &params_fields, &vals)
}

fn mutate(subject: &Subject, inst: &mut Vec<FieldContent<Val>>, name: &str, v: Val) {
    let ms = ImplBuilderFns::from(subject).synthesize().unwrap().mutators;
    let m = ms.iter().find(|m| m.fn_name == name).expect("mutator exists");
    let fields = match &subject.fields {
        Fields::Named(fs) => fs,
        Fields::Unnamed(fs) => fs,
        Fields::Unit => panic!("unit subject has no mutators"),
    };
    let i = resolve_field_ref(fields, &m.field);
    assert!(i < inst.len());
    set_field(inst, i, FieldContent::Value(v));
}

#[test]
fn scenario_named_point() {
    // Point { x: i64, y: Option<i64> }
    let subject = plain_subject(
        "Point",
        Fields::Named(vec![
            named_field("x", "i64", path_shape(vec![seg("i64", false)])),
            named_field("y", "Option<i64>", path_shape(vec![seg("Option", true)])),
        ]),
    );
    // Params { x: 3 } -> builder(params).build() yields { x: 3, y: None }.
    let mut inst = instance(&subject, vec![Val::I(3)]);
    assert_eq!(inst, vec![FieldContent::Value(Val::I(3)), FieldContent::Absent]);
    // .with_y(Some(5)).build() yields { x: 3, y: Some(5) }.
    mutate(&subject, &mut inst, "with_y", Val::Some64(5));
    assert_eq!(inst, vec![FieldContent::Value(Val::I(3)), FieldContent::Value(Val::Some64(5))]);
}

#[test]
fn scenario_positional_pair() {
    // Pair(String, Option<u8>)
    let subject = plain_subject(
        "Pair",
        Fields::Unnamed(vec![
            unnamed_field("String", path_shape(vec![seg("String", false)])),
            unnamed_field("Option<u8>", path_shape(vec![seg("Option", true)])),
        ]),
    );
    // Params("a") -> builder -> build() yields Pair("a", None).
    let mut inst = instance(&subject, vec![Val::S("a")]);
    assert_eq!(inst, vec![FieldContent::Value(Val::S("a")), FieldContent::Absent]);
    // .with_1(Some(9)) yields Pair("a", Some(9)).
    mutate(&subject, &mut inst, "with_1", Val::SomeU8(9));
    assert_eq!(inst, vec![FieldContent::Value(Val::S("a")), FieldContent::Value(Val::SomeU8(9))]);
}

#[test]
fn scenario_generic_wrapper() {
    // Wrapper<T> { id: u64, payload: T }: payload is required and generic.
    let subject = Subject {
        attrs: Vec::new(),
        ident: String::from("Wrapper"),
        generics: vec![GenericParam::Type {
            ident: String::from("T"),
            bounds: Vec::new(),
            default: None,
        }],
        where_clause: None,
        fields: Fields::Named(vec![
            named_field("id", "u64", path_shape(vec![seg("u64", false)])),
            named_field("payload", "T", path_shape(vec![seg("T", false)])),
        ]),
    };
    // The params type must itself carry <T>.
    let params = ParamsStruct::from(&subject).synthesize().unwrap();
    assert_eq!(params.generics, subject.generics);
    let ctor = ImplSubjectFnBuilder::from(&subject).synthesize().unwrap();
    assert_eq!(ctor.params_ty.name, String::from("WrapperParams"));
    assert_eq!(ctor.params_ty.args.len(), 1);
    // Params::<String> { id: 1, payload: "x".into() } converts to
    // Wrapper { id: 1, payload: "x" }.
    let inst = instance(&subject, vec![Val::I(1), Val::S("x")]);
    assert_eq!(inst, vec![FieldContent::Value(Val::I(1)), FieldContent::Value(Val::S("x"))]);
}

#[test]
fn unit_subject_synthesizes_nothing() {
    let subject = plain_subject("Nothing", Fields::Unit);
    let decls = StructBuilder::from(subject).synthesize().unwrap();
    assert_eq!(decls.len(), 0);
}

#[test]
fn synthesis_order_is_fixed() {
    let subject = plain_subject(
        "Point",
        Fields::Named(vec![
            named_field("x", "i64", path_shape(vec![seg("i64", false)])),
            named_field("y", "Option<i64>", path_shape(vec![seg("Option", true)])),
        ]),
    );
    let decls = StructBuilder::from(subject).synthesize().unwrap();
    assert_eq!(decls.len(), 7);
    assert!(matches!(decls[0], Decl::ParamsStruct(_)));
    assert!(matches!(decls[1], Decl::SubjectImpl(_)));
    assert!(matches!(decls[2], Decl::BuilderStruct(_)));
    assert!(matches!(decls[3], Decl::BuilderImpl(_)));
    assert!(matches!(decls[4], Decl::FromImpl(_)));
    assert!(matches!(decls[5], Decl::FromImpl(_)));
    assert!(matches!(decls[6], Decl::FromImpl(_)));
}

#[test]
fn malformed_named_field_is_rejected() {
    let subject = plain_subject(
        "Broken",
        Fields::Named(vec![
            named_field("ok", "u8", path_shape(vec![seg("u8", false)])),
            unnamed_field("u8", path_shape(vec![seg("u8", false)])),
        ]),
    );
    let err = StructBuilder::from(subject).synthesize().unwrap_err();
    assert_eq!(err, BuildError::MissingFieldIdent { index: 1 });
    assert_eq!(err.message(), String::from("named field is missing identifier"));
}

#[test]
fn classification_is_shallow_and_textual() {
    // A path whose final segment is literally `Option` is optional, whatever
    // the leading segments; every other shape is required.
    let optional_shapes = vec![
        path_shape(vec![seg("Option", true)]),
        path_shape(vec![seg("std", false), seg("option", false), seg("Option", true)]),
        path_shape(vec![seg("option", false), seg("Option", true)]),
        path_shape(vec![seg("my_module", false), seg("Option", true)]),
    ];
    for shape in optional_shapes {
        assert!(!is_required(&unnamed_field("x", shape)));
    }
    let required_shapes = vec![
        path_shape(vec![seg("String", false)]),
        path_shape(vec![seg("Option", false), seg("Inner", false)]),
        TypeExpr::Tuple {
            elems: vec![path_shape(vec![seg("Option", true)])],
        },
        TypeExpr::Reference {
            lifetime: None,
            elem: Box::new(path_shape(vec![seg("Option", true)])),
        },
        TypeExpr::TraitObject,
    ];
    for shape in required_shapes {
        assert!(is_required(&unnamed_field("x", shape)));
    }
}

fn generics_t() -> Vec<GenericParam> {
    vec![GenericParam::Type { ident: String::from("T"), bounds: Vec::new(), default: None }]
}

fn generics_lifetime() -> Vec<GenericParam> {
    vec![GenericParam::Lifetime { ident: String::from("a"), bounds: Vec::new() }]
}

#[test]
fn resolution_array_cases() {
    let no_generics: Vec<GenericParam> = Vec::new();
    let values_a = unnamed_field("[A; 3]", TypeExpr::Array {
        elem: Box::new(path_shape(vec![seg("A", false)])),
    });
    assert!(!field_has_generic(&no_generics, &values_a));
    let values_t = unnamed_field("[T; 2]", TypeExpr::Array {
        elem: Box::new(path_shape(vec![seg("T", false)])),
    });
    assert!(field_has_generic(&generics_t(), &values_t));
    let values_ref = unnamed_field("[&'a B; 1]", TypeExpr::Array {
        elem: Box::new(TypeExpr::Reference {
            lifetime: Some(String::from("a")),
            elem: Box::new(path_shape(vec![seg("B", false)])),
        }),
    });
    assert!(field_has_generic(&generics_lifetime(), &values_ref));
}

#[test]
fn resolution_bare_fn_cases() {
    let no_generics: Vec<GenericParam> = Vec::new();
    let bare = |inputs: Vec<TypeExpr>, output: Option<TypeExpr>| TypeExpr::BareFn {
        lifetimes: Vec::new(),
        inputs,
        output: output.map(Box::new),
    };
    assert!(!field_has_generic(
        &no_generics,
        &unnamed_field(
            "fn(B) -> u64",
            bare(
                vec![path_shape(vec![seg("B", false)])],
                Some(path_shape(vec![seg("u64", false)]))
            )
        )
    ));
    assert!(field_has_generic(
        &generics_t(),
        &unnamed_field(
            "fn(T) -> u64",
            bare(
                vec![path_shape(vec![seg("T", false)])],
                Some(path_shape(vec![seg("u64", false)]))
            )
        )
    ));
    assert!(field_has_generic(
        &generics_t(),
        &unnamed_field(
            "fn(u32) -> T",
            bare(
                vec![path_shape(vec![seg("u32", false)])],
                Some(path_shape(vec![seg("T", false)]))
            )
        )
    ));
}

#[test]
fn resolution_path_cases() {
    // A fully qualified `Option<A>` path does not depend on the generics:
    // path arguments are never inspected.
    let qualified = unnamed_field(
        "::std::option::Option<A>",
        TypeExpr::Path {
            qself: None,
            leading_colon: true,
            segments: vec![seg("std", false), seg("option", false), seg("Option", true)],
        },
    );
    let generics_a =
        vec![GenericParam::Type { ident: String::from("A"), bounds: Vec::new(), default: None }];
    assert!(!field_has_generic(&generics_a, &qualified));
    // A qualified self type is searched.
    let qself = unnamed_field(
        "<T>::Type",
        TypeExpr::Path {
            qself: Some(Box::new(path_shape(vec![seg("T", false)]))),
            leading_colon: false,
            segments: vec![seg("Type", false)],
        },
    );
    assert!(field_has_generic(&generics_t(), &qself));
    // A bare generic identifier depends on itself.
    assert!(field_has_generic(&generics_t(), &unnamed_field("T", path_shape(vec![seg("T", false)]))));
    // A bare identifier with arguments is not the parameter itself.
    assert!(!field_has_generic(
        &generics_t(),
        &unnamed_field("T<u8>", path_shape(vec![seg("T", true)]))
    ));
}

#[test]
fn resolution_pointer_and_reference_cases() {
    let no_generics: Vec<GenericParam> = Vec::new();
    assert!(!field_has_generic(
        &no_generics,
        &unnamed_field("*const A", TypeExpr::Ptr { elem: Box::new(path_shape(vec![seg("A", false)])) })
    ));
    assert!(field_has_generic(
        &generics_t(),
        &unnamed_field("*mut T", TypeExpr::Ptr { elem: Box::new(path_shape(vec![seg("T", false)])) })
    ));
    // A reference depends through its lifetime or its referent.
    assert!(field_has_generic(
        &generics_lifetime(),
        &unnamed_field(
            "&'a str",
            TypeExpr::Reference {
                lifetime: Some(String::from("a")),
                elem: Box::new(path_shape(vec![seg("str", false)])),
            }
        )
    ));
    assert!(field_has_generic(
        &generics_t(),
        &unnamed_field(
            "&'static T",
            TypeExpr::Reference {
                lifetime: Some(String::from("static")),
                elem: Box::new(path_shape(vec![seg("T", false)])),
            }
        )
    ));
    // Opaque shapes never depend on the generics.
    assert!(!field_has_generic(&generics_t(), &unnamed_field("impl Send", TypeExpr::ImplTrait)));
    assert!(!field_has_generic(&generics_t(), &unnamed_field("dyn Send", TypeExpr::TraitObject)));
}

#[test]
fn metadata_counts_partition_the_fields() {
    let subject = Subject {
        attrs: Vec::new(),
        ident: String::from("Sample"),
        generics: generics_t(),
        where_clause: None,
        fields: Fields::Named(vec![
            named_field("a", "u8", path_shape(vec![seg("u8", false)])),
            named_field("b", "Option<u8>", path_shape(vec![seg("Option", true)])),
            named_field("c", "T", path_shape(vec![seg("T", false)])),
            named_field("d", "Option<T>", path_shape(vec![seg("Option", true)])),
        ]),
    };
    let meta = FieldsMetadata::from(&subject);
    assert_eq!(meta.required_fields_count, 1);
    assert_eq!(meta.optional_fields_count, 2);
    assert_eq!(meta.generic_required_fields_count, 1);
    assert_eq!(meta.generic_optional_fields_count, 0);
    assert_eq!(
        meta.required_fields_count + meta.optional_fields_count
            + meta.generic_required_fields_count + meta.generic_optional_fields_count,
        4
    );
}

#[test]
fn optional_generic_fields_do_not_force_generics() {
    // Only a required generic-dependent field makes the companions carry the
    // subject's generic parameters: optional fields are never copied from
    // the parameters type.
    let subject = Subject {
        attrs: Vec::new(),
        ident: String::from("Sample"),
        generics: generics_t(),
        where_clause: None,
        fields: Fields::Named(vec![
            named_field("a", "u8", path_shape(vec![seg("u8", false)])),
            named_field("d", "Option<T>", path_shape(vec![seg("Option", true)])),
        ]),
    };
    let params = ParamsStruct::from(&subject).synthesize().unwrap();
    assert_eq!(params.generics, Vec::new());
    let ctor = ImplSubjectFnBuilder::from(&subject).synthesize().unwrap();
    assert_eq!(ctor.params_ty.args.len(), 0);
    assert_eq!(ctor.self_ty.args.len(), 1);
}

#[test]
fn mutator_names_use_decimal_indices() {
    assert_eq!(with_index_name(0), String::from("with_0"));
    assert_eq!(with_index_name(7), String::from("with_7"));
    assert_eq!(with_index_name(12), String::from("with_12"));
    assert_eq!(with_index_name(100), String::from("with_100"));
    assert_eq!(with_index_name(907), String::from("with_907"));
}

#[test]
fn mutator_overwrites_only_its_field() {
    let subject = plain_subject(
        "Triple",
        Fields::Named(vec![
            named_field("a", "u8", path_shape(vec![seg("u8", false)])),
            named_field("b", "u8", path_shape(vec![seg("u8", false)])),
            named_field("c", "Option<u8>", path_shape(vec![seg("Option", true)])),
        ]),
    );
    let mut inst = instance(&subject, vec![Val::U(1), Val::U(2)]);
    assert_eq!(
        inst,
        vec![FieldContent::Value(Val::U(1)), FieldContent::Value(Val::U(2)), FieldContent::Absent]
    );
    mutate(&subject, &mut inst, "with_b", Val::U(9));
    assert_eq!(
        inst,
        vec![FieldContent::Value(Val::U(1)), FieldContent::Value(Val::U(9)), FieldContent::Absent]
    );
}

#[test]
fn derived_names_follow_the_contract() {
    let subject = plain_subject(
        "Account",
        Fields::Named(vec![named_field("id", "u64", path_shape(vec![seg("u64", false)]))]),
    );
    let decls = StructBuilder::from(subject).synthesize().unwrap();
    match &decls[0] {
        Decl::ParamsStruct(d) => assert_eq!(d.ident, String::from("AccountParams")),
        _ => panic!("the parameters type comes first"),
    }
    match &decls[2] {
        Decl::BuilderStruct(d) => {
            assert_eq!(d.ident, String::from("AccountBuilder"));
            assert_eq!(d.builder_subject_field, String::from("inner"));
        },
        _ => panic!("the builder type comes third"),
    }
    match &decls[1] {
        Decl::SubjectImpl(d) => assert_eq!(d.params_argument, String::from("params")),
        _ => panic!("the constructor comes second"),
    }
}
