use relay_core::ast::Ident;
use relay_core::ast::PropertyKey;
use relay_core::ast::TsEntityName;
use relay_core::ast::TsKeywordKind;
use relay_core::ast::TsType;
use relay_core::ast::TsTypeElement;
use relay_core::diagnostics::SchemaGenerationError;
use relay_core::diagnostics::UnsupportedShape;
use relay_core::resolution::JSImportType;
use relay_core::resolution::ModuleResolution;
use relay_core::resolution::ModuleResolutionKey;
use relay_core::scalars::CustomScalarMap;
use relay_core::scalars::CustomType;
use relay_core::schema::DocblockIr;
use relay_core::schema::Identifier;
use relay_core::schema::ResolverSourceHash;
use relay_core::schema::StrongObjectIr;
use relay_core::schema::TypeAnnotation;
use relay_core::schema::TypeDefinitions;
use relay_core::schema::WeakObjectIr;
use relay_core::translate::return_type_to_type_annotation;
use relay_core::translate::ts_type_to_field_arguments;
use relay_core::translate::unwrap_nullable_type;
use relay_core::Location;
use relay_core::LocationHandler;
use relay_core::SourceLocationKey;
use relay_core::Span;

fn sp(start: u32, end: u32) -> Span {
    Span { start, end }
}

fn handler() -> LocationHandler {
    LocationHandler::new(SourceLocationKey { id: 1 })
}

fn kw(kind: TsKeywordKind, start: u32) -> TsType {
    TsType::Keyword { kind, span: sp(start, start + 6) }
}

fn ident(name: &str, start: u32) -> Ident {
    Ident { name: name.to_string(), span: sp(start, start + name.len() as u32) }
}

fn type_ref(name: &str, params: Option<Vec<TsType>>, start: u32, end: u32) -> TsType {
    TsType::TypeRef { entity: TsEntityName::Ident(ident(name, start)), type_params: params, span: sp(start, end) }
}

fn union(types: Vec<TsType>) -> TsType {
    TsType::Union { types, span: sp(0, 50) }
}

fn empty_resolution() -> ModuleResolution {
    ModuleResolution { imports: vec![], exports: vec![] }
}

fn show(t: &TypeAnnotation) -> String {
    match t {
        TypeAnnotation::Named(i) => i.value.clone(),
        TypeAnnotation::List { item, .. } => format!("[{}]", show(item)),
        TypeAnnotation::NonNull { item, .. } => format!("{}!", show(item)),
    }
}

fn translate(ty: &TsType, snn: bool) -> (String, Vec<u64>) {
    translate_with(ty, snn, &CustomScalarMap::new(), &empty_resolution(), &TypeDefinitions::new())
}

fn translate_with(
    ty: &TsType,
    snn: bool,
    scalars: &CustomScalarMap,
    resolution: &ModuleResolution,
    definitions: &TypeDefinitions,
) -> (String, Vec<u64>) {
    let (t, levels) =
        return_type_to_type_annotation(scalars, ty, resolution, definitions, snn, &handler()).expect("translates");
    (show(&t), levels)
}

fn translate_err(ty: &TsType, snn: bool) -> SchemaGenerationError {
    return_type_to_type_annotation(&CustomScalarMap::new(), ty, &empty_resolution(), &TypeDefinitions::new(), snn, &handler())
        .err()
        .expect("fails")
        .error
}

#[test]
fn number_is_non_null_float_without_tracking() {
    assert_eq!(translate(&kw(TsKeywordKind::Number, 0), false), ("Float!".to_string(), vec![]));
}

#[test]
fn number_is_float_at_level_zero_with_tracking() {
    assert_eq!(translate(&kw(TsKeywordKind::Number, 0), true), ("Float".to_string(), vec![0]));
}

#[test]
fn nullable_number_is_optional_float() {
    let ty = union(vec![kw(TsKeywordKind::Number, 0), kw(TsKeywordKind::Null, 10)]);
    assert_eq!(translate(&ty, false), ("Float".to_string(), vec![]));
    assert_eq!(translate(&ty, true), ("Float".to_string(), vec![]));
}

#[test]
fn undefined_first_still_unwraps() {
    let ty = union(vec![kw(TsKeywordKind::Undefined, 0), kw(TsKeywordKind::String, 10)]);
    assert_eq!(translate(&ty, false), ("String".to_string(), vec![]));
}

#[test]
fn boolean_keyword_and_literal() {
    assert_eq!(translate(&kw(TsKeywordKind::Boolean, 0), false), ("Boolean!".to_string(), vec![]));
    let lit = TsType::BoolLiteral { literal: true, span: sp(0, 4) };
    assert_eq!(translate(&lit, false), ("Boolean!".to_string(), vec![]));
}

#[test]
fn readonly_array_of_nullable_string() {
    let ty = type_ref(
        "ReadOnlyArray",
        Some(vec![union(vec![kw(TsKeywordKind::String, 14), kw(TsKeywordKind::Null, 23)])]),
        0,
        30,
    );
    assert_eq!(translate(&ty, true), ("[String]".to_string(), vec![0]));
}

#[test]
fn readonly_array_of_string() {
    let ty = type_ref("ReadOnlyArray", Some(vec![kw(TsKeywordKind::String, 14)]), 0, 21);
    assert_eq!(translate(&ty, true), ("[String!]".to_string(), vec![0]));
    assert_eq!(translate(&ty, false), ("[String!]!".to_string(), vec![]));
}

#[test]
fn nullable_array_has_no_levels() {
    let ty = union(vec![type_ref("Array", Some(vec![kw(TsKeywordKind::String, 6)]), 0, 13), kw(TsKeywordKind::Null, 16)]);
    assert_eq!(translate(&ty, true), ("[String!]".to_string(), vec![]));
}

#[test]
fn nested_arrays() {
    let inner = type_ref("Array", Some(vec![kw(TsKeywordKind::Number, 12)]), 6, 20);
    let ty = type_ref("Array", Some(vec![inner]), 0, 21);
    assert_eq!(translate(&ty, true), ("[[Float!]!]".to_string(), vec![0]));
}

#[test]
fn id_of_names_the_literal() {
    let lit = TsType::StrLiteral { value: "SomeType".to_string(), span: sp(5, 15) };
    let ty = type_ref("IdOf", Some(vec![lit]), 0, 16);
    let (t, levels) = return_type_to_type_annotation(
        &CustomScalarMap::new(),
        &ty,
        &empty_resolution(),
        &TypeDefinitions::new(),
        true,
        &handler(),
    )
    .unwrap();
    match t {
        TypeAnnotation::Named(i) => {
            assert_eq!(i.value, "SomeType");
            assert_eq!(i.span, sp(5, 15));
        }
        _ => panic!("expected a named type"),
    }
    assert_eq!(levels, vec![0]);
    assert_eq!(translate(&ty, false), ("SomeType!".to_string(), vec![]));
}

#[test]
fn id_of_needs_a_string_literal() {
    let ty = type_ref("IdOf", Some(vec![kw(TsKeywordKind::String, 5)]), 0, 12);
    assert!(matches!(translate_err(&ty, true), SchemaGenerationError::ExpectedStringLiteralTypeParameter));
}

#[test]
fn relay_resolver_value_is_always_optional() {
    let ty = type_ref("RelayResolverValue", Some(vec![type_ref("Foo", None, 19, 22)]), 0, 23);
    assert_eq!(translate(&ty, true), ("RelayResolverValue".to_string(), vec![]));
    assert_eq!(translate(&ty, false), ("RelayResolverValue".to_string(), vec![]));
    let nullable = union(vec![ty, kw(TsKeywordKind::Null, 30)]);
    assert_eq!(translate(&nullable, true), ("RelayResolverValue".to_string(), vec![]));
}

#[test]
fn unsupported_generic_and_parameter_count() {
    let ty = type_ref("Promise", Some(vec![kw(TsKeywordKind::String, 8)]), 0, 15);
    match translate_err(&ty, true) {
        SchemaGenerationError::UnsupportedGeneric { name } => assert_eq!(name, "Promise"),
        other => panic!("unexpected {:?}", other),
    }
    let two = type_ref("Array", Some(vec![kw(TsKeywordKind::String, 6), kw(TsKeywordKind::String, 14)]), 0, 21);
    assert!(matches!(translate_err(&two, true), SchemaGenerationError::ExpectedSingleTypeParameter));
}

#[test]
fn intersections_and_other_shapes_are_unsupported() {
    let ty = TsType::Intersection { types: vec![kw(TsKeywordKind::String, 0)], span: sp(0, 20) };
    assert!(matches!(
        translate_err(&ty, true),
        SchemaGenerationError::UnsupportedType { shape: UnsupportedShape::Intersection }
    ));
    assert!(matches!(
        translate_err(&kw(TsKeywordKind::Other, 0), true),
        SchemaGenerationError::UnsupportedType { shape: UnsupportedShape::Keyword }
    ));
    let only_null = union(vec![kw(TsKeywordKind::Null, 0)]);
    assert!(matches!(
        translate_err(&only_null, true),
        SchemaGenerationError::UnsupportedType { shape: UnsupportedShape::OnlyNullable }
    ));
}

#[test]
fn unwrap_nullable_reports_the_first_member() {
    let ty = union(vec![kw(TsKeywordKind::Null, 0), kw(TsKeywordKind::Number, 7), kw(TsKeywordKind::String, 20)]);
    let (effective, optional) = unwrap_nullable_type(&ty, &handler()).unwrap();
    assert!(optional);
    assert!(matches!(effective, TsType::Keyword { kind: TsKeywordKind::Number, .. }));
    let plain = kw(TsKeywordKind::String, 0);
    let (effective, optional) = unwrap_nullable_type(&plain, &handler()).unwrap();
    assert!(!optional);
    assert!(matches!(effective, TsType::Keyword { kind: TsKeywordKind::String, .. }));
}

#[test]
fn bare_reference_to_a_custom_scalar() {
    let scalars = CustomScalarMap::invert(&vec![
        ("URL".to_string(), CustomType::Name("Url".to_string())),
        ("Date".to_string(), CustomType::Path { name: "Day".to_string(), path: "./time".to_string() }),
    ]);
    let resolution = ModuleResolution {
        imports: vec![(
            "Day".to_string(),
            ModuleResolutionKey { module_name: "./time".to_string(), import_type: JSImportType::Named("Day".to_string()) },
        )],
        exports: vec![],
    };
    let defs = TypeDefinitions::new();
    assert_eq!(translate_with(&type_ref("Url", None, 0, 3), false, &scalars, &resolution, &defs), ("URL!".to_string(), vec![]));
    assert_eq!(translate_with(&type_ref("Day", None, 0, 3), true, &scalars, &resolution, &defs), ("Date".to_string(), vec![0]));
}

fn weak_and_strong_definitions() -> (ModuleResolution, TypeDefinitions) {
    let loc = Location::new(SourceLocationKey { id: 7 }, sp(100, 110));
    let mut defs = TypeDefinitions::new();
    defs.insert(
        ModuleResolutionKey { module_name: "Profile".to_string(), import_type: JSImportType::Named("Profile".to_string()) },
        DocblockIr::WeakObject(WeakObjectIr {
            name: Identifier { value: "ProfileShape".to_string(), span: sp(100, 112) },
            rhs_location: loc,
            description: None,
            location: loc,
            source_hash: ResolverSourceHash { value: "h".to_string() },
        }),
    )
    .unwrap();
    defs.insert(
        ModuleResolutionKey { module_name: "./User".to_string(), import_type: JSImportType::Default },
        DocblockIr::StrongObject(StrongObjectIr {
            name: Identifier { value: "User".to_string(), span: sp(0, 4) },
            rhs_location: loc,
            description: None,
            live: None,
            location: loc,
            source_hash: ResolverSourceHash { value: "h".to_string() },
        }),
    )
    .unwrap();
    let resolution = ModuleResolution {
        imports: vec![
            (
                "Profile".to_string(),
                ModuleResolutionKey { module_name: "Profile".to_string(), import_type: JSImportType::Named("Profile".to_string()) },
            ),
            ("User".to_string(), ModuleResolutionKey { module_name: "./User".to_string(), import_type: JSImportType::Default }),
        ],
        exports: vec![],
    };
    (resolution, defs)
}

#[test]
fn bare_reference_to_a_weak_object() {
    let (resolution, defs) = weak_and_strong_definitions();
    let (t, _) = return_type_to_type_annotation(
        &CustomScalarMap::new(),
        &type_ref("Profile", None, 0, 7),
        &resolution,
        &defs,
        false,
        &handler(),
    )
    .unwrap();
    assert_eq!(show(&t), "ProfileShape!");
}

#[test]
fn strong_object_is_not_a_return_type() {
    let (resolution, defs) = weak_and_strong_definitions();
    let e = return_type_to_type_annotation(
        &CustomScalarMap::new(),
        &type_ref("User", None, 0, 4),
        &resolution,
        &defs,
        true,
        &handler(),
    )
    .err()
    .unwrap();
    match e.error {
        SchemaGenerationError::StrongReturnTypeNotAllowed { typename } => assert_eq!(typename, "User"),
        other => panic!("unexpected {:?}", other),
    }
}

#[test]
fn undeclared_reference_is_an_error() {
    match translate_err(&type_ref("Missing", None, 3, 10), true) {
        SchemaGenerationError::ExpectedFlowDefinitionForType { name } => assert_eq!(name, "Missing"),
        other => panic!("unexpected {:?}", other),
    }
    let resolution = ModuleResolution {
        imports: vec![(
            "Thing".to_string(),
            ModuleResolutionKey { module_name: "./thing".to_string(), import_type: JSImportType::Default },
        )],
        exports: vec![],
    };
    let e = return_type_to_type_annotation(
        &CustomScalarMap::new(),
        &type_ref("Thing", None, 0, 5),
        &resolution,
        &TypeDefinitions::new(),
        true,
        &handler(),
    )
    .err()
    .unwrap();
    assert!(matches!(e.error, SchemaGenerationError::ModuleNotFound { .. }));
    assert_eq!(e.location, Location::new(SourceLocationKey { id: 1 }, sp(0, 5)));
}

fn property(name: &str, ty: Option<TsType>, start: u32) -> TsTypeElement {
    TsTypeElement::Property { key: PropertyKey::Ident(ident(name, start)), type_ann: ty, span: sp(start, start + 20) }
}

#[test]
fn arguments_from_an_object_literal() {
    let args = TsType::TypeLit {
        members: vec![
            property("limit", Some(kw(TsKeywordKind::Number, 8)), 1),
            TsTypeElement::Other { span: sp(22, 30) },
            property("name", Some(union(vec![kw(TsKeywordKind::String, 40), kw(TsKeywordKind::Null, 49)])), 33),
        ],
        span: sp(0, 60),
    };
    let r = ts_type_to_field_arguments(&CustomScalarMap::new(), &args, &empty_resolution(), &TypeDefinitions::new(), &handler())
        .unwrap();
    assert_eq!(r.span, sp(0, 60));
    assert_eq!(r.items.len(), 2);
    assert_eq!(r.items[0].name.value, "limit");
    assert_eq!(show(&r.items[0].type_), "Float!");
    assert_eq!(r.items[0].span, sp(1, 21));
    assert_eq!(r.items[1].name.value, "name");
    assert_eq!(show(&r.items[1].type_), "String");
}

#[test]
fn arguments_must_be_an_object_literal() {
    let r = ts_type_to_field_arguments(
        &CustomScalarMap::new(),
        &kw(TsKeywordKind::String, 0),
        &empty_resolution(),
        &TypeDefinitions::new(),
        &handler(),
    );
    assert!(matches!(r.err().unwrap().error, SchemaGenerationError::IncorrectArgumentsDefinition));
    let untyped = TsType::TypeLit { members: vec![property("a", None, 1)], span: sp(0, 30) };
    let r = ts_type_to_field_arguments(&CustomScalarMap::new(), &untyped, &empty_resolution(), &TypeDefinitions::new(), &handler());
    let d = r.err().unwrap();
    assert!(matches!(d.error, SchemaGenerationError::IncorrectArgumentsDefinition));
    assert_eq!(d.location.span, sp(1, 21));
}

