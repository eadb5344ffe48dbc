use relay_core::ast::Decl;
use relay_core::ast::Docblock;
use relay_core::ast::DocblockSection;
use relay_core::ast::FnDecl;
use relay_core::ast::Ident;
use relay_core::ast::ImportSpecifier;
use relay_core::ast::Module;
use relay_core::ast::ModuleItem;
use relay_core::ast::Param;
use relay_core::ast::PropertyKey;
use relay_core::ast::Statement;
use relay_core::ast::TsEntityName;
use relay_core::ast::TsKeywordKind;
use relay_core::ast::TsType;
use relay_core::ast::TsTypeElement;
use relay_core::ast::TypeAliasDecl;
use relay_core::diagnostics::AnnotationKind;
use relay_core::diagnostics::SchemaGenerationError;
use relay_core::extract::extract_entity_type_from_resolver_function;
use relay_core::extract::extract_params_from_second_argument;
use relay_core::extract::extract_return_type_from_resolver_function;
use relay_core::extract::EntityName;
use relay_core::extract::ResolverTypescriptData;
use relay_core::extractor::is_field_definition;
use relay_core::extractor::FragmentDefinition;
use relay_core::extractor::TSRelayResolverExtractor;
use relay_core::resolution::extract_module_resolution;
use relay_core::resolution::JSImportType;
use relay_core::schema::DocblockIr;
use relay_core::schema::Identifier;
use relay_core::schema::ResolverSourceHash;
use relay_core::schema::TypeAnnotation;
use relay_core::Location;
use relay_core::LocationHandler;
use relay_core::SourceLocationKey;
use relay_core::Span;
use relay_core::WithLocation;

fn sp(start: u32, end: u32) -> Span {
    Span { start, end }
}

fn ident(name: &str, start: u32) -> Ident {
    Ident { name: name.to_string(), span: sp(start, start + name.len() as u32) }
}

fn kw(kind: TsKeywordKind, start: u32) -> TsType {
    TsType::Keyword { kind, span: sp(start, start + 6) }
}

fn type_ref(name: &str, start: u32) -> TsType {
    TsType::TypeRef { entity: TsEntityName::Ident(ident(name, start)), type_params: None, span: sp(start, start + name.len() as u32) }
}

fn generic(name: &str, param: TsType, start: u32) -> TsType {
    TsType::TypeRef { entity: TsEntityName::Ident(ident(name, start)), type_params: Some(vec![param]), span: sp(start, start + 30) }
}

fn param(name: &str, ty: Option<TsType>, start: u32) -> Param {
    Param::Ident { name: ident(name, start), type_ann: ty, span: sp(start, start + 15) }
}

fn function(name: &str, params: Vec<Param>, return_type: Option<TsType>, start: u32) -> FnDecl {
    FnDecl { ident: ident(name, start + 16), params, return_type, span: sp(start, start + 80) }
}

fn located(item: &str, start: u32) -> WithLocation<String> {
    WithLocation { item: item.to_string(), location: Location::new(SourceLocationKey { id: 1 }, sp(start, start + item.len() as u32)) }
}

fn docblock(name: Option<&str>, start: u32) -> Docblock {
    Docblock {
        sections: vec![DocblockSection::Field { key: located("RelayResolver", start + 4), value: name.map(|n| located(n, start + 18)) }],
        span: sp(start, start + 40),
    }
}

fn export_fn(decl: FnDecl, doc: Option<Docblock>) -> Statement {
    let span = sp(decl.span.start, decl.span.end);
    Statement { item: ModuleItem::ExportDecl { decl: Decl::Fn(decl), span }, docblock: doc }
}

fn import(source: &str, specifiers: Vec<ImportSpecifier>, start: u32) -> Statement {
    Statement { item: ModuleItem::Import { source: source.to_string(), specifiers, span: sp(start, start + 30) }, docblock: None }
}

fn named_import(local: &str, start: u32) -> ImportSpecifier {
    ImportSpecifier::Named { local: ident(local, start), imported: None, span: sp(start, start + local.len() as u32) }
}

fn handler() -> LocationHandler {
    LocationHandler::new(SourceLocationKey { id: 1 })
}

fn hash() -> ResolverSourceHash {
    ResolverSourceHash { value: "hash".to_string() }
}

fn parse(extractor: &mut TSRelayResolverExtractor, body: Vec<Statement>, path: &str, id: u64) -> Result<(), Vec<relay_core::diagnostics::Diagnostic>> {
    extractor.parse_document(Module { body }, &path.to_string(), SourceLocationKey { id }, &hash(), None)
}

fn show(t: &TypeAnnotation) -> String {
    match t {
        TypeAnnotation::Named(i) => i.value.clone(),
        TypeAnnotation::List { item, .. } => format!("[{}]", show(item)),
        TypeAnnotation::NonNull { item, .. } => format!("{}!", show(item)),
    }
}

fn user_module() -> Vec<Statement> {
    vec![
        import("./UserModel", vec![named_import("UserModel", 9)], 0),
        export_fn(function("User", vec![param("id", Some(kw(TsKeywordKind::String, 70)), 60)], Some(type_ref("UserModel", 90)), 50), Some(docblock(None, 40))),
    ]
}

#[test]
fn lowercase_function_declares_a_field_on_its_entity() {
    let mut extractor = TSRelayResolverExtractor::new();
    parse(&mut extractor, user_module(), "src/User.ts", 1).unwrap();
    let body = vec![
        import("./UserModel", vec![named_import("UserModel", 9)], 0),
        export_fn(
            function("getName", vec![param("user", Some(type_ref("UserModel", 160)), 150)], Some(kw(TsKeywordKind::String, 190)), 130),
            Some(docblock(None, 100)),
        ),
    ];
    parse(&mut extractor, body, "src/getName.ts", 2).unwrap();
    assert_eq!(extractor.unresolved_field_definitions.len(), 1);
    let (field, source) = &extractor.unresolved_field_definitions[0];
    assert_eq!(*source, SourceLocationKey { id: 2 });
    assert_eq!(field.field_name.item, "getName");
    match &field.entity_name {
        Some(EntityName::Reference(w)) => assert_eq!(w.item, "UserModel"),
        other => panic!("unexpected {:?}", other),
    }
    assert_eq!(extractor.type_definitions.entries.len(), 1);
    let (_, fields) = extractor.resolve().unwrap();
    assert_eq!(fields.len(), 1);
    assert_eq!(fields[0].field.name.value, "getName");
    assert_eq!(fields[0].type_.item, "User");
    assert_eq!(show(&fields[0].field.type_), "String");
    assert_eq!(fields[0].semantic_non_null_levels, vec![0]);
}

#[test]
fn dotted_name_declares_a_field() {
    let mut extractor = TSRelayResolverExtractor::new();
    let body = vec![
        import("./Client", vec![named_import("Client", 9)], 0),
        export_fn(
            function("greeting", vec![param("client", Some(type_ref("Client", 160)), 150)], Some(kw(TsKeywordKind::String, 190)), 130),
            Some(docblock(Some("Client.greeting"), 100)),
        ),
    ];
    parse(&mut extractor, body, "src/greeting.ts", 3).unwrap();
    assert!(extractor.type_definitions.entries.is_empty());
    assert_eq!(extractor.unresolved_field_definitions.len(), 1);
    let (field, _) = &extractor.unresolved_field_definitions[0];
    assert_eq!(field.field_name.item, "greeting");
    let entity = field.entity_name.as_ref().unwrap();
    assert!(matches!(entity, EntityName::DottedName(_)));
    assert_eq!(entity.text(), "Client");
}

#[test]
fn dotted_name_without_parameters_names_its_entity() {
    let mut extractor = TSRelayResolverExtractor::new();
    parse(&mut extractor, user_module(), "src/User.ts", 1).unwrap();
    let body = vec![export_fn(
        function("greeting", vec![], Some(kw(TsKeywordKind::String, 190)), 130),
        Some(docblock(Some("UserModel.greeting"), 100)),
    )];
    let errors = parse(&mut extractor, body, "src/greeting.ts", 12).err().unwrap();
    assert!(matches!(errors[0].error, SchemaGenerationError::ExpectedFlowDefinitionForEntity { .. }));
    let body = vec![
        import("./UserModel", vec![named_import("UserModel", 9)], 0),
        export_fn(
            function("greeting", vec![], Some(kw(TsKeywordKind::String, 190)), 130),
            Some(docblock(Some("UserModel.greeting"), 100)),
        ),
    ];
    parse(&mut extractor, body, "src/greeting2.ts", 13).unwrap();
    let (_, fields) = extractor.resolve().unwrap();
    assert_eq!(fields[0].field.name.value, "greeting");
    assert_eq!(fields[0].type_.item, "User");
}

#[test]
fn field_name_heuristic() {
    assert!(is_field_definition(&"getName".to_string()));
    assert!(is_field_definition(&"Client.greeting".to_string()));
    assert!(!is_field_definition(&"Viewer".to_string()));
    assert!(!is_field_definition(&String::new()));
}

#[test]
fn uppercase_function_returning_an_import_declares_a_strong_object() {
    let mut extractor = TSRelayResolverExtractor::new();
    parse(&mut extractor, user_module(), "src/User.ts", 1).unwrap();
    assert!(extractor.unresolved_field_definitions.is_empty());
    let (key, ir) = &extractor.type_definitions.entries[0];
    assert_eq!(key.module_name, "./UserModel");
    assert!(matches!(&key.import_type, JSImportType::Named(n) if n == "UserModel"));
    match ir {
        DocblockIr::StrongObject(o) => {
            assert_eq!(o.name.value, "User");
            assert_eq!(o.root_fragment().item, "User__id");
        }
        _ => panic!("expected a strong object"),
    }
}

#[test]
fn type_alias_declares_a_weak_object() {
    let mut extractor = TSRelayResolverExtractor::new();
    let alias = TypeAliasDecl { id: ident("Viewer", 60), type_ann: type_ref("ViewerModel", 70), span: sp(50, 90) };
    let body = vec![
        import("./ViewerModel", vec![named_import("ViewerModel", 9)], 0),
        Statement { item: ModuleItem::ExportDecl { decl: Decl::TypeAlias(alias), span: sp(43, 90) }, docblock: Some(docblock(None, 40)) },
    ];
    parse(&mut extractor, body, "src/Viewer.ts", 4).unwrap();
    let (key, ir) = &extractor.type_definitions.entries[0];
    assert_eq!(key.module_name, "Viewer");
    assert!(matches!(&key.import_type, JSImportType::Named(n) if n == "Viewer"));
    match ir {
        DocblockIr::WeakObject(o) => assert_eq!(o.name.value, "Viewer"),
        _ => panic!("expected a weak object"),
    }
}

#[test]
fn weak_object_fields_are_generated_from_its_properties() {
    let mut extractor = TSRelayResolverExtractor::new();
    let members = vec![
        TsTypeElement::Property { key: PropertyKey::Ident(ident("name", 12)), type_ann: Some(kw(TsKeywordKind::String, 18)), span: sp(12, 24) },
        TsTypeElement::Property { key: PropertyKey::Ident(ident("age", 26)), type_ann: Some(kw(TsKeywordKind::Number, 31)), span: sp(26, 37) },
    ];
    let r = extractor.add_weak_type_definition(
        located("Profile", 0),
        TsType::TypeLit { members, span: sp(10, 40) },
        hash(),
        &Some("Profile".to_string()),
        None,
        true,
        &handler(),
    );
    assert!(r.is_ok());
    assert_eq!(extractor.unresolved_field_definitions.len(), 2);
    assert_eq!(extractor.type_definitions.entries[0].0.module_name, "Profile");
    assert_eq!(extractor.unresolved_field_definitions[1].0.field_name.item, "age");
    assert_eq!(extractor.unresolved_field_definitions[1].0.entity_type.as_ref().unwrap().item, "Profile");
    let empty = extractor.add_weak_type_definition(
        located("Empty", 0),
        TsType::TypeLit { members: vec![], span: sp(10, 12) },
        hash(),
        &Some("Empty".to_string()),
        None,
        true,
        &handler(),
    );
    assert!(matches!(empty.err().unwrap().error, SchemaGenerationError::ExpectedWeakObjectToHaveFields));
}

#[test]
fn duplicate_strong_objects_keep_the_first() {
    let mut extractor = TSRelayResolverExtractor::new();
    parse(&mut extractor, user_module(), "src/User.ts", 1).unwrap();
    let errors = parse(&mut extractor, user_module(), "src/User2.ts", 5).err().unwrap();
    assert_eq!(errors.len(), 1);
    match &errors[0].error {
        SchemaGenerationError::DuplicateTypeDefinitions { module_name, import_type } => {
            assert_eq!(module_name, "./UserModel");
            assert!(matches!(import_type, JSImportType::Named(n) if n == "UserModel"));
        }
        other => panic!("unexpected {:?}", other),
    }
    assert_eq!(errors[0].location.source_location, SourceLocationKey { id: 5 });
    let annotation = errors[0].annotation.as_ref().unwrap();
    assert!(matches!(annotation.kind, AnnotationKind::PreviousTypeDefinition));
    assert_eq!(annotation.location.source_location, SourceLocationKey { id: 1 });
    assert_eq!(extractor.type_definitions.entries.len(), 1);
    match &extractor.type_definitions.entries[0].1 {
        DocblockIr::StrongObject(o) => assert_eq!(o.location.source_location, SourceLocationKey { id: 1 }),
        _ => panic!("expected a strong object"),
    }
}

#[test]
fn namespace_import_cannot_name_a_strong_object() {
    let mut extractor = TSRelayResolverExtractor::new();
    let body = vec![
        import("./models", vec![ImportSpecifier::Namespace { local: ident("Models", 12), span: sp(7, 18) }], 0),
        export_fn(function("Thing", vec![], Some(type_ref("Models", 90)), 50), Some(docblock(None, 40))),
    ];
    let errors = parse(&mut extractor, body, "src/Thing.ts", 6).err().unwrap();
    assert!(matches!(errors[0].error, SchemaGenerationError::UseNamedOrDefaultImport));
    let annotation = errors[0].annotation.as_ref().unwrap();
    assert!(matches!(&annotation.kind, AnnotationKind::ImportedFrom { name } if name == "Models"));
    assert_eq!(annotation.location.span, sp(7, 18));
}

#[test]
fn errors_of_all_statements_are_collected() {
    let mut extractor = TSRelayResolverExtractor::new();
    let body = vec![
        export_fn(function("broken", vec![], None, 50), Some(docblock(None, 40))),
        Statement { item: ModuleItem::Other { span: sp(140, 150) }, docblock: Some(docblock(None, 100)) },
        Statement { item: ModuleItem::ExportDecl { decl: Decl::Other { span: sp(210, 220) }, span: sp(205, 220) }, docblock: Some(docblock(None, 200)) },
        export_fn(function("fine", vec![], Some(kw(TsKeywordKind::String, 330)), 300), Some(docblock(None, 290))),
        export_fn(function("ignored", vec![], None, 400), None),
    ];
    let errors = parse(&mut extractor, body, "src/many.ts", 7).err().unwrap();
    assert_eq!(errors.len(), 3);
    assert!(matches!(errors[0].error, SchemaGenerationError::MissingReturnType));
    assert!(matches!(errors[1].error, SchemaGenerationError::ExpectedNamedExport));
    assert_eq!(errors[1].location.span, sp(100, 150));
    assert!(matches!(errors[2].error, SchemaGenerationError::ExpectedFunctionOrTypeAlias));
    assert_eq!(extractor.unresolved_field_definitions.len(), 1);
    let (_, fields) = extractor.resolve().unwrap();
    assert_eq!(fields[0].type_.item, "Query");
}

#[test]
fn live_state_return_type_is_unwrapped() {
    let (t, live) = extract_return_type_from_resolver_function(
        sp(0, 80),
        Some(generic("LiveState", kw(TsKeywordKind::Number, 10), 0)),
        &handler(),
    )
    .unwrap();
    assert!(matches!(t, TsType::Keyword { kind: TsKeywordKind::Number, .. }));
    assert_eq!(live, Some(Location::new(SourceLocationKey { id: 1 }, sp(0, 80))));
    let missing = extract_return_type_from_resolver_function(sp(0, 80), None, &handler());
    assert!(matches!(missing.err().unwrap().error, SchemaGenerationError::MissingReturnType));
}

#[test]
fn parameters_give_entity_and_arguments() {
    let entity = extract_entity_type_from_resolver_function(sp(0, 80), Some(param("user", Some(type_ref("User", 10)), 4)), &handler()).unwrap();
    assert!(matches!(entity, Some(TsType::TypeRef { .. })));
    let untyped = extract_entity_type_from_resolver_function(sp(0, 80), Some(param("user", None, 4)), &handler());
    let d = untyped.err().unwrap();
    assert!(matches!(d.error, SchemaGenerationError::MissingParamType));
    assert_eq!(d.location.span, sp(4, 19));
    let pattern = extract_entity_type_from_resolver_function(sp(0, 80), Some(Param::Other { printed: "{ id }".to_string(), span: sp(4, 10) }), &handler());
    assert!(matches!(pattern.err().unwrap().error, SchemaGenerationError::UnsupportedType { .. }));
    let args = extract_params_from_second_argument(Some(param("args", Some(kw(TsKeywordKind::String, 30)), 25)), &handler()).unwrap();
    assert!(args.is_some());
    let no_type = extract_params_from_second_argument(Some(param("args", None, 25)), &handler());
    assert_eq!(no_type.err().unwrap().location.span, sp(25, 40));
    assert!(extract_params_from_second_argument(None, &handler()).unwrap().is_none());
}

#[test]
fn extract_function_reads_all_parts() {
    let extractor = TSRelayResolverExtractor::new();
    let decl = function(
        "fullName",
        vec![param("user", Some(type_ref("User", 10)), 4), param("args", Some(TsType::TypeLit { members: vec![], span: sp(30, 32) }), 25)],
        Some(kw(TsKeywordKind::String, 40)),
        0,
    );
    let data = extractor.extract_function(decl, &handler()).unwrap();
    assert_eq!(data.field_name.item, "fullName");
    assert!(data.entity_type.is_some());
    assert!(matches!(data.arguments, Some(TsType::TypeLit { .. })));
    assert!(data.is_live.is_none());
    let alias = TypeAliasDecl { id: ident("Shape", 5), type_ann: kw(TsKeywordKind::String, 14), span: sp(0, 20) };
    let weak = extractor
        .extract_graphql_types(ModuleItem::ExportDecl { decl: Decl::TypeAlias(alias), span: sp(0, 20) }, sp(0, 20), &handler())
        .unwrap();
    assert!(matches!(weak, ResolverTypescriptData::Weak(_)));
}

#[test]
fn module_resolution_indexes_imports_and_exported_aliases() {
    let alias = TypeAliasDecl { id: ident("Local", 70), type_ann: kw(TsKeywordKind::String, 80), span: sp(60, 90) };
    let module = Module {
        body: vec![
            import(
                "./a",
                vec![
                    ImportSpecifier::Named { local: ident("B", 9), imported: Some("A".to_string()), span: sp(4, 10) },
                    ImportSpecifier::Default { local: ident("D", 12), span: sp(12, 13) },
                ],
                0,
            ),
            Statement { item: ModuleItem::ExportDecl { decl: Decl::TypeAlias(alias), span: sp(53, 90) }, docblock: None },
        ],
    };
    let r = extract_module_resolution(&module, &"src/x.ts".to_string(), &handler());
    assert_eq!(r.imports.len(), 2);
    assert!(matches!(&r.get(&"B".to_string()).unwrap().import_type, JSImportType::Named(n) if n == "A"));
    assert!(matches!(r.get(&"D".to_string()).unwrap().import_type, JSImportType::Default));
    let local = r.get(&"Local".to_string()).unwrap();
    assert_eq!(local.module_name, "src/x.ts");
    assert!(r.get(&"Nope".to_string()).is_none());
}

#[test]
fn fragment_key_entity_reads_through_the_fragment() {
    let mut extractor = TSRelayResolverExtractor::new();
    let fragments = vec![FragmentDefinition {
        name: Identifier { value: "UserFragment".to_string(), span: sp(5, 17) },
        type_condition: Identifier { value: "User".to_string(), span: sp(21, 25) },
        location: SourceLocationKey { id: 42 },
        arguments: vec![],
    }];
    let body = vec![
        import("UserFragment.graphql", vec![named_import("UserFragment$key", 9)], 0),
        export_fn(
            function("name", vec![param("key", Some(type_ref("UserFragment$key", 160)), 150)], Some(kw(TsKeywordKind::String, 190)), 130),
            Some(docblock(None, 100)),
        ),
    ];
    extractor
        .parse_document(Module { body }, &"src/name.ts".to_string(), SourceLocationKey { id: 8 }, &hash(), Some(&fragments))
        .unwrap();
    let (field, _) = &extractor.unresolved_field_definitions[0];
    assert_eq!(field.entity_type.as_ref().unwrap().item, "User");
    assert_eq!(field.root_fragment.as_ref().unwrap().name.item, "UserFragment");
    let (_, resolved) = extractor.resolve().unwrap();
    assert_eq!(resolved[0].type_.item, "User");
    assert_eq!(resolved[0].root_fragment.as_ref().unwrap().item, "UserFragment");
}

#[test]
fn fragment_key_without_its_fragment_is_an_error() {
    let mut extractor = TSRelayResolverExtractor::new();
    let body = vec![
        import("UserFragment.graphql", vec![named_import("UserFragment$key", 9)], 0),
        export_fn(
            function("name", vec![param("key", Some(type_ref("UserFragment$key", 160)), 150)], Some(kw(TsKeywordKind::String, 190)), 130),
            Some(docblock(None, 100)),
        ),
    ];
    let errors = parse(&mut extractor, body, "src/name.ts", 9).err().unwrap();
    assert!(matches!(errors[0].error, SchemaGenerationError::FragmentNotFound { .. }));
}

#[test]
fn unresolvable_entity_fails_at_resolve() {
    let mut extractor = TSRelayResolverExtractor::new();
    let body = vec![
        import("./Ghost", vec![named_import("Ghost", 9)], 0),
        export_fn(
            function("boo", vec![param("g", Some(type_ref("Ghost", 160)), 150)], Some(kw(TsKeywordKind::String, 190)), 130),
            Some(docblock(None, 100)),
        ),
    ];
    parse(&mut extractor, body, "src/boo.ts", 10).unwrap();
    let errors = extractor.resolve().err().unwrap();
    assert_eq!(errors.len(), 1);
    assert!(matches!(errors[0].error, SchemaGenerationError::EntityModuleNotFound { .. }));
}

#[test]
fn custom_scalars_resolve_return_types() {
    let mut extractor = TSRelayResolverExtractor::new();
    extractor.set_custom_scalar_map(&vec![(
        "DateTime".to_string(),
        relay_core::scalars::CustomType::Path { name: "Instant".to_string(), path: "./time".to_string() },
    )]);
    let body = vec![
        import("./time", vec![named_import("Instant", 9)], 0),
        export_fn(function("createdAt", vec![], Some(type_ref("Instant", 190)), 130), Some(docblock(None, 100))),
    ];
    parse(&mut extractor, body, "src/createdAt.ts", 11).unwrap();
    let (_, fields) = extractor.resolve().unwrap();
    assert_eq!(show(&fields[0].field.type_), "DateTime");
    assert_eq!(fields[0].type_.item, "Query");
    assert_eq!(fields[0].semantic_non_null_levels, vec![0]);
}
