//! Translation of TypeScript type annotations into GraphQL type annotations,
//! with semantic non-null levels.
use vstd::prelude::*;

use crate::ast::PropertyKey;
use crate::ast::TsEntityName;
use crate::ast::TsKeywordKind;
use crate::ast::TsType;
use crate::ast::TsTypeElement;
use crate::ast::Ident;
use crate::diagnostics::Diagnostic;
use crate::diagnostics::SchemaGenerationError;
use crate::diagnostics::UnsupportedShape;
use crate::location::Location;
use crate::location::LocationHandler;
use crate::location::SourceLocationKey;
use crate::location::Span;
use crate::resolution::ModuleResolution;
use crate::scalars::CustomScalarMap;
use crate::scalars::CustomType;
use crate::schema::DocblockIr;
use crate::schema::FieldArguments;
use crate::schema::Identifier;
use crate::schema::InputValueDefinition;
use crate::schema::TypeAnnotation;
use crate::schema::TypeDefinitions;
use crate::schema::TypeView;
use crate::schema::type_view;

verus! {

/// The location of `span` in the document `source`.
pub open spec fn loc(source: SourceLocationKey, span: Span) -> Location {
    Location { source_location: source, span }
}

pub open spec fn err<T>(error: SchemaGenerationError, source: SourceLocationKey, span: Span) -> Result<
    T,
    Diagnostic,
> {
    Err(Diagnostic::spec_error(error, loc(source, span)))
}

/// Member `i` is the first member of the union that is not `null` or `undefined`.
pub open spec fn is_first_non_null(types: Seq<TsType>, i: int) -> bool {
    &&& 0 <= i < types.len()
    &&& !types[i].is_null_marker()
    &&& forall|j: int| 0 <= j < i ==> (#[trigger] types[j]).is_null_marker()
}

pub open spec fn has_null_marker(types: Seq<TsType>) -> bool {
    exists|j: int| 0 <= j < types.len() && (#[trigger] types[j]).is_null_marker()
}

/// The type that an annotation denotes once `null` and `undefined` are taken
/// out of a union, and whether they were there.
pub open spec fn spec_unwrap_nullable_type(ty: TsType, source: SourceLocationKey) -> Result<
    (TsType, bool),
    Diagnostic,
> {
    match ty {
        TsType::Intersection { span, .. } => err(
            SchemaGenerationError::UnsupportedType { shape: UnsupportedShape::Intersection },
            source,
            span,
        ),
        TsType::Union { types, span } => if exists|i: int| is_first_non_null(types@, i) {
            let i = choose|i: int| is_first_non_null(types@, i);
            Ok((types@[i], has_null_marker(types@)))
        } else {
            err(SchemaGenerationError::UnsupportedType { shape: UnsupportedShape::OnlyNullable }, source, span)
        },
        _ => Ok((ty, false)),
    }
}

/// A name for the shape of a type that cannot be translated.
pub open spec fn spec_shape_of(ty: TsType) -> UnsupportedShape {
    match ty {
        TsType::Keyword { .. } => UnsupportedShape::Keyword,
        TsType::StrLiteral { .. } => UnsupportedShape::StringLiteral,
        TsType::TypeLit { .. } => UnsupportedShape::ObjectLiteral,
        TsType::Intersection { .. } => UnsupportedShape::Intersection,
        _ => UnsupportedShape::Other,
    }
}

pub fn shape_of(ty: &TsType) -> (r: UnsupportedShape)
    ensures
        r == spec_shape_of(*ty),
{
    match ty {
        TsType::Keyword { .. } => UnsupportedShape::Keyword,
        TsType::StrLiteral { .. } => UnsupportedShape::StringLiteral,
        TsType::TypeLit { .. } => UnsupportedShape::ObjectLiteral,
        TsType::Intersection { .. } => UnsupportedShape::Intersection,
        _ => UnsupportedShape::Other,
    }
}

/// The GraphQL type that a bare reference to `id` names: a custom scalar mapped
/// from the referenced type, else a weak object registered for it.
pub open spec fn spec_named_type(
    csm: CustomScalarMap,
    id: Ident,
    mr: ModuleResolution,
    td: TypeDefinitions,
    source: SourceLocationKey,
) -> Result<TypeView, Diagnostic> {
    let key = mr.spec_get(id.name@);
    let scalar_key = match key {
        Some(k) => CustomType::Path { name: id.name, path: k.module_name },
        None => CustomType::Name(id.name),
    };
    match csm.spec_get(scalar_key) {
        Some(scalar) => Ok(TypeView::Named { name: scalar@, span: id.span }),
        None => match key {
            None => err(SchemaGenerationError::ExpectedFlowDefinitionForType { name: id.name }, source, id.span),
            Some(k) => match td.spec_get(k) {
                Some(DocblockIr::StrongObject(o)) => err(
                    SchemaGenerationError::StrongReturnTypeNotAllowed { typename: o.name.value },
                    source,
                    id.span,
                ),
                Some(DocblockIr::WeakObject(o)) => Ok(TypeView::Named { name: o.name.value@, span: o.name.span }),
                None => err(
                    SchemaGenerationError::ModuleNotFound {
                        entity_name: id.name,
                        export_type: k.import_type,
                        module_name: k.module_name,
                    },
                    source,
                    id.span,
                ),
            },
        },
    }
}

/// Non-null wrapping: a required type gets level 0 when semantic non-null is
/// tracked, else a `!` and no levels; an optional type stays as it is.
pub open spec fn spec_finish(v: TypeView, levels: Seq<u64>, optional: bool, snn: bool, span: Span) -> (
    TypeView,
    Seq<u64>,
) {
    if !optional {
        if snn {
            (v, levels.push(0))
        } else {
            (TypeView::NonNull { span, item: Box::new(v) }, Seq::empty())
        }
    } else {
        (v, levels)
    }
}

pub open spec fn shift_levels(levels: Seq<u64>) -> Seq<u64> {
    levels.map_values(|l: u64| (l + 1) as u64)
}

pub open spec fn levels_fit(levels: Seq<u64>) -> bool {
    forall|i: int| 0 <= i < levels.len() ==> #[trigger] levels[i] < u64::MAX
}

pub open spec fn is_array_name(name: Seq<char>) -> bool {
    name == "Array"@ || name == "ReadOnlyArray"@
}

/// The translation of `ty` into a GraphQL type and its semantic non-null levels.
/// `snn` asks for semantic non-null tracking in place of `!` at the outer level.
pub open spec fn spec_translate(
    csm: CustomScalarMap,
    ty: TsType,
    mr: ModuleResolution,
    td: TypeDefinitions,
    snn: bool,
    source: SourceLocationKey,
) -> Result<(TypeView, Seq<u64>), Diagnostic>
    decreases ty, 1int,
{
    match ty {
        TsType::Intersection { span, .. } => err(
            SchemaGenerationError::UnsupportedType { shape: UnsupportedShape::Intersection },
            source,
            span,
        ),
        TsType::Union { types, span } => if exists|i: int| is_first_non_null(types@, i) {
            let i = choose|i: int| is_first_non_null(types@, i);
            spec_translate_effective(csm, types@[i], has_null_marker(types@), mr, td, snn, source)
        } else {
            err(SchemaGenerationError::UnsupportedType { shape: UnsupportedShape::OnlyNullable }, source, span)
        },
        _ => spec_translate_effective(csm, ty, false, mr, td, snn, source),
    }
}

/// The translation of a type with `null` and `undefined` already taken out.
pub open spec fn spec_translate_effective(
    csm: CustomScalarMap,
    eff: TsType,
    optional: bool,
    mr: ModuleResolution,
    td: TypeDefinitions,
    snn: bool,
    source: SourceLocationKey,
) -> Result<(TypeView, Seq<u64>), Diagnostic>
    decreases eff, 0int,
{
    let span = eff.spec_span();
    match eff {
        TsType::TypeRef { entity, type_params, .. } => match entity {
            TsEntityName::Qualified { right, span: qspan } => err(
                SchemaGenerationError::UnsupportedType {
                    shape: UnsupportedShape::QualifiedName(right.name),
                },
                source,
                qspan,
            ),
            TsEntityName::Ident(id) => match type_params {
                None => match spec_named_type(csm, id, mr, td, source) {
                    Err(d) => Err(d),
                    Ok(v) => Ok(spec_finish(v, Seq::empty(), optional, snn, span)),
                },
                Some(params) => if params@.len() == 1 {
                    let param = params@[0];
                    if is_array_name(id.name@) {
                        match spec_translate(csm, param, mr, td, false, source) {
                            Err(d) => Err(d),
                            Ok((item, levels)) => if levels_fit(levels) {
                                Ok(
                                    spec_finish(
                                        TypeView::List { span, item: Box::new(item) },
                                        shift_levels(levels),
                                        optional,
                                        snn,
                                        span,
                                    ),
                                )
                            } else {
                                err(SchemaGenerationError::NestingTooDeep, source, span)
                            },
                        }
                    } else if id.name@ == "IdOf"@ {
                        match param {
                            TsType::StrLiteral { value, span: lspan } => Ok(
                                spec_finish(
                                    TypeView::Named { name: value@, span: lspan },
                                    Seq::empty(),
                                    optional,
                                    snn,
                                    span,
                                ),
                            ),
                            _ => err(
                                SchemaGenerationError::ExpectedStringLiteralTypeParameter,
                                source,
                                param.spec_span(),
                            ),
                        }
                    } else if id.name@ == "RelayResolverValue"@ {
                        Ok(
                            spec_finish(
                                TypeView::Named { name: "RelayResolverValue"@, span },
                                Seq::empty(),
                                true,
                                snn,
                                span,
                            ),
                        )
                    } else {
                        err(SchemaGenerationError::UnsupportedGeneric { name: id.name }, source, span)
                    }
                } else {
                    err(SchemaGenerationError::ExpectedSingleTypeParameter, source, span)
                },
            },
        },
        TsType::Keyword { kind: TsKeywordKind::String, .. } => Ok(
            spec_finish(TypeView::Named { name: "String"@, span }, Seq::empty(), optional, snn, span),
        ),
        TsType::Keyword { kind: TsKeywordKind::Number, .. } => Ok(
            spec_finish(TypeView::Named { name: "Float"@, span }, Seq::empty(), optional, snn, span),
        ),
        TsType::Keyword { kind: TsKeywordKind::Boolean, .. } => Ok(
            spec_finish(TypeView::Named { name: "Boolean"@, span }, Seq::empty(), optional, snn, span),
        ),
        TsType::BoolLiteral { .. } => Ok(
            spec_finish(TypeView::Named { name: "Boolean"@, span }, Seq::empty(), optional, snn, span),
        ),
        _ => err(SchemaGenerationError::UnsupportedType { shape: spec_shape_of(eff) }, source, span),
    }
}

/// What a translation result means.
pub open spec fn translation_view(r: Result<(TypeAnnotation, Vec<u64>), Diagnostic>) -> Result<
    (TypeView, Seq<u64>),
    Diagnostic,
> {
    match r {
        Ok((t, levels)) => Ok((type_view(t), levels@)),
        Err(d) => Err(d),
    }
}

} // verus!

verus! {

/// A string made from a literal.
pub fn text(lit: &str) -> (r: String)
    ensures
        r@ == lit@,
{
    lit.to_owned()
}

/// Whether `s` spells the literal `lit`.
pub fn is_text(s: &String, lit: &str) -> (r: bool)
    ensures
        r == (s@ == lit@),
{
    *s == text(lit)
}

proof fn lemma_first_non_null_unique(types: Seq<TsType>, i: int, k: int)
    requires
        is_first_non_null(types, i),
        is_first_non_null(types, k),
    ensures
        i == k,
{
    if i < k {
        assert(types[i].is_null_marker());
    } else if k < i {
        assert(types[k].is_null_marker());
    }
}

/// Takes `null` and `undefined` out of a union annotation: the first other
/// member is the type, and the annotation is optional when they were there.
/// Intersections are not supported; other annotations are returned as they are.
pub fn unwrap_nullable_type<'a>(return_type: &'a TsType, location_handler: &LocationHandler) -> (r: Result<
    (&'a TsType, bool),
    Diagnostic,
>)
    ensures
        match r {
            Ok((e, optional)) => spec_unwrap_nullable_type(*return_type, location_handler.source_location_key)
                == Ok::<(TsType, bool), Diagnostic>((*e, optional)),
            Err(d) => spec_unwrap_nullable_type(*return_type, location_handler.source_location_key)
                == Err::<(TsType, bool), Diagnostic>(d),
        },
        r matches Ok((e, _)) ==> *e == *return_type || (*return_type matches TsType::Union {
            types,
            ..
        } && exists|i: int| 0 <= i < types@.len() && types@[i] == *e),
{
    match return_type {
        TsType::Intersection { span, .. } => Err(
            Diagnostic::error(
                SchemaGenerationError::UnsupportedType { shape: UnsupportedShape::Intersection },
                location_handler.to_location(*span),
            ),
        ),
        TsType::Union { types, span } => {
            let mut has_null = false;
            let mut first: Option<usize> = None;
            let mut i: usize = 0;
            while i < types.len()
                invariant
                    i <= types@.len(),
                    has_null == exists|j: int| 0 <= j < i && (#[trigger] types@[j]).is_null_marker(),
                    match first {
                        Some(f) => f < i && is_first_non_null(types@, f as int),
                        None => forall|j: int| 0 <= j < i ==> (#[trigger] types@[j]).is_null_marker(),
                    },
                decreases types@.len() - i,
            {
                let is_null = match &types[i] {
                    TsType::Keyword { kind, .. } => match kind {
                        TsKeywordKind::Null => true,
                        TsKeywordKind::Undefined => true,
                        _ => false,
                    },
                    _ => false,
                };
                if is_null {
                    has_null = true;
                } else if first.is_none() {
                    first = Some(i);
                }
                i = i + 1;
            }
            match first {
                Some(f) => {
                    proof {
                        assert(is_first_non_null(types@, f as int));
                        let c = choose|c: int| is_first_non_null(types@, c);
                        lemma_first_non_null_unique(types@, f as int, c);
                    }
                    Ok((&types[f], has_null))
                },
                None => {
                    proof {
                        assert forall|k: int| !is_first_non_null(types@, k) by {
                            if 0 <= k < types@.len() {
                                assert(types@[k].is_null_marker());
                            }
                        }
                    }
                    Err(
                        Diagnostic::error(
                            SchemaGenerationError::UnsupportedType { shape: UnsupportedShape::OnlyNullable },
                            location_handler.to_location(*span),
                        ),
                    )
                },
            }
        },
        _ => Ok((return_type, false)),
    }
}

fn finish(t: TypeAnnotation, levels: Vec<u64>, optional: bool, snn: bool, span: Span) -> (r: (
    TypeAnnotation,
    Vec<u64>,
))
    ensures
        (type_view(r.0), r.1@) == spec_finish(type_view(t), levels@, optional, snn, span),
{
    if !optional {
        if snn {
            let mut levels = levels;
            levels.push(0);
            (t, levels)
        } else {
            (TypeAnnotation::NonNull { span, item: Box::new(t) }, Vec::new())
        }
    } else {
        (t, levels)
    }
}

/// Each level one deeper, or `None` where a level cannot be incremented.
fn shift(levels: &Vec<u64>) -> (r: Option<Vec<u64>>)
    ensures
        r is Some <==> levels_fit(levels@),
        r matches Some(v) ==> v@ == shift_levels(levels@),
{
    let mut out: Vec<u64> = Vec::new();
    let mut i: usize = 0;
    while i < levels.len()
        invariant
            i <= levels@.len(),
            forall|j: int| 0 <= j < i ==> #[trigger] levels@[j] < u64::MAX,
            out@ == shift_levels(levels@.take(i as int)),
        decreases levels@.len() - i,
    {
        if levels[i] == u64::MAX {
            return None;
        }
        out.push(levels[i] + 1);
        proof {
            assert(levels@.take(i + 1) =~= levels@.take(i as int).push(levels@[i as int]));
            assert(shift_levels(levels@.take(i + 1)) =~= shift_levels(levels@.take(i as int)).push(
                (levels@[i as int] + 1) as u64,
            ));
        }
        i = i + 1;
    }
    assert(levels@.take(i as int) =~= levels@);
    Some(out)
}

fn named_type(
    custom_scalar_map: &CustomScalarMap,
    id: &Ident,
    module_resolution: &ModuleResolution,
    type_definitions: &TypeDefinitions,
    location_handler: &LocationHandler,
) -> (r: Result<Identifier, Diagnostic>)
    ensures
        match r {
            Ok(i) => spec_named_type(
                *custom_scalar_map,
                *id,
                *module_resolution,
                *type_definitions,
                location_handler.source_location_key,
            ) == Ok::<TypeView, Diagnostic>(TypeView::Named { name: i.value@, span: i.span }),
            Err(d) => spec_named_type(
                *custom_scalar_map,
                *id,
                *module_resolution,
                *type_definitions,
                location_handler.source_location_key,
            ) == Err::<TypeView, Diagnostic>(d),
        },
{
    let key = module_resolution.get(&id.name);
    let scalar_key = match key {
        Some(k) => CustomType::Path { name: id.name.clone(), path: k.module_name.clone() },
        None => CustomType::Name(id.name.clone()),
    };
    match custom_scalar_map.get(&scalar_key) {
        Some(scalar) => Ok(Identifier { value: scalar.clone(), span: id.span }),
        None => match key {
            None => Err(
                Diagnostic::error(
                    SchemaGenerationError::ExpectedFlowDefinitionForType { name: id.name.clone() },
                    location_handler.to_location(id.span),
                ),
            ),
            Some(k) => match type_definitions.get(k) {
                Some(DocblockIr::StrongObject(o)) => Err(
                    Diagnostic::error(
                        SchemaGenerationError::StrongReturnTypeNotAllowed { typename: o.name.value.clone() },
                        location_handler.to_location(id.span),
                    ),
                ),
                Some(DocblockIr::WeakObject(o)) => Ok(o.name.clone()),
                None => Err(
                    Diagnostic::error(
                        SchemaGenerationError::ModuleNotFound {
                            entity_name: id.name.clone(),
                            export_type: k.import_type.clone(),
                            module_name: k.module_name.clone(),
                        },
                        location_handler.to_location(id.span),
                    ),
                ),
            },
        },
    }
}

/// Translates a type annotation into a GraphQL type annotation and the list of
/// its semantic non-null levels (empty when it is not semantically non-null).
pub fn return_type_to_type_annotation(
    custom_scalar_map: &CustomScalarMap,
    return_type: &TsType,
    module_resolution: &ModuleResolution,
    type_definitions: &TypeDefinitions,
    use_semantic_non_null: bool,
    location_handler: &LocationHandler,
) -> (r: Result<(TypeAnnotation, Vec<u64>), Diagnostic>)
    ensures
        translation_view(r) == spec_translate(
            *custom_scalar_map,
            *return_type,
            *module_resolution,
            *type_definitions,
            use_semantic_non_null,
            location_handler.source_location_key,
        ),
    decreases return_type, 1int,
{
    let (effective, optional) = match unwrap_nullable_type(return_type, location_handler) {
        Ok(p) => p,
        Err(d) => return Err(d),
    };
    proof {
        if *effective != *return_type {
            let types = return_type->Union_types;
            let i = choose|i: int| 0 <= i < types@.len() && types@[i] == *effective;
            assert(decreases_to!(types => types[i]));
            assert(decreases_to!(*return_type => *effective));
        }
    }
    translate_effective(
        custom_scalar_map,
        effective,
        optional,
        module_resolution,
        type_definitions,
        use_semantic_non_null,
        location_handler,
    )
}

fn translate_effective(
    custom_scalar_map: &CustomScalarMap,
    effective: &TsType,
    optional: bool,
    module_resolution: &ModuleResolution,
    type_definitions: &TypeDefinitions,
    use_semantic_non_null: bool,
    location_handler: &LocationHandler,
) -> (r: Result<(TypeAnnotation, Vec<u64>), Diagnostic>)
    ensures
        translation_view(r) == spec_translate_effective(
            *custom_scalar_map,
            *effective,
            optional,
            *module_resolution,
            *type_definitions,
            use_semantic_non_null,
            location_handler.source_location_key,
        ),
    decreases effective, 0int,
{
    let span = effective.span();
    let snn = use_semantic_non_null;
    match effective {
        TsType::TypeRef { entity, type_params, .. } => match entity {
            TsEntityName::Qualified { right, span: qspan } => Err(
                Diagnostic::error(
                    SchemaGenerationError::UnsupportedType {
                        shape: UnsupportedShape::QualifiedName(right.name.clone()),
                    },
                    location_handler.to_location(*qspan),
                ),
            ),
            TsEntityName::Ident(id) => match type_params {
                None => {
                    let name = match named_type(
                        custom_scalar_map,
                        id,
                        module_resolution,
                        type_definitions,
                        location_handler,
                    ) {
                        Ok(n) => n,
                        Err(d) => return Err(d),
                    };
                    Ok(finish(TypeAnnotation::Named(name), Vec::new(), optional, snn, span))
                },
                Some(params) => {
                    if params.len() == 1 {
                        let param = &params[0];
                        if is_text(&id.name, "Array") || is_text(&id.name, "ReadOnlyArray") {
                            let (item, levels) = match return_type_to_type_annotation(
                                custom_scalar_map,
                                param,
                                module_resolution,
                                type_definitions,
                                false,
                                location_handler,
                            ) {
                                Ok(p) => p,
                                Err(d) => return Err(d),
                            };
                            match shift(&levels) {
                                Some(shifted) => Ok(
                                    finish(
                                        TypeAnnotation::List { span, item: Box::new(item) },
                                        shifted,
                                        optional,
                                        snn,
                                        span,
                                    ),
                                ),
                                None => Err(
                                    Diagnostic::error(
                                        SchemaGenerationError::NestingTooDeep,
                                        location_handler.to_location(span),
                                    ),
                                ),
                            }
                        } else if is_text(&id.name, "IdOf") {
                            match param {
                                TsType::StrLiteral { value, span: lspan } => Ok(
                                    finish(
                                        TypeAnnotation::Named(
                                            Identifier { value: value.clone(), span: *lspan },
                                        ),
                                        Vec::new(),
                                        optional,
                                        snn,
                                        span,
                                    ),
                                ),
                                _ => Err(
                                    Diagnostic::error(
                                        SchemaGenerationError::ExpectedStringLiteralTypeParameter,
                                        location_handler.to_location(param.span()),
                                    ),
                                ),
                            }
                        } else if is_text(&id.name, "RelayResolverValue") {
                            Ok(
                                finish(
                                    TypeAnnotation::Named(
                                        Identifier { value: text("RelayResolverValue"), span },
                                    ),
                                    Vec::new(),
                                    true,
                                    snn,
                                    span,
                                ),
                            )
                        } else {
                            Err(
                                Diagnostic::error(
                                    SchemaGenerationError::UnsupportedGeneric { name: id.name.clone() },
                                    location_handler.to_location(span),
                                ),
                            )
                        }
                    } else {
                        Err(
                            Diagnostic::error(
                                SchemaGenerationError::ExpectedSingleTypeParameter,
                                location_handler.to_location(span),
                            ),
                        )
                    }
                },
            },
        },
        TsType::Keyword { kind: TsKeywordKind::String, .. } => Ok(
            finish(TypeAnnotation::Named(Identifier { value: text("String"), span }), Vec::new(), optional, snn, span),
        ),
        TsType::Keyword { kind: TsKeywordKind::Number, .. } => Ok(
            finish(TypeAnnotation::Named(Identifier { value: text("Float"), span }), Vec::new(), optional, snn, span),
        ),
        TsType::Keyword { kind: TsKeywordKind::Boolean, .. } => Ok(
            finish(TypeAnnotation::Named(Identifier { value: text("Boolean"), span }), Vec::new(), optional, snn, span),
        ),
        TsType::BoolLiteral { .. } => Ok(
            finish(TypeAnnotation::Named(Identifier { value: text("Boolean"), span }), Vec::new(), optional, snn, span),
        ),
        _ => Err(
            Diagnostic::error(
                SchemaGenerationError::UnsupportedType { shape: shape_of(effective) },
                location_handler.to_location(span),
            ),
        ),
    }
}

} // verus!

verus! {

/// The meaning of one field argument.
pub struct ArgView {
    pub name: Seq<char>,
    pub name_span: Span,
    pub type_: TypeView,
    pub span: Span,
}

pub open spec fn arg_view(a: InputValueDefinition) -> ArgView {
    ArgView { name: a.name.value@, name_span: a.name.span, type_: type_view(a.type_), span: a.span }
}

pub open spec fn arguments_view(r: Result<FieldArguments, Diagnostic>) -> Result<(Seq<ArgView>, Span), Diagnostic> {
    match r {
        Ok(f) => Ok((f.items@.map_values(|a: InputValueDefinition| arg_view(a)), f.span)),
        Err(d) => Err(d),
    }
}

/// The argument that one member of an arguments object declares: `None` for a
/// member that is not a property.
pub open spec fn spec_member_argument(
    csm: CustomScalarMap,
    member: TsTypeElement,
    mr: ModuleResolution,
    td: TypeDefinitions,
    source: SourceLocationKey,
) -> Option<Result<ArgView, Diagnostic>> {
    match member {
        TsTypeElement::Property { key, type_ann, span } => match key {
            PropertyKey::Ident(id) => match type_ann {
                None => Some(err(SchemaGenerationError::IncorrectArgumentsDefinition, source, span)),
                Some(t) => match spec_translate(csm, t, mr, td, false, source) {
                    Ok((v, _)) => Some(Ok(ArgView { name: id.name@, name_span: id.span, type_: v, span })),
                    Err(d) => Some(Err(d)),
                },
            },
            PropertyKey::Other { span: kspan } => Some(
                err(SchemaGenerationError::IncorrectArgumentsDefinition, source, kspan),
            ),
        },
        TsTypeElement::Other { .. } => None,
    }
}

/// The arguments that the first `n` members declare, or the first error among them.
pub open spec fn spec_arguments_prefix(
    csm: CustomScalarMap,
    members: Seq<TsTypeElement>,
    n: nat,
    mr: ModuleResolution,
    td: TypeDefinitions,
    source: SourceLocationKey,
) -> Result<Seq<ArgView>, Diagnostic>
    decreases n,
{
    if n == 0 {
        Ok(Seq::empty())
    } else {
        match spec_arguments_prefix(csm, members, (n - 1) as nat, mr, td, source) {
            Err(d) => Err(d),
            Ok(args) => match spec_member_argument(csm, members[n - 1], mr, td, source) {
                None => Ok(args),
                Some(Ok(a)) => Ok(args.push(a)),
                Some(Err(d)) => Err(d),
            },
        }
    }
}

/// The arguments that an object literal type declares, one per property, each
/// translated without semantic non-null; any other annotation is an error.
pub open spec fn spec_field_arguments(
    csm: CustomScalarMap,
    args_type: TsType,
    mr: ModuleResolution,
    td: TypeDefinitions,
    source: SourceLocationKey,
) -> Result<(Seq<ArgView>, Span), Diagnostic> {
    match args_type {
        TsType::TypeLit { members, span } => match spec_arguments_prefix(
            csm,
            members@,
            members@.len(),
            mr,
            td,
            source,
        ) {
            Ok(args) => Ok((args, span)),
            Err(d) => Err(d),
        },
        _ => err(SchemaGenerationError::IncorrectArgumentsDefinition, source, args_type.spec_span()),
    }
}

proof fn lemma_arguments_error_stays(
    csm: CustomScalarMap,
    members: Seq<TsTypeElement>,
    n: nat,
    m: nat,
    mr: ModuleResolution,
    td: TypeDefinitions,
    source: SourceLocationKey,
)
    requires
        n <= m,
        spec_arguments_prefix(csm, members, n, mr, td, source) is Err,
    ensures
        spec_arguments_prefix(csm, members, m, mr, td, source) == spec_arguments_prefix(
            csm,
            members,
            n,
            mr,
            td,
            source,
        ),
    decreases m - n,
{
    if n < m {
        lemma_arguments_error_stays(csm, members, n, (m - 1) as nat, mr, td, source);
    }
}


fn member_argument(
    custom_scalar_map: &CustomScalarMap,
    member: &TsTypeElement,
    module_resolution: &ModuleResolution,
    type_definitions: &TypeDefinitions,
    location_handler: &LocationHandler,
) -> (r: Result<Option<InputValueDefinition>, Diagnostic>)
    ensures
        match r {
            Ok(None) => spec_member_argument(*custom_scalar_map, *member, *module_resolution, *type_definitions, location_handler.source_location_key) is None,
            Ok(Some(a)) => spec_member_argument(*custom_scalar_map, *member, *module_resolution, *type_definitions, location_handler.source_location_key) == Some(Ok::<ArgView, Diagnostic>(arg_view(a))),
            Err(d) => spec_member_argument(*custom_scalar_map, *member, *module_resolution, *type_definitions, location_handler.source_location_key) == Some(Err::<ArgView, Diagnostic>(d)),
        },
{
    match member {
        TsTypeElement::Property { key, type_ann, span: pspan } => match key {
            PropertyKey::Ident(id) => match type_ann {
                None => Err(
                    Diagnostic::error(
                        SchemaGenerationError::IncorrectArgumentsDefinition,
                        location_handler.to_location(*pspan),
                    ),
                ),
                Some(t) => match return_type_to_type_annotation(
                    custom_scalar_map,
                    t,
                    module_resolution,
                    type_definitions,
                    false,
                    location_handler,
                ) {
                    Ok((type_, _)) => Ok(
                        Some(
                            InputValueDefinition {
                                name: Identifier { value: id.name.clone(), span: id.span },
                                type_,
                                span: *pspan,
                            },
                        ),
                    ),
                    Err(d) => Err(d),
                },
            },
            PropertyKey::Other { span: kspan } => Err(
                Diagnostic::error(
                    SchemaGenerationError::IncorrectArgumentsDefinition,
                    location_handler.to_location(*kspan),
                ),
            ),
        },
        TsTypeElement::Other { .. } => Ok(None),
    }
}

/// Translates the annotation of a resolver's arguments parameter into the
/// field's argument definitions.
pub fn ts_type_to_field_arguments(
    custom_scalar_map: &CustomScalarMap,
    args_type: &TsType,
    module_resolution: &ModuleResolution,
    type_definitions: &TypeDefinitions,
    location_handler: &LocationHandler,
) -> (r: Result<FieldArguments, Diagnostic>)
    ensures
        arguments_view(r) == spec_field_arguments(
            *custom_scalar_map,
            *args_type,
            *module_resolution,
            *type_definitions,
            location_handler.source_location_key,
        ),
{
    let members = match args_type {
        TsType::TypeLit { members, .. } => members,
        _ => {
            return Err(
                Diagnostic::error(
                    SchemaGenerationError::IncorrectArgumentsDefinition,
                    location_handler.to_location(args_type.span()),
                ),
            )
        },
    };
    let span = args_type.span();
    assert(*args_type == TsType::TypeLit { members: *members, span });
    let mut items: Vec<InputValueDefinition> = Vec::new();
    let mut i: usize = 0;
    assert(items@.map_values(|a: InputValueDefinition| arg_view(a)) =~= Seq::<ArgView>::empty());
    while i < members.len()
        invariant
            i <= members@.len(),
            *args_type == (TsType::TypeLit { members: *members, span }),
            spec_arguments_prefix(
                *custom_scalar_map,
                members@,
                i as nat,
                *module_resolution,
                *type_definitions,
                location_handler.source_location_key,
            ) == Ok::<Seq<ArgView>, Diagnostic>(items@.map_values(|a: InputValueDefinition| arg_view(a))),
        decreases members@.len() - i,
    {
        let ghost before = items@;
        let step = member_argument(
            custom_scalar_map,
            &members[i],
            module_resolution,
            type_definitions,
            location_handler,
        );
        match step {
            Ok(Some(arg)) => {
                items.push(arg);
                proof {
                    assert(items@.map_values(|a: InputValueDefinition| arg_view(a)) =~= before.map_values(
                        |a: InputValueDefinition| arg_view(a),
                    ).push(arg_view(items@.last())));
                }
            },
            Ok(None) => {},
            Err(d) => {
                proof {
                    assert(spec_member_argument(*custom_scalar_map, members@[i as int], *module_resolution, *type_definitions, location_handler.source_location_key) == Some(Err::<ArgView, Diagnostic>(d)));
                    assert(spec_arguments_prefix(
                        *custom_scalar_map,
                        members@,
                        (i + 1) as nat,
                        *module_resolution,
                        *type_definitions,
                        location_handler.source_location_key,
                    ) == Err::<Seq<ArgView>, Diagnostic>(d));
                    lemma_arguments_error_stays(
                        *custom_scalar_map,
                        members@,
                        (i + 1) as nat,
                        members@.len(),
                        *module_resolution,
                        *type_definitions,
                        location_handler.source_location_key,
                    );
                    assert(spec_arguments_prefix(
                        *custom_scalar_map,
                        members@,
                        members@.len(),
                        *module_resolution,
                        *type_definitions,
                        location_handler.source_location_key,
                    ) == Err::<Seq<ArgView>, Diagnostic>(d));
                }
                return Err(d);
            },
        }
        i = i + 1;
    }
    Ok(FieldArguments { items, span })
}

} // verus!
