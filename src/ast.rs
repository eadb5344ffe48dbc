//! A model of the parsed TypeScript that resolver extraction reads: module items,
//! function and type-alias declarations, and type annotations. Spans are character
//! offsets into the module's text.
use vstd::prelude::*;

use crate::location::Span;
use crate::location::WithLocation;

verus! {

/// An identifier with its span.
#[derive(Debug)]
pub struct Ident {
    pub name: String,
    pub span: Span,
}

/// The keyword types that the extraction tells apart.
#[derive(Clone, Copy, Debug, PartialEq, Eq, Structural)]
pub enum TsKeywordKind {
    String,
    Number,
    Boolean,
    Null,
    Undefined,
    /// Any other keyword type (`any`, `void`, `never`, ...).
    Other,
}

/// The name of a referenced type: `A`, or a qualified name `A.B`.
#[derive(Debug)]
pub enum TsEntityName {
    Ident(Ident),
    Qualified { right: Ident, span: Span },
}

/// The key of a member of an object literal type.
#[derive(Debug)]
pub enum PropertyKey {
    Ident(Ident),
    /// A computed or literal key.
    Other { span: Span },
}

/// A member of an object literal type.
#[derive(Debug)]
pub enum TsTypeElement {
    Property { key: PropertyKey, type_ann: Option<TsType>, span: Span },
    /// A method, index or call signature.
    Other { span: Span },
}

/// A TypeScript type annotation.
#[derive(Debug)]
pub enum TsType {
    Keyword { kind: TsKeywordKind, span: Span },
    /// The literal type `true` or `false`.
    BoolLiteral { literal: bool, span: Span },
    /// A string literal type such as `"User"`.
    StrLiteral { value: String, span: Span },
    /// A type reference `Name` or `Name<P1, ...>`.
    TypeRef { entity: TsEntityName, type_params: Option<Vec<TsType>>, span: Span },
    /// An object literal type `{ a: T, ... }`.
    TypeLit { members: Vec<TsTypeElement>, span: Span },
    Union { types: Vec<TsType>, span: Span },
    Intersection { types: Vec<TsType>, span: Span },
    /// Any other kind of type (function types, tuples, ...).
    Other { span: Span },
}


/// A parameter of a function declaration.
#[derive(Debug)]
pub enum Param {
    /// A plain identifier parameter, with its type annotation if it has one.
    Ident { name: Ident, type_ann: Option<TsType>, span: Span },
    /// A destructuring or otherwise non-identifier parameter, printed back as source.
    Other { printed: String, span: Span },
}

/// A function declaration.
#[derive(Debug)]
pub struct FnDecl {
    pub ident: Ident,
    pub params: Vec<Param>,
    pub return_type: Option<TsType>,
    pub span: Span,
}

/// A type alias declaration `type Name = T`.
#[derive(Debug)]
pub struct TypeAliasDecl {
    pub id: Ident,
    pub type_ann: TsType,
    pub span: Span,
}

/// A declaration that a module exports.
#[derive(Debug)]
pub enum Decl {
    Fn(FnDecl),
    TypeAlias(TypeAliasDecl),
    Other { span: Span },
}

/// One binding of an import declaration.
#[derive(Debug)]
pub enum ImportSpecifier {
    /// `import { imported as local }`; `imported` is absent when it equals `local`.
    Named { local: Ident, imported: Option<String>, span: Span },
    /// `import local from ...`
    Default { local: Ident, span: Span },
    /// `import * as local from ...`
    Namespace { local: Ident, span: Span },
}

/// A structured comment block before a statement, as sections of `@key value`
/// fields and free text.
#[derive(Debug)]
pub enum DocblockSection {
    Field { key: WithLocation<String>, value: Option<WithLocation<String>> },
    FreeText(WithLocation<String>),
}

/// The parsed leading comment of a statement that holds the resolver marker.
#[derive(Debug)]
pub struct Docblock {
    pub sections: Vec<DocblockSection>,
    /// From the start of the first comment to the end of the last one.
    pub span: Span,
}

/// A top-level statement of a module.
#[derive(Debug)]
pub enum ModuleItem {
    Import { source: String, specifiers: Vec<ImportSpecifier>, span: Span },
    ExportDecl { decl: Decl, span: Span },
    Other { span: Span },
}

/// A top-level statement with the resolver docblock that precedes it, if any.
#[derive(Debug)]
pub struct Statement {
    pub item: ModuleItem,
    pub docblock: Option<Docblock>,
}

/// A parsed module.
#[derive(Debug)]
pub struct Module {
    pub body: Vec<Statement>,
}

impl TsEntityName {
    pub open spec fn spec_span(&self) -> Span {
        match self {
            TsEntityName::Ident(i) => i.span,
            TsEntityName::Qualified { span, .. } => *span,
        }
    }

    pub fn span(&self) -> (r: Span)
        ensures
            r == self.spec_span(),
    {
        match self {
            TsEntityName::Ident(i) => i.span,
            TsEntityName::Qualified { span, .. } => *span,
        }
    }
}

impl TsType {
    pub open spec fn spec_span(&self) -> Span {
        match self {
            TsType::Keyword { span, .. } => *span,
            TsType::BoolLiteral { span, .. } => *span,
            TsType::StrLiteral { span, .. } => *span,
            TsType::TypeRef { span, .. } => *span,
            TsType::TypeLit { span, .. } => *span,
            TsType::Union { span, .. } => *span,
            TsType::Intersection { span, .. } => *span,
            TsType::Other { span } => *span,
        }
    }

    pub fn span(&self) -> (r: Span)
        ensures
            r == self.spec_span(),
    {
        match self {
            TsType::Keyword { span, .. } => *span,
            TsType::BoolLiteral { span, .. } => *span,
            TsType::StrLiteral { span, .. } => *span,
            TsType::TypeRef { span, .. } => *span,
            TsType::TypeLit { span, .. } => *span,
            TsType::Union { span, .. } => *span,
            TsType::Intersection { span, .. } => *span,
            TsType::Other { span } => *span,
        }
    }

    /// The keywords `null` and `undefined`, which make a union nullable.
    pub open spec fn is_null_marker(&self) -> bool {
        self matches TsType::Keyword { kind, .. } && (kind == TsKeywordKind::Null || kind
            == TsKeywordKind::Undefined)
    }
}

} // verus!
