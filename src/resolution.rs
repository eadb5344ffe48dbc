//! The per-file index of imported and exported type names.
use vstd::prelude::*;

use crate::ast::ImportSpecifier;
use crate::ast::Module;
use crate::ast::ModuleItem;
use crate::ast::Decl;
use crate::ast::Statement;
use crate::location::LocationHandler;
use crate::location::Location;
use crate::location::SourceLocationKey;

verus! {

/// How a name is brought into a module.
#[derive(Debug)]
pub enum JSImportType {
    /// A named import (or a named export of the module itself), with the name
    /// exported by the other module.
    Named(String),
    Default,
    /// `import * as x`, with the location of the binding.
    Namespace(Location),
}

/// Where a type comes from: a module and the way it is imported.
#[derive(Debug)]
pub struct ModuleResolutionKey {
    pub module_name: String,
    pub import_type: JSImportType,
}

impl Clone for JSImportType {
    fn clone(&self) -> (r: Self)
        ensures
            r == *self,
    {
        match self {
            JSImportType::Named(n) => JSImportType::Named(n.clone()),
            JSImportType::Default => JSImportType::Default,
            JSImportType::Namespace(l) => JSImportType::Namespace(*l),
        }
    }
}

impl Clone for ModuleResolutionKey {
    fn clone(&self) -> (r: Self)
        ensures
            r == *self,
    {
        ModuleResolutionKey {
            module_name: self.module_name.clone(),
            import_type: self.import_type.clone(),
        }
    }
}

/// The value that an optional reference points to.
pub open spec fn deref_option<T>(o: Option<&T>) -> Option<T> {
    match o {
        Some(v) => Some(*v),
        None => None,
    }
}

/// Two import kinds denote the same import.
pub open spec fn import_type_matches(a: JSImportType, b: JSImportType) -> bool {
    match (a, b) {
        (JSImportType::Named(x), JSImportType::Named(y)) => x@ == y@,
        (JSImportType::Default, JSImportType::Default) => true,
        (JSImportType::Namespace(l), JSImportType::Namespace(m)) => l == m,
        _ => false,
    }
}

/// Two keys denote the same type.
pub open spec fn key_matches(a: ModuleResolutionKey, b: ModuleResolutionKey) -> bool {
    a.module_name@ == b.module_name@ && import_type_matches(a.import_type, b.import_type)
}

pub fn import_types_match(a: &JSImportType, b: &JSImportType) -> (r: bool)
    ensures
        r == import_type_matches(*a, *b),
{
    match (a, b) {
        (JSImportType::Named(x), JSImportType::Named(y)) => *x == *y,
        (JSImportType::Default, JSImportType::Default) => true,
        (JSImportType::Namespace(l), JSImportType::Namespace(m)) => *l == *m,
        _ => false,
    }
}

pub fn keys_match(a: &ModuleResolutionKey, b: &ModuleResolutionKey) -> (r: bool)
    ensures
        r == key_matches(*a, *b),
{
    a.module_name == b.module_name && import_types_match(&a.import_type, &b.import_type)
}

/// The entry of the last binding of `name` in `bindings`, if any.
pub open spec fn last_binding(bindings: Seq<(String, ModuleResolutionKey)>, name: Seq<char>) -> Option<
    ModuleResolutionKey,
>
    decreases bindings.len(),
{
    if bindings.len() == 0 {
        None
    } else if bindings.last().0@ == name {
        Some(bindings.last().1)
    } else {
        last_binding(bindings.drop_last(), name)
    }
}

/// What `name` resolves to among the given imports and exports: an import
/// first, else an export.
pub open spec fn resolve_binding(
    imports: Seq<(String, ModuleResolutionKey)>,
    exports: Seq<(String, ModuleResolutionKey)>,
    name: Seq<char>,
) -> Option<ModuleResolutionKey> {
    match last_binding(imports, name) {
        Some(k) => Some(k),
        None => last_binding(exports, name),
    }
}

/// The names that one module imports, and the type aliases that it exports, each
/// with where it comes from. A later binding of a name hides an earlier one.
#[derive(Debug)]
pub struct ModuleResolution {
    pub imports: Vec<(String, ModuleResolutionKey)>,
    pub exports: Vec<(String, ModuleResolutionKey)>,
}

impl ModuleResolution {
    /// What `name` resolves to: an import first, else an export of the module.
    pub open spec fn spec_get(&self, name: Seq<char>) -> Option<ModuleResolutionKey> {
        resolve_binding(self.imports@, self.exports@, name)
    }

    pub fn get(&self, name: &String) -> (r: Option<&ModuleResolutionKey>)
        ensures
            deref_option(r) == self.spec_get(name@),
    {
        match find_last_binding(&self.imports, name) {
            Some(k) => Some(k),
            None => find_last_binding(&self.exports, name),
        }
    }
}

fn find_last_binding<'a>(bindings: &'a Vec<(String, ModuleResolutionKey)>, name: &String) -> (r:
    Option<&'a ModuleResolutionKey>)
    ensures
        deref_option(r) == last_binding(bindings@, name@),
{
    let mut i: usize = bindings.len();
    assert(bindings@.take(i as int) =~= bindings@);
    while i > 0
        invariant
            i <= bindings.len(),
            last_binding(bindings@, name@) == last_binding(bindings@.take(i as int), name@),
        decreases i,
    {
        proof {
            assert(bindings@.take(i as int).drop_last() =~= bindings@.take(i - 1));
        }
        if bindings[i - 1].0 == *name {
            return Some(&bindings[i - 1].1);
        }
        i = i - 1;
    }
    None
}

/// The binding that one import specifier makes.
pub open spec fn spec_import_binding(module_name: String, specifier: ImportSpecifier, source: SourceLocationKey) -> (
    String,
    ModuleResolutionKey,
) {
    match specifier {
        ImportSpecifier::Named { local, imported, .. } => (
            local.name,
            ModuleResolutionKey {
                module_name,
                import_type: JSImportType::Named(
                    match imported {
                        Some(n) => n,
                        None => local.name,
                    },
                ),
            },
        ),
        ImportSpecifier::Default { local, .. } => (
            local.name,
            ModuleResolutionKey { module_name, import_type: JSImportType::Default },
        ),
        ImportSpecifier::Namespace { local, span } => (
            local.name,
            ModuleResolutionKey {
                module_name,
                import_type: JSImportType::Namespace(Location { source_location: source, span }),
            },
        ),
    }
}

pub open spec fn spec_import_bindings(
    module_name: String,
    specifiers: Seq<ImportSpecifier>,
    source: SourceLocationKey,
) -> Seq<(String, ModuleResolutionKey)> {
    specifiers.map_values(|s: ImportSpecifier| spec_import_binding(module_name, s, source))
}

/// The imports and exported type aliases of the first `n` statements: each
/// import binds its local names, and each exported type alias binds its name
/// to itself in `current_module`.
pub open spec fn spec_module_bindings(
    body: Seq<Statement>,
    n: nat,
    current_module: String,
    source: SourceLocationKey,
) -> (Seq<(String, ModuleResolutionKey)>, Seq<(String, ModuleResolutionKey)>)
    decreases n,
{
    if n == 0 {
        (Seq::empty(), Seq::empty())
    } else {
        let (imports, exports) = spec_module_bindings(body, (n - 1) as nat, current_module, source);
        match body[n - 1].item {
            ModuleItem::Import { source: module_name, specifiers, .. } => (
                imports + spec_import_bindings(module_name, specifiers@, source),
                exports,
            ),
            ModuleItem::ExportDecl { decl: Decl::TypeAlias(a), .. } => (
                imports,
                exports.push(
                    (
                        a.id.name,
                        ModuleResolutionKey {
                            module_name: current_module,
                            import_type: JSImportType::Named(a.id.name),
                        },
                    ),
                ),
            ),
            _ => (imports, exports),
        }
    }
}

fn import_binding(module_name: &String, specifier: &ImportSpecifier, location_handler: &LocationHandler) -> (r: (
    String,
    ModuleResolutionKey,
))
    ensures
        r == spec_import_binding(*module_name, *specifier, location_handler.source_location_key),
{
    match specifier {
        ImportSpecifier::Named { local, imported, .. } => {
            let import_name = match imported {
                Some(n) => n.clone(),
                None => local.name.clone(),
            };
            (
                local.name.clone(),
                ModuleResolutionKey {
                    module_name: module_name.clone(),
                    import_type: JSImportType::Named(import_name),
                },
            )
        },
        ImportSpecifier::Default { local, .. } => (
            local.name.clone(),
            ModuleResolutionKey { module_name: module_name.clone(), import_type: JSImportType::Default },
        ),
        ImportSpecifier::Namespace { local, span } => (
            local.name.clone(),
            ModuleResolutionKey {
                module_name: module_name.clone(),
                import_type: JSImportType::Namespace(location_handler.to_location(*span)),
            },
        ),
    }
}

/// Builds the index of a module's imports and exported type aliases.
pub fn extract_module_resolution(
    module: &Module,
    current_module: &String,
    location_handler: &LocationHandler,
) -> (r: ModuleResolution)
    ensures
        (r.imports@, r.exports@) == spec_module_bindings(
            module.body@,
            module.body@.len(),
            *current_module,
            location_handler.source_location_key,
        ),
{
    let ghost source = location_handler.source_location_key;
    let mut imports: Vec<(String, ModuleResolutionKey)> = Vec::new();
    let mut exports: Vec<(String, ModuleResolutionKey)> = Vec::new();
    let mut i: usize = 0;
    while i < module.body.len()
        invariant
            i <= module.body@.len(),
            source == location_handler.source_location_key,
            (imports@, exports@) == spec_module_bindings(module.body@, i as nat, *current_module, source),
        decreases module.body@.len() - i,
    {
        match &module.body[i].item {
            ModuleItem::Import { source: module_name, specifiers, .. } => {
                let ghost start = imports@;
                let mut j: usize = 0;
                while j < specifiers.len()
                    invariant
                        j <= specifiers@.len(),
                        imports@ == start + spec_import_bindings(*module_name, specifiers@, source).take(j as int),
                        source == location_handler.source_location_key,
                    decreases specifiers@.len() - j,
                {
                    let b = import_binding(module_name, &specifiers[j], location_handler);
                    imports.push(b);
                    proof {
                        let all = spec_import_bindings(*module_name, specifiers@, source);
                        assert(all.take(j + 1) =~= all.take(j as int).push(all[j as int]));
                    }
                    j = j + 1;
                }
                proof {
                    let all = spec_import_bindings(*module_name, specifiers@, source);
                    assert(all.take(j as int) =~= all);
                }
            },
            ModuleItem::ExportDecl { decl: Decl::TypeAlias(a), .. } => {
                exports.push(
                    (
                        a.id.name.clone(),
                        ModuleResolutionKey {
                            module_name: current_module.clone(),
                            import_type: JSImportType::Named(a.id.name.clone()),
                        },
                    ),
                );
            },
            _ => {},
        }
        i = i + 1;
    }
    ModuleResolution { imports, exports }
}

} // verus!
