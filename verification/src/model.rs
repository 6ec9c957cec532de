//! The engine's model of the host's module tree: an import declaration with
//! its source string, ordered specifiers and flags, and an opaque handle for
//! everything the engine never reads (the host's position data and attribute
//! clause). The host converts its own tree representation to and from this
//! model around one engine call.

use vstd::prelude::*;

verus! {

/// One binding clause of an import declaration.
#[derive(Debug, PartialEq, Eq, Clone)]
pub enum ImportSpecifier {
    /// Binds the module's default export to a local name.
    DefaultImport { local: String },
    /// Binds the whole module to a local name.
    NamespaceImport { local: String },
    /// Binds one exported member, optionally under an alias: `imported` is
    /// the exported member name where it differs from the local binding.
    NamedImport { local: String, imported: Option<String>, is_type_only: bool },
}

/// The mathematical value of one specifier.
#[verifier::ext_equal]
pub enum ImportSpecifierView {
    DefaultImport { local: Seq<char> },
    NamespaceImport { local: Seq<char> },
    NamedImport { local: Seq<char>, imported: Option<Seq<char>>, is_type_only: bool },
}

impl View for ImportSpecifier {
    type V = ImportSpecifierView;

    open spec fn view(&self) -> ImportSpecifierView {
        match self {
            ImportSpecifier::DefaultImport { local } => ImportSpecifierView::DefaultImport {
                local: local@,
            },
            ImportSpecifier::NamespaceImport { local } => ImportSpecifierView::NamespaceImport {
                local: local@,
            },
            ImportSpecifier::NamedImport { local, imported, is_type_only } => (
            ImportSpecifierView::NamedImport {
                local: local@,
                imported: match imported {
                    Some(s) => Some(s@),
                    None => None,
                },
                is_type_only: *is_type_only,
            }),
        }
    }
}

/// One import declaration: a source string, its specifiers in order, the
/// declaration-level type-only flag, and the opaque host handle.
#[derive(Debug, PartialEq, Eq, Clone)]
pub struct ImportDeclaration {
    pub source: String,
    pub specifiers: Vec<ImportSpecifier>,
    pub type_only: bool,
    /// Opaque host bookkeeping (position data and the attribute clause). The
    /// engine never reads it; it is copied onto every statement emitted for
    /// this declaration, so the host can restore what it stands for.
    pub host_data: u64,
}

/// The mathematical value of one import declaration.
#[verifier::ext_equal]
pub struct ImportDeclarationView {
    pub source: Seq<char>,
    pub specifiers: Seq<ImportSpecifierView>,
    pub type_only: bool,
    pub host_data: u64,
}

/// The values of a specifier sequence.
pub open spec fn specifiers_view(v: Seq<ImportSpecifier>) -> Seq<ImportSpecifierView> {
    v.map_values(|s: ImportSpecifier| s@)
}

impl View for ImportDeclaration {
    type V = ImportDeclarationView;

    open spec fn view(&self) -> ImportDeclarationView {
        ImportDeclarationView {
            source: self.source@,
            specifiers: specifiers_view(self.specifiers@),
            type_only: self.type_only,
            host_data: self.host_data,
        }
    }
}

/// One top-level module statement, as the engine sees it: an import
/// declaration, or any other statement, opaque behind a host handle.
#[derive(Debug, PartialEq, Eq, Clone)]
pub enum ModuleStatement {
    ImportStmt(ImportDeclaration),
    /// A statement the engine never rewrites, carried through by handle.
    OtherStmt(u64),
}

/// The mathematical value of one module statement.
#[verifier::ext_equal]
pub enum ModuleStatementView {
    ImportStmt(ImportDeclarationView),
    OtherStmt(u64),
}

impl View for ModuleStatement {
    type V = ModuleStatementView;

    open spec fn view(&self) -> ModuleStatementView {
        match self {
            ModuleStatement::ImportStmt(d) => ModuleStatementView::ImportStmt(d@),
            ModuleStatement::OtherStmt(h) => ModuleStatementView::OtherStmt(*h),
        }
    }
}

/// The values of a whole statement sequence.
pub open spec fn statements_view(v: Seq<ModuleStatement>) -> Seq<ModuleStatementView> {
    v.map_values(|s: ModuleStatement| s@)
}

fn clone_opt_string(s: &Option<String>) -> (r: Option<String>)
    ensures
        match (r, s) {
            (Some(a), Some(b)) => a@ == b@,
            (None, None) => true,
            _ => false,
        },
{
    match s {
        Some(v) => Some(v.clone()),
        None => None,
    }
}

/// An equal copy of a specifier.
pub fn clone_specifier(s: &ImportSpecifier) -> (r: ImportSpecifier)
    ensures
        r@ == s@,
{
    match s {
        ImportSpecifier::DefaultImport { local } => ImportSpecifier::DefaultImport {
            local: local.clone(),
        },
        ImportSpecifier::NamespaceImport { local } => ImportSpecifier::NamespaceImport {
            local: local.clone(),
        },
        ImportSpecifier::NamedImport { local, imported, is_type_only } => (
        ImportSpecifier::NamedImport {
            local: local.clone(),
            imported: clone_opt_string(imported),
            is_type_only: *is_type_only,
        }),
    }
}

/// An equal copy of an import declaration.
pub fn clone_declaration(d: &ImportDeclaration) -> (r: ImportDeclaration)
    ensures
        r@ == d@,
{
    let mut specifiers: Vec<ImportSpecifier> = Vec::new();
    let mut i: usize = 0;
    while i < d.specifiers.len()
        invariant
            0 <= i <= d.specifiers@.len(),
            specifiers@.len() == i,
            forall|j: int| 0 <= j < i ==> specifiers@[j]@ == d.specifiers@[j]@,
        decreases d.specifiers@.len() - i,
    {
        specifiers.push(clone_specifier(&d.specifiers[i]));
        i = i + 1;
    }
    let r = ImportDeclaration {
        source: d.source.clone(),
        specifiers,
        type_only: d.type_only,
        host_data: d.host_data,
    };
    proof {
        assert(r@.specifiers =~= d@.specifiers);
    }
    r
}

/// An equal copy of a statement.
pub fn clone_statement(s: &ModuleStatement) -> (r: ModuleStatement)
    ensures
        r@ == s@,
{
    match s {
        ModuleStatement::ImportStmt(d) => ModuleStatement::ImportStmt(clone_declaration(d)),
        ModuleStatement::OtherStmt(h) => ModuleStatement::OtherStmt(*h),
    }
}

} // verus!
