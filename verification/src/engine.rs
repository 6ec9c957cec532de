//! The import rewrite engine: walks a module's statements once, in order,
//! and replaces each import whose source is configured by one or more
//! rewritten imports, passing every other statement through unchanged.

use vstd::prelude::*;
use crate::case::pipeline_of;
use crate::case::apply_member_transformers;
use crate::config::SubConfigView;
use crate::config::TransformVisitorConfigs;
use crate::config::TransformVisitorSubConfig;
use crate::config::config_for;
use crate::model::ImportDeclaration;
use crate::model::ImportDeclarationView;
use crate::model::ImportSpecifier;
use crate::model::ImportSpecifierView;
use crate::model::ModuleStatement;
use crate::model::ModuleStatementView;
use crate::model::clone_specifier;
use crate::model::clone_statement;
use crate::model::specifiers_view;
use crate::model::statements_view;
use crate::template::substituted;
use crate::template::substitute;

verus! {

/// Whether any specifier imports the whole module: a default or namespace
/// binding.
pub open spec fn has_full_import(sps: Seq<ImportSpecifierView>) -> bool {
    exists|i: int| 0 <= i < sps.len() && !(#[trigger] sps[i] is NamedImport)
}

/// The exported member name a named specifier stands for: the explicit
/// imported name where the specifier aliases, else the local binding name.
pub open spec fn member_name_of(sp: ImportSpecifierView) -> Seq<char>
    recommends
        sp is NamedImport,
{
    match sp {
        ImportSpecifierView::NamedImport { local, imported, .. } => match imported {
            Some(m) => m,
            None => local,
        },
        _ => Seq::empty(),
    }
}

/// The statements emitted for one specifier of a configured import
/// declaration: a named specifier becomes a member import (and a style
/// import where the policy asks for one); any other specifier is re-wrapped
/// unchanged as a single-specifier declaration.
pub open spec fn expanded_specifier(
    d: ImportDeclarationView,
    c: SubConfigView,
    sp: ImportSpecifierView,
) -> Seq<ModuleStatementView> {
    match sp {
        ImportSpecifierView::NamedImport { local, imported, is_type_only } => {
            let member = pipeline_of(member_name_of(sp), c.member_transformers);
            let main = ImportDeclarationView {
                source: substituted(c.transform, member),
                specifiers: seq![
                    if c.skip_default_conversion {
                        sp
                    } else {
                        ImportSpecifierView::DefaultImport { local }
                    },
                ],
                type_only: is_type_only,
                host_data: d.host_data,
            };
            match c.style {
                Some(style_template) => seq![
                    ModuleStatementView::ImportStmt(main),
                    ModuleStatementView::ImportStmt(
                        ImportDeclarationView {
                            source: substituted(style_template, member),
                            specifiers: Seq::empty(),
                            type_only: false,
                            host_data: d.host_data,
                        },
                    ),
                ],
                None => seq![ModuleStatementView::ImportStmt(main)],
            }
        },
        _ => seq![
            ModuleStatementView::ImportStmt(
                ImportDeclarationView {
                    source: d.source,
                    specifiers: seq![sp],
                    type_only: d.type_only,
                    host_data: d.host_data,
                },
            ),
        ],
    }
}

/// The statements emitted for a prefix of a configured declaration's
/// specifiers, each expanded independently, in order.
pub open spec fn expanded_specifiers(
    d: ImportDeclarationView,
    c: SubConfigView,
    sps: Seq<ImportSpecifierView>,
) -> Seq<ModuleStatementView>
    decreases sps.len(),
{
    if sps.len() == 0 {
        Seq::empty()
    } else {
        expanded_specifiers(d, c, sps.drop_last()) + expanded_specifier(d, c, sps.last())
    }
}

/// What one statement contributes to the output: itself where it is no
/// import or its source is unconfigured; the error naming the source where a
/// full import is forbidden; else its per-specifier expansion.
pub open spec fn statement_output(
    st: ModuleStatementView,
    cs: Seq<(Seq<char>, SubConfigView)>,
) -> Result<Seq<ModuleStatementView>, Seq<char>> {
    match st {
        ModuleStatementView::OtherStmt(_) => Ok(seq![st]),
        ModuleStatementView::ImportStmt(d) => match config_for(cs, d.source) {
            None => Ok(seq![st]),
            Some(c) => if has_full_import(d.specifiers) && c.prevent_full_import {
                Err(d.source)
            } else {
                Ok(expanded_specifiers(d, c, d.specifiers))
            },
        },
    }
}

/// The whole rewrite: the concatenation of every statement's output, in
/// original order, or the error of the first statement that fails.
pub open spec fn rewritten(
    sts: Seq<ModuleStatementView>,
    cs: Seq<(Seq<char>, SubConfigView)>,
) -> Result<Seq<ModuleStatementView>, Seq<char>>
    decreases sts.len(),
{
    if sts.len() == 0 {
        Ok(Seq::empty())
    } else {
        match rewritten(sts.drop_last(), cs) {
            Err(e) => Err(e),
            Ok(front) => match statement_output(sts.last(), cs) {
                Err(e) => Err(e),
                Ok(tail) => Ok(front + tail),
            },
        }
    }
}

fn has_full_import_exec(sps: &Vec<ImportSpecifier>) -> (r: bool)
    ensures
        r == has_full_import(specifiers_view(sps@)),
{
    let mut i: usize = 0;
    while i < sps.len()
        invariant
            0 <= i <= sps@.len(),
            forall|j: int| 0 <= j < i ==> #[trigger] specifiers_view(sps@)[j] is NamedImport,
        decreases sps@.len() - i,
    {
        match &sps[i] {
            ImportSpecifier::NamedImport { .. } => {
                proof {
                    assert(specifiers_view(sps@)[i as int] is NamedImport);
                }
            },
            _ => {
                proof {
                    assert(!(specifiers_view(sps@)[i as int] is NamedImport));
                }
                return true;
            },
        }
        i = i + 1;
    }
    false
}

/// Emit the statements for one specifier of a configured declaration onto
/// the end of `out`.
fn expand_one_specifier(
    d: &ImportDeclaration,
    c: &TransformVisitorSubConfig,
    sp: &ImportSpecifier,
    out: &mut Vec<ModuleStatement>,
)
    ensures
        statements_view(final(out)@) == statements_view(old(out)@) + expanded_specifier(
            d@,
            c@,
            sp@,
        ),
{
    match sp {
        ImportSpecifier::NamedImport { local, imported, is_type_only } => {
            let member: &String = match imported {
                Some(m) => m,
                None => local,
            };
            let transformed = apply_member_transformers(member.as_str(), &c.member_transformers);
            let path = substitute(c.transform.as_str(), transformed.as_str());
            let new_spec = if c.skip_default_conversion {
                clone_specifier(sp)
            } else {
                ImportSpecifier::DefaultImport { local: local.clone() }
            };
            proof {
                assert(member@ == member_name_of(sp@));
            }
            let mut specs: Vec<ImportSpecifier> = Vec::new();
            specs.push(new_spec);
            let main = ImportDeclaration {
                source: path,
                specifiers: specs,
                type_only: *is_type_only,
                host_data: d.host_data,
            };
            out.push(ModuleStatement::ImportStmt(main));
            match &c.style {
                Some(style_template) => {
                    let style_path = substitute(style_template.as_str(), transformed.as_str());
                    let style_decl = ImportDeclaration {
                        source: style_path,
                        specifiers: Vec::new(),
                        type_only: false,
                        host_data: d.host_data,
                    };
                    out.push(ModuleStatement::ImportStmt(style_decl));
                },
                None => {},
            }
            proof {
                assert(statements_view(out@) =~~= statements_view(old(out)@) + expanded_specifier(
                    d@,
                    c@,
                    sp@,
                ));
            }
        },
        _ => {
            let mut specs: Vec<ImportSpecifier> = Vec::new();
            specs.push(clone_specifier(sp));
            let decl = ImportDeclaration {
                source: d.source.clone(),
                specifiers: specs,
                type_only: d.type_only,
                host_data: d.host_data,
            };
            out.push(ModuleStatement::ImportStmt(decl));
            proof {
                assert(statements_view(out@) =~~= statements_view(old(out)@) + expanded_specifier(
                    d@,
                    c@,
                    sp@,
                ));
            }
        },
    }
}

proof fn lemma_expanded_specifiers_snoc(
    d: ImportDeclarationView,
    c: SubConfigView,
    sps: Seq<ImportSpecifierView>,
    i: int,
)
    requires
        0 <= i < sps.len(),
    ensures
        expanded_specifiers(d, c, sps.take(i + 1)) == expanded_specifiers(d, c, sps.take(i))
            + expanded_specifier(d, c, sps[i]),
{
    assert(sps.take(i + 1).drop_last() =~= sps.take(i));
    assert(sps.take(i + 1).last() == sps[i]);
}

/// Emit the statements for every specifier of a configured declaration, in
/// original specifier order, onto the end of `out`.
fn expand_import(
    d: &ImportDeclaration,
    c: &TransformVisitorSubConfig,
    out: &mut Vec<ModuleStatement>,
)
    ensures
        statements_view(final(out)@) == statements_view(old(out)@) + expanded_specifiers(
            d@,
            c@,
            d@.specifiers,
        ),
{
    let ghost base = statements_view(out@);
    let mut i: usize = 0;
    proof {
        assert(statements_view(out@) =~= base + expanded_specifiers(
            d@,
            c@,
            d@.specifiers.take(0),
        ));
    }
    while i < d.specifiers.len()
        invariant
            0 <= i <= d.specifiers@.len(),
            d@.specifiers.len() == d.specifiers@.len(),
            statements_view(out@) == base + expanded_specifiers(
                d@,
                c@,
                d@.specifiers.take(i as int),
            ),
        decreases d.specifiers@.len() - i,
    {
        expand_one_specifier(d, c, &d.specifiers[i], out);
        proof {
            lemma_expanded_specifiers_snoc(d@, c@, d@.specifiers, i as int);
            assert(statements_view(out@) =~= base + expanded_specifiers(
                d@,
                c@,
                d@.specifiers.take(i as int + 1),
            ));
        }
        i = i + 1;
    }
    proof {
        assert(d@.specifiers.take(d@.specifiers.len() as int) =~= d@.specifiers);
        assert(statements_view(out@) =~= statements_view(old(out)@) + expanded_specifiers(
            d@,
            c@,
            d@.specifiers,
        ));
    }
}

proof fn lemma_rewritten_snoc(
    sts: Seq<ModuleStatementView>,
    cs: Seq<(Seq<char>, SubConfigView)>,
    i: int,
)
    requires
        0 <= i < sts.len(),
    ensures
        rewritten(sts.take(i + 1), cs) == match rewritten(sts.take(i), cs) {
            Err(e) => Err(e),
            Ok(front) => match statement_output(sts[i], cs) {
                Err(e) => Err(e),
                Ok(tail) => Ok(front + tail),
            },
        },
{
    assert(sts.take(i + 1).drop_last() =~= sts.take(i));
    assert(sts.take(i + 1).last() == sts[i]);
}

/// Once one statement's output is the error and every statement before it
/// succeeds, the whole rewrite is that error: later statements cannot mask
/// it.
proof fn lemma_rewritten_error(
    sts: Seq<ModuleStatementView>,
    cs: Seq<(Seq<char>, SubConfigView)>,
    i: int,
    e: Seq<char>,
)
    requires
        0 <= i < sts.len(),
        rewritten(sts.take(i), cs) is Ok,
        statement_output(sts[i], cs) == Err::<Seq<ModuleStatementView>, Seq<char>>(e),
    ensures
        rewritten(sts, cs) == Err::<Seq<ModuleStatementView>, Seq<char>>(e),
    decreases sts.len(),
{
    if i == sts.len() - 1 {
        assert(sts.take(i + 1) =~= sts);
        lemma_rewritten_snoc(sts, cs, i);
    } else {
        let front = sts.drop_last();
        assert(front.take(i) =~= sts.take(i));
        assert(front[i] == sts[i]);
        lemma_rewritten_error(front, cs, i, e);
    }
}

/// The engine: a configuration table, applied to one module's statement
/// sequence at a time.
pub struct TransformVisitor {
    pub configs: TransformVisitorConfigs,
}

/// The fatal error of the rewrite: a configured source that forbids full
/// imports was imported via a default or namespace specifier.
#[derive(Debug, PartialEq, Eq, Clone)]
pub struct RewriteError {
    /// The offending import source string.
    pub source: String,
}

impl View for RewriteError {
    type V = Seq<char>;

    open spec fn view(&self) -> Seq<char> {
        self.source@
    }
}

impl TransformVisitor {
    /// Rewrite one module's statement sequence: every import of a configured
    /// source is expanded specifier by specifier, every other statement is
    /// kept as it stands, and the first forbidden full import aborts the
    /// whole transform.
    pub fn rewrite_module_items(&self, statements: &Vec<ModuleStatement>) -> (r: Result<
        Vec<ModuleStatement>,
        RewriteError,
    >)
        ensures
            match r {
                Ok(out) => rewritten(statements_view(statements@), self.configs@) == Ok::<
                    Seq<ModuleStatementView>,
                    Seq<char>,
                >(statements_view(out@)),
                Err(e) => rewritten(statements_view(statements@), self.configs@) == Err::<
                    Seq<ModuleStatementView>,
                    Seq<char>,
                >(e@),
            },
    {
        let ghost svs = statements_view(statements@);
        let mut out: Vec<ModuleStatement> = Vec::new();
        let mut i: usize = 0;
        proof {
            assert(svs.take(0) =~= Seq::<ModuleStatementView>::empty());
            assert(statements_view(out@) =~= Seq::<ModuleStatementView>::empty());
        }
        while i < statements.len()
            invariant
                0 <= i <= statements@.len(),
                svs == statements_view(statements@),
                svs.len() == statements@.len(),
                rewritten(svs.take(i as int), self.configs@) == Ok::<
                    Seq<ModuleStatementView>,
                    Seq<char>,
                >(statements_view(out@)),
            decreases statements@.len() - i,
        {
            proof {
                lemma_rewritten_snoc(svs, self.configs@, i as int);
            }
            let ghost out_before = statements_view(out@);
            match &statements[i] {
                ModuleStatement::ImportStmt(d) => {
                    match self.configs.lookup(d.source.as_str()) {
                        Some(c) => {
                            if c.prevent_full_import && has_full_import_exec(&d.specifiers) {
                                let err = RewriteError { source: d.source.clone() };
                                proof {
                                    lemma_rewritten_error(svs, self.configs@, i as int, err@);
                                }
                                return Err(err);
                            }
                            expand_import(d, c, &mut out);
                        },
                        None => {
                            out.push(clone_statement(&statements[i]));
                            proof {
                                assert(statements_view(out@) =~= out_before + seq![svs[i as int]]);
                            }
                        },
                    }
                },
                ModuleStatement::OtherStmt(_) => {
                    out.push(clone_statement(&statements[i]));
                    proof {
                        assert(statements_view(out@) =~= out_before + seq![svs[i as int]]);
                    }
                },
            }
            i = i + 1;
        }
        proof {
            assert(svs.take(svs.len() as int) =~= svs);
        }
        Ok(out)
    }
}

/// Where no statement is an import of a configured source, the rewrite is
/// the identity on the whole statement sequence.
pub proof fn lemma_unconfigured_identity(
    sts: Seq<ModuleStatementView>,
    cs: Seq<(Seq<char>, SubConfigView)>,
)
    requires
        forall|i: int| 0 <= i < sts.len() ==> match #[trigger] sts[i] {
            ModuleStatementView::ImportStmt(d) => config_for(cs, d.source) is None,
            ModuleStatementView::OtherStmt(_) => true,
        },
    ensures
        rewritten(sts, cs) == Ok::<Seq<ModuleStatementView>, Seq<char>>(sts),
    decreases sts.len(),
{
    if sts.len() == 0 {
        assert(sts =~= Seq::<ModuleStatementView>::empty());
    } else {
        let front = sts.drop_last();
        assert(forall|i: int| 0 <= i < front.len() ==> front[i] == sts[i]);
        lemma_unconfigured_identity(front, cs);
        assert(statement_output(sts.last(), cs) == Ok::<Seq<ModuleStatementView>, Seq<char>>(
            seq![sts.last()],
        ));
        assert(front + seq![sts.last()] =~= sts);
    }
}

/// With `style` absent, a configured declaration with `k` specifiers is
/// replaced by exactly `k` statements: one per named specifier, and one per
/// other specifier passed through.
pub proof fn lemma_expansion_count_without_style(
    d: ImportDeclarationView,
    c: SubConfigView,
    sps: Seq<ImportSpecifierView>,
)
    requires
        c.style is None,
    ensures
        expanded_specifiers(d, c, sps).len() == sps.len(),
    decreases sps.len(),
{
    if sps.len() > 0 {
        lemma_expansion_count_without_style(d, c, sps.drop_last());
    }
}

/// With `style` present, one named specifier emits exactly two statements,
/// adjacent and in order: the member import, then the side-effect style
/// import computed from the style template.
pub proof fn lemma_named_specifier_with_style(
    d: ImportDeclarationView,
    c: SubConfigView,
    local: Seq<char>,
    imported: Option<Seq<char>>,
    is_type_only: bool,
)
    requires
        c.style is Some,
    ensures
        ({
            let sp = ImportSpecifierView::NamedImport { local, imported, is_type_only };
            let member = pipeline_of(member_name_of(sp), c.member_transformers);
            let style_template = match c.style {
                Some(t) => t,
                None => Seq::empty(),
            };
            let out = expanded_specifier(d, c, sp);
            &&& out.len() == 2
            &&& out[0] == ModuleStatementView::ImportStmt(
                ImportDeclarationView {
                    source: substituted(c.transform, member),
                    specifiers: seq![
                        if c.skip_default_conversion {
                            sp
                        } else {
                            ImportSpecifierView::DefaultImport { local }
                        },
                    ],
                    type_only: is_type_only,
                    host_data: d.host_data,
                },
            )
            &&& out[1] == ModuleStatementView::ImportStmt(
                ImportDeclarationView {
                    source: substituted(style_template, member),
                    specifiers: Seq::empty(),
                    type_only: false,
                    host_data: d.host_data,
                },
            )
        }),
{
}

proof fn lemma_rewritten_prefix_error(
    sts: Seq<ModuleStatementView>,
    cs: Seq<(Seq<char>, SubConfigView)>,
    i: int,
)
    requires
        0 <= i <= sts.len(),
        rewritten(sts.take(i), cs) is Err,
    ensures
        rewritten(sts, cs) is Err,
    decreases sts.len() - i,
{
    if i == sts.len() {
        assert(sts.take(i) =~= sts);
    } else {
        lemma_rewritten_snoc(sts, cs, i);
        lemma_rewritten_prefix_error(sts, cs, i + 1);
    }
}

/// A default or namespace specifier on a configured source whose policy
/// forbids full imports aborts the whole rewrite, whatever other statements
/// or specifiers are present.
pub proof fn lemma_prevent_full_import_aborts(
    sts: Seq<ModuleStatementView>,
    cs: Seq<(Seq<char>, SubConfigView)>,
    i: int,
    d: ImportDeclarationView,
)
    requires
        0 <= i < sts.len(),
        sts[i] == ModuleStatementView::ImportStmt(d),
        config_for(cs, d.source) matches Some(c) && c.prevent_full_import,
        has_full_import(d.specifiers),
    ensures
        rewritten(sts, cs) is Err,
{
    assert(statement_output(sts[i], cs) == Err::<Seq<ModuleStatementView>, Seq<char>>(d.source));
    if rewritten(sts.take(i), cs) is Ok {
        lemma_rewritten_error(sts, cs, i, d.source);
    } else {
        lemma_rewritten_prefix_error(sts, cs, i);
    }
}

} // verus!

