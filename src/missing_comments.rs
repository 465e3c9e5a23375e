//! Documentation rule: every documentable declaration should carry documentation.
use vstd::prelude::*;
use crate::ast::{Item, ItemKind};
use crate::result::{diagnostic, Diagnostic, Reporter, Severity};
use crate::scanner::{body_of, collect, lemma_collect_all, lemma_collect_step, Scanner};

verus! {

/// The warning for an undocumented declaration of this kind; `None` for the kinds that
/// cannot carry documentation (imports, pragmas, using declarations, variables).
pub open spec fn missing_comment_message(kind: ItemKind) -> Option<Seq<char>> {
    match kind {
        ItemKind::Contract(_) => Some("Missing comment on contract definition"@),
        ItemKind::Enum => Some("Missing comment on enum definition"@),
        ItemKind::Error => Some("Missing comment on error definition"@),
        ItemKind::Event => Some("Missing comment on event definition"@),
        ItemKind::Function(_, _) => Some("Missing comment for function definition"@),
        ItemKind::Struct(_) => Some("Missing comment for structure definition"@),
        ItemKind::Udt => Some("Missing comment for user-defined type definition"@),
        _ => None,
    }
}

/// Whether declarations of this kind are expected to be documented.
pub open spec fn is_documentable(kind: ItemKind) -> bool {
    missing_comment_message(kind) is Some
}

/// The rule's finding on one declaration, its body aside.
pub open spec fn comment_finding(item: Item) -> Seq<Diagnostic> {
    match missing_comment_message(item.kind) {
        Some(message) => if item.documented {
            Seq::empty()
        } else {
            seq![diagnostic(item.location, Severity::Warning, message)]
        },
        None => Seq::empty(),
    }
}

/// `comment_finding` as a function value, for `collect`.
pub open spec fn comment_check() -> spec_fn(Item) -> Seq<Diagnostic> {
    |item: Item| comment_finding(item)
}

/// A top-level declaration is checked, then the declarations of a contract's body.
pub open spec fn comment_top(item: Item) -> Seq<Diagnostic> {
    comment_finding(item) + collect(body_of(item), comment_check())
}

/// `comment_top` as a function value, for `collect`.
pub open spec fn comment_top_check() -> spec_fn(Item) -> Seq<Diagnostic> {
    |item: Item| comment_top(item)
}

/// For each declaration the rule inspects: exactly one warning, at the declaration, when it
/// is of a documentable kind and undocumented; nothing otherwise.
pub proof fn lemma_one_warning_per_undocumented(item: Item)
    ensures
        comment_finding(item).len() == if is_documentable(item.kind) && !item.documented {
            1int
        } else {
            0int
        },
        forall|k: int|
            0 <= k < comment_finding(item).len() ==> {
                let d = #[trigger] comment_finding(item)[k];
                &&& d.severity == Severity::Warning
                &&& d.line == item.location.line
                &&& d.column == item.location.column
            },
        (item.kind is Import || item.kind is Pragma || item.kind is Using
            || item.kind is Variable) ==> comment_finding(item).len() == 0,
{
}

/// The warning text for an undocumented declaration of the given kind.
pub fn missing_comment(kind: &ItemKind) -> (r: Option<&'static str>)
    ensures
        match r {
            Some(m) => missing_comment_message(*kind) == Some(m@),
            None => missing_comment_message(*kind) is None,
        },
{
    match kind {
        ItemKind::Contract(_) => Some("Missing comment on contract definition"),
        ItemKind::Enum => Some("Missing comment on enum definition"),
        ItemKind::Error => Some("Missing comment on error definition"),
        ItemKind::Event => Some("Missing comment on event definition"),
        ItemKind::Function(_, _) => Some("Missing comment for function definition"),
        ItemKind::Struct(_) => Some("Missing comment for structure definition"),
        ItemKind::Udt => Some("Missing comment for user-defined type definition"),
        _ => None,
    }
}

/// Reports declarations, and the declarations of contract bodies, that lack documentation.
#[derive(Debug, Default)]
pub struct MissingComments {}

impl MissingComments {
    /// Reports the declaration itself if it is documentable and undocumented.
    fn check_missing_comments(&self, item: &Item, reporter: &mut Reporter)
        ensures
            final(reporter)@ == old(reporter)@ + comment_finding(*item),
    {
        match missing_comment(&item.kind) {
            Some(message) => {
                if !item.documented {
                    reporter.report(
                        item.location.line,
                        item.location.column,
                        Severity::Warning,
                        message,
                    );
                    assert(reporter@ =~= old(reporter)@ + comment_finding(*item));
                } else {
                    assert(reporter@ =~= old(reporter)@ + comment_finding(*item));
                }
            },
            None => {
                assert(reporter@ =~= old(reporter)@ + comment_finding(*item));
            },
        }
    }

    /// Checks every declaration of a contract's body.
    fn scan_in_contract(&self, contract: &Item, reporter: &mut Reporter)
        ensures
            final(reporter)@ == old(reporter)@ + collect(body_of(*contract), comment_check()),
    {
        if let ItemKind::Contract(body) = &contract.kind {
            let mut i: usize = 0;
            while i < body.len()
                invariant
                    i <= body@.len(),
                    body@ == body_of(*contract),
                    reporter@ == old(reporter)@ + collect(body@.take(i as int), comment_check()),
                decreases body@.len() - i,
            {
                proof {
                    lemma_collect_step(body@, comment_check(), i as int);
                }
                self.check_missing_comments(&body[i], reporter);
                i += 1;
            }
            proof {
                lemma_collect_all(body@, comment_check());
            }
        } else {
            assert(collect(Seq::<Item>::empty(), comment_check()) =~= Seq::<Diagnostic>::empty());
            assert(reporter@ =~= old(reporter)@ + Seq::<Diagnostic>::empty());
        }
    }
}

impl Scanner for MissingComments {
    open spec fn findings(&self, ast: Seq<Item>) -> Seq<Diagnostic> {
        collect(ast, comment_top_check())
    }

    fn execute(&self, ast: &[Item], reporter: &mut Reporter) {
        let mut i: usize = 0;
        while i < ast.len()
            invariant
                i <= ast@.len(),
                reporter@ == old(reporter)@ + collect(ast@.take(i as int), comment_top_check()),
            decreases ast@.len() - i,
        {
            proof {
                lemma_collect_step(ast@, comment_top_check(), i as int);
            }
            let item = &ast[i];
            self.check_missing_comments(item, reporter);
            self.scan_in_contract(item, reporter);
            i += 1;
        }
        proof {
            lemma_collect_all(ast@, comment_top_check());
        }
    }
}

} // verus!
