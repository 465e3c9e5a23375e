//! Mutable-function rule: contract functions that may change contract state.
use vstd::prelude::*;
use crate::ast::{FunctionAttribute, FunctionKind, Item, ItemKind, Mutability};
use crate::result::{diagnostic, Diagnostic, Reporter, Severity};
use crate::scanner::{body_of, collect, lemma_collect_all, lemma_collect_step, Scanner};

verus! {

/// The message of the rule's finding.
pub open spec fn mutable_function_message() -> Seq<char> {
    "Function can mutate contract state"@
}

/// A qualifier that keeps a function from writing state: pure, view or constant.
pub open spec fn is_immutability_qualifier(a: FunctionAttribute) -> bool {
    a == FunctionAttribute::Mutability(Mutability::Pure) || a == FunctionAttribute::Mutability(
        Mutability::View,
    ) || a == FunctionAttribute::Mutability(Mutability::Constant)
}

/// Whether some attribute qualifies the function as not writing state.
pub open spec fn has_immutability_qualifier(attributes: Seq<FunctionAttribute>) -> bool {
    exists|k: int| 0 <= k < attributes.len() && #[trigger] is_immutability_qualifier(attributes[k])
}

/// The rule's finding on one declaration of a contract body.
pub open spec fn function_finding(item: Item) -> Seq<Diagnostic> {
    match item.kind {
        ItemKind::Function(kind, attributes) => if kind != FunctionKind::Modifier
            && !has_immutability_qualifier(attributes@) {
            seq![diagnostic(item.location, Severity::Info, mutable_function_message())]
        } else {
            Seq::empty()
        },
        _ => Seq::empty(),
    }
}

/// `function_finding` as a function value, for `collect`.
pub open spec fn function_check() -> spec_fn(Item) -> Seq<Diagnostic> {
    |item: Item| function_finding(item)
}

/// Only functions inside top-level contracts are inspected.
pub open spec fn function_top_check() -> spec_fn(Item) -> Seq<Diagnostic> {
    |item: Item| collect(body_of(item), function_check())
}

/// A function qualified pure, view or constant is never reported, nor is a modifier; every
/// other function is reported exactly once, as an `Info` at its location.
pub proof fn lemma_mutable_function_reported_once(item: Item)
    requires
        item.kind is Function,
    ensures
        ({
            let (kind, attributes) = (item.kind->Function_0, item.kind->Function_1@);
            if kind == FunctionKind::Modifier || has_immutability_qualifier(attributes) {
                function_finding(item).len() == 0
            } else {
                function_finding(item) == seq![
                    diagnostic(item.location, Severity::Info, mutable_function_message()),
                ]
            }
        }),
{
}

/// Reports the functions of contracts that may mutate contract state.
#[derive(Debug, Default)]
pub struct MutableFunctions {}

impl MutableFunctions {
    /// Checks each function of a contract's body.
    fn scan_contract(&self, contract: &Item, reporter: &mut Reporter)
        ensures
            final(reporter)@ == old(reporter)@ + collect(body_of(*contract), function_check()),
    {
        if let ItemKind::Contract(body) = &contract.kind {
            let mut i: usize = 0;
            while i < body.len()
                invariant
                    i <= body@.len(),
                    body@ == body_of(*contract),
                    reporter@ == old(reporter)@ + collect(body@.take(i as int), function_check()),
                decreases body@.len() - i,
            {
                proof {
                    lemma_collect_step(body@, function_check(), i as int);
                }
                self.scan_function(&body[i], reporter);
                i += 1;
            }
            proof {
                lemma_collect_all(body@, function_check());
            }
        } else {
            assert(collect(Seq::<Item>::empty(), function_check()) =~= Seq::<Diagnostic>::empty());
            assert(reporter@ =~= old(reporter)@ + Seq::<Diagnostic>::empty());
        }
    }

    /// Reports a non-modifier function that carries no immutability qualifier.
    fn scan_function(&self, function: &Item, reporter: &mut Reporter)
        ensures
            final(reporter)@ == old(reporter)@ + function_finding(*function),
    {
        if let ItemKind::Function(kind, attributes) = &function.kind {
            if matches!(kind, FunctionKind::Modifier) {
                assert(reporter@ =~= old(reporter)@ + function_finding(*function));
                return;
            }
            let mut i: usize = 0;
            while i < attributes.len()
                invariant
                    i <= attributes@.len(),
                    function.kind == ItemKind::Function(*kind, *attributes),
                    reporter@ == old(reporter)@,
                    forall|k: int| 0 <= k < i ==> !is_immutability_qualifier(#[trigger] attributes@[k]),
                decreases attributes@.len() - i,
            {
                match &attributes[i] {
                    FunctionAttribute::Mutability(Mutability::Pure)
                    | FunctionAttribute::Mutability(Mutability::View)
                    | FunctionAttribute::Mutability(Mutability::Constant) => {
                        assert(is_immutability_qualifier(attributes@[i as int]));
                        assert(reporter@ =~= old(reporter)@ + function_finding(*function));
                        return;
                    },
                    _ => {},
                }
                i += 1;
            }
            reporter.report(
                function.location.line,
                function.location.column,
                Severity::Info,
                "Function can mutate contract state",
            );
            assert(reporter@ =~= old(reporter)@ + function_finding(*function));
        } else {
            assert(reporter@ =~= old(reporter)@ + function_finding(*function));
        }
    }
}

impl Scanner for MutableFunctions {
    open spec fn findings(&self, ast: Seq<Item>) -> Seq<Diagnostic> {
        collect(ast, function_top_check())
    }

    fn execute(&self, ast: &[Item], reporter: &mut Reporter) {
        let mut i: usize = 0;
        while i < ast.len()
            invariant
                i <= ast@.len(),
                reporter@ == old(reporter)@ + collect(ast@.take(i as int), function_top_check()),
            decreases ast@.len() - i,
        {
            proof {
                lemma_collect_step(ast@, function_top_check(), i as int);
            }
            self.scan_contract(&ast[i], reporter);
            i += 1;
        }
        proof {
            lemma_collect_all(ast@, function_top_check());
        }
    }
}

} // verus!
