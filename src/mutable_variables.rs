//! Mutable-variable rule: contract state variables that may change after deployment.
use vstd::prelude::*;
use crate::ast::{Item, ItemKind, VariableAttribute};
use crate::result::{diagnostic, Diagnostic, Reporter, Severity};
use crate::scanner::{body_of, collect, lemma_collect_all, lemma_collect_step, Scanner};

verus! {

/// The message of the rule's finding.
pub open spec fn mutable_variable_message() -> Seq<char> {
    "Variable state can be changed"@
}

/// A qualifier that fixes a variable's value: constant or immutable.
pub open spec fn is_immutability_qualifier(a: VariableAttribute) -> bool {
    a == VariableAttribute::Constant || a == VariableAttribute::Immutable
}

/// Whether some attribute fixes the variable's value.
pub open spec fn has_immutability_qualifier(attributes: Seq<VariableAttribute>) -> bool {
    exists|k: int| 0 <= k < attributes.len() && #[trigger] is_immutability_qualifier(attributes[k])
}

/// The rule's finding on one declaration of a contract body.
pub open spec fn variable_finding(item: Item) -> Seq<Diagnostic> {
    match item.kind {
        ItemKind::Variable(attributes) => if !has_immutability_qualifier(attributes@) {
            seq![diagnostic(item.location, Severity::Info, mutable_variable_message())]
        } else {
            Seq::empty()
        },
        _ => Seq::empty(),
    }
}

/// `variable_finding` as a function value, for `collect`.
pub open spec fn variable_check() -> spec_fn(Item) -> Seq<Diagnostic> {
    |item: Item| variable_finding(item)
}

/// Only state variables of top-level contracts are inspected.
pub open spec fn variable_top_check() -> spec_fn(Item) -> Seq<Diagnostic> {
    |item: Item| collect(body_of(item), variable_check())
}

/// A variable qualified constant or immutable is never reported; every other state variable
/// is reported exactly once, as an `Info` at its location.
pub proof fn lemma_mutable_variable_reported_once(item: Item)
    requires
        item.kind is Variable,
    ensures
        if has_immutability_qualifier(item.kind->Variable_0@) {
            variable_finding(item).len() == 0
        } else {
            variable_finding(item) == seq![
                diagnostic(item.location, Severity::Info, mutable_variable_message()),
            ]
        },
{
}

/// Reports the state variables of contracts whose value can change.
#[derive(Debug, Default)]
pub struct MutableVariables {}

impl MutableVariables {
    /// Checks each variable of a contract's body.
    fn scan_contract(&self, contract: &Item, reporter: &mut Reporter)
        ensures
            final(reporter)@ == old(reporter)@ + collect(body_of(*contract), variable_check()),
    {
        if let ItemKind::Contract(body) = &contract.kind {
            let mut i: usize = 0;
            while i < body.len()
                invariant
                    i <= body@.len(),
                    body@ == body_of(*contract),
                    reporter@ == old(reporter)@ + collect(body@.take(i as int), variable_check()),
                decreases body@.len() - i,
            {
                proof {
                    lemma_collect_step(body@, variable_check(), i as int);
                }
                self.scan_variable(&body[i], reporter);
                i += 1;
            }
            proof {
                lemma_collect_all(body@, variable_check());
            }
        } else {
            assert(collect(Seq::<Item>::empty(), variable_check()) =~= Seq::<Diagnostic>::empty());
            assert(reporter@ =~= old(reporter)@ + Seq::<Diagnostic>::empty());
        }
    }

    /// Reports a variable that is neither constant nor immutable.
    fn scan_variable(&self, variable: &Item, reporter: &mut Reporter)
        ensures
            final(reporter)@ == old(reporter)@ + variable_finding(*variable),
    {
        if let ItemKind::Variable(attributes) = &variable.kind {
            let mut i: usize = 0;
            while i < attributes.len()
                invariant
                    i <= attributes@.len(),
                    variable.kind == ItemKind::Variable(*attributes),
                    reporter@ == old(reporter)@,
                    forall|k: int| 0 <= k < i ==> !is_immutability_qualifier(#[trigger] attributes@[k]),
                decreases attributes@.len() - i,
            {
                match &attributes[i] {
                    VariableAttribute::Constant | VariableAttribute::Immutable => {
                        assert(is_immutability_qualifier(attributes@[i as int]));
                        assert(reporter@ =~= old(reporter)@ + variable_finding(*variable));
                        return;
                    },
                    _ => {},
                }
                i += 1;
            }
            reporter.report(
                variable.location.line,
                variable.location.column,
                Severity::Info,
                "Variable state can be changed",
            );
            assert(reporter@ =~= old(reporter)@ + variable_finding(*variable));
        } else {
            assert(reporter@ =~= old(reporter)@ + variable_finding(*variable));
        }
    }
}

impl Scanner for MutableVariables {
    open spec fn findings(&self, ast: Seq<Item>) -> Seq<Diagnostic> {
        collect(ast, variable_top_check())
    }

    fn execute(&self, ast: &[Item], reporter: &mut Reporter) {
        let mut i: usize = 0;
        while i < ast.len()
            invariant
                i <= ast@.len(),
                reporter@ == old(reporter)@ + collect(ast@.take(i as int), variable_top_check()),
            decreases ast@.len() - i,
        {
            proof {
                lemma_collect_step(ast@, variable_top_check(), i as int);
            }
            self.scan_contract(&ast[i], reporter);
            i += 1;
        }
        proof {
            lemma_collect_all(ast@, variable_top_check());
        }
    }
}

} // verus!
