//! The ordered collection of rules that a scan runs.
use vstd::prelude::*;
use crate::ast::Item;
use crate::missing_comments::MissingComments;
use crate::mutable_functions::MutableFunctions;
use crate::mutable_variables::MutableVariables;
use crate::mutation_grapher::MutationGrapher;
use crate::result::{Diagnostic, Reporter};
use crate::scanner::Scanner;
use crate::struct_repacker::StructRepacker;
use crate::unused_imports::UnusedImports;

verus! {

/// One rule of the engine.
#[derive(Debug)]
pub enum Rule {
    MissingComments(MissingComments),
    UnusedImports(UnusedImports),
    MutableVariables(MutableVariables),
    MutableFunctions(MutableFunctions),
    StructRepacker(StructRepacker),
    MutationGrapher(MutationGrapher),
}

impl Scanner for Rule {
    open spec fn findings(&self, ast: Seq<Item>) -> Seq<Diagnostic> {
        match self {
            Rule::MissingComments(s) => s.findings(ast),
            Rule::UnusedImports(s) => s.findings(ast),
            Rule::MutableVariables(s) => s.findings(ast),
            Rule::MutableFunctions(s) => s.findings(ast),
            Rule::StructRepacker(s) => s.findings(ast),
            Rule::MutationGrapher(s) => s.findings(ast),
        }
    }

    fn execute(&self, ast: &[Item], reporter: &mut Reporter) {
        match self {
            Rule::MissingComments(s) => s.execute(ast, reporter),
            Rule::UnusedImports(s) => s.execute(ast, reporter),
            Rule::MutableVariables(s) => s.execute(ast, reporter),
            Rule::MutableFunctions(s) => s.execute(ast, reporter),
            Rule::StructRepacker(s) => s.execute(ast, reporter),
            Rule::MutationGrapher(s) => s.execute(ast, reporter),
        }
    }
}

/// The default rules, in the order in which they run.
pub open spec fn default_rules() -> Seq<Rule> {
    seq![
        Rule::MissingComments(MissingComments {}),
        Rule::UnusedImports(UnusedImports {}),
        Rule::MutableVariables(MutableVariables {}),
        Rule::MutableFunctions(MutableFunctions {}),
        Rule::StructRepacker(StructRepacker {}),
        Rule::MutationGrapher(MutationGrapher {}),
    ]
}

/// The findings of the rules on `ast`, rule after rule.
pub open spec fn run_rules(rules: Seq<Rule>, ast: Seq<Item>) -> Seq<Diagnostic>
    decreases rules.len(),
{
    if rules.len() == 0 {
        Seq::empty()
    } else {
        run_rules(rules.drop_last(), ast) + rules.last().findings(ast)
    }
}

/// The rules after `extra` has been registered, one rule after the other.
pub open spec fn after_registering(rules: Seq<Rule>, extra: Seq<Rule>) -> Seq<Rule>
    decreases extra.len(),
{
    if extra.len() == 0 {
        rules
    } else {
        after_registering(rules, extra.drop_last()).push(extra.last())
    }
}

/// Registering `n` rules adds exactly `n` rules, after the ones already there and in order.
pub proof fn lemma_register_adds_count(rules: Seq<Rule>, extra: Seq<Rule>)
    ensures
        after_registering(rules, extra).len() == rules.len() + extra.len(),
        after_registering(rules, extra) == rules + extra,
    decreases extra.len(),
{
    if extra.len() > 0 {
        lemma_register_adds_count(rules, extra.drop_last());
        assert(rules + extra =~= (rules + extra.drop_last()).push(extra.last()));
    } else {
        assert(rules + extra =~= rules);
    }
}

/// The ordered rule set of a scan.
#[derive(Debug)]
pub struct Registry {
    scanners: Vec<Rule>,
}

impl View for Registry {
    type V = Seq<Rule>;

    closed spec fn view(&self) -> Seq<Rule> {
        self.scanners@
    }
}

impl Default for Registry {
    /// The six default rules, always in the same order.
    fn default() -> (r: Registry)
        ensures
            r@ == default_rules(),
    {
        let r = Registry {
            scanners: vec![
                Rule::MissingComments(MissingComments {}),
                Rule::UnusedImports(UnusedImports {}),
                Rule::MutableVariables(MutableVariables {}),
                Rule::MutableFunctions(MutableFunctions {}),
                Rule::StructRepacker(StructRepacker {}),
                Rule::MutationGrapher(MutationGrapher {}),
            ],
        };
        assert(r@ =~= default_rules());
        r
    }
}

impl Registry {
    /// Appends a rule; it runs after the rules already registered.
    pub fn register_scanner(&mut self, scanner: Rule)
        ensures
            final(self)@ == old(self)@.push(scanner),
    {
        self.scanners.push(scanner);
    }

    /// The rules, in the order in which they run.
    pub fn get_scanners(&self) -> (r: &[Rule])
        ensures
            r@ == self@,
    {
        self.scanners.as_slice()
    }

    /// Runs every rule on the same declarations and reporter, in registration order.
    pub fn scan(&self, ast: &[Item], reporter: &mut Reporter)
        ensures
            final(reporter)@ == old(reporter)@ + run_rules(self@, ast@),
    {
        let mut i: usize = 0;
        while i < self.scanners.len()
            invariant
                i <= self@.len(),
                reporter@ == old(reporter)@ + run_rules(self@.take(i as int), ast@),
            decreases self@.len() - i,
        {
            proof {
                assert(self@.take(i + 1).drop_last() =~= self@.take(i as int));
            }
            self.scanners[i].execute(ast, reporter);
            i += 1;
        }
        assert(self@.take(i as int) =~= self@);
    }
}

} // verus!
