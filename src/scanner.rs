//! The capability every rule shares, and the traversal its findings are stated over.
use vstd::prelude::*;
use crate::ast::{Item, ItemKind};
use crate::result::{Diagnostic, Reporter};

verus! {

/// A rule: it reads the declarations and appends its findings to the reporter.
pub trait Scanner {
    /// Everything the rule reports on `ast`, in order.
    spec fn findings(&self, ast: Seq<Item>) -> Seq<Diagnostic>;

    /// Appends exactly `findings(ast)` to the reporter and changes nothing else.
    fn execute(&self, ast: &[Item], reporter: &mut Reporter)
        ensures
            final(reporter)@ == old(reporter)@ + self.findings(ast@),
    ;
}

/// The findings of `f` on each item, concatenated in item order.
pub open spec fn collect(items: Seq<Item>, f: spec_fn(Item) -> Seq<Diagnostic>) -> Seq<Diagnostic>
    decreases items.len(),
{
    if items.len() == 0 {
        Seq::empty()
    } else {
        collect(items.drop_last(), f) + f(items.last())
    }
}

/// The body of a contract declaration; empty for every other kind.
pub open spec fn body_of(item: Item) -> Seq<Item> {
    match item.kind {
        ItemKind::Contract(body) => body@,
        _ => Seq::empty(),
    }
}

/// Extending the prefix by one item extends the findings by that item's findings.
pub proof fn lemma_collect_step(items: Seq<Item>, f: spec_fn(Item) -> Seq<Diagnostic>, i: int)
    requires
        0 <= i < items.len(),
    ensures
        collect(items.take(i + 1), f) == collect(items.take(i), f) + f(items[i]),
{
    assert(items.take(i + 1).drop_last() =~= items.take(i));
}

/// Findings collected over the whole sequence once the prefix is the sequence.
pub proof fn lemma_collect_all(items: Seq<Item>, f: spec_fn(Item) -> Seq<Diagnostic>)
    ensures
        collect(items.take(items.len() as int), f) == collect(items, f),
{
    assert(items.take(items.len() as int) =~= items);
}

} // verus!
