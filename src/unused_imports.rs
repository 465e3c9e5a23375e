//! Unused-import detection: a registered rule that performs no analysis yet.
use vstd::prelude::*;
use crate::ast::Item;
use crate::result::{Diagnostic, Reporter};
use crate::scanner::Scanner;

verus! {

/// Reserved for unused-import detection; reports nothing.
#[derive(Debug, Default)]
pub struct UnusedImports {}

impl Scanner for UnusedImports {
    open spec fn findings(&self, ast: Seq<Item>) -> Seq<Diagnostic> {
        Seq::empty()
    }

    fn execute(&self, _ast: &[Item], reporter: &mut Reporter) {
        assert(reporter@ =~= old(reporter)@ + Seq::<Diagnostic>::empty());
    }
}

} // verus!
