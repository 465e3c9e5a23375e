use soliris::ast::{
    FunctionAttribute, FunctionKind, Item, ItemKind, Location, Mutability, VariableAttribute,
};
use soliris::missing_comments::MissingComments;
use soliris::mutable_functions::MutableFunctions;
use soliris::mutable_variables::MutableVariables;
use soliris::result::{Reporter, Severity};
use soliris::scanner::Scanner;

fn item(kind: ItemKind, documented: bool, line: usize) -> Item {
    Item { kind, documented, location: Location { line, column: 3 } }
}

fn run(scanner: &dyn Fn(&[Item], &mut Reporter), ast: &[Item]) -> Vec<(usize, Severity, String)> {
    let mut reporter = Reporter::new();
    scanner(ast, &mut reporter);
    reporter.reports().iter().map(|r| (r.line, r.severity, r.message.clone())).collect()
}

#[test]
fn undocumented_declarations_warn_once_each() {
    let body = vec![
        item(ItemKind::Enum, false, 2),
        item(ItemKind::Error, false, 3),
        item(ItemKind::Event, false, 4),
        item(ItemKind::Function(FunctionKind::Modifier, vec![]), false, 5),
        item(ItemKind::Struct(vec![]), false, 6),
        item(ItemKind::Udt, false, 7),
        item(ItemKind::Variable(vec![]), false, 8),
        item(ItemKind::Using, false, 9),
    ];
    let ast = vec![
        item(ItemKind::Pragma, false, 1),
        item(ItemKind::Import, false, 1),
        item(ItemKind::Contract(body), true, 1),
        item(ItemKind::Event, false, 20),
    ];
    let found = run(&|a, r| MissingComments::default().execute(a, r), &ast);
    let expected = vec![
        (2, "Missing comment on enum definition"),
        (3, "Missing comment on error definition"),
        (4, "Missing comment on event definition"),
        (5, "Missing comment for function definition"),
        (6, "Missing comment for structure definition"),
        (7, "Missing comment for user-defined type definition"),
        (20, "Missing comment on event definition"),
    ];
    assert_eq!(found.len(), expected.len());
    for (f, e) in found.iter().zip(expected.iter()) {
        assert_eq!(f.0, e.0);
        assert_eq!(f.1, Severity::Warning);
        assert_eq!(f.2, e.1);
    }
}

#[test]
fn documentation_suppresses_the_warning() {
    let ast = vec![
        item(ItemKind::Function(FunctionKind::Function, vec![]), true, 1),
        item(ItemKind::Struct(vec![]), true, 2),
        item(ItemKind::Contract(vec![item(ItemKind::Enum, true, 4)]), true, 3),
    ];
    assert!(run(&|a, r| MissingComments::default().execute(a, r), &ast).is_empty());
}

#[test]
fn read_only_functions_and_modifiers_are_not_reported() {
    let pure = FunctionAttribute::Mutability(Mutability::Pure);
    let view = FunctionAttribute::Mutability(Mutability::View);
    let constant = FunctionAttribute::Mutability(Mutability::Constant);
    let payable = FunctionAttribute::Mutability(Mutability::Payable);
    let body = vec![
        item(ItemKind::Function(FunctionKind::Function, vec![FunctionAttribute::Other, pure]), false, 2),
        item(ItemKind::Function(FunctionKind::Function, vec![view]), false, 3),
        item(ItemKind::Function(FunctionKind::Function, vec![constant]), false, 4),
        item(ItemKind::Function(FunctionKind::Modifier, vec![]), false, 5),
        item(ItemKind::Function(FunctionKind::Function, vec![payable]), false, 6),
        item(ItemKind::Function(FunctionKind::Constructor, vec![]), false, 7),
    ];
    let ast = vec![
        item(ItemKind::Function(FunctionKind::Function, vec![]), false, 1),
        item(ItemKind::Contract(body), false, 1),
    ];
    let found = run(&|a, r| MutableFunctions::default().execute(a, r), &ast);
    assert_eq!(found.len(), 2);
    assert_eq!(found[0], (6, Severity::Info, "Function can mutate contract state".to_string()));
    assert_eq!(found[1], (7, Severity::Info, "Function can mutate contract state".to_string()));
}

#[test]
fn constant_and_immutable_variables_are_not_reported() {
    let body = vec![
        item(ItemKind::Variable(vec![VariableAttribute::Constant]), false, 2),
        item(ItemKind::Variable(vec![VariableAttribute::Other, VariableAttribute::Immutable]), false, 3),
        item(ItemKind::Variable(vec![VariableAttribute::Other]), false, 4),
        item(ItemKind::Variable(vec![]), true, 5),
    ];
    let ast = vec![
        item(ItemKind::Variable(vec![]), false, 1),
        item(ItemKind::Contract(body), false, 1),
    ];
    let found = run(&|a, r| MutableVariables::default().execute(a, r), &ast);
    assert_eq!(found.len(), 2);
    assert_eq!(found[0], (4, Severity::Info, "Variable state can be changed".to_string()));
    assert_eq!(found[1], (5, Severity::Info, "Variable state can be changed".to_string()));
}

#[test]
fn reporter_keeps_order_and_duplicates() {
    let mut reporter = Reporter::new();
    reporter.report(9, 1, Severity::Error, "b");
    reporter.report(1, 1, Severity::Boost, "a");
    reporter.report(1, 1, Severity::Boost, "a");
    let reports = reporter.reports();
    assert_eq!(reports.len(), 3);
    assert_eq!(reports[0].line, 9);
    assert_eq!(reports[0].message, "b");
    assert_eq!(reports[2].message, "a");
    assert_eq!(Severity::Boost.label(), "BOOST");
    assert_eq!(Severity::Error.label(), "ERROR");
    assert_eq!(Severity::Warning.label(), "WARNING");
    assert_eq!(Severity::Info.label(), "INFO");
}
