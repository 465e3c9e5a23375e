use soliris::ast::{Field, Item, ItemKind, Location, TypeName};
use soliris::result::{Reporter, Severity};
use soliris::scanner::Scanner;
use soliris::struct_repacker::{width_of, BinItem, FirstFitDecreasing, RepackStrategy, StructRepacker};

fn bins(sizes: &[u16]) -> Vec<BinItem> {
    sizes.iter().enumerate().map(|(i, s)| BinItem { name: format!("f{}", i), size: *s }).collect()
}

fn field(name: &str, ty: TypeName) -> Field {
    Field { name: name.to_string(), ty }
}

fn structure(fields: Vec<Field>, line: usize) -> Item {
    Item { kind: ItemKind::Struct(fields), documented: true, location: Location { line, column: 5 } }
}

fn boosts(ast: &[Item]) -> Vec<(usize, usize)> {
    let mut reporter = Reporter::new();
    StructRepacker::default().execute(ast, &mut reporter);
    reporter
        .reports()
        .iter()
        .map(|r| {
            assert_eq!(r.severity, Severity::Boost);
            assert_eq!(r.message, "Structure can be re-written to potentially consume less storage slots");
            (r.line, r.column)
        })
        .collect()
}

#[test]
fn address_bool_string_fires_boost() {
    let repacker = StructRepacker::default();
    let items = bins(&[20, 1, 32]);
    assert_eq!(repacker.compute_actual_slot_consumption(&items), 1);
    assert_eq!(repacker.compute_optimum_slot_consumption(&items), 0);
    let s = structure(
        vec![field("owner", TypeName::Address), field("active", TypeName::Bool), field("label", TypeName::String)],
        4,
    );
    assert_eq!(boosts(&[s]), vec![(4, 5)]);
}

#[test]
fn two_halves_fill_one_slot_without_boost() {
    let repacker = StructRepacker::default();
    let items = bins(&[128, 128]);
    assert_eq!(repacker.compute_actual_slot_consumption(&items), 1);
    assert_eq!(repacker.compute_optimum_slot_consumption(&items), 1);
    let s = structure(vec![field("a", TypeName::FixedBytes(128)), field("b", TypeName::FixedBytes(128))], 2);
    assert!(boosts(&[s]).is_empty());
}

#[test]
fn actual_is_never_below_optimum_on_samples() {
    let repacker = StructRepacker::default();
    for sizes in [vec![], vec![256], vec![1, 255, 3], vec![32; 9], vec![200, 100, 56, 156], vec![8; 64]] {
        let items = bins(&sizes);
        let actual = repacker.compute_actual_slot_consumption(&items);
        let optimum = repacker.compute_optimum_slot_consumption(&items);
        assert!(actual >= optimum);
        let total: u128 = sizes.iter().map(|s| *s as u128).sum();
        assert_eq!(actual == optimum, actual * 256 == total);
    }
}

#[test]
fn overflowing_field_opens_a_new_slot() {
    let repacker = StructRepacker::default();
    assert_eq!(repacker.compute_actual_slot_consumption(&bins(&[200, 100])), 2);
    assert_eq!(repacker.compute_actual_slot_consumption(&bins(&[])), 0);
    assert_eq!(repacker.compute_optimum_slot_consumption(&bins(&[200, 100])), 1);
    assert_eq!(repacker.compute_optimum_slot_consumption(&bins(&[65535, 65535])), 511);
}

#[test]
fn field_order_changes_slot_count() {
    let repacker = StructRepacker::default();
    assert_eq!(repacker.compute_actual_slot_consumption(&bins(&[100, 156, 200, 56])), 2);
    assert_eq!(repacker.compute_actual_slot_consumption(&bins(&[200, 156, 100, 56])), 3);
}

#[test]
fn first_fit_decreasing_sorts_stably_by_width() {
    let items = bins(&[1, 32, 20, 32, 1]);
    let out = FirstFitDecreasing::default().repack(&items);
    let sizes: Vec<u16> = out.iter().map(|b| b.size).collect();
    assert_eq!(sizes, vec![32, 32, 20, 1, 1]);
    let names: Vec<&str> = out.iter().map(|b| b.name.as_str()).collect();
    assert_eq!(names, vec!["f1", "f3", "f2", "f0", "f4"]);
}

#[test]
fn type_widths_follow_the_table() {
    assert_eq!(width_of(&TypeName::Address), Some(20));
    assert_eq!(width_of(&TypeName::Bool), Some(1));
    assert_eq!(width_of(&TypeName::String), Some(32));
    assert_eq!(width_of(&TypeName::Bytes), Some(32));
    assert_eq!(width_of(&TypeName::FixedBytes(4)), Some(4));
    assert_eq!(width_of(&TypeName::Uint(Some(64))), Some(8));
    assert_eq!(width_of(&TypeName::Int(Some(256))), Some(32));
    assert_eq!(width_of(&TypeName::Uint(None)), Some(32));
    assert_eq!(width_of(&TypeName::Array), Some(32));
    assert_eq!(width_of(&TypeName::Mapping), Some(32));
    assert_eq!(width_of(&TypeName::Tuple), None);
    assert_eq!(width_of(&TypeName::Function), None);
    assert_eq!(width_of(&TypeName::Custom), None);
}

#[test]
fn unsized_field_skips_the_struct() {
    let s = structure(vec![field("a", TypeName::Bool), field("b", TypeName::Custom)], 3);
    assert!(boosts(&[s]).is_empty());
    assert!(BinItem::from_field(&field("t", TypeName::Tuple)).is_none());
    let b = BinItem::from_field(&field("owner", TypeName::Address)).unwrap();
    assert_eq!((b.name.as_str(), b.size), ("owner", 20));
}

#[test]
fn structs_inside_contracts_are_checked() {
    let inner = structure(vec![field("a", TypeName::Bool)], 7);
    let contract = Item {
        kind: ItemKind::Contract(vec![inner]),
        documented: true,
        location: Location { line: 6, column: 1 },
    };
    let top = structure(vec![field("x", TypeName::Uint(Some(256)))], 1);
    assert_eq!(boosts(&[top, contract]), vec![(1, 5), (7, 5)]);
}

#[test]
fn repack_keeps_the_bound_but_can_cost_a_slot() {
    let repacker = StructRepacker::default();
    let items = bins(&[100, 156, 200, 56]);
    let out = FirstFitDecreasing::default().repack(&items);
    let sizes: Vec<u16> = out.iter().map(|b| b.size).collect();
    assert_eq!(sizes, vec![200, 156, 100, 56]);
    assert_eq!(repacker.compute_optimum_slot_consumption(&out), repacker.compute_optimum_slot_consumption(&items));
    assert_eq!(repacker.compute_actual_slot_consumption(&items), 2);
    assert_eq!(repacker.compute_actual_slot_consumption(&out), 3);
}
