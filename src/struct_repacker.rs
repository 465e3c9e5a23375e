//! Storage-layout rule: models how struct fields are packed into fixed-width storage slots
//! and flags structs whose field order wastes slot space.
use vstd::prelude::*;
use crate::ast::{Field, Item, ItemKind, Location, TypeName};
use crate::result::{diagnostic, Diagnostic, Reporter, Severity};
use crate::scanner::{body_of, collect, lemma_collect_all, lemma_collect_step, Scanner};

verus! {

broadcast use vstd::seq_lib::group_to_multiset_ensures, vstd::seq_lib::to_multiset_insert;

/// Width of one storage slot.
pub const BIN_SIZE: u16 = 256;

/// The message of the rule's finding.
pub open spec fn repack_message() -> Seq<char> {
    "Structure can be re-written to potentially consume less storage slots"@
}

/// Width of a field of the given type; `None` for types this rule cannot size
/// (tuples, function types and user-defined types).
pub open spec fn type_width(ty: TypeName) -> Option<u16> {
    match ty {
        TypeName::Address => Some(20),
        TypeName::Bool => Some(1),
        TypeName::String => Some(32),
        TypeName::Bytes => Some(32),
        TypeName::FixedBytes(n) => Some(n),
        TypeName::Int(bits) => Some(integer_width(bits)),
        TypeName::Uint(bits) => Some(integer_width(bits)),
        TypeName::Array => Some(32),
        TypeName::Mapping => Some(32),
        TypeName::Tuple => None,
        TypeName::Function => None,
        TypeName::Custom => None,
    }
}

/// An integer's declared bit width in bytes; an integer declared without a size has 256 bits.
pub open spec fn integer_width(bits: Option<u16>) -> u16 {
    match bits {
        Some(b) => (b / 8) as u16,
        None => 32,
    }
}

/// Computes `type_width`.
pub fn width_of(ty: &TypeName) -> (r: Option<u16>)
    ensures
        r == type_width(*ty),
{
    match ty {
        TypeName::Address => Some(20),
        TypeName::Bool => Some(1),
        TypeName::String => Some(32),
        TypeName::Bytes => Some(32),
        TypeName::FixedBytes(n) => Some(*n),
        TypeName::Int(bits) | TypeName::Uint(bits) => match bits {
            Some(b) => Some(*b / 8),
            None => Some(32),
        },
        TypeName::Array => Some(32),
        TypeName::Mapping => Some(32),
        TypeName::Tuple | TypeName::Function | TypeName::Custom => None,
    }
}

/// A struct field as an item to pack: its name and its width.
#[derive(Debug)]
pub struct BinItem {
    pub name: String,
    pub size: u16,
}

impl BinItem {
    /// The item for a field, or `None` when the field's type cannot be sized.
    pub fn from_field(field: &Field) -> (r: Option<BinItem>)
        ensures
            r is Some <==> type_width(field.ty) is Some,
            r is Some ==> r->0.name@ == field.name@ && r->0.size == type_width(field.ty)->0,
    {
        match width_of(&field.ty) {
            Some(size) => Some(BinItem { name: field.name.clone(), size }),
            None => None,
        }
    }

    /// A copy of the item.
    pub fn duplicate(&self) -> (r: BinItem)
        ensures
            r == *self,
    {
        BinItem { name: self.name.clone(), size: self.size }
    }
}

/// The widths of a sequence of items, in order.
pub open spec fn sizes(items: Seq<BinItem>) -> Seq<int> {
    items.map_values(|b: BinItem| b.size as int)
}

/// Sum of the widths.
pub open spec fn total(ws: Seq<int>) -> int
    decreases ws.len(),
{
    if ws.len() == 0 {
        0
    } else {
        total(ws.drop_last()) + ws.last()
    }
}

/// Sequential packing in declaration order: the number of closed slots and the width used
/// in the open slot after the fields `ws`.
pub open spec fn pack_state(ws: Seq<int>) -> (int, int)
    decreases ws.len(),
{
    if ws.len() == 0 {
        (0, 0)
    } else {
        let (slots, carry) = pack_state(ws.drop_last());
        let w = ws.last();
        if carry + w < BIN_SIZE as int {
            (slots, carry + w)
        } else if carry + w == BIN_SIZE as int {
            (slots + 1, 0)
        } else {
            (slots + 1, w)
        }
    }
}

/// Slots consumed when the fields are laid out in the given order.
pub open spec fn actual_slots(ws: Seq<int>) -> int {
    let (slots, carry) = pack_state(ws);
    if carry > 0 {
        slots + 1
    } else {
        slots
    }
}

/// The lower bound the rule compares against: total width divided by the slot width, rounded down.
pub open spec fn optimum_slots(ws: Seq<int>) -> int {
    total(ws) / (BIN_SIZE as int)
}

/// With widths that fit a slot, the open slot never overflows and the closed slots plus the
/// open slot hold at least the total width.
proof fn lemma_pack_state_covers_total(ws: Seq<int>)
    requires
        forall|k: int| 0 <= k < ws.len() ==> 0 <= #[trigger] ws[k] <= BIN_SIZE as int,
    ensures
        0 <= pack_state(ws).1 <= BIN_SIZE as int,
        0 <= pack_state(ws).0,
        0 <= total(ws),
        pack_state(ws).0 * (BIN_SIZE as int) + pack_state(ws).1 >= total(ws),
    decreases ws.len(),
{
    if ws.len() > 0 {
        let init = ws.drop_last();
        assert forall|k: int| 0 <= k < init.len() implies 0 <= #[trigger] init[k] <= BIN_SIZE as int by {
            assert(init[k] == ws[k]);
        }
        lemma_pack_state_covers_total(init);
        assert(0 <= ws[ws.len() - 1]);
    }
}

/// For field widths that each fit in a slot, the sequential layout never uses fewer slots than
/// the lower bound, and it uses exactly the lower bound if and only if the slots it uses are
/// filled without any gap (slots times slot width equals the total width).
pub proof fn lemma_actual_at_least_optimum(ws: Seq<int>)
    requires
        forall|k: int| 0 <= k < ws.len() ==> 0 <= #[trigger] ws[k] <= BIN_SIZE as int,
    ensures
        actual_slots(ws) >= optimum_slots(ws),
        actual_slots(ws) == optimum_slots(ws) <==> actual_slots(ws) * (BIN_SIZE as int) == total(
            ws,
        ),
{
    lemma_pack_state_covers_total(ws);
    let t = total(ws);
    let a = actual_slots(ws);
    assert(a * 256 >= t);
    vstd::arithmetic::div_mod::lemma_fundamental_div_mod(t, 256);
    vstd::arithmetic::div_mod::lemma_mod_bound(t, 256);
    assert(t == 256 * (t / 256) + t % 256);
}

/// Packing depends on the order of the fields: some swap of two fields changes the number of
/// slots used.
pub proof fn lemma_order_changes_actual()
    ensures
        exists|ws: Seq<int>, i: int, j: int|
            0 <= i < ws.len() && 0 <= j < ws.len() && #[trigger] actual_slots(
                ws.update(i, ws[j]).update(j, ws[i]),
            ) != actual_slots(ws),
{
    let ws = seq![100int, 156, 200, 56];
    let swapped = ws.update(0, ws[2]).update(2, ws[0]);
    assert(swapped =~= seq![200int, 156, 100, 56]);
    assert(pack_state(Seq::<int>::empty()) == (0int, 0int));
    assert(seq![100int].drop_last() =~= Seq::<int>::empty());
    assert(pack_state(seq![100int]) == (0int, 100int));
    assert(seq![100int, 156].drop_last() =~= seq![100int]);
    assert(pack_state(seq![100int, 156]) == (1int, 0int));
    assert(seq![100int, 156, 200].drop_last() =~= seq![100int, 156]);
    assert(pack_state(seq![100int, 156, 200]) == (1int, 200int));
    assert(ws.drop_last() =~= seq![100int, 156, 200]);
    assert(pack_state(ws) == (2int, 0int));
    assert(seq![200int].drop_last() =~= Seq::<int>::empty());
    assert(pack_state(seq![200int]) == (0int, 200int));
    assert(seq![200int, 156].drop_last() =~= seq![200int]);
    assert(pack_state(seq![200int, 156]) == (1int, 156int));
    assert(seq![200int, 156, 100].drop_last() =~= seq![200int, 156]);
    assert(pack_state(seq![200int, 156, 100]) == (2int, 0int));
    assert(swapped.drop_last() =~= seq![200int, 156, 100]);
    assert(pack_state(swapped) == (2int, 56int));
    assert(actual_slots(swapped) != actual_slots(ws));
}

/// Taking one item out of the sequence takes its width out of the total.
proof fn lemma_total_remove(s: Seq<BinItem>, j: int)
    requires
        0 <= j < s.len(),
    ensures
        total(sizes(s)) == total(sizes(s.remove(j))) + s[j].size,
    decreases s.len(),
{
    assert(sizes(s).drop_last() =~= sizes(s.drop_last()));
    if j == s.len() - 1 {
        assert(s.remove(j) =~= s.drop_last());
    } else {
        lemma_total_remove(s.drop_last(), j);
        assert(s.remove(j).drop_last() =~= s.drop_last().remove(j));
        assert(sizes(s.remove(j)).drop_last() =~= sizes(s.remove(j).drop_last()));
    }
}

/// Reordering the fields keeps their total width, hence the lower bound `optimum_slots`:
/// only the sequential layout depends on the order.
pub proof fn lemma_reorder_keeps_optimum(a: Seq<BinItem>, b: Seq<BinItem>)
    requires
        a.to_multiset() == b.to_multiset(),
    ensures
        total(sizes(a)) == total(sizes(b)),
        optimum_slots(sizes(a)) == optimum_slots(sizes(b)),
    decreases a.len(),
{
    broadcast use vstd::seq_lib::to_multiset_remove, vstd::seq_lib::to_multiset_contains,
        vstd::seq_lib::to_multiset_len, vstd::multiset::group_multiset_axioms;

    if a.len() == 0 {
        assert(a.to_multiset().len() == a.len());
        assert(b.to_multiset().len() == b.len());
        assert(b =~= a);
    } else {
        let x = a.last();
        let init = a.drop_last();
        assert(a =~= init.push(x));
        init.to_multiset_ensures();
        assert(a.to_multiset().count(x) > 0);
        assert(b.contains(x));
        let j = choose|j: int| 0 <= j < b.len() && b[j] == x;
        let rest = b.remove(j);
        assert(rest.to_multiset() == b.to_multiset().remove(x));
        assert(init.to_multiset() =~= a.to_multiset().remove(x));
        lemma_reorder_keeps_optimum(init, rest);
        lemma_total_remove(b, j);
        assert(sizes(a).drop_last() =~= sizes(init));
    }
}

/// Whether every field of the struct can be sized.
pub open spec fn all_sized(fields: Seq<Field>) -> bool {
    forall|i: int| 0 <= i < fields.len() ==> (#[trigger] type_width(fields[i].ty)) is Some
}

/// The widths of the fields, in declaration order (meaningful when `all_sized`).
pub open spec fn field_widths(fields: Seq<Field>) -> Seq<int> {
    fields.map_values(|f: Field| type_width(f.ty)->0 as int)
}

/// The rule's finding on one declaration: a `Boost` at a struct whose fields can all be sized
/// and whose actual slot count differs from the lower bound.
pub open spec fn struct_finding(item: Item) -> Seq<Diagnostic> {
    match item.kind {
        ItemKind::Struct(fields) => {
            let ws = field_widths(fields@);
            if all_sized(fields@) && actual_slots(ws) != optimum_slots(ws) {
                seq![diagnostic(item.location, Severity::Boost, repack_message())]
            } else {
                Seq::empty()
            }
        },
        _ => Seq::empty(),
    }
}

/// `struct_finding` as a function value, for `collect`.
pub open spec fn struct_check() -> spec_fn(Item) -> Seq<Diagnostic> {
    |item: Item| struct_finding(item)
}

/// Structs are checked at the top level and inside each top-level contract.
pub open spec fn repack_top(item: Item) -> Seq<Diagnostic> {
    match item.kind {
        ItemKind::Contract(body) => collect(body@, struct_check()),
        ItemKind::Struct(_) => struct_finding(item),
        _ => Seq::empty(),
    }
}

/// `repack_top` as a function value, for `collect`.
pub open spec fn repack_check() -> spec_fn(Item) -> Seq<Diagnostic> {
    |item: Item| repack_top(item)
}

/// Items ordered by non-increasing width.
pub open spec fn sorted_by_decreasing_size(items: Seq<BinItem>) -> bool {
    forall|i: int, j: int| 0 <= i < j < items.len() ==> items[i].size >= items[j].size
}

/// A heuristic that proposes a new field order.
pub trait RepackStrategy {
    /// The order the heuristic promises for `r`, a rearrangement of `items`.
    spec fn arranged(&self, items: Seq<BinItem>, r: Seq<BinItem>) -> bool;

    /// The same items in the order the heuristic proposes.
    fn repack(&self, initial_structure: &[BinItem]) -> (r: Vec<BinItem>)
        ensures
            r@.to_multiset() == initial_structure@.to_multiset(),
            self.arranged(initial_structure@, r@),
    ;
}

/// Orders the fields from the widest to the narrowest. No packing is simulated on the result,
/// so it is a suggestion only: it can use more slots than the declared order.
#[derive(Debug, Default)]
pub struct FirstFitDecreasing {}

impl RepackStrategy for FirstFitDecreasing {
    open spec fn arranged(&self, items: Seq<BinItem>, r: Seq<BinItem>) -> bool {
        sorted_by_decreasing_size(r)
    }

    fn repack(&self, initial_structure: &[BinItem]) -> (r: Vec<BinItem>) {
        let mut out: Vec<BinItem> = Vec::new();
        let mut i: usize = 0;
        assert(initial_structure@.take(0) =~= out@);
        while i < initial_structure.len()
            invariant
                i <= initial_structure@.len(),
                out@.to_multiset() == initial_structure@.take(i as int).to_multiset(),
                sorted_by_decreasing_size(out@),
            decreases initial_structure@.len() - i,
        {
            let x = initial_structure[i].duplicate();
            let mut j: usize = 0;
            while j < out.len() && out[j].size >= x.size
                invariant
                    j <= out@.len(),
                    forall|k: int| 0 <= k < j ==> out@[k].size >= x.size,
                decreases out@.len() - j,
            {
                j += 1;
            }
            proof {
                let s = initial_structure@;
                assert(s.take(i + 1) =~= s.take(i as int).push(s[i as int]));
                s.take(i as int).to_multiset_ensures();
                assert(out@.insert(j as int, x).to_multiset() == out@.to_multiset().insert(x));
            }
            let ghost before = out@;
            out.insert(j, x);
            proof {
                assert forall|a: int, b: int| 0 <= a < b < out@.len() implies out@[a].size
                    >= out@[b].size by {
                    if b == j {
                    } else if a == j {
                        assert(before[b - 1].size <= before[j as int].size || j
                            == before.len());
                    }
                }
            }
            i += 1;
        }
        proof {
            assert(initial_structure@.take(i as int) =~= initial_structure@);
            assert(self.arranged(initial_structure@, out@));
        }
        out
    }
}

/// Detects structs whose field order wastes storage-slot space.
#[derive(Debug, Default)]
pub struct StructRepacker {}

impl StructRepacker {
    fn scan_contract(&self, contract: &Item, reporter: &mut Reporter)
        ensures
            final(reporter)@ == old(reporter)@ + collect(body_of(*contract), struct_check()),
    {
        if let ItemKind::Contract(body) = &contract.kind {
            let mut i: usize = 0;
            while i < body.len()
                invariant
                    i <= body@.len(),
                    body@ == body_of(*contract),
                    reporter@ == old(reporter)@ + collect(body@.take(i as int), struct_check()),
                decreases body@.len() - i,
            {
                proof {
                    lemma_collect_step(body@, struct_check(), i as int);
                }
                self.scan_struct(&body[i], reporter);
                i += 1;
            }
            proof {
                lemma_collect_all(body@, struct_check());
            }
        } else {
            assert(collect(Seq::<Item>::empty(), struct_check()) =~= Seq::<Diagnostic>::empty());
            assert(reporter@ =~= old(reporter)@ + Seq::<Diagnostic>::empty());
        }
    }

    /// Reports a struct whose sequential layout uses a different number of slots than the bound.
    pub fn scan_struct(&self, structure: &Item, reporter: &mut Reporter)
        ensures
            final(reporter)@ == old(reporter)@ + struct_finding(*structure),
    {
        if let ItemKind::Struct(fields) = &structure.kind {
            let mut initial_structure: Vec<BinItem> = Vec::new();
            let mut i: usize = 0;
            while i < fields.len()
                invariant
                    i <= fields@.len(),
                    all_sized(fields@.take(i as int)),
                    initial_structure@.len() == i,
                    structure.kind == ItemKind::Struct(*fields),
                    sizes(initial_structure@) == field_widths(fields@.take(i as int)),
                decreases fields@.len() - i,
            {
                match BinItem::from_field(&fields[i]) {
                    Some(bin) => {
                        let ghost before = initial_structure@;
                        initial_structure.push(bin);
                        assert forall|k: int| 0 <= k < i + 1 implies #[trigger] sizes(
                            initial_structure@,
                        )[k] == field_widths(fields@.take(i + 1))[k] by {
                            if k < i {
                                assert(initial_structure@[k] == before[k]);
                                assert(sizes(before)[k] == field_widths(fields@.take(i as int))[k]);
                            } else {
                                assert(fields@.take(i + 1)[k] == fields@[i as int]);
                            }
                        }
                        assert(sizes(initial_structure@) =~= field_widths(fields@.take(i + 1)));
                        assert(all_sized(fields@.take(i + 1))) by {
                            assert forall|k: int| 0 <= k < i + 1 implies (#[trigger] type_width(
                                fields@.take(i + 1)[k].ty,
                            )) is Some by {
                                if k < i {
                                    assert(fields@.take(i + 1)[k] == fields@.take(i as int)[k]);
                                }
                            }
                        }
                    },
                    None => {
                        assert(type_width(fields@[i as int].ty) is None);
                        assert(!all_sized(fields@));
                        assert(struct_finding(*structure) == Seq::<Diagnostic>::empty());
                        assert(reporter@ =~= old(reporter)@ + Seq::<Diagnostic>::empty());
                        return;
                    },
                }
                i += 1;
            }
            assert(fields@.take(i as int) =~= fields@);
            let initial_slot_consumption = self.compute_actual_slot_consumption(&initial_structure);
            let optimum_slot_consumption = self.compute_optimum_slot_consumption(
                initial_structure.as_slice(),
            );
            if initial_slot_consumption != optimum_slot_consumption {
                let strategy = FirstFitDecreasing {};
                let _repacked_struct = strategy.repack(initial_structure.as_slice());
                reporter.report(
                    structure.location.line,
                    structure.location.column,
                    Severity::Boost,
                    "Structure can be re-written to potentially consume less storage slots",
                );
                assert(reporter@ =~= old(reporter)@ + struct_finding(*structure));
            } else {
                assert(reporter@ =~= old(reporter)@ + Seq::<Diagnostic>::empty());
            }
        } else {
            assert(reporter@ =~= old(reporter)@ + Seq::<Diagnostic>::empty());
        }
    }

    /// Total width of the fields divided by the slot width, rounded down. Counts are `u128` so
    /// that every `Vec` of 16-bit widths has its result without overflow.
    pub fn compute_optimum_slot_consumption(&self, structure: &[BinItem]) -> (r: u128)
        ensures
            r as int == optimum_slots(sizes(structure@)),
    {
        let mut sum: u128 = 0;
        let mut i: usize = 0;
        while i < structure.len()
            invariant
                i <= structure@.len(),
                sum as int == total(sizes(structure@.take(i as int))),
                sum <= i * 65535,
            decreases structure@.len() - i,
        {
            proof {
                assert(sizes(structure@.take(i + 1)).drop_last() =~= sizes(
                    structure@.take(i as int),
                ));
            }
            sum = sum + structure[i].size as u128;
            i += 1;
        }
        assert(structure@.take(i as int) =~= structure@);
        sum / (BIN_SIZE as u128)
    }

    /// Slots used when the fields are packed one after the other in declaration order.
    pub fn compute_actual_slot_consumption(&self, structure: &Vec<BinItem>) -> (r: u128)
        ensures
            r as int == actual_slots(sizes(structure@)),
    {
        let mut slot_consumption: u128 = 0;
        let mut carry: u128 = 0;
        let mut i: usize = 0;
        while i < structure.len()
            invariant
                i <= structure@.len(),
                (slot_consumption as int, carry as int) == pack_state(
                    sizes(structure@.take(i as int)),
                ),
                slot_consumption <= i,
                carry <= 65535,
            decreases structure@.len() - i,
        {
            proof {
                assert(sizes(structure@.take(i + 1)).drop_last() =~= sizes(
                    structure@.take(i as int),
                ));
            }
            let size = structure[i].size as u128;
            if carry + size < BIN_SIZE as u128 {
                carry = carry + size;
            } else if carry + size == BIN_SIZE as u128 {
                slot_consumption = slot_consumption + 1;
                carry = 0;
            } else {
                slot_consumption = slot_consumption + 1;
                carry = size;
            }
            i += 1;
        }
        assert(structure@.take(i as int) =~= structure@);
        if carry != 0 {
            slot_consumption = slot_consumption + 1;
        }
        slot_consumption
    }
}

impl Scanner for StructRepacker {
    open spec fn findings(&self, ast: Seq<Item>) -> Seq<Diagnostic> {
        collect(ast, repack_check())
    }

    fn execute(&self, ast: &[Item], reporter: &mut Reporter) {
        let mut i: usize = 0;
        while i < ast.len()
            invariant
                i <= ast@.len(),
                reporter@ == old(reporter)@ + collect(ast@.take(i as int), repack_check()),
            decreases ast@.len() - i,
        {
            proof {
                lemma_collect_step(ast@, repack_check(), i as int);
            }
            let item = &ast[i];
            match &item.kind {
                ItemKind::Contract(_) => self.scan_contract(item, reporter),
                ItemKind::Struct(_) => self.scan_struct(item, reporter),
                _ => {
                    assert(reporter@ =~= reporter@ + repack_top(*item));
                },
            }
            i += 1;
        }
        proof {
            lemma_collect_all(ast@, repack_check());
        }
    }
}

} // verus!
