//! The declaration tree that the rules read: one parsed source file, as plain values.
use vstd::prelude::*;

verus! {

/// A 1-based source position.
#[derive(Clone, Copy, Debug, PartialEq, Eq, Structural)]
pub struct Location {
    pub line: usize,
    pub column: usize,
}

/// A state-mutability qualifier of a function.
#[derive(Clone, Copy, Debug, PartialEq, Eq, Structural)]
pub enum Mutability {
    Pure,
    View,
    Constant,
    Payable,
}

/// The role a function-like declaration plays.
#[derive(Clone, Copy, Debug, PartialEq, Eq, Structural)]
pub enum FunctionKind {
    Function,
    Modifier,
    Constructor,
    Fallback,
    Receive,
}

/// An attribute attached to a function; only mutability matters to the rules.
#[derive(Clone, Copy, Debug, PartialEq, Eq, Structural)]
pub enum FunctionAttribute {
    Mutability(Mutability),
    Other,
}

/// An attribute attached to a state variable.
#[derive(Clone, Copy, Debug, PartialEq, Eq, Structural)]
pub enum VariableAttribute {
    Constant,
    Immutable,
    Other,
}

/// The declared type of a struct field. Integer sizes are in bits, fixed byte sizes in bytes.
#[derive(Clone, Copy, Debug, PartialEq, Eq, Structural)]
pub enum TypeName {
    Address,
    Bool,
    String,
    Bytes,
    FixedBytes(u16),
    Int(Option<u16>),
    Uint(Option<u16>),
    Array,
    Tuple,
    Function,
    Mapping,
    Custom,
}

/// A field of a struct declaration.
#[derive(Debug)]
pub struct Field {
    pub name: String,
    pub ty: TypeName,
}

/// What kind of declaration a node is, with what the rules read of each kind.
#[derive(Debug)]
pub enum ItemKind {
    /// A contract, with the declarations of its body in order.
    Contract(Vec<Item>),
    Enum,
    Error,
    Event,
    Function(FunctionKind, Vec<FunctionAttribute>),
    Import,
    Pragma,
    Struct(Vec<Field>),
    Udt,
    Using,
    Variable(Vec<VariableAttribute>),
}

/// One declaration of the tree.
#[derive(Debug)]
pub struct Item {
    pub kind: ItemKind,
    /// Whether documentation is attached to the declaration.
    pub documented: bool,
    pub location: Location,
}

} // verus!
