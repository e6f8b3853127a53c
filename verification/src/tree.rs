//! The resolved module tree that the front end hands over.

use vstd::prelude::*;
use crate::abi::TypeNode;
use crate::names::Attributes;

verus! {

/// The calling convention of a function.
#[derive(Clone, Copy, Debug, PartialEq, Eq, Structural)]
pub enum Abi {
    Rust,
    C,
    Other,
}

impl Abi {
    pub open spec fn is_c_spec(self) -> bool {
        self == Abi::C
    }

    /// Whether C code can call a function of this convention.
    #[verifier::when_used_as_spec(is_c_spec)]
    pub fn is_c(self) -> (b: bool)
        ensures
            b == (self == Abi::C),
    {
        match self {
            Abi::C => true,
            _ => false,
        }
    }
}

/// A function item.
#[derive(Debug, PartialEq, Eq)]
pub struct FunctionItem {
    pub name: String,
    pub abi: Abi,
    /// The number of generic parameters.
    pub generics: usize,
    /// The parameter types, in declaration order.
    pub inputs: Vec<TypeNode>,
    pub output: TypeNode,
    pub attrs: Attributes,
}

/// A field of a struct; `name` is `None` for a positional field.
#[derive(Debug, PartialEq, Eq)]
pub struct Field {
    pub name: Option<String>,
    pub ty: TypeNode,
}

/// A struct item.
#[derive(Debug, PartialEq, Eq)]
pub struct StructItem {
    pub name: String,
    /// The number of generic parameters.
    pub generics: usize,
    /// Whether the struct is declared with positional fields.
    pub is_tuple: bool,
    /// The fields, in declaration order.
    pub fields: Vec<Field>,
}

/// What an item declares.
#[derive(Debug, PartialEq, Eq)]
pub enum ItemKind {
    /// A module, with its items in declaration order.
    Module(Vec<Item>),
    Function(FunctionItem),
    Struct(StructItem),
    /// An enum, with its name.
    Enum(String),
    Other,
}

/// A node of the module tree. `id` is the key under which the export set
/// knows the item.
#[derive(Debug, PartialEq, Eq)]
pub struct Item {
    pub id: u32,
    pub kind: ItemKind,
}

/// One input unit: the top-level items of a crate, and the name that the
/// crate declares for itself, if it declares one.
#[derive(Debug, PartialEq, Eq)]
pub struct Crate {
    pub name: Option<String>,
    pub items: Vec<Item>,
}

} // verus!
