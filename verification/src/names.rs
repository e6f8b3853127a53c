//! The name under which an item can be called from C.

use vstd::prelude::*;

verus! {

/// The attributes of an item that decide its symbol name.
#[derive(Debug, PartialEq, Eq)]
pub struct Attributes {
    /// The value of the attribute that sets the symbol name, where the item
    /// carries one.
    pub export_name: Option<String>,
    /// Whether the item is marked to keep its identifier as its symbol name.
    pub no_mangle: bool,
}

/// The outcome of name resolution.
#[derive(Debug, PartialEq, Eq)]
pub enum SymbolName {
    /// The item is reachable from C under this name.
    Named(String),
    /// The item's symbol is mangled: C code cannot name it.
    Unnameable,
}

impl View for SymbolName {
    type V = Option<Seq<char>>;

    open spec fn view(&self) -> Option<Seq<char>> {
        match self {
            SymbolName::Named(s) => Some(s@),
            SymbolName::Unnameable => None,
        }
    }
}

/// The symbol name of an item with the given attributes and identifier: the
/// value of the attribute that sets it, if there is one; else the identifier,
/// if the item is marked to keep it; else none.
pub open spec fn resolve_spec(attrs: Attributes, ident: Seq<char>) -> Option<Seq<char>> {
    match attrs.export_name {
        Some(name) => Some(name@),
        None => if attrs.no_mangle {
            Some(ident)
        } else {
            None
        },
    }
}

/// Resolves the name under which C code can call an item.
pub fn resolve(attrs: &Attributes, ident: &str) -> (r: SymbolName)
    ensures
        r@ == resolve_spec(*attrs, ident@),
{
    match &attrs.export_name {
        Some(name) => SymbolName::Named(name.clone()),
        None => if attrs.no_mangle {
            SymbolName::Named(ident.to_owned())
        } else {
            SymbolName::Unnameable
        },
    }
}

/// A name set by attribute is taken as it stands, whether or not the item is
/// also marked to keep its identifier.
pub proof fn lemma_export_name_wins(attrs: Attributes, ident: Seq<char>)
    requires
        attrs.export_name is Some,
    ensures
        resolve_spec(attrs, ident) == Some(attrs.export_name->Some_0@),
{
}

/// An item without either attribute has no name, whatever its identifier.
pub proof fn lemma_unmarked_is_unnameable(attrs: Attributes, ident: Seq<char>)
    requires
        attrs.export_name is None,
        !attrs.no_mangle,
    ensures
        resolve_spec(attrs, ident) is None,
{
}

} // verus!
