//! Declarations: what the walk produces and the emitter writes.

use vstd::prelude::*;
use crate::abi::AbiType;

verus! {

/// A field of an emitted struct.
#[derive(Debug, PartialEq, Eq)]
pub struct FieldDecl {
    pub name: String,
    pub ty: AbiType,
}

/// One unit of emission.
#[derive(Debug, PartialEq, Eq)]
pub enum Declaration {
    /// A function prototype.
    Function { name: String, params: Vec<AbiType>, ret: AbiType },
    /// A struct definition, with its fields in order.
    Struct { name: String, fields: Vec<FieldDecl> },
}

/// A [`FieldDecl`] as contracts see it.
pub struct FieldDeclView {
    pub name: Seq<char>,
    pub ty: AbiType,
}

/// A [`Declaration`] as contracts see it.
pub enum DeclarationView {
    Function { name: Seq<char>, params: Seq<AbiType>, ret: AbiType },
    Struct { name: Seq<char>, fields: Seq<FieldDeclView> },
}

impl View for FieldDecl {
    type V = FieldDeclView;

    open spec fn view(&self) -> FieldDeclView {
        FieldDeclView { name: self.name@, ty: self.ty }
    }
}

/// The views of a sequence of fields.
pub open spec fn field_views(fs: Seq<FieldDecl>) -> Seq<FieldDeclView> {
    fs.map_values(|f: FieldDecl| f@)
}

impl View for Declaration {
    type V = DeclarationView;

    open spec fn view(&self) -> DeclarationView {
        match self {
            Declaration::Function { name, params, ret } => DeclarationView::Function {
                name: name@,
                params: params@,
                ret: *ret,
            },
            Declaration::Struct { name, fields } => DeclarationView::Struct {
                name: name@,
                fields: field_views(fields@),
            },
        }
    }
}

/// The views of a sequence of declarations.
pub open spec fn decl_views(ds: Seq<Declaration>) -> Seq<DeclarationView> {
    ds.map_values(|d: Declaration| d@)
}

} // verus!
