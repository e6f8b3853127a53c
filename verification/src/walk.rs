//! The walk over the module tree: which items are exported to C, what is
//! declared for each, and what is reported on the way.
//!
//! The walk is depth first and in declaration order. It enters every module,
//! whether or not the module itself is exported, and ends at the first fatal
//! diagnostic.

use vstd::prelude::*;
use vstd::pervasive::unreached;
use std::collections::HashSet;
use crate::abi::{
    all_representable, lemma_first_rejected_decides, map_all_spec, map_spec, map_type, map_types,
    AbiType, Reject, TypeNode,
};
use crate::decl::{decl_views, field_views, Declaration, DeclarationView, FieldDecl, FieldDeclView};
use crate::diag::{
    diag_views, enum_warning, tuple_struct_warning, type_fatal, unnameable_warning,
    unnamed_field_warning, Diagnostic, DiagnosticView, Severity,
};
use crate::names::{resolve, resolve_spec, SymbolName};
use crate::tree::{Field, FunctionItem, Item, ItemKind, StructItem};

verus! {

/// What a walk has produced: the declarations and the diagnostics, each in
/// the order in which the walk made them.
pub struct Trace {
    pub decls: Seq<DeclarationView>,
    pub diags: Seq<DiagnosticView>,
}

impl Trace {
    /// Nothing declared and nothing reported.
    pub open spec fn empty() -> Trace {
        Trace { decls: Seq::empty(), diags: Seq::empty() }
    }

    /// One declaration.
    pub open spec fn declared(d: DeclarationView) -> Trace {
        Trace { decls: seq![d], diags: Seq::empty() }
    }

    /// One diagnostic.
    pub open spec fn reported(d: DiagnosticView) -> Trace {
        Trace { decls: Seq::empty(), diags: seq![d] }
    }

    /// Whether the walk ended in a fatal diagnostic.
    pub open spec fn aborted(self) -> bool {
        self.diags.len() > 0 && self.diags.last().kind == Severity::Fatal
    }

    /// This walk continued by `next`. A walk that was aborted is not
    /// continued; one that is aborted later keeps its diagnostics and loses
    /// its declarations.
    pub open spec fn followed_by(self, next: Trace) -> Trace {
        if self.aborted() {
            self
        } else if next.aborted() {
            Trace { decls: Seq::empty(), diags: self.diags + next.diags }
        } else {
            Trace { decls: self.decls + next.decls, diags: self.diags + next.diags }
        }
    }

    /// Only the last diagnostic can be fatal, and a walk that ended in one
    /// holds no declaration.
    pub open spec fn well_formed(self) -> bool {
        &&& forall|i: int|
            0 <= i < self.diags.len() - 1 ==> (#[trigger] self.diags[i]).kind == Severity::Warning
        &&& self.aborted() ==> self.decls.len() == 0
    }
}

/// Whether a function is exported to C: it has the C calling convention, is
/// in the export set and takes no generic parameter.
pub open spec fn function_eligible(id: u32, f: FunctionItem, exported: Set<u32>) -> bool {
    f.abi.is_c() && exported.contains(id) && f.generics == 0
}

/// Whether a struct is exported to C: it is in the export set and takes no
/// generic parameter.
pub open spec fn struct_eligible(id: u32, s: StructItem, exported: Set<u32>) -> bool {
    exported.contains(id) && s.generics == 0
}

/// Whether every field has a name.
pub open spec fn all_named(fields: Seq<Field>) -> bool {
    forall|i: int| 0 <= i < fields.len() ==> (#[trigger] fields[i]).name is Some
}

/// The types of the fields, in order.
pub open spec fn field_types(fields: Seq<Field>) -> Seq<TypeNode> {
    fields.map_values(|f: Field| f.ty)
}

/// The fields of the declaration of a struct: the name of each field with
/// the C type of that field.
pub open spec fn field_decls(fields: Seq<Field>, types: Seq<AbiType>) -> Seq<FieldDeclView> {
    Seq::new(
        fields.len(),
        |i: int| FieldDeclView { name: fields[i].name->Some_0@, ty: types[i] },
    )
}

/// What the walk makes of an eligible function. Without a name it is left
/// out with a warning. Else its return type and then its parameter types are
/// translated in order: the first that is rejected aborts the walk, and with
/// none rejected the prototype is declared.
pub open spec fn function_trace(id: u32, f: FunctionItem) -> Trace {
    match resolve_spec(f.attrs, f.name@) {
        None => Trace::reported(unnameable_warning(f.name@, id)),
        Some(name) => match map_spec(f.output) {
            Err(r) => Trace::reported(type_fatal(r, id)),
            Ok(ret) => match map_all_spec(f.inputs@) {
                Err(r) => Trace::reported(type_fatal(r, id)),
                Ok(params) => Trace::declared(DeclarationView::Function { name, params, ret }),
            },
        },
    }
}

/// What the walk makes of an eligible struct. With positional fields, or
/// with a field that has no name, it is left out with a warning. Else the
/// types of its fields are translated in order: the first that is rejected
/// aborts the walk, and with none rejected the struct is declared.
pub open spec fn struct_trace(id: u32, s: StructItem) -> Trace {
    if s.is_tuple {
        Trace::reported(tuple_struct_warning(s.name@, id))
    } else if !all_named(s.fields@) {
        Trace::reported(unnamed_field_warning(s.name@, id))
    } else {
        match map_all_spec(field_types(s.fields@)) {
            Err(r) => Trace::reported(type_fatal(r, id)),
            Ok(types) => Trace::declared(
                DeclarationView::Struct { name: s.name@, fields: field_decls(s.fields@, types) },
            ),
        }
    }
}

/// What the walk makes of one item and of all that the item holds.
pub open spec fn item_trace(item: Item, exported: Set<u32>) -> Trace
    decreases item, 0nat,
{
    match item.kind {
        ItemKind::Module(children) => prefix_trace(children@, children@.len(), exported),
        ItemKind::Function(f) => if function_eligible(item.id, f, exported) {
            function_trace(item.id, f)
        } else {
            Trace::empty()
        },
        ItemKind::Struct(s) => if struct_eligible(item.id, s, exported) {
            struct_trace(item.id, s)
        } else {
            Trace::empty()
        },
        ItemKind::Enum(name) => if exported.contains(item.id) {
            Trace::reported(enum_warning(name@, item.id))
        } else {
            Trace::empty()
        },
        ItemKind::Other => Trace::empty(),
    }
}

/// What the walk makes of the first `n` items of a sequence.
pub open spec fn prefix_trace(items: Seq<Item>, n: nat, exported: Set<u32>) -> Trace
    decreases items, n,
{
    if n == 0 || n > items.len() {
        Trace::empty()
    } else {
        prefix_trace(items, (n - 1) as nat, exported).followed_by(item_trace(items[n - 1], exported))
    }
}

/// What the walk makes of a sequence of items.
pub open spec fn items_trace(items: Seq<Item>, exported: Set<u32>) -> Trace {
    prefix_trace(items, items.len(), exported)
}

/// Whether neither the item nor anything that it holds is in the export set.
pub open spec fn unexported(item: Item, exported: Set<u32>) -> bool
    decreases item,
{
    &&& !exported.contains(item.id)
    &&& item.kind matches ItemKind::Module(children) ==> forall|i: int|
        0 <= i < children@.len() ==> unexported(#[trigger] children@[i], exported)
}

/// The result of a walk.
#[derive(Debug, PartialEq, Eq)]
pub struct Walk {
    /// The declarations, in the order of the tree; none if the walk was
    /// aborted.
    pub declarations: Vec<Declaration>,
    /// The diagnostics, in the order in which they arose; a fatal one, if
    /// there is one, is the last.
    pub diagnostics: Vec<Diagnostic>,
}

impl View for Walk {
    type V = Trace;

    open spec fn view(&self) -> Trace {
        Trace { decls: decl_views(self.declarations@), diags: diag_views(self.diagnostics@) }
    }
}

impl Walk {
    /// A walk that has made nothing yet.
    pub fn new() -> (w: Walk)
        ensures
            w@ == Trace::empty(),
    {
        let w = Walk { declarations: Vec::new(), diagnostics: Vec::new() };
        assert(w@.decls =~= Seq::empty());
        assert(w@.diags =~= Seq::empty());
        w
    }

    fn declared(d: Declaration) -> (w: Walk)
        ensures
            w@ == Trace::declared(d@),
    {
        let mut w = Walk { declarations: Vec::new(), diagnostics: Vec::new() };
        w.declarations.push(d);
        assert(w@.decls =~= seq![d@]);
        assert(w@.diags =~= Seq::empty());
        w
    }

    fn reported(d: Diagnostic) -> (w: Walk)
        ensures
            w@ == Trace::reported(d@),
    {
        let mut w = Walk { declarations: Vec::new(), diagnostics: Vec::new() };
        w.diagnostics.push(d);
        assert(w@.decls =~= Seq::empty());
        assert(w@.diags =~= seq![d@]);
        w
    }

    /// Whether the walk ended in a fatal diagnostic.
    pub fn aborted(&self) -> (b: bool)
        ensures
            b == self@.aborted(),
    {
        let n = self.diagnostics.len();
        n > 0 && self.diagnostics[n - 1].is_fatal()
    }

    /// Continues this walk by `next`.
    fn followed_by(&mut self, next: Walk)
        ensures
            final(self)@ == old(self)@.followed_by(next@),
    {
        if self.aborted() {
            return ;
        }
        let mut next = next;
        let ghost before = self@;
        let ghost after = next@;
        if next.aborted() {
            self.declarations.clear();
        } else {
            self.declarations.append(&mut next.declarations);
        }
        self.diagnostics.append(&mut next.diagnostics);
        assert(self@.diags =~= before.diags + after.diags);
        assert(self@.decls =~= before.followed_by(after).decls);
    }
}

/// Walks an eligible function.
fn walk_function(id: u32, f: &FunctionItem) -> (w: Walk)
    ensures
        w@ == function_trace(id, *f),
{
    match resolve(&f.attrs, f.name.as_str()) {
        SymbolName::Unnameable => Walk::reported(Diagnostic::unnameable(f.name.as_str(), id)),
        SymbolName::Named(name) => match map_type(&f.output) {
            Err(r) => Walk::reported(Diagnostic::unsupported_type(r, id)),
            Ok(ret) => match map_types(&f.inputs) {
                Err(r) => Walk::reported(Diagnostic::unsupported_type(r, id)),
                Ok(params) => Walk::declared(Declaration::Function { name, params, ret }),
            },
        },
    }
}

/// Whether every field has a name.
fn fields_named(fields: &Vec<Field>) -> (b: bool)
    ensures
        b == all_named(fields@),
{
    let mut i: usize = 0;
    while i < fields.len()
        invariant
            i <= fields.len(),
            forall|j: int| 0 <= j < i ==> (#[trigger] fields@[j]).name is Some,
        decreases fields.len() - i,
    {
        if fields[i].name.is_none() {
            return false;
        }
        i = i + 1;
    }
    true
}

/// Walks an eligible struct.
fn walk_struct(id: u32, s: &StructItem) -> (w: Walk)
    ensures
        w@ == struct_trace(id, *s),
{
    if s.is_tuple {
        return Walk::reported(Diagnostic::tuple_struct(s.name.as_str(), id));
    }
    if !fields_named(&s.fields) {
        return Walk::reported(Diagnostic::unnamed_field(s.name.as_str(), id));
    }
    let ghost types = field_types(s.fields@);
    let mut fields: Vec<FieldDecl> = Vec::new();
    let mut i: usize = 0;
    while i < s.fields.len()
        invariant
            i <= s.fields.len(),
            !s.is_tuple,
            all_named(s.fields@),
            types == field_types(s.fields@),
            forall|j: int| 0 <= j < i ==> (#[trigger] map_spec(types[j])) is Ok,
            field_views(fields@) == Seq::new(
                i as nat,
                |j: int|
                    FieldDeclView {
                        name: s.fields@[j].name->Some_0@,
                        ty: map_spec(types[j])->Ok_0,
                    },
            ),
        decreases s.fields.len() - i,
    {
        let field = &s.fields[i];
        assert(types[i as int] == field.ty);
        match map_type(&field.ty) {
            Err(r) => {
                proof {
                    lemma_first_rejected_decides(types, i as int);
                }
                return Walk::reported(Diagnostic::unsupported_type(r, id));
            },
            Ok(ty) => {
                let name = match &field.name {
                    Some(n) => n.clone(),
                    None => unreached(),
                };
                let ghost before = field_views(fields@);
                let entry = FieldDecl { name, ty };
                fields.push(entry);
                assert(field_views(fields@) =~= before.push(entry@));
            },
        }
        i = i + 1;
    }
    proof {
        assert(all_representable(types));
        assert(field_views(fields@) =~= field_decls(s.fields@, map_all_spec(types)->Ok_0));
    }
    Walk::declared(Declaration::Struct { name: s.name.clone(), fields })
}

/// A walk that is aborted after `i` items is the walk of any longer prefix.
pub proof fn lemma_abort_ends_walk(items: Seq<Item>, i: nat, n: nat, exported: Set<u32>)
    requires
        i <= n <= items.len(),
        prefix_trace(items, i, exported).aborted(),
    ensures
        prefix_trace(items, n, exported) == prefix_trace(items, i, exported),
    decreases n,
{
    if i < n {
        lemma_abort_ends_walk(items, i, (n - 1) as nat, exported);
    }
}

/// Walks one item and all that it holds.
pub fn walk_item(item: &Item, exported: &HashSet<u32>) -> (w: Walk)
    ensures
        w@ == item_trace(*item, exported@),
    decreases *item, 0nat,
{
    match &item.kind {
        ItemKind::Module(children) => walk(children, exported),
        ItemKind::Function(f) => {
            if f.abi.is_c() && exported.contains(&item.id) && f.generics == 0 {
                walk_function(item.id, f)
            } else {
                Walk::new()
            }
        },
        ItemKind::Struct(s) => {
            if exported.contains(&item.id) && s.generics == 0 {
                walk_struct(item.id, s)
            } else {
                Walk::new()
            }
        },
        ItemKind::Enum(name) => {
            if exported.contains(&item.id) {
                Walk::reported(Diagnostic::exported_enum(name.as_str(), item.id))
            } else {
                Walk::new()
            }
        },
        ItemKind::Other => Walk::new(),
    }
}

/// Walks a sequence of items in order, and stops at the first fatal
/// diagnostic.
pub fn walk(items: &Vec<Item>, exported: &HashSet<u32>) -> (w: Walk)
    ensures
        w@ == items_trace(items@, exported@),
    decreases *items, 1nat,
{
    let mut acc = Walk::new();
    let mut i: usize = 0;
    while i < items.len()
        invariant
            i <= items.len(),
            acc@ == prefix_trace(items@, i as nat, exported@),
            !acc@.aborted(),
        decreases items.len() - i,
    {
        let next = walk_item(&items[i], exported);
        acc.followed_by(next);
        i = i + 1;
        if acc.aborted() {
            proof {
                lemma_abort_ends_walk(items@, i as nat, items@.len(), exported@);
            }
            return acc;
        }
    }
    acc
}

/// Continuing a walk keeps it well formed.
proof fn lemma_followed_by_well_formed(a: Trace, b: Trace)
    requires
        a.well_formed(),
        b.well_formed(),
    ensures
        a.followed_by(b).well_formed(),
{
    if !a.aborted() {
        let joined = a.followed_by(b);
        assert forall|i: int| 0 <= i < joined.diags.len() - 1 implies (
        #[trigger] joined.diags[i]).kind == Severity::Warning by {
            if i < a.diags.len() {
                assert(joined.diags[i] == a.diags[i]);
            } else {
                assert(joined.diags[i] == b.diags[i - a.diags.len()]);
            }
        }
    }
}

/// Warnings accumulate and a fatal diagnostic ends the walk: of what the walk
/// of an item reports, only the last diagnostic can be fatal, and if it is,
/// nothing is declared.
pub proof fn lemma_item_trace_well_formed(item: Item, exported: Set<u32>)
    ensures
        item_trace(item, exported).well_formed(),
    decreases item, 0nat,
{
    match item.kind {
        ItemKind::Module(children) => {
            lemma_prefix_trace_well_formed(children@, children@.len(), exported);
        },
        _ => {},
    }
}

/// The same of the walk of the first `n` items of a sequence.
pub proof fn lemma_prefix_trace_well_formed(items: Seq<Item>, n: nat, exported: Set<u32>)
    ensures
        prefix_trace(items, n, exported).well_formed(),
    decreases items, n,
{
    if n != 0 && n <= items.len() {
        lemma_prefix_trace_well_formed(items, (n - 1) as nat, exported);
        lemma_item_trace_well_formed(items[n - 1], exported);
        lemma_followed_by_well_formed(
            prefix_trace(items, (n - 1) as nat, exported),
            item_trace(items[n - 1], exported),
        );
    }
}

/// An item that is not in the export set, and holds nothing that is, makes
/// no declaration and no diagnostic, whatever its kind and shape.
pub proof fn lemma_unexported_is_silent(item: Item, exported: Set<u32>)
    requires
        unexported(item, exported),
    ensures
        item_trace(item, exported) == Trace::empty(),
    decreases item, 0nat,
{
    match item.kind {
        ItemKind::Module(children) => {
            lemma_unexported_prefix_is_silent(children@, children@.len(), exported);
        },
        _ => {},
    }
}

/// The same of the first `n` items of a sequence.
pub proof fn lemma_unexported_prefix_is_silent(items: Seq<Item>, n: nat, exported: Set<u32>)
    requires
        forall|i: int| 0 <= i < items.len() ==> unexported(#[trigger] items[i], exported),
    ensures
        prefix_trace(items, n, exported) == Trace::empty(),
    decreases items, n,
{
    if n != 0 && n <= items.len() {
        lemma_unexported_prefix_is_silent(items, (n - 1) as nat, exported);
        lemma_unexported_is_silent(items[n - 1], exported);
        assert(Trace::empty().followed_by(Trace::empty()).decls =~= Seq::empty());
        assert(Trace::empty().followed_by(Trace::empty()).diags =~= Seq::empty());
    }
}

/// A module is walked for what it holds: whether the module itself is in the
/// export set changes nothing.
pub proof fn lemma_module_is_transparent(id: u32, children: Vec<Item>, exported: Set<u32>)
    ensures
        item_trace(Item { id, kind: ItemKind::Module(children) }, exported) == items_trace(
            children@,
            exported,
        ),
{
}

/// An eligible function whose attributes set its name is declared under that
/// very name, whether or not it is also marked to keep its identifier: every
/// declaration that the walk makes of it bears the name, and the walk makes
/// one if the types of the signature have C types.
pub proof fn lemma_export_name_is_emitted(id: u32, f: FunctionItem, exported: Set<u32>)
    requires
        function_eligible(id, f, exported),
        f.attrs.export_name is Some,
    ensures
        ({
            let t = item_trace(Item { id, kind: ItemKind::Function(f) }, exported);
            &&& forall|i: int|
                0 <= i < t.decls.len() ==> ((#[trigger] t.decls[i]) matches DeclarationView::Function {
                    name,
                    ..
                } && name == f.attrs.export_name->Some_0@)
            &&& map_spec(f.output) is Ok && all_representable(f.inputs@) ==> t.decls.len() == 1
                && t.diags.len() == 0
        }),
{
}

/// An eligible function that neither sets its name nor is marked to keep its
/// identifier is not declared, and exactly one warning is recorded, which
/// names the function.
pub proof fn lemma_unmarked_function_is_left_out(id: u32, f: FunctionItem, exported: Set<u32>)
    requires
        function_eligible(id, f, exported),
        f.attrs.export_name is None,
        !f.attrs.no_mangle,
    ensures
        ({
            let t = item_trace(Item { id, kind: ItemKind::Function(f) }, exported);
            &&& t.decls.len() == 0
            &&& t.diags == seq![unnameable_warning(f.name@, id)]
            &&& t.diags[0].kind == Severity::Warning
            &&& t.diags[0].item == Some(id)
        }),
{
}

/// An eligible struct whose fields all have names and C types is declared
/// with as many fields as it has, in their order, each under its name and
/// with the C type of its type.
pub proof fn lemma_struct_fields_keep_order(id: u32, s: StructItem, exported: Set<u32>)
    requires
        struct_eligible(id, s, exported),
        !s.is_tuple,
        all_named(s.fields@),
        all_representable(field_types(s.fields@)),
    ensures
        ({
            let t = item_trace(Item { id, kind: ItemKind::Struct(s) }, exported);
            &&& t.diags.len() == 0
            &&& t.decls.len() == 1
            &&& t.decls[0] matches DeclarationView::Struct { name, fields }
            &&& name == s.name@
            &&& fields.len() == s.fields@.len()
            &&& forall|i: int|
                0 <= i < fields.len() ==> {
                    &&& (#[trigger] fields[i]).name == s.fields@[i].name->Some_0@
                    &&& map_spec(s.fields@[i].ty) == Ok::<AbiType, Reject>(fields[i].ty)
                }
        }),
{
    let types = field_types(s.fields@);
    assert forall|i: int| 0 <= i < s.fields@.len() implies map_spec(s.fields@[i].ty) is Ok by {
        assert(map_spec(types[i]) is Ok);
    }
}

/// A type without C type in the signature of an eligible function that has a
/// name aborts the walk: nothing is declared, and the one diagnostic is
/// fatal and tells the construct.
pub proof fn lemma_rejected_signature_aborts(id: u32, f: FunctionItem, exported: Set<u32>)
    requires
        function_eligible(id, f, exported),
        resolve_spec(f.attrs, f.name@) is Some,
        !(map_spec(f.output) is Ok && all_representable(f.inputs@)),
    ensures
        ({
            let t = item_trace(Item { id, kind: ItemKind::Function(f) }, exported);
            &&& t.aborted()
            &&& t.decls.len() == 0
            &&& t.diags.len() == 1
            &&& t.diags[0].condition is UnsupportedTypeConstruct
            &&& t.diags[0].item == Some(id)
        }),
{
}

/// A field type without C type in an eligible struct with named fields
/// aborts the walk in the same way.
pub proof fn lemma_rejected_field_aborts(id: u32, s: StructItem, exported: Set<u32>)
    requires
        struct_eligible(id, s, exported),
        !s.is_tuple,
        all_named(s.fields@),
        !all_representable(field_types(s.fields@)),
    ensures
        ({
            let t = item_trace(Item { id, kind: ItemKind::Struct(s) }, exported);
            &&& t.aborted()
            &&& t.decls.len() == 0
            &&& t.diags.len() == 1
            &&& t.diags[0].condition is UnsupportedTypeConstruct
            &&& t.diags[0].item == Some(id)
        }),
{
}

/// One item whose walk is aborted aborts the walk of the sequence that holds
/// it, and that walk keeps no declaration, whatever stands before and after
/// the item.
pub proof fn lemma_aborted_item_aborts_walk(items: Seq<Item>, i: int, exported: Set<u32>)
    requires
        0 <= i < items.len(),
        item_trace(items[i], exported).aborted(),
    ensures
        items_trace(items, exported).aborted(),
        items_trace(items, exported).decls.len() == 0,
{
    let before = prefix_trace(items, i as nat, exported);
    lemma_prefix_trace_well_formed(items, items.len(), exported);
    if before.aborted() {
        lemma_abort_ends_walk(items, i as nat, items.len(), exported);
    } else {
        let with_item = prefix_trace(items, (i + 1) as nat, exported);
        assert(with_item == before.followed_by(item_trace(items[i], exported)));
        assert(with_item.diags.last() == item_trace(items[i], exported).diags.last());
        lemma_abort_ends_walk(items, (i + 1) as nat, items.len(), exported);
    }
}

} // verus!
