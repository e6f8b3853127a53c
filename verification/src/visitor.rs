//! A walk that is fed item by item and writes the declarations as text while
//! it goes.

use vstd::prelude::*;
use std::collections::HashSet;
use crate::abi::{abi_text, map_spec, map_type, write_abi_type, Reject, TypeNode};
use crate::diag::{diag_views, Diagnostic, Severity};
use crate::emit::{decls_text, write_declarations};
use crate::tree::Item;
use crate::walk::{item_trace, walk_item};

verus! {

/// The state of a walk that writes as it goes.
pub struct Visitor {
    /// The identifiers of the items that are reachable from outside the
    /// crate.
    pub exported: HashSet<u32>,
    /// The text written so far.
    pub writer: String,
    /// The diagnostics recorded so far, in the order in which they arose.
    pub diagnostics: Vec<Diagnostic>,
}

impl Visitor {
    /// Whether a fatal diagnostic has ended the walk.
    pub open spec fn aborted(self) -> bool {
        self.diagnostics@.len() > 0 && self.diagnostics@.last().kind == Severity::Fatal
    }

    /// A walk that has visited nothing yet and writes after `writer`.
    pub fn new(exported: HashSet<u32>, writer: String) -> (v: Visitor)
        ensures
            v.exported == exported,
            v.writer == writer,
            v.diagnostics@.len() == 0,
    {
        Visitor { exported, writer, diagnostics: Vec::new() }
    }

    /// Whether a fatal diagnostic has ended the walk.
    pub fn is_aborted(&self) -> (b: bool)
        ensures
            b == self.aborted(),
    {
        let n = self.diagnostics.len();
        n > 0 && self.diagnostics[n - 1].is_fatal()
    }

    /// Writes the C type of `ty`, or rejects `ty` and writes nothing.
    pub fn write_as_c_ty(&mut self, ty: &TypeNode) -> (r: Result<(), Reject>)
        ensures
            final(self).exported == old(self).exported,
            final(self).diagnostics == old(self).diagnostics,
            match map_spec(*ty) {
                Ok(a) => r is Ok && final(self).writer@ == old(self).writer@ + abi_text(a),
                Err(e) => r == Err::<(), Reject>(e) && final(self).writer@ == old(self).writer@,
            },
    {
        match map_type(ty) {
            Ok(a) => {
                write_abi_type(&mut self.writer, &a);
                Ok(())
            },
            Err(e) => Err(e),
        }
    }

    /// Visits one item and all that it holds, records what the walk of the
    /// item reports, and writes what it declares. Returns whether the walk can
    /// go on.
    ///
    /// Once a fatal diagnostic is recorded, a visit changes nothing. A visit
    /// that ends in a fatal diagnostic writes nothing.
    pub fn visit_item(&mut self, item: &Item) -> (go_on: bool)
        ensures
            final(self).exported == old(self).exported,
            go_on == !final(self).aborted(),
            old(self).aborted() ==> final(self).writer == old(self).writer
                && final(self).diagnostics == old(self).diagnostics,
            !old(self).aborted() ==> {
                let t = item_trace(*item, old(self).exported@);
                &&& diag_views(final(self).diagnostics@) == diag_views(old(self).diagnostics@)
                    + t.diags
                &&& final(self).writer@ == old(self).writer@ + decls_text(t.decls)
                &&& final(self).aborted() == t.aborted()
            },
    {
        if self.is_aborted() {
            return false;
        }
        let mut found = walk_item(item, &self.exported);
        let ghost t = found@;
        let ghost before = diag_views(self.diagnostics@);
        write_declarations(&mut self.writer, &found.declarations);
        self.diagnostics.append(&mut found.diagnostics);
        assert(diag_views(self.diagnostics@) =~= before + t.diags);
        !self.is_aborted()
    }
}

} // verus!
