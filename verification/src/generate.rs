//! From one input unit to its header.

use vstd::prelude::*;
use std::collections::HashSet;
use crate::diag::{diag_views, missing_name_fatal, Diagnostic, Severity};
use crate::emit::{emit, file_name, header_file_name, header_text};
use crate::tree::Crate;
use crate::walk::{items_trace, lemma_prefix_trace_well_formed, walk};

verus! {

/// A header, ready to be stored.
#[derive(Debug, PartialEq, Eq)]
pub struct Header {
    /// The name of the file that is to hold the header.
    pub file_name: String,
    pub text: String,
}

/// What the work on one input unit has given.
#[derive(Debug, PartialEq, Eq)]
pub struct Generated {
    /// The header; none if a fatal diagnostic ended the work.
    pub header: Option<Header>,
    /// The diagnostics, in the order in which they arose.
    pub diagnostics: Vec<Diagnostic>,
}

/// Makes the header of one crate, given the set of the identifiers of its
/// items that are reachable from outside.
///
/// A crate that declares no name gets no header, and the one diagnostic says
/// so. Else the tree is walked: the diagnostics are those of the walk, and
/// unless the walk was aborted, the header holds the declarations of the walk
/// and its file is named after the crate.
pub fn generate_header(krate: &Crate, exported: &HashSet<u32>) -> (g: Generated)
    ensures
        match krate.name {
            None => g.header is None && diag_views(g.diagnostics@) == seq![missing_name_fatal()],
            Some(name) => {
                let t = items_trace(krate.items@, exported@);
                &&& diag_views(g.diagnostics@) == t.diags
                &&& t.aborted() ==> g.header is None
                &&& !t.aborted() ==> (g.header matches Some(h) && h.file_name@
                    == header_file_name(name@) && h.text@ == header_text(name@, t.decls))
            },
        },
        g.header is Some <==> forall|i: int|
            0 <= i < g.diagnostics@.len() ==> (#[trigger] g.diagnostics@[i]).kind
                == Severity::Warning,
{
    match &krate.name {
        None => {
            let mut diagnostics: Vec<Diagnostic> = Vec::new();
            let d = Diagnostic::missing_name();
            diagnostics.push(d);
            assert(diag_views(diagnostics@) =~= seq![missing_name_fatal()]);
            assert(diagnostics@[0].kind == Severity::Fatal);
            Generated { header: None, diagnostics }
        },
        Some(name) => {
            let found = walk(&krate.items, exported);
            proof {
                lemma_prefix_trace_well_formed(krate.items@, krate.items@.len(), exported@);
                let t = found@;
                assert forall|i: int| 0 <= i < found.diagnostics@.len() implies (
                #[trigger] found.diagnostics@[i]).kind == t.diags[i].kind by {}
                if t.aborted() {
                    assert(found.diagnostics@[found.diagnostics@.len() - 1].kind == Severity::Fatal);
                } else {
                    assert forall|i: int| 0 <= i < found.diagnostics@.len() implies (
                    #[trigger] found.diagnostics@[i]).kind == Severity::Warning by {
                        if i < t.diags.len() - 1 {
                            assert(t.diags[i].kind == Severity::Warning);
                        }
                    }
                }
            }
            if found.aborted() {
                Generated { header: None, diagnostics: found.diagnostics }
            } else {
                let text = emit(name.as_str(), &found.declarations);
                let header = Header { file_name: file_name(name.as_str()), text };
                Generated { header: Some(header), diagnostics: found.diagnostics }
            }
        },
    }
}

} // verus!
