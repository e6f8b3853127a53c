//! What the walk reports besides declarations: items it left out, and the
//! conditions that end the work on an input unit.

use vstd::prelude::*;
use vstd::string::StringExecFns;
use crate::abi::{reject_message, Reject};

verus! {

/// Whether work on the input unit goes on after a diagnostic.
#[derive(Clone, Copy, Debug, PartialEq, Eq, Structural)]
pub enum Severity {
    /// One item was left out; the walk goes on.
    Warning,
    /// Work on the input unit ends here, and no header is made for it.
    Fatal,
}

/// The condition that a diagnostic reports.
#[derive(Clone, Copy, Debug, PartialEq, Eq, Structural)]
pub enum Condition {
    /// The crate declares no name, so its header cannot be named.
    MissingIdentifyingAttribute,
    /// An exported function has no name that C code could call it by.
    UnnameableSymbol,
    /// An exported item is of a kind or shape that is not emitted.
    UnsupportedItemShape,
    /// A type of an exported item has no C representation.
    UnsupportedTypeConstruct(Reject),
}

/// A report on one condition.
#[derive(Debug, PartialEq, Eq)]
pub struct Diagnostic {
    pub kind: Severity,
    pub condition: Condition,
    pub message: String,
    /// The item that the report is about, if it is about one.
    pub item: Option<u32>,
}

/// A [`Diagnostic`] as contracts see it.
pub struct DiagnosticView {
    pub kind: Severity,
    pub condition: Condition,
    pub message: Seq<char>,
    pub item: Option<u32>,
}

impl View for Diagnostic {
    type V = DiagnosticView;

    open spec fn view(&self) -> DiagnosticView {
        DiagnosticView {
            kind: self.kind,
            condition: self.condition,
            message: self.message@,
            item: self.item,
        }
    }
}

/// The views of a sequence of diagnostics.
pub open spec fn diag_views(ds: Seq<Diagnostic>) -> Seq<DiagnosticView> {
    ds.map_values(|d: Diagnostic| d@)
}

/// The report on a crate that declares no name.
pub open spec fn missing_name_fatal() -> DiagnosticView {
    DiagnosticView {
        kind: Severity::Fatal,
        condition: Condition::MissingIdentifyingAttribute,
        message: "missing crate_id"@,
        item: None,
    }
}

/// The report on an exported function that C code cannot name.
pub open spec fn unnameable_warning(name: Seq<char>, id: u32) -> DiagnosticView {
    DiagnosticView {
        kind: Severity::Warning,
        condition: Condition::UnnameableSymbol,
        message: "Exported C abi function "@ + name + " with mangled name, not emitting"@,
        item: Some(id),
    }
}

/// The report on an exported struct with positional fields.
pub open spec fn tuple_struct_warning(name: Seq<char>, id: u32) -> DiagnosticView {
    DiagnosticView {
        kind: Severity::Warning,
        condition: Condition::UnsupportedItemShape,
        message: "Exported tuple-struct "@ + name + " is not emitted (unsupported)"@,
        item: Some(id),
    }
}

/// The report on an exported struct that is not declared with positional
/// fields and yet has a field without a name.
pub open spec fn unnamed_field_warning(name: Seq<char>, id: u32) -> DiagnosticView {
    DiagnosticView {
        kind: Severity::Warning,
        condition: Condition::UnsupportedItemShape,
        message: "Exported struct "@ + name + " with an unnamed field is not emitted (unsupported)"@,
        item: Some(id),
    }
}

/// The report on an exported enum.
pub open spec fn enum_warning(name: Seq<char>, id: u32) -> DiagnosticView {
    DiagnosticView {
        kind: Severity::Warning,
        condition: Condition::UnsupportedItemShape,
        message: "Exported enum "@ + name + " is not emitted (unsupported)"@,
        item: Some(id),
    }
}

/// The report on a type without C representation in the item `id`.
pub open spec fn type_fatal(reason: Reject, id: u32) -> DiagnosticView {
    DiagnosticView {
        kind: Severity::Fatal,
        condition: Condition::UnsupportedTypeConstruct(reason),
        message: reject_message(reason),
        item: Some(id),
    }
}

/// `head`, then `name`, then `tail`.
fn framed(head: &str, name: &str, tail: &str) -> (s: String)
    ensures
        s@ == head@ + name@ + tail@,
{
    let mut s = head.to_owned();
    s.append(name);
    s.append(tail);
    s
}

impl Diagnostic {
    pub fn missing_name() -> (d: Diagnostic)
        ensures
            d@ == missing_name_fatal(),
    {
        Diagnostic {
            kind: Severity::Fatal,
            condition: Condition::MissingIdentifyingAttribute,
            message: "missing crate_id".to_owned(),
            item: None,
        }
    }

    pub fn unnameable(name: &str, id: u32) -> (d: Diagnostic)
        ensures
            d@ == unnameable_warning(name@, id),
    {
        Diagnostic {
            kind: Severity::Warning,
            condition: Condition::UnnameableSymbol,
            message: framed("Exported C abi function ", name, " with mangled name, not emitting"),
            item: Some(id),
        }
    }

    pub fn tuple_struct(name: &str, id: u32) -> (d: Diagnostic)
        ensures
            d@ == tuple_struct_warning(name@, id),
    {
        Diagnostic {
            kind: Severity::Warning,
            condition: Condition::UnsupportedItemShape,
            message: framed("Exported tuple-struct ", name, " is not emitted (unsupported)"),
            item: Some(id),
        }
    }

    pub fn unnamed_field(name: &str, id: u32) -> (d: Diagnostic)
        ensures
            d@ == unnamed_field_warning(name@, id),
    {
        Diagnostic {
            kind: Severity::Warning,
            condition: Condition::UnsupportedItemShape,
            message: framed(
                "Exported struct ",
                name,
                " with an unnamed field is not emitted (unsupported)",
            ),
            item: Some(id),
        }
    }

    pub fn exported_enum(name: &str, id: u32) -> (d: Diagnostic)
        ensures
            d@ == enum_warning(name@, id),
    {
        Diagnostic {
            kind: Severity::Warning,
            condition: Condition::UnsupportedItemShape,
            message: framed("Exported enum ", name, " is not emitted (unsupported)"),
            item: Some(id),
        }
    }

    pub fn unsupported_type(reason: Reject, id: u32) -> (d: Diagnostic)
        ensures
            d@ == type_fatal(reason, id),
    {
        Diagnostic {
            kind: Severity::Fatal,
            condition: Condition::UnsupportedTypeConstruct(reason),
            message: reason.message().to_owned(),
            item: Some(id),
        }
    }

    /// Whether the diagnostic ends the work on the input unit.
    pub fn is_fatal(&self) -> (b: bool)
        ensures
            b == (self@.kind == Severity::Fatal),
    {
        match self.kind {
            Severity::Fatal => true,
            Severity::Warning => false,
        }
    }
}

} // verus!
