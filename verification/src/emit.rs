//! The text of a header: an include guard around one line for each function
//! prototype and one block for each struct, in the order of the declarations.

use vstd::prelude::*;
use vstd::string::StringExecFns;
use crate::abi::{abi_text, write_abi_type, AbiType};
use crate::decl::{decl_views, field_views, Declaration, DeclarationView, FieldDecl, FieldDeclView};

verus! {

/// A character as it stands in the name of the include guard: a small ASCII
/// letter becomes the capital one, a capital ASCII letter or a digit is kept,
/// and anything else becomes an underscore.
pub open spec fn guard_char(c: char) -> char {
    if 'a' <= c && c <= 'z' {
        ((c as u8) - 32) as char
    } else if ('A' <= c && c <= 'Z') || ('0' <= c && c <= '9') {
        c
    } else {
        '_'
    }
}

/// The header's identifier as it stands in the name of the include guard.
pub open spec fn guard_ident(id: Seq<char>) -> Seq<char> {
    Seq::new(id.len(), |i: int| guard_char(id[i]))
}

/// The name of the include guard of the header with the given identifier.
pub open spec fn guard_macro(id: Seq<char>) -> Seq<char> {
    "RUSTCRATE_"@ + guard_ident(id) + "_H"@
}

/// The name of the file that holds the header with the given identifier.
pub open spec fn header_file_name(id: Seq<char>) -> Seq<char> {
    id + ".h"@
}

/// The `i`-th parameter as it stands in a parameter list: after a comma,
/// unless it is the first.
pub open spec fn param_piece(params: Seq<AbiType>, i: int) -> Seq<char> {
    if i == 0 {
        abi_text(params[i])
    } else {
        ", "@ + abi_text(params[i])
    }
}

/// A parameter list: the parameter types with commas between them, or `void`
/// where there is no parameter.
pub open spec fn params_text(params: Seq<AbiType>) -> Seq<char> {
    if params.len() == 0 {
        "void"@
    } else {
        Seq::new(params.len(), |i: int| param_piece(params, i)).flatten()
    }
}

/// The line of one field in a struct block.
pub open spec fn field_text(f: FieldDeclView) -> Seq<char> {
    "    "@ + abi_text(f.ty) + " "@ + f.name + ";\n"@
}

/// The lines of the fields of a struct block, in order.
pub open spec fn fields_text(fields: Seq<FieldDeclView>) -> Seq<char> {
    fields.map_values(|f: FieldDeclView| field_text(f)).flatten()
}

/// A declaration as it stands in the header.
pub open spec fn decl_text(d: DeclarationView) -> Seq<char> {
    match d {
        DeclarationView::Function { name, params, ret } => abi_text(ret) + " "@ + name + "("@
            + params_text(params) + ");\n"@,
        DeclarationView::Struct { name, fields } => "struct "@ + name + " {\n"@ + fields_text(
            fields,
        ) + "};\n"@,
    }
}

/// The declarations as they stand in the header, in order.
pub open spec fn decls_text(ds: Seq<DeclarationView>) -> Seq<char> {
    ds.map_values(|d: DeclarationView| decl_text(d)).flatten()
}

/// What stands in a header before the declarations.
pub open spec fn header_prologue(id: Seq<char>) -> Seq<char> {
    "#ifndef "@ + guard_macro(id) + "\n#define "@ + guard_macro(id)
        + "\n#include<stdint.h>\n\n// auto generated\n\n"@
}

/// The whole header.
pub open spec fn header_text(id: Seq<char>, ds: Seq<DeclarationView>) -> Seq<char> {
    header_prologue(id) + decls_text(ds) + "#endif"@
}

/// Joining one part more adds that part at the end.
proof fn lemma_flatten_step(parts: Seq<Seq<char>>, i: int)
    requires
        0 <= i < parts.len(),
    ensures
        parts.take(i + 1).flatten() == parts.take(i).flatten() + parts[i],
{
    assert(parts.take(i + 1) =~= parts.take(i).push(parts[i]));
    parts.take(i).lemma_flatten_push(parts[i]);
}

/// `String::push` of the standard library: the string afterwards is the
/// string before with the one character added at its end.
#[verifier::external_body]
fn push_char(s: &mut String, c: char)
    ensures
        final(s)@ == old(s)@.push(c),
{
    s.push(c)
}

/// A character as it stands in the name of the include guard.
fn guard_char_of(c: char) -> (r: char)
    ensures
        r == guard_char(c),
{
    if 'a' <= c && c <= 'z' {
        ((c as u8) - 32) as char
    } else if ('A' <= c && c <= 'Z') || ('0' <= c && c <= '9') {
        c
    } else {
        '_'
    }
}

/// The name of the include guard of the header with the given identifier.
pub fn guard_name(id: &str) -> (r: String)
    ensures
        r@ == guard_macro(id@),
{
    let mut out = "RUSTCRATE_".to_owned();
    let chars = id.chars();
    for c in it: chars
        invariant
            it.seq() == id@,
            out@ == "RUSTCRATE_"@ + Seq::new(it.index() as nat, |i: int| guard_char(id@[i])),
    {
        push_char(&mut out, guard_char_of(c));
    }
    out.append("_H");
    out
}

/// The name of the file that holds the header with the given identifier.
pub fn file_name(id: &str) -> (r: String)
    ensures
        r@ == header_file_name(id@),
{
    let mut out = id.to_owned();
    out.append(".h");
    out
}

/// Appends a parameter list to `out`.
fn write_params(out: &mut String, params: &Vec<AbiType>)
    ensures
        final(out)@ == old(out)@ + params_text(params@),
{
    if params.len() == 0 {
        out.append("void");
        return ;
    }
    let ghost pieces = Seq::new(params@.len(), |i: int| param_piece(params@, i));
    let mut i: usize = 0;
    while i < params.len()
        invariant
            i <= params.len(),
            pieces == Seq::new(params@.len(), |i: int| param_piece(params@, i)),
            out@ == old(out)@ + pieces.take(i as int).flatten(),
        decreases params.len() - i,
    {
        proof {
            lemma_flatten_step(pieces, i as int);
        }
        if i != 0 {
            out.append(", ");
        }
        write_abi_type(out, &params[i]);
        i = i + 1;
    }
    assert(pieces.take(params@.len() as int) =~= pieces);
}

/// Appends the lines of the fields of a struct block to `out`.
fn write_fields(out: &mut String, fields: &Vec<FieldDecl>)
    ensures
        final(out)@ == old(out)@ + fields_text(field_views(fields@)),
{
    let ghost pieces = field_views(fields@).map_values(|f: FieldDeclView| field_text(f));
    let mut i: usize = 0;
    while i < fields.len()
        invariant
            i <= fields.len(),
            pieces == field_views(fields@).map_values(|f: FieldDeclView| field_text(f)),
            out@ == old(out)@ + pieces.take(i as int).flatten(),
        decreases fields.len() - i,
    {
        proof {
            lemma_flatten_step(pieces, i as int);
        }
        out.append("    ");
        write_abi_type(out, &fields[i].ty);
        out.append(" ");
        out.append(fields[i].name.as_str());
        out.append(";\n");
        i = i + 1;
    }
    assert(pieces.take(fields@.len() as int) =~= pieces);
}

/// Appends one declaration to `out` as it stands in a header.
pub fn write_declaration(out: &mut String, d: &Declaration)
    ensures
        final(out)@ == old(out)@ + decl_text(d@),
{
    match d {
        Declaration::Function { name, params, ret } => {
            write_abi_type(out, ret);
            out.append(" ");
            out.append(name.as_str());
            out.append("(");
            write_params(out, params);
            out.append(");\n");
        },
        Declaration::Struct { name, fields } => {
            out.append("struct ");
            out.append(name.as_str());
            out.append(" {\n");
            write_fields(out, fields);
            out.append("};\n");
        },
    }
}

/// Appends the declarations to `out` in order, as they stand in a header.
pub fn write_declarations(out: &mut String, ds: &Vec<Declaration>)
    ensures
        final(out)@ == old(out)@ + decls_text(decl_views(ds@)),
{
    let ghost pieces = decl_views(ds@).map_values(|d: DeclarationView| decl_text(d));
    let mut i: usize = 0;
    while i < ds.len()
        invariant
            i <= ds.len(),
            pieces == decl_views(ds@).map_values(|d: DeclarationView| decl_text(d)),
            out@ == old(out)@ + pieces.take(i as int).flatten(),
        decreases ds.len() - i,
    {
        proof {
            lemma_flatten_step(pieces, i as int);
        }
        write_declaration(out, &ds[i]);
        i = i + 1;
    }
    assert(pieces.take(ds@.len() as int) =~= pieces);
}

/// Writes the header with the given identifier that holds the given
/// declarations, in their order.
pub fn emit(header_id: &str, ds: &Vec<Declaration>) -> (text: String)
    ensures
        text@ == header_text(header_id@, decl_views(ds@)),
{
    let guard = guard_name(header_id);
    let mut out = "#ifndef ".to_owned();
    out.append(guard.as_str());
    out.append("\n#define ");
    out.append(guard.as_str());
    out.append("\n#include<stdint.h>\n\n// auto generated\n\n");
    write_declarations(&mut out, ds);
    out.append("#endif");
    out
}

/// The name of an include guard holds capital ASCII letters, digits and
/// underscores only, whatever the header's identifier holds.
pub proof fn lemma_guard_is_identifier(id: Seq<char>)
    ensures
        guard_macro(id).len() == id.len() + 12,
        forall|i: int|
            0 <= i < guard_macro(id).len() ==> {
                let c = #[trigger] guard_macro(id)[i];
                ('A' <= c && c <= 'Z') || ('0' <= c && c <= '9') || c == '_'
            },
{
    reveal_strlit("RUSTCRATE_");
    reveal_strlit("_H");
}

} // verus!
