use header::abi::{AbiBase, AbiType, FloatWidth, IntWidth, Primitive, Reject, TypeNode};
use header::decl::{Declaration, FieldDecl};
use header::diag::{Condition, Diagnostic, Severity};
use header::names::Attributes;
use header::tree::{Abi, Field, FunctionItem, Item, ItemKind, StructItem};
use header::walk::{walk, walk_item, Walk};
use std::collections::HashSet;

fn w_set(ids: &[u32]) -> HashSet<u32> {
    ids.iter().copied().collect()
}

fn w_int() -> TypeNode {
    TypeNode::Primitive(Primitive::Int(IntWidth::W32))
}

fn w_ptr(t: TypeNode) -> TypeNode {
    TypeNode::Indirection(Box::new(t))
}

fn w_no_mangle() -> Attributes {
    Attributes { export_name: None, no_mangle: true }
}

fn w_function(id: u32, name: &str, inputs: Vec<TypeNode>, output: TypeNode) -> Item {
    Item {
        id,
        kind: ItemKind::Function(FunctionItem {
            name: name.to_string(),
            abi: Abi::C,
            generics: 0,
            inputs,
            output,
            attrs: w_no_mangle(),
        }),
    }
}

fn w_struct(id: u32, name: &str, fields: Vec<(&str, TypeNode)>) -> Item {
    Item {
        id,
        kind: ItemKind::Struct(StructItem {
            name: name.to_string(),
            generics: 0,
            is_tuple: false,
            fields: fields
                .into_iter()
                .map(|(n, ty)| Field { name: Some(n.to_string()), ty })
                .collect(),
        }),
    }
}

fn w_enum(id: u32, name: &str) -> Item {
    Item { id, kind: ItemKind::Enum(name.to_string()) }
}

fn w_module(id: u32, items: Vec<Item>) -> Item {
    Item { id, kind: ItemKind::Module(items) }
}

fn w_prototype(name: &str, params: Vec<AbiType>, ret: AbiType) -> Declaration {
    Declaration::Function { name: name.to_string(), params, ret }
}

fn w_empty() -> Walk {
    Walk { declarations: Vec::new(), diagnostics: Vec::new() }
}

fn w_type_fatal(reason: Reject, message: &str, id: u32) -> Diagnostic {
    Diagnostic {
        kind: Severity::Fatal,
        condition: Condition::UnsupportedTypeConstruct(reason),
        message: message.to_string(),
        item: Some(id),
    }
}

#[test]
fn exported_function_is_declared() {
    let item = w_function(1, "f", vec![w_int(), w_ptr(w_int())], TypeNode::Nil);
    let found = walk_item(&item, &w_set(&[1]));
    assert_eq!(
        found,
        Walk {
            declarations: vec![w_prototype(
                "f",
                vec![
                    AbiType::Base(AbiBase::Int32),
                    AbiType::Pointer(Box::new(AbiType::Base(AbiBase::Int32))),
                ],
                AbiType::Base(AbiBase::Void),
            )],
            diagnostics: Vec::new(),
        }
    );
    assert!(!found.aborted());
}

#[test]
fn items_outside_the_export_set_are_silent() {
    let mut tuple_struct = w_struct(3, "T", vec![("a", w_int())]);
    if let ItemKind::Struct(s) = &mut tuple_struct.kind {
        s.is_tuple = true;
        s.fields[0].name = None;
    }
    let mut unnameable = w_function(5, "mangled", Vec::new(), TypeNode::Nil);
    if let ItemKind::Function(f) = &mut unnameable.kind {
        f.attrs.no_mangle = false;
    }
    let items = vec![
        w_function(1, "f", vec![TypeNode::Tuple], TypeNode::Closure),
        w_struct(2, "S", vec![("a", TypeNode::TextString)]),
        tuple_struct,
        w_enum(4, "E"),
        unnameable,
        Item { id: 6, kind: ItemKind::Other },
        w_module(7, vec![w_function(8, "inner", Vec::new(), TypeNode::DynamicSequence), w_enum(9, "F")]),
    ];
    let exported = w_set(&[100, 101]);
    for item in &items {
        assert_eq!(walk_item(item, &exported), w_empty());
    }
    assert_eq!(walk(&items, &exported), w_empty());
    assert_eq!(walk(&items, &HashSet::new()), w_empty());
}

#[test]
fn private_module_is_entered() {
    let tree = vec![w_module(1, vec![w_function(2, "inner", Vec::new(), w_int())])];
    let found = walk(&tree, &w_set(&[2]));
    assert_eq!(
        found.declarations,
        vec![w_prototype("inner", Vec::new(), AbiType::Base(AbiBase::Int32))]
    );
    assert!(found.diagnostics.is_empty());
}

#[test]
fn exported_module_declares_only_what_its_items_do() {
    let tree = vec![w_module(1, vec![w_function(2, "inner", Vec::new(), w_int())])];
    assert_eq!(walk(&tree, &w_set(&[1])), w_empty());
}

#[test]
fn function_with_other_calling_convention_is_ignored() {
    for abi in [Abi::Rust, Abi::Other] {
        let mut item = w_function(1, "f", vec![TypeNode::Tuple], TypeNode::Nil);
        if let ItemKind::Function(f) = &mut item.kind {
            f.abi = abi;
        }
        assert_eq!(walk_item(&item, &w_set(&[1])), w_empty());
    }
    assert!(Abi::C.is_c());
    assert!(!Abi::Rust.is_c());
    assert!(!Abi::Other.is_c());
}

#[test]
fn generic_function_is_ignored() {
    let mut item = w_function(1, "f", Vec::new(), TypeNode::Tuple);
    if let ItemKind::Function(f) = &mut item.kind {
        f.generics = 1;
        f.attrs.no_mangle = false;
    }
    assert_eq!(walk_item(&item, &w_set(&[1])), w_empty());
}

#[test]
fn generic_struct_is_ignored() {
    let mut item = w_struct(1, "S", vec![("a", TypeNode::Tuple)]);
    if let ItemKind::Struct(s) = &mut item.kind {
        s.generics = 2;
        s.is_tuple = true;
    }
    assert_eq!(walk_item(&item, &w_set(&[1])), w_empty());
}

#[test]
fn export_name_is_the_emitted_name() {
    for no_mangle in [false, true] {
        let mut item = w_function(1, "rust_side", vec![w_int()], w_int());
        if let ItemKind::Function(f) = &mut item.kind {
            f.attrs = Attributes { export_name: Some("c_side".to_string()), no_mangle };
        }
        let found = walk_item(&item, &w_set(&[1]));
        assert_eq!(
            found.declarations,
            vec![w_prototype(
                "c_side",
                vec![AbiType::Base(AbiBase::Int32)],
                AbiType::Base(AbiBase::Int32)
            )]
        );
        assert!(found.diagnostics.is_empty());
    }
}

#[test]
fn unmarked_function_gets_one_warning() {
    let mut item = w_function(9, "mangled", vec![TypeNode::Tuple], TypeNode::Closure);
    if let ItemKind::Function(f) = &mut item.kind {
        f.attrs.no_mangle = false;
    }
    let found = walk_item(&item, &w_set(&[9]));
    assert!(found.declarations.is_empty());
    assert_eq!(
        found.diagnostics,
        vec![Diagnostic {
            kind: Severity::Warning,
            condition: Condition::UnnameableSymbol,
            message: "Exported C abi function mangled with mangled name, not emitting".to_string(),
            item: Some(9),
        }]
    );
    assert!(!found.aborted());
}

#[test]
fn struct_fields_keep_count_and_order() {
    let item = w_struct(
        4,
        "Point",
        vec![
            ("x", TypeNode::Primitive(Primitive::Float(FloatWidth::Double))),
            ("flag", TypeNode::Primitive(Primitive::Bool)),
            ("next", w_ptr(TypeNode::Primitive(Primitive::Uint(IntWidth::W16)))),
            ("code", TypeNode::Primitive(Primitive::Char)),
        ],
    );
    let found = walk_item(&item, &w_set(&[4]));
    assert!(found.diagnostics.is_empty());
    assert_eq!(
        found.declarations,
        vec![Declaration::Struct {
            name: "Point".to_string(),
            fields: vec![
                FieldDecl { name: "x".to_string(), ty: AbiType::Base(AbiBase::Double) },
                FieldDecl { name: "flag".to_string(), ty: AbiType::Base(AbiBase::Uint8) },
                FieldDecl {
                    name: "next".to_string(),
                    ty: AbiType::Pointer(Box::new(AbiType::Base(AbiBase::Uint16))),
                },
                FieldDecl { name: "code".to_string(), ty: AbiType::Base(AbiBase::Uint32) },
            ],
        }]
    );
}

#[test]
fn struct_without_fields_is_declared() {
    let found = walk_item(&w_struct(4, "Unit", Vec::new()), &w_set(&[4]));
    assert_eq!(
        found.declarations,
        vec![Declaration::Struct { name: "Unit".to_string(), fields: Vec::new() }]
    );
}

#[test]
fn tuple_struct_gets_a_warning() {
    let mut item = w_struct(3, "Pair", vec![("a", TypeNode::Tuple)]);
    if let ItemKind::Struct(s) = &mut item.kind {
        s.is_tuple = true;
        s.fields[0].name = None;
    }
    let found = walk_item(&item, &w_set(&[3]));
    assert!(found.declarations.is_empty());
    assert_eq!(
        found.diagnostics,
        vec![Diagnostic {
            kind: Severity::Warning,
            condition: Condition::UnsupportedItemShape,
            message: "Exported tuple-struct Pair is not emitted (unsupported)".to_string(),
            item: Some(3),
        }]
    );
}

#[test]
fn struct_with_unnamed_field_gets_a_warning() {
    let mut item = w_struct(3, "Odd", vec![("a", w_int()), ("b", TypeNode::Tuple)]);
    if let ItemKind::Struct(s) = &mut item.kind {
        s.fields[1].name = None;
    }
    let found = walk_item(&item, &w_set(&[3]));
    assert!(found.declarations.is_empty());
    assert_eq!(
        found.diagnostics,
        vec![Diagnostic {
            kind: Severity::Warning,
            condition: Condition::UnsupportedItemShape,
            message: "Exported struct Odd with an unnamed field is not emitted (unsupported)"
                .to_string(),
            item: Some(3),
        }]
    );
}

#[test]
fn exported_enum_gets_a_warning() {
    let found = walk_item(&w_enum(6, "Color"), &w_set(&[6]));
    assert!(found.declarations.is_empty());
    assert_eq!(
        found.diagnostics,
        vec![Diagnostic {
            kind: Severity::Warning,
            condition: Condition::UnsupportedItemShape,
            message: "Exported enum Color is not emitted (unsupported)".to_string(),
            item: Some(6),
        }]
    );
}

#[test]
fn each_unsupported_type_in_a_signature_is_fatal() {
    let cases = [
        (TypeNode::DynamicSequence, Reject::DynamicSequence, "sequence types are not supported"),
        (
            TypeNode::FixedSequence,
            Reject::FixedSequence,
            "fixed-length sequence types are not supported",
        ),
        (TypeNode::Closure, Reject::Closure, "closure types are not supported"),
        (
            TypeNode::FunctionPointer,
            Reject::FunctionPointer,
            "function pointer types are not supported",
        ),
        (TypeNode::Tuple, Reject::Tuple, "tuple types are not supported"),
        (
            TypeNode::TextString,
            Reject::TextString,
            "string type has no fixed-width ABI representation",
        ),
        (TypeNode::Inferred, Reject::Unresolved, "unresolved types are not supported"),
        (TypeNode::NamedOther(77), Reject::NamedType(77), "only primitive types are supported"),
    ];
    for (bad, reason, message) in cases {
        let expected = Walk {
            declarations: Vec::new(),
            diagnostics: vec![w_type_fatal(reason, message, 1)],
        };
        let rebuilt = |k: u8| match k {
            0 => map_clone(&bad),
            _ => w_ptr(map_clone(&bad)),
        };
        let as_return = w_function(1, "f", vec![w_int()], rebuilt(0));
        let as_param = w_function(1, "f", vec![w_int(), rebuilt(1)], w_int());
        let as_field = w_struct(1, "S", vec![("a", w_int()), ("b", rebuilt(0))]);
        for item in [as_return, as_param, as_field] {
            let found = walk_item(&item, &w_set(&[1]));
            assert_eq!(found, expected);
            assert!(found.aborted());
        }
    }
}

fn map_clone(t: &TypeNode) -> TypeNode {
    match t {
        TypeNode::Primitive(p) => TypeNode::Primitive(*p),
        TypeNode::Indirection(inner) => TypeNode::Indirection(Box::new(map_clone(inner))),
        TypeNode::Nil => TypeNode::Nil,
        TypeNode::Never => TypeNode::Never,
        TypeNode::NamedOther(id) => TypeNode::NamedOther(*id),
        TypeNode::DynamicSequence => TypeNode::DynamicSequence,
        TypeNode::FixedSequence => TypeNode::FixedSequence,
        TypeNode::Closure => TypeNode::Closure,
        TypeNode::FunctionPointer => TypeNode::FunctionPointer,
        TypeNode::Tuple => TypeNode::Tuple,
        TypeNode::Inferred => TypeNode::Inferred,
        TypeNode::TextString => TypeNode::TextString,
    }
}

#[test]
fn return_type_is_translated_before_the_parameters() {
    let item = w_function(1, "f", vec![TypeNode::Tuple], TypeNode::Closure);
    let found = walk_item(&item, &w_set(&[1]));
    assert_eq!(
        found.diagnostics,
        vec![w_type_fatal(Reject::Closure, "closure types are not supported", 1)]
    );
}

#[test]
fn first_rejected_parameter_is_reported() {
    let item = w_function(1, "f", vec![w_int(), TypeNode::TextString, TypeNode::Tuple], w_int());
    let found = walk_item(&item, &w_set(&[1]));
    assert_eq!(
        found.diagnostics,
        vec![w_type_fatal(
            Reject::TextString,
            "string type has no fixed-width ABI representation",
            1
        )]
    );
}

#[test]
fn walk_is_depth_first_in_declaration_order() {
    let tree = vec![
        w_function(1, "a", Vec::new(), TypeNode::Nil),
        w_module(
            2,
            vec![
                w_function(3, "b", Vec::new(), TypeNode::Nil),
                w_enum(4, "E"),
                w_module(5, vec![w_function(6, "c", Vec::new(), TypeNode::Nil)]),
                w_function(7, "d", Vec::new(), TypeNode::Nil),
            ],
        ),
        w_enum(8, "F"),
        w_function(9, "e", Vec::new(), TypeNode::Nil),
    ];
    let found = walk(&tree, &w_set(&[1, 3, 4, 6, 7, 8, 9]));
    let names: Vec<String> = found
        .declarations
        .iter()
        .map(|d| match d {
            Declaration::Function { name, .. } => name.clone(),
            Declaration::Struct { name, .. } => name.clone(),
        })
        .collect();
    assert_eq!(names, vec!["a", "b", "c", "d", "e"]);
    let reported: Vec<Option<u32>> = found.diagnostics.iter().map(|d| d.item).collect();
    assert_eq!(reported, vec![Some(4), Some(8)]);
    assert!(!found.aborted());
}

#[test]
fn same_declaration_twice_is_kept_twice() {
    let tree = vec![
        w_function(1, "twin", Vec::new(), TypeNode::Nil),
        w_function(2, "twin", Vec::new(), TypeNode::Nil),
    ];
    let found = walk(&tree, &w_set(&[1, 2]));
    assert_eq!(
        found.declarations,
        vec![
            w_prototype("twin", Vec::new(), AbiType::Base(AbiBase::Void)),
            w_prototype("twin", Vec::new(), AbiType::Base(AbiBase::Void)),
        ]
    );
}

#[test]
fn fatal_ends_the_walk_and_discards_declarations() {
    let tree = vec![
        w_function(1, "kept_until_abort", Vec::new(), TypeNode::Nil),
        w_enum(2, "Before"),
        w_module(3, vec![w_struct(4, "Bad", vec![("s", TypeNode::TextString)]), w_enum(5, "Inner")]),
        w_enum(6, "After"),
        w_function(7, "never_reached", Vec::new(), TypeNode::Tuple),
    ];
    let found = walk(&tree, &w_set(&[1, 2, 4, 5, 6, 7]));
    assert!(found.aborted());
    assert!(found.declarations.is_empty());
    assert_eq!(found.diagnostics.len(), 2);
    assert_eq!(found.diagnostics[0].kind, Severity::Warning);
    assert_eq!(found.diagnostics[0].item, Some(2));
    assert_eq!(
        found.diagnostics[1],
        w_type_fatal(Reject::TextString, "string type has no fixed-width ABI representation", 4)
    );
    assert!(found.diagnostics[1].is_fatal());
    assert!(!found.diagnostics[0].is_fatal());
}

#[test]
fn walk_of_nothing_is_empty() {
    let found = walk(&Vec::new(), &w_set(&[1]));
    assert_eq!(found, w_empty());
    assert_eq!(Walk::new(), w_empty());
    assert!(!found.aborted());
}
