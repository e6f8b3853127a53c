//! The types of the exporting language, the type vocabulary of the C ABI, and
//! the mapping of the first onto the second.
//!
//! The mapping is total: every [`TypeNode`] is either given an exact
//! [`AbiType`] or rejected with the construct that has no C representation.

use vstd::prelude::*;
use vstd::string::StringExecFns;

verus! {

/// Width of an integer primitive.
#[derive(Clone, Copy, Debug, PartialEq, Eq, Structural)]
pub enum IntWidth {
    /// As wide as a pointer.
    Ptr,
    W8,
    W16,
    W32,
    W64,
}

/// Width of a floating-point primitive.
#[derive(Clone, Copy, Debug, PartialEq, Eq, Structural)]
pub enum FloatWidth {
    Single,
    Double,
}

/// A primitive type of the exporting language.
#[derive(Clone, Copy, Debug, PartialEq, Eq, Structural)]
pub enum Primitive {
    Int(IntWidth),
    Uint(IntWidth),
    Float(FloatWidth),
    Bool,
    Char,
}

/// A resolved type, as the front end describes it.
///
/// `Indirection` stands for an owned allocation, a raw pointer and a reference
/// alike: each is one machine pointer to the inner type. It nests to any
/// depth; every other variant is a leaf.
#[derive(Debug, PartialEq, Eq)]
pub enum TypeNode {
    Primitive(Primitive),
    Indirection(Box<TypeNode>),
    /// The unit type.
    Nil,
    /// The type of an expression that does not return.
    Never,
    /// A named type that is no primitive, with the identifier of its
    /// definition.
    NamedOther(u32),
    DynamicSequence,
    FixedSequence,
    Closure,
    FunctionPointer,
    Tuple,
    /// A type the front end left to inference or could not resolve.
    Inferred,
    TextString,
}

/// A C type that is no pointer.
#[derive(Clone, Copy, Debug, PartialEq, Eq, Structural)]
pub enum AbiBase {
    Void,
    IntPtr,
    Int8,
    Int16,
    Int32,
    Int64,
    UintPtr,
    Uint8,
    Uint16,
    Uint32,
    Uint64,
    Float,
    Double,
}

/// A type of the C ABI: a base type behind any number of pointer levels.
#[derive(Debug, PartialEq, Eq)]
pub enum AbiType {
    Base(AbiBase),
    Pointer(Box<AbiType>),
}

/// Why a type has no C representation.
#[derive(Clone, Copy, Debug, PartialEq, Eq, Structural)]
pub enum Reject {
    /// A named type that is no primitive, with the identifier of its
    /// definition.
    NamedType(u32),
    DynamicSequence,
    FixedSequence,
    Closure,
    FunctionPointer,
    Tuple,
    Unresolved,
    TextString,
}

/// How a number is encoded.
#[derive(Clone, Copy, Debug, PartialEq, Eq, Structural)]
pub enum Encoding {
    Signed,
    Unsigned,
    Floating,
}

/// Encoding and size of a value in memory; `bytes` is `None` where the size is
/// that of a pointer.
pub struct Layout {
    pub encoding: Encoding,
    pub bytes: Option<nat>,
}

pub open spec fn int_bytes(w: IntWidth) -> Option<nat> {
    match w {
        IntWidth::Ptr => None,
        IntWidth::W8 => Some(1),
        IntWidth::W16 => Some(2),
        IntWidth::W32 => Some(4),
        IntWidth::W64 => Some(8),
    }
}

/// The layout of a primitive in the exporting language. A `bool` takes one
/// byte and a `char` holds a whole code point in four.
pub open spec fn primitive_layout(p: Primitive) -> Layout {
    match p {
        Primitive::Int(w) => Layout { encoding: Encoding::Signed, bytes: int_bytes(w) },
        Primitive::Uint(w) => Layout { encoding: Encoding::Unsigned, bytes: int_bytes(w) },
        Primitive::Float(FloatWidth::Single) => Layout {
            encoding: Encoding::Floating,
            bytes: Some(4),
        },
        Primitive::Float(FloatWidth::Double) => Layout {
            encoding: Encoding::Floating,
            bytes: Some(8),
        },
        Primitive::Bool => Layout { encoding: Encoding::Unsigned, bytes: Some(1) },
        Primitive::Char => Layout { encoding: Encoding::Unsigned, bytes: Some(4) },
    }
}

/// The layout that C gives a base type; `void` has none.
pub open spec fn base_layout(b: AbiBase) -> Option<Layout> {
    match b {
        AbiBase::Void => None,
        AbiBase::IntPtr => Some(Layout { encoding: Encoding::Signed, bytes: None }),
        AbiBase::Int8 => Some(Layout { encoding: Encoding::Signed, bytes: Some(1) }),
        AbiBase::Int16 => Some(Layout { encoding: Encoding::Signed, bytes: Some(2) }),
        AbiBase::Int32 => Some(Layout { encoding: Encoding::Signed, bytes: Some(4) }),
        AbiBase::Int64 => Some(Layout { encoding: Encoding::Signed, bytes: Some(8) }),
        AbiBase::UintPtr => Some(Layout { encoding: Encoding::Unsigned, bytes: None }),
        AbiBase::Uint8 => Some(Layout { encoding: Encoding::Unsigned, bytes: Some(1) }),
        AbiBase::Uint16 => Some(Layout { encoding: Encoding::Unsigned, bytes: Some(2) }),
        AbiBase::Uint32 => Some(Layout { encoding: Encoding::Unsigned, bytes: Some(4) }),
        AbiBase::Uint64 => Some(Layout { encoding: Encoding::Unsigned, bytes: Some(8) }),
        AbiBase::Float => Some(Layout { encoding: Encoding::Floating, bytes: Some(4) }),
        AbiBase::Double => Some(Layout { encoding: Encoding::Floating, bytes: Some(8) }),
    }
}

/// The translation table for primitives.
pub open spec fn primitive_abi(p: Primitive) -> AbiBase {
    match p {
        Primitive::Int(IntWidth::Ptr) => AbiBase::IntPtr,
        Primitive::Int(IntWidth::W8) => AbiBase::Int8,
        Primitive::Int(IntWidth::W16) => AbiBase::Int16,
        Primitive::Int(IntWidth::W32) => AbiBase::Int32,
        Primitive::Int(IntWidth::W64) => AbiBase::Int64,
        Primitive::Uint(IntWidth::Ptr) => AbiBase::UintPtr,
        Primitive::Uint(IntWidth::W8) => AbiBase::Uint8,
        Primitive::Uint(IntWidth::W16) => AbiBase::Uint16,
        Primitive::Uint(IntWidth::W32) => AbiBase::Uint32,
        Primitive::Uint(IntWidth::W64) => AbiBase::Uint64,
        Primitive::Float(FloatWidth::Single) => AbiBase::Float,
        Primitive::Float(FloatWidth::Double) => AbiBase::Double,
        Primitive::Bool => AbiBase::Uint8,
        Primitive::Char => AbiBase::Uint32,
    }
}

/// The C type of a resolved type, or the reason why it has none.
pub open spec fn map_spec(t: TypeNode) -> Result<AbiType, Reject>
    decreases t,
{
    match t {
        TypeNode::Primitive(p) => Ok(AbiType::Base(primitive_abi(p))),
        TypeNode::Indirection(inner) => match map_spec(*inner) {
            Ok(a) => Ok(AbiType::Pointer(Box::new(a))),
            Err(r) => Err(r),
        },
        TypeNode::Nil => Ok(AbiType::Base(AbiBase::Void)),
        TypeNode::Never => Ok(AbiType::Base(AbiBase::Void)),
        TypeNode::NamedOther(id) => Err(Reject::NamedType(id)),
        TypeNode::DynamicSequence => Err(Reject::DynamicSequence),
        TypeNode::FixedSequence => Err(Reject::FixedSequence),
        TypeNode::Closure => Err(Reject::Closure),
        TypeNode::FunctionPointer => Err(Reject::FunctionPointer),
        TypeNode::Tuple => Err(Reject::Tuple),
        TypeNode::Inferred => Err(Reject::Unresolved),
        TypeNode::TextString => Err(Reject::TextString),
    }
}

/// The name of a base type in a header.
pub open spec fn base_token(b: AbiBase) -> Seq<char> {
    match b {
        AbiBase::Void => "void"@,
        AbiBase::IntPtr => "intptr_t"@,
        AbiBase::Int8 => "int8_t"@,
        AbiBase::Int16 => "int16_t"@,
        AbiBase::Int32 => "int32_t"@,
        AbiBase::Int64 => "int64_t"@,
        AbiBase::UintPtr => "uintptr_t"@,
        AbiBase::Uint8 => "uint8_t"@,
        AbiBase::Uint16 => "uint16_t"@,
        AbiBase::Uint32 => "uint32_t"@,
        AbiBase::Uint64 => "uint64_t"@,
        AbiBase::Float => "float"@,
        AbiBase::Double => "double"@,
    }
}

/// A C type as it is written in a header: the base type's name, then one `*`
/// for each pointer level.
pub open spec fn abi_text(t: AbiType) -> Seq<char>
    decreases t,
{
    match t {
        AbiType::Base(b) => base_token(b),
        AbiType::Pointer(inner) => abi_text(*inner) + "*"@,
    }
}

/// What the diagnostic says of a rejected type.
pub open spec fn reject_message(r: Reject) -> Seq<char> {
    match r {
        Reject::NamedType(_) => "only primitive types are supported"@,
        Reject::DynamicSequence => "sequence types are not supported"@,
        Reject::FixedSequence => "fixed-length sequence types are not supported"@,
        Reject::Closure => "closure types are not supported"@,
        Reject::FunctionPointer => "function pointer types are not supported"@,
        Reject::Tuple => "tuple types are not supported"@,
        Reject::Unresolved => "unresolved types are not supported"@,
        Reject::TextString => "string type has no fixed-width ABI representation"@,
    }
}

/// `t` behind `k` levels of indirection.
pub open spec fn nest(t: TypeNode, k: nat) -> TypeNode
    decreases k,
{
    if k == 0 {
        t
    } else {
        TypeNode::Indirection(Box::new(nest(t, (k - 1) as nat)))
    }
}

/// `a` behind `k` pointer levels.
pub open spec fn pointers(a: AbiType, k: nat) -> AbiType
    decreases k,
{
    if k == 0 {
        a
    } else {
        AbiType::Pointer(Box::new(pointers(a, (k - 1) as nat)))
    }
}

/// `k` pointer markers.
pub open spec fn stars(k: nat) -> Seq<char> {
    Seq::new(k, |i: int| '*')
}

impl Primitive {
    /// Looks the primitive up in the translation table.
    pub fn to_abi(self) -> (b: AbiBase)
        ensures
            b == primitive_abi(self),
    {
        match self {
            Primitive::Int(IntWidth::Ptr) => AbiBase::IntPtr,
            Primitive::Int(IntWidth::W8) => AbiBase::Int8,
            Primitive::Int(IntWidth::W16) => AbiBase::Int16,
            Primitive::Int(IntWidth::W32) => AbiBase::Int32,
            Primitive::Int(IntWidth::W64) => AbiBase::Int64,
            Primitive::Uint(IntWidth::Ptr) => AbiBase::UintPtr,
            Primitive::Uint(IntWidth::W8) => AbiBase::Uint8,
            Primitive::Uint(IntWidth::W16) => AbiBase::Uint16,
            Primitive::Uint(IntWidth::W32) => AbiBase::Uint32,
            Primitive::Uint(IntWidth::W64) => AbiBase::Uint64,
            Primitive::Float(FloatWidth::Single) => AbiBase::Float,
            Primitive::Float(FloatWidth::Double) => AbiBase::Double,
            Primitive::Bool => AbiBase::Uint8,
            Primitive::Char => AbiBase::Uint32,
        }
    }
}

impl AbiBase {
    /// The name of the base type in a header.
    pub fn token(self) -> (s: &'static str)
        ensures
            s@ == base_token(self),
    {
        match self {
            AbiBase::Void => "void",
            AbiBase::IntPtr => "intptr_t",
            AbiBase::Int8 => "int8_t",
            AbiBase::Int16 => "int16_t",
            AbiBase::Int32 => "int32_t",
            AbiBase::Int64 => "int64_t",
            AbiBase::UintPtr => "uintptr_t",
            AbiBase::Uint8 => "uint8_t",
            AbiBase::Uint16 => "uint16_t",
            AbiBase::Uint32 => "uint32_t",
            AbiBase::Uint64 => "uint64_t",
            AbiBase::Float => "float",
            AbiBase::Double => "double",
        }
    }
}

impl Reject {
    /// What the diagnostic says of the rejected type.
    pub fn message(self) -> (s: &'static str)
        ensures
            s@ == reject_message(self),
    {
        match self {
            Reject::NamedType(_) => "only primitive types are supported",
            Reject::DynamicSequence => "sequence types are not supported",
            Reject::FixedSequence => "fixed-length sequence types are not supported",
            Reject::Closure => "closure types are not supported",
            Reject::FunctionPointer => "function pointer types are not supported",
            Reject::Tuple => "tuple types are not supported",
            Reject::Unresolved => "unresolved types are not supported",
            Reject::TextString => "string type has no fixed-width ABI representation",
        }
    }
}

/// Translates a resolved type into its C type, or rejects it with the
/// construct that has no C representation.
pub fn map_type(t: &TypeNode) -> (r: Result<AbiType, Reject>)
    ensures
        r == map_spec(*t),
    decreases *t,
{
    match t {
        TypeNode::Primitive(p) => Ok(AbiType::Base(p.to_abi())),
        TypeNode::Indirection(inner) => match map_type(inner) {
            Ok(a) => Ok(AbiType::Pointer(Box::new(a))),
            Err(r) => Err(r),
        },
        TypeNode::Nil => Ok(AbiType::Base(AbiBase::Void)),
        TypeNode::Never => Ok(AbiType::Base(AbiBase::Void)),
        TypeNode::NamedOther(id) => Err(Reject::NamedType(*id)),
        TypeNode::DynamicSequence => Err(Reject::DynamicSequence),
        TypeNode::FixedSequence => Err(Reject::FixedSequence),
        TypeNode::Closure => Err(Reject::Closure),
        TypeNode::FunctionPointer => Err(Reject::FunctionPointer),
        TypeNode::Tuple => Err(Reject::Tuple),
        TypeNode::Inferred => Err(Reject::Unresolved),
        TypeNode::TextString => Err(Reject::TextString),
    }
}

/// Appends a C type to `out` as it is written in a header.
pub fn write_abi_type(out: &mut String, t: &AbiType)
    ensures
        final(out)@ == old(out)@ + abi_text(*t),
    decreases *t,
{
    match t {
        AbiType::Base(b) => {
            out.append(b.token());
        },
        AbiType::Pointer(inner) => {
            write_abi_type(out, inner);
            out.append("*");
        },
    }
}

/// Whether every type of the sequence has a C type.
pub open spec fn all_representable(types: Seq<TypeNode>) -> bool {
    forall|i: int| 0 <= i < types.len() ==> (#[trigger] map_spec(types[i])) is Ok
}

/// Whether `types[i]` is rejected and no earlier type of the sequence is.
pub open spec fn first_rejected(types: Seq<TypeNode>, i: int) -> bool {
    &&& 0 <= i < types.len()
    &&& map_spec(types[i]) is Err
    &&& forall|j: int| 0 <= j < i ==> (#[trigger] map_spec(types[j])) is Ok
}

/// The C types of a sequence of types, in order; or, where one of them is
/// rejected, the reason for which the first such is.
pub open spec fn map_all_spec(types: Seq<TypeNode>) -> Result<Seq<AbiType>, Reject> {
    if all_representable(types) {
        Ok(Seq::new(types.len(), |i: int| map_spec(types[i])->Ok_0))
    } else {
        Err(map_spec(types[choose|i: int| first_rejected(types, i)])->Err_0)
    }
}

/// The first rejected type of a sequence decides what the sequence is
/// rejected for.
pub proof fn lemma_first_rejected_decides(types: Seq<TypeNode>, i: int)
    requires
        first_rejected(types, i),
    ensures
        map_all_spec(types) == Err::<Seq<AbiType>, Reject>(map_spec(types[i])->Err_0),
{
    let c = choose|c: int| first_rejected(types, c);
    assert(first_rejected(types, c));
    assert(!all_representable(types));
    if c < i {
        assert(map_spec(types[c]) is Ok);
    } else if i < c {
        assert(map_spec(types[i]) is Ok);
    }
}

/// Translates the types of a sequence in order, and stops at the first that
/// has no C type.
pub fn map_types(types: &Vec<TypeNode>) -> (r: Result<Vec<AbiType>, Reject>)
    ensures
        match r {
            Ok(v) => map_all_spec(types@) == Ok::<Seq<AbiType>, Reject>(v@),
            Err(e) => map_all_spec(types@) == Err::<Seq<AbiType>, Reject>(e),
        },
{
    let mut out: Vec<AbiType> = Vec::new();
    let mut i: usize = 0;
    while i < types.len()
        invariant
            i <= types.len(),
            forall|j: int| 0 <= j < i ==> (#[trigger] map_spec(types@[j])) is Ok,
            out@ == Seq::new(i as nat, |j: int| map_spec(types@[j])->Ok_0),
        decreases types.len() - i,
    {
        match map_type(&types[i]) {
            Ok(a) => {
                out.push(a);
            },
            Err(e) => {
                proof {
                    lemma_first_rejected_decides(types@, i as int);
                }
                return Err(e);
            },
        }
        i = i + 1;
    }
    Ok(out)
}

/// A primitive's C type has the primitive's own encoding and size, and takes
/// no pointer level.
pub proof fn lemma_primitive_keeps_layout(p: Primitive)
    ensures
        map_spec(TypeNode::Primitive(p)) == Ok::<AbiType, Reject>(AbiType::Base(primitive_abi(p))),
        base_layout(primitive_abi(p)) == Some(primitive_layout(p)),
{
}

/// Indirection only adds pointer levels: a type behind `k` levels of
/// indirection maps to its own C type behind `k` pointer levels, and is
/// rejected for the reason for which the type itself is.
pub proof fn lemma_nest_maps_to_pointers(t: TypeNode, k: nat)
    ensures
        map_spec(nest(t, k)) == match map_spec(t) {
            Ok(a) => Ok(pointers(a, k)),
            Err(r) => Err(r),
        },
    decreases k,
{
    if k > 0 {
        lemma_nest_maps_to_pointers(t, (k - 1) as nat);
    }
}

/// The type at the end of a chain of indirections.
pub open spec fn leaf(t: TypeNode) -> TypeNode
    decreases t,
{
    match t {
        TypeNode::Indirection(inner) => leaf(*inner),
        _ => t,
    }
}

/// A type has a C type exactly if the type at the end of its indirections is
/// a primitive, the unit type or the never type. Any other construct there is
/// rejected, at whatever depth it stands, for the reason for which it is
/// rejected by itself.
pub proof fn lemma_rejected_by_leaf(t: TypeNode)
    ensures
        map_spec(t) is Ok <==> (leaf(t) is Primitive || leaf(t) is Nil || leaf(t) is Never),
        map_spec(t) is Err ==> map_spec(t) == map_spec(leaf(t)),
    decreases t,
{
    match t {
        TypeNode::Indirection(inner) => {
            lemma_rejected_by_leaf(*inner);
        },
        _ => {},
    }
}

/// In a header, `k` pointer levels are exactly `k` markers after the type.
pub proof fn lemma_pointers_text(a: AbiType, k: nat)
    ensures
        abi_text(pointers(a, k)) == abi_text(a) + stars(k),
    decreases k,
{
    reveal_strlit("*");
    if k > 0 {
        lemma_pointers_text(a, (k - 1) as nat);
        assert(stars((k - 1) as nat) + "*"@ =~= stars(k));
    }
    assert(abi_text(pointers(a, k)) =~= abi_text(a) + stars(k));
}

/// A primitive behind `k` levels of indirection is written as the primitive's
/// C name followed by exactly `k` pointer markers.
pub proof fn lemma_indirect_primitive_text(p: Primitive, k: nat)
    ensures
        map_spec(nest(TypeNode::Primitive(p), k)) == Ok::<AbiType, Reject>(
            pointers(AbiType::Base(primitive_abi(p)), k),
        ),
        abi_text(pointers(AbiType::Base(primitive_abi(p)), k)) == base_token(primitive_abi(p))
            + stars(k),
{
    lemma_nest_maps_to_pointers(TypeNode::Primitive(p), k);
    lemma_pointers_text(AbiType::Base(primitive_abi(p)), k);
}

} // verus!
