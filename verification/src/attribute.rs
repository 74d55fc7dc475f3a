//! Attributes: metadata annotations on functions, parameters and call
//! sites, either one of a closed set of well-known kinds ("enum form")
//! or an arbitrary key/value string pair ("string form").

use vstd::prelude::*;
use vstd::pervasive::unreached;
use vstd::string::StringSliceAdditionalSpecFns;

use crate::context::Context;

verus! {

/// The closed set of well-known attribute kinds.
///
/// Each kind stands for a fixed bit or bit range of a 64-bit packed
/// value; the mapping is part of the foreign library's binary interface
/// and is given by [`AttributeType::spec_raw`]. It must never be
/// reordered or renumbered independently. Two kinds (alignment and
/// stack alignment) occupy multi-bit fields rather than single flags.
#[derive(Clone, Copy, Debug, PartialEq, Eq)]
pub enum AttributeType {
    LLVMZExtAttribute,
    LLVMSExtAttribute,
    LLVMNoReturnAttribute,
    LLVMInRegAttribute,
    LLVMStructRetAttribute,
    LLVMNoUnwindAttribute,
    LLVMNoAliasAttribute,
    LLVMByValAttribute,
    LLVMNestAttribute,
    LLVMReadNoneAttribute,
    LLVMReadOnlyAttribute,
    LLVMNoInlineAttribute,
    LLVMAlwaysInlineAttribute,
    LLVMOptimizeForSizeAttribute,
    LLVMStackProtectAttribute,
    LLVMStackProtectReqAttribute,
    LLVMAlignment,
    LLVMNoCaptureAttribute,
    LLVMNoRedZoneAttribute,
    LLVMNoImplicitFloatAttribute,
    LLVMNakedAttribute,
    LLVMInlineHintAttribute,
    LLVMStackAlignment,
    LLVMReturnsTwice,
    LLVMUWTable,
    LLVMNonLazyBind,
}

impl AttributeType {
    /// The bit pattern of this kind inside the 64-bit packed value:
    /// single bits from bit 0 upward, with the alignment field in bits
    /// 16 to 20 and the stack-alignment field in bits 26 to 28.
    pub open spec fn spec_raw(self) -> u64 {
        match self {
            AttributeType::LLVMZExtAttribute => 0x1u64,
            AttributeType::LLVMSExtAttribute => 0x2u64,
            AttributeType::LLVMNoReturnAttribute => 0x4u64,
            AttributeType::LLVMInRegAttribute => 0x8u64,
            AttributeType::LLVMStructRetAttribute => 0x10u64,
            AttributeType::LLVMNoUnwindAttribute => 0x20u64,
            AttributeType::LLVMNoAliasAttribute => 0x40u64,
            AttributeType::LLVMByValAttribute => 0x80u64,
            AttributeType::LLVMNestAttribute => 0x100u64,
            AttributeType::LLVMReadNoneAttribute => 0x200u64,
            AttributeType::LLVMReadOnlyAttribute => 0x400u64,
            AttributeType::LLVMNoInlineAttribute => 0x800u64,
            AttributeType::LLVMAlwaysInlineAttribute => 0x1000u64,
            AttributeType::LLVMOptimizeForSizeAttribute => 0x2000u64,
            AttributeType::LLVMStackProtectAttribute => 0x4000u64,
            AttributeType::LLVMStackProtectReqAttribute => 0x8000u64,
            AttributeType::LLVMAlignment => 0x1F0000u64,
            AttributeType::LLVMNoCaptureAttribute => 0x200000u64,
            AttributeType::LLVMNoRedZoneAttribute => 0x400000u64,
            AttributeType::LLVMNoImplicitFloatAttribute => 0x800000u64,
            AttributeType::LLVMNakedAttribute => 0x1000000u64,
            AttributeType::LLVMInlineHintAttribute => 0x2000000u64,
            AttributeType::LLVMStackAlignment => 0x1C000000u64,
            AttributeType::LLVMReturnsTwice => 0x20000000u64,
            AttributeType::LLVMUWTable => 0x40000000u64,
            AttributeType::LLVMNonLazyBind => 0x80000000u64,
        }
    }

    /// The bit pattern of this kind, as a runtime value.
    pub fn raw_value(self) -> (r: u64)
        ensures
            r == self.spec_raw(),
    {
        match self {
            AttributeType::LLVMZExtAttribute => 0x1u64,
            AttributeType::LLVMSExtAttribute => 0x2u64,
            AttributeType::LLVMNoReturnAttribute => 0x4u64,
            AttributeType::LLVMInRegAttribute => 0x8u64,
            AttributeType::LLVMStructRetAttribute => 0x10u64,
            AttributeType::LLVMNoUnwindAttribute => 0x20u64,
            AttributeType::LLVMNoAliasAttribute => 0x40u64,
            AttributeType::LLVMByValAttribute => 0x80u64,
            AttributeType::LLVMNestAttribute => 0x100u64,
            AttributeType::LLVMReadNoneAttribute => 0x200u64,
            AttributeType::LLVMReadOnlyAttribute => 0x400u64,
            AttributeType::LLVMNoInlineAttribute => 0x800u64,
            AttributeType::LLVMAlwaysInlineAttribute => 0x1000u64,
            AttributeType::LLVMOptimizeForSizeAttribute => 0x2000u64,
            AttributeType::LLVMStackProtectAttribute => 0x4000u64,
            AttributeType::LLVMStackProtectReqAttribute => 0x8000u64,
            AttributeType::LLVMAlignment => 0x1F0000u64,
            AttributeType::LLVMNoCaptureAttribute => 0x200000u64,
            AttributeType::LLVMNoRedZoneAttribute => 0x400000u64,
            AttributeType::LLVMNoImplicitFloatAttribute => 0x800000u64,
            AttributeType::LLVMNakedAttribute => 0x1000000u64,
            AttributeType::LLVMInlineHintAttribute => 0x2000000u64,
            AttributeType::LLVMStackAlignment => 0x1C000000u64,
            AttributeType::LLVMReturnsTwice => 0x20000000u64,
            AttributeType::LLVMUWTable => 0x40000000u64,
            AttributeType::LLVMNonLazyBind => 0x80000000u64,
        }
    }
}

/// The kind, if any, whose bit pattern is exactly `raw`.
///
/// Zero and every value outside the known set (combined bit fields
/// included, such as a particular alignment magnitude) map to `None`.
pub open spec fn spec_attribute_type_from_raw(raw: u64) -> Option<AttributeType> {
    if raw == 0x1u64 {
        Some(AttributeType::LLVMZExtAttribute)
    } else if raw == 0x2u64 {
        Some(AttributeType::LLVMSExtAttribute)
    } else if raw == 0x4u64 {
        Some(AttributeType::LLVMNoReturnAttribute)
    } else if raw == 0x8u64 {
        Some(AttributeType::LLVMInRegAttribute)
    } else if raw == 0x10u64 {
        Some(AttributeType::LLVMStructRetAttribute)
    } else if raw == 0x20u64 {
        Some(AttributeType::LLVMNoUnwindAttribute)
    } else if raw == 0x40u64 {
        Some(AttributeType::LLVMNoAliasAttribute)
    } else if raw == 0x80u64 {
        Some(AttributeType::LLVMByValAttribute)
    } else if raw == 0x100u64 {
        Some(AttributeType::LLVMNestAttribute)
    } else if raw == 0x200u64 {
        Some(AttributeType::LLVMReadNoneAttribute)
    } else if raw == 0x400u64 {
        Some(AttributeType::LLVMReadOnlyAttribute)
    } else if raw == 0x800u64 {
        Some(AttributeType::LLVMNoInlineAttribute)
    } else if raw == 0x1000u64 {
        Some(AttributeType::LLVMAlwaysInlineAttribute)
    } else if raw == 0x2000u64 {
        Some(AttributeType::LLVMOptimizeForSizeAttribute)
    } else if raw == 0x4000u64 {
        Some(AttributeType::LLVMStackProtectAttribute)
    } else if raw == 0x8000u64 {
        Some(AttributeType::LLVMStackProtectReqAttribute)
    } else if raw == 0x1F0000u64 {
        Some(AttributeType::LLVMAlignment)
    } else if raw == 0x200000u64 {
        Some(AttributeType::LLVMNoCaptureAttribute)
    } else if raw == 0x400000u64 {
        Some(AttributeType::LLVMNoRedZoneAttribute)
    } else if raw == 0x800000u64 {
        Some(AttributeType::LLVMNoImplicitFloatAttribute)
    } else if raw == 0x1000000u64 {
        Some(AttributeType::LLVMNakedAttribute)
    } else if raw == 0x2000000u64 {
        Some(AttributeType::LLVMInlineHintAttribute)
    } else if raw == 0x1C000000u64 {
        Some(AttributeType::LLVMStackAlignment)
    } else if raw == 0x20000000u64 {
        Some(AttributeType::LLVMReturnsTwice)
    } else if raw == 0x40000000u64 {
        Some(AttributeType::LLVMUWTable)
    } else if raw == 0x80000000u64 {
        Some(AttributeType::LLVMNonLazyBind)
    } else {
        None
    }
}

/// Look up the kind whose bit pattern is exactly `raw`.
///
/// This is the explicit table that replaces any reinterpretation of the
/// raw integer as the enumeration: a value outside the known set is
/// answered with `None`, never with an ill-formed kind.
pub fn attribute_type_from_raw(raw: u64) -> (r: Option<AttributeType>)
    ensures
        r == spec_attribute_type_from_raw(raw),
{
    if raw == 0x1u64 {
        Some(AttributeType::LLVMZExtAttribute)
    } else if raw == 0x2u64 {
        Some(AttributeType::LLVMSExtAttribute)
    } else if raw == 0x4u64 {
        Some(AttributeType::LLVMNoReturnAttribute)
    } else if raw == 0x8u64 {
        Some(AttributeType::LLVMInRegAttribute)
    } else if raw == 0x10u64 {
        Some(AttributeType::LLVMStructRetAttribute)
    } else if raw == 0x20u64 {
        Some(AttributeType::LLVMNoUnwindAttribute)
    } else if raw == 0x40u64 {
        Some(AttributeType::LLVMNoAliasAttribute)
    } else if raw == 0x80u64 {
        Some(AttributeType::LLVMByValAttribute)
    } else if raw == 0x100u64 {
        Some(AttributeType::LLVMNestAttribute)
    } else if raw == 0x200u64 {
        Some(AttributeType::LLVMReadNoneAttribute)
    } else if raw == 0x400u64 {
        Some(AttributeType::LLVMReadOnlyAttribute)
    } else if raw == 0x800u64 {
        Some(AttributeType::LLVMNoInlineAttribute)
    } else if raw == 0x1000u64 {
        Some(AttributeType::LLVMAlwaysInlineAttribute)
    } else if raw == 0x2000u64 {
        Some(AttributeType::LLVMOptimizeForSizeAttribute)
    } else if raw == 0x4000u64 {
        Some(AttributeType::LLVMStackProtectAttribute)
    } else if raw == 0x8000u64 {
        Some(AttributeType::LLVMStackProtectReqAttribute)
    } else if raw == 0x1F0000u64 {
        Some(AttributeType::LLVMAlignment)
    } else if raw == 0x200000u64 {
        Some(AttributeType::LLVMNoCaptureAttribute)
    } else if raw == 0x400000u64 {
        Some(AttributeType::LLVMNoRedZoneAttribute)
    } else if raw == 0x800000u64 {
        Some(AttributeType::LLVMNoImplicitFloatAttribute)
    } else if raw == 0x1000000u64 {
        Some(AttributeType::LLVMNakedAttribute)
    } else if raw == 0x2000000u64 {
        Some(AttributeType::LLVMInlineHintAttribute)
    } else if raw == 0x1C000000u64 {
        Some(AttributeType::LLVMStackAlignment)
    } else if raw == 0x20000000u64 {
        Some(AttributeType::LLVMReturnsTwice)
    } else if raw == 0x40000000u64 {
        Some(AttributeType::LLVMUWTable)
    } else if raw == 0x80000000u64 {
        Some(AttributeType::LLVMNonLazyBind)
    } else {
        None
    }
}

/// Every kind's bit pattern is looked up as exactly that kind: the
/// mapping between symbolic kinds and bit patterns loses nothing.
pub proof fn lemma_attribute_type_round_trip(t: AttributeType)
    ensures
        spec_attribute_type_from_raw(t.spec_raw()) == Some(t),
{
}

/// Zero is the sentinel for "no recognized kind": it is answered with
/// an absent result, never with a kind.
pub proof fn lemma_raw_zero_unrecognized()
    ensures
        spec_attribute_type_from_raw(0) is None,
{
}

/// Distinct kinds have distinct bit patterns: the mapping can be read
/// back without loss in either direction.
pub proof fn lemma_raw_values_distinct(t1: AttributeType, t2: AttributeType)
    requires
        t1 != t2,
    ensures
        t1.spec_raw() != t2.spec_raw(),
{
    lemma_attribute_type_round_trip(t1);
    lemma_attribute_type_round_trip(t2);
}

/// The one failure this layer detects and reports itself: a key or
/// value string that holds an embedded null byte, which cannot be put
/// into null-terminated storage.
#[derive(Clone, Copy, Debug, PartialEq, Eq)]
pub enum AttributeError {
    InvalidString,
}

/// Whether a null byte stands somewhere in `bytes`.
pub open spec fn has_nul_byte(bytes: Seq<u8>) -> bool {
    bytes.contains(0u8)
}

/// Scan the byte representation of `s` for an embedded null byte.
fn contains_nul_byte(s: &str) -> (r: bool)
    ensures
        r == has_nul_byte(s.spec_bytes()),
{
    let bytes: &[u8] = s.as_bytes();
    let n: usize = bytes.len();
    let mut i: usize = 0;
    while i < n
        invariant
            n == bytes@.len(),
            bytes@ == s.spec_bytes(),
            i <= n,
            forall|j: int| 0 <= j < i ==> bytes@[j] != 0u8,
        decreases n - i,
    {
        if bytes[i] == 0u8 {
            proof {
                assert(s.spec_bytes()[i as int] == 0u8);
            }
            return true;
        }
        i = i + 1;
    }
    proof {
        if has_nul_byte(s.spec_bytes()) {
            let j = choose|j: int|
                0 <= j < s.spec_bytes().len() && s.spec_bytes()[j] == 0u8;
            assert(bytes@[j] != 0u8);
        }
    }
    false
}

/// One attribute's readable content: what the introspection queries of
/// the foreign library answer about the opaque handle it owns.
///
/// The handle itself belongs to the foreign library's allocator for the
/// lifetime of the owning context and is never freed here; callers that
/// drive the foreign library keep the raw handle beside one value of
/// this type and must not let either outlive the context named by
/// `ctx_id`. An attribute is immutable once constructed.
#[derive(Clone, Debug, PartialEq, Eq)]
pub enum AttributeHandle {
    /// Backed by a well-known kind and a numeric payload.
    EnumForm { ctx_id: u64, kind_id: u32, value: u64 },
    /// Backed by an arbitrary key/value pair of strings.
    StringForm { ctx_id: u64, key: String, value: String },
}

/// Read-only introspection of an attribute, classified at query time
/// as enum form or string form.
pub trait Attribute: Sized {
    /// Whether this attribute was made by the enum constructor.
    spec fn spec_is_enum(&self) -> bool;

    /// Whether this attribute was made by the string constructor.
    spec fn spec_is_string(&self) -> bool;

    /// The identifier of the context this attribute was created in.
    spec fn spec_ctx_id(&self) -> u64;

    /// The numeric kind identifier of an enum-form attribute.
    spec fn spec_kind_id(&self) -> u32;

    /// The 64-bit packed value of an enum-form attribute.
    spec fn spec_enum_value(&self) -> u64;

    /// The key of a string-form attribute.
    spec fn spec_key(&self) -> Seq<char>;

    /// The value of a string-form attribute.
    spec fn spec_string_value(&self) -> Seq<char>;

    /// Whether this attribute is enum form.
    fn is_enum(&self) -> (r: bool)
        ensures
            r == self.spec_is_enum(),
    ;

    /// Whether this attribute is string form.
    fn is_string(&self) -> (r: bool)
        ensures
            r == self.spec_is_string(),
    ;

    /// The raw numeric kind identifier. Only an enum-form attribute
    /// has one; the foreign library faults on any other handle, so the
    /// same precondition stands here.
    fn get_enum_kind(&self) -> (r: u32)
        requires
            self.spec_is_enum(),
        ensures
            r == self.spec_kind_id(),
    ;

    /// The kind whose bit pattern the attribute's value is, if the
    /// value is exactly one known pattern: zero and every combined bit
    /// field give an absent result, never a fault and never an
    /// ill-formed kind.
    fn get_enum_value(&self) -> (r: Option<AttributeType>)
        requires
            self.spec_is_enum(),
        ensures
            r == spec_attribute_type_from_raw(self.spec_enum_value()),
    ;

    /// The key of a string-form attribute. The key was stored from
    /// valid text, so decoding its bytes gives back exactly the key
    /// the attribute was created with.
    fn get_string_attribute_kind(&self) -> (r: String)
        requires
            self.spec_is_string(),
        ensures
            r@ == self.spec_key(),
    ;
}

/// Construction of attributes, each scoped to one context.
pub trait AttributeCtor: Attribute {
    /// Make an enum-form attribute from a numeric kind identifier and
    /// a known kind's bit pattern as its payload.
    ///
    /// Identifier zero names no recognized kind: the foreign library
    /// answers such a handle with an empty payload, so the attribute
    /// carries value zero and its kind value reads back as absent.
    fn new_enum(context: &Context, id: u32, val: AttributeType) -> (r: Self)
        ensures
            r.spec_is_enum(),
            r.spec_ctx_id() == context.spec_id(),
            r.spec_kind_id() == id,
            r.spec_enum_value() == (if id == 0 { 0u64 } else { val.spec_raw() }),
    ;

    /// Make a string-form attribute from a key and a value.
    ///
    /// Both strings go into null-terminated storage, with their length
    /// counted in bytes; a key or value holding an embedded null byte
    /// is rejected with [`AttributeError::InvalidString`], never
    /// truncated.
    fn new_string(context: &Context, key: &str, value: &str) -> (r: Result<
        Self,
        AttributeError,
    >)
        ensures
            (r matches Ok(a) ==> {
                &&& !has_nul_byte(key.spec_bytes())
                &&& !has_nul_byte(value.spec_bytes())
                &&& a.spec_is_string()
                &&& a.spec_ctx_id() == context.spec_id()
                &&& a.spec_key() == key@
                &&& a.spec_string_value() == value@
            }),
            (r matches Err(e) ==> {
                &&& has_nul_byte(key.spec_bytes()) || has_nul_byte(value.spec_bytes())
                &&& e == AttributeError::InvalidString
            }),
            r is Ok <==> !has_nul_byte(key.spec_bytes()) && !has_nul_byte(
                value.spec_bytes(),
            ),
    ;
}

impl Attribute for AttributeHandle {
    open spec fn spec_is_enum(&self) -> bool {
        *self is EnumForm
    }

    open spec fn spec_is_string(&self) -> bool {
        *self is StringForm
    }

    open spec fn spec_ctx_id(&self) -> u64 {
        match *self {
            AttributeHandle::EnumForm { ctx_id, .. } => ctx_id,
            AttributeHandle::StringForm { ctx_id, .. } => ctx_id,
        }
    }

    open spec fn spec_kind_id(&self) -> u32 {
        self->EnumForm_kind_id
    }

    open spec fn spec_enum_value(&self) -> u64 {
        self->EnumForm_value
    }

    open spec fn spec_key(&self) -> Seq<char> {
        self->StringForm_key@
    }

    open spec fn spec_string_value(&self) -> Seq<char> {
        self->StringForm_value@
    }

    fn is_enum(&self) -> (r: bool) {
        match self {
            AttributeHandle::EnumForm { .. } => true,
            AttributeHandle::StringForm { .. } => false,
        }
    }

    fn is_string(&self) -> (r: bool) {
        match self {
            AttributeHandle::EnumForm { .. } => false,
            AttributeHandle::StringForm { .. } => true,
        }
    }

    fn get_enum_kind(&self) -> (r: u32) {
        match self {
            AttributeHandle::EnumForm { kind_id, .. } => *kind_id,
            AttributeHandle::StringForm { .. } => unreached(),
        }
    }

    fn get_enum_value(&self) -> (r: Option<AttributeType>) {
        match self {
            AttributeHandle::EnumForm { value, .. } => attribute_type_from_raw(*value),
            AttributeHandle::StringForm { .. } => unreached(),
        }
    }

    fn get_string_attribute_kind(&self) -> (r: String) {
        match self {
            AttributeHandle::StringForm { key, .. } => key.clone(),
            AttributeHandle::EnumForm { .. } => unreached(),
        }
    }
}

impl AttributeCtor for AttributeHandle {
    fn new_enum(context: &Context, id: u32, val: AttributeType) -> (r: Self) {
        let value: u64 = if id == 0 {
            0
        } else {
            val.raw_value()
        };
        AttributeHandle::EnumForm { ctx_id: context.id(), kind_id: id, value }
    }

    fn new_string(context: &Context, key: &str, value: &str) -> (r: Result<
        Self,
        AttributeError,
    >) {
        if contains_nul_byte(key) || contains_nul_byte(value) {
            Err(AttributeError::InvalidString)
        } else {
            Ok(
                AttributeHandle::StringForm {
                    ctx_id: context.id(),
                    key: key.to_owned(),
                    value: value.to_owned(),
                },
            )
        }
    }
}

/// What the enum constructor promises of its result: exactly the
/// handle for context `ctx_id`, identifier `id` and kind `val`, with
/// identifier zero carrying no payload.
pub open spec fn spec_enum_attr(
    ctx_id: u64,
    id: u32,
    val: AttributeType,
    a: AttributeHandle,
) -> bool {
    &&& a.spec_is_enum()
    &&& a.spec_ctx_id() == ctx_id
    &&& a.spec_kind_id() == id
    &&& a.spec_enum_value() == (if id == 0 { 0u64 } else { val.spec_raw() })
}

/// What the string constructor promises of its result: exactly the
/// handle for context `ctx_id` holding `key` and `value`.
pub open spec fn spec_string_attr(
    ctx_id: u64,
    key: Seq<char>,
    value: Seq<char>,
    a: AttributeHandle,
) -> bool {
    &&& a.spec_is_string()
    &&& a.spec_ctx_id() == ctx_id
    &&& a.spec_key() == key
    &&& a.spec_string_value() == value
}

/// Constructing an enum attribute with a recognized identifier and any
/// known kind, then reading the kind value back, gives that same kind.
pub proof fn lemma_enum_kind_value_round_trip(
    ctx_id: u64,
    id: u32,
    val: AttributeType,
    a: AttributeHandle,
)
    requires
        spec_enum_attr(ctx_id, id, val, a),
        id != 0,
    ensures
        spec_attribute_type_from_raw(a.spec_enum_value()) == Some(val),
{
    lemma_attribute_type_round_trip(val);
}

/// Any handle the string constructor yields for a key/value pair reads
/// back exactly that key as its string kind.
pub proof fn lemma_string_kind_round_trip(
    ctx_id: u64,
    key: Seq<char>,
    value: Seq<char>,
    a: AttributeHandle,
)
    requires
        spec_string_attr(ctx_id, key, value, a),
    ensures
        a.spec_key() == key,
{
}

/// Enum form and string form are mutually exclusive and collectively
/// exhaustive: every attribute is exactly one of the two.
pub proof fn lemma_forms_exclusive_and_exhaustive(a: AttributeHandle)
    ensures
        a.spec_is_enum() <==> !a.spec_is_string(),
{
}

/// An enum attribute made with identifier zero, and any enum attribute
/// whose packed value is zero, reads back an absent kind value, not a
/// fault and not an ill-formed kind.
pub proof fn lemma_zero_identifier_unrecognized(
    ctx_id: u64,
    id: u32,
    val: AttributeType,
    a: AttributeHandle,
)
    requires
        spec_enum_attr(ctx_id, id, val, a),
        id == 0 || a.spec_enum_value() == 0,
    ensures
        a.spec_enum_value() == 0,
        spec_attribute_type_from_raw(a.spec_enum_value()) is None,
{
}

} // verus!
