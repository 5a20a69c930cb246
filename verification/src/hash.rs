//! What hashing a reflective value hashes.
use vstd::prelude::*;
use crate::eq::values_eq;
use crate::eq::Comparison;
use crate::value::ReflectValueBox;
use crate::value::ValueView;
use crate::value_ref::ReflectValueRef;

verus! {

/// The part of a hashable reflective value that its hash is computed from:
/// the kind of value and its payload. Enum values hash by number only.
#[derive(Debug, PartialEq, Eq, Hash)]
pub enum ReflectHashKey<'a> {
    U32(u32),
    U64(u64),
    I32(i32),
    I64(i64),
    Bool(bool),
    String(&'a str),
    Bytes(&'a [u8]),
    Enum(i32),
}

/// The mathematical model of a hash key.
pub enum HashKeyView {
    U32(u32),
    U64(u64),
    I32(i32),
    I64(i64),
    Bool(bool),
    String(Seq<char>),
    Bytes(Seq<u8>),
    Enum(i32),
}

impl<'a> View for ReflectHashKey<'a> {
    type V = HashKeyView;

    open spec fn view(&self) -> HashKeyView {
        match *self {
            ReflectHashKey::U32(v) => HashKeyView::U32(v),
            ReflectHashKey::U64(v) => HashKeyView::U64(v),
            ReflectHashKey::I32(v) => HashKeyView::I32(v),
            ReflectHashKey::I64(v) => HashKeyView::I64(v),
            ReflectHashKey::Bool(v) => HashKeyView::Bool(v),
            ReflectHashKey::String(s) => HashKeyView::String(s@),
            ReflectHashKey::Bytes(s) => HashKeyView::Bytes(s@),
            ReflectHashKey::Enum(v) => HashKeyView::Enum(v),
        }
    }
}

/// The hash key of a value, or `None` for the values that cannot be
/// hashed: floats and messages.
pub open spec fn view_hash_key(v: ValueView) -> Option<HashKeyView> {
    match v {
        ValueView::U32(x) => Some(HashKeyView::U32(x)),
        ValueView::U64(x) => Some(HashKeyView::U64(x)),
        ValueView::I32(x) => Some(HashKeyView::I32(x)),
        ValueView::I64(x) => Some(HashKeyView::I64(x)),
        ValueView::Bool(x) => Some(HashKeyView::Bool(x)),
        ValueView::String(s) => Some(HashKeyView::String(s)),
        ValueView::Bytes(s) => Some(HashKeyView::Bytes(s)),
        ValueView::Enum(_, x) => Some(HashKeyView::Enum(x)),
        ValueView::F32(_) | ValueView::F64(_) | ValueView::Message(_) => None,
    }
}

/// The model of an optional hash key.
pub open spec fn opt_key_view(k: Option<ReflectHashKey>) -> Option<HashKeyView> {
    match k {
        Some(k) => Some(k@),
        None => None,
    }
}

impl<'a> ReflectValueRef<'a> {
    /// What hashing this value hashes; `None` where hashing it panics
    /// (floats and messages are not hashable).
    pub fn hash_key(&self) -> (r: Option<ReflectHashKey<'a>>)
        ensures
            opt_key_view(r) == view_hash_key(self@),
    {
        match self {
            ReflectValueRef::U32(v) => Some(ReflectHashKey::U32(*v)),
            ReflectValueRef::U64(v) => Some(ReflectHashKey::U64(*v)),
            ReflectValueRef::I32(v) => Some(ReflectHashKey::I32(*v)),
            ReflectValueRef::I64(v) => Some(ReflectHashKey::I64(*v)),
            ReflectValueRef::Bool(v) => Some(ReflectHashKey::Bool(*v)),
            ReflectValueRef::String(v) => Some(ReflectHashKey::String(*v)),
            ReflectValueRef::Bytes(v) => Some(ReflectHashKey::Bytes(*v)),
            ReflectValueRef::Enum(_d, v) => Some(ReflectHashKey::Enum(*v)),
            ReflectValueRef::F32(_) | ReflectValueRef::F64(_) | ReflectValueRef::Message(_) => None,
        }
    }
}

impl ReflectValueBox {
    /// What hashing this value hashes; `None` where hashing it panics
    /// (floats and messages are not hashable).
    pub fn hash_key(&self) -> (r: Option<ReflectHashKey<'_>>)
        ensures
            opt_key_view(r) == view_hash_key(self@),
    {
        self.as_value_ref().hash_key()
    }
}

/// Equal values have equal hash keys: whenever `a == b` and `a` is
/// hashable, `b` is hashable too and hashes the same key.
pub proof fn law_equal_values_hash_alike(a: ValueView, b: ValueView)
    requires
        values_eq(a, b, Comparison::Standard),
    ensures
        view_hash_key(a) == view_hash_key(b),
{
}

/// Exactly floats and messages are unhashable: every other value has a
/// hash key.
pub proof fn law_hashable_kinds(a: ValueView)
    ensures
        view_hash_key(a) is None <==> (a is F32 || a is F64 || a is Message),
{
}

/// A hash key keeps the whole value apart from an enum value's type: two
/// hashable values that are not enum values have the same key exactly
/// when they are `==`, and an enum value has the same key as another value
/// exactly when that value is an enum value with the same number.
pub proof fn law_hash_key_separates(a: ValueView, b: ValueView)
    requires
        view_hash_key(a) is Some,
    ensures
        !(a is Enum) && !(b is Enum) ==> (view_hash_key(a) == view_hash_key(b) <==> values_eq(
            a,
            b,
            Comparison::Standard,
        )),
        a matches ValueView::Enum(_, x) ==> (view_hash_key(a) == view_hash_key(b) <==> (
        b matches ValueView::Enum(_, y) && x == y)),
{
}

} // verus!
