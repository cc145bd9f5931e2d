//! User headers as the Python SDK sees them: the wire kinds, the identity
//! (kind code and little-endian bytes) that equality and hashing of typed
//! keys and values go by, the Python hash, and the rules that decide whether
//! a header dictionary is plain or typed.

use std::hash::Hash;
use std::hash::Hasher;
use vstd::prelude::*;
use vstd::string::StrSliceExecFns;

use crate::offsets::le_bytes;
use crate::offsets::pow256;

verus! {

/// The wire kinds of a user header key or value.
#[derive(Debug, Clone, Copy, PartialEq, Eq, Structural)]
pub enum HeaderKind {
    Raw,
    String,
    Bool,
    Int8,
    Int16,
    Int32,
    Int64,
    Int128,
    Uint8,
    Uint16,
    Uint32,
    Uint64,
    Uint128,
    Float32,
    Float64,
}

pub open spec fn spec_kind_code(kind: HeaderKind) -> u8 {
    match kind {
        HeaderKind::Raw => 1,
        HeaderKind::String => 2,
        HeaderKind::Bool => 3,
        HeaderKind::Int8 => 4,
        HeaderKind::Int16 => 5,
        HeaderKind::Int32 => 6,
        HeaderKind::Int64 => 7,
        HeaderKind::Int128 => 8,
        HeaderKind::Uint8 => 9,
        HeaderKind::Uint16 => 10,
        HeaderKind::Uint32 => 11,
        HeaderKind::Uint64 => 12,
        HeaderKind::Uint128 => 13,
        HeaderKind::Float32 => 14,
        HeaderKind::Float64 => 15,
    }
}

impl HeaderKind {
    /// The wire code of the kind.
    pub fn as_code(self) -> (c: u8)
        ensures
            c == spec_kind_code(self),
    {
        match self {
            HeaderKind::Raw => 1,
            HeaderKind::String => 2,
            HeaderKind::Bool => 3,
            HeaderKind::Int8 => 4,
            HeaderKind::Int16 => 5,
            HeaderKind::Int32 => 6,
            HeaderKind::Int64 => 7,
            HeaderKind::Int128 => 8,
            HeaderKind::Uint8 => 9,
            HeaderKind::Uint16 => 10,
            HeaderKind::Uint32 => 11,
            HeaderKind::Uint64 => 12,
            HeaderKind::Uint128 => 13,
            HeaderKind::Float32 => 14,
            HeaderKind::Float64 => 15,
        }
    }
}

/// What equality and hashing of a typed header key or value go by: the kind
/// code and the value's bytes (little-endian for numbers, so two floats are
/// the same exactly when their bit patterns are).
#[derive(Debug, PartialEq, Eq)]
pub struct HeaderIdentity {
    pub kind: u8,
    pub value: Vec<u8>,
}

/// `v` as an unsigned number of `n` bytes (two's complement for a negative).
pub open spec fn twos(v: int, n: nat) -> nat {
    if v >= 0 {
        v as nat
    } else {
        (v + pow256(n)) as nat
    }
}

/// The first `n` little-endian bytes of `x`.
fn le_bytes_vec(x: u128, n: usize) -> (v: Vec<u8>)
    requires
        n <= 16,
    ensures
        v@ == le_bytes(x as nat, n as nat),
{
    let mut v: Vec<u8> = Vec::new();
    let mut rest = x;
    let mut i: usize = 0;
    while i < n
        invariant
            i <= n <= 16,
            v@ + le_bytes(rest as nat, (n - i) as nat) == le_bytes(x as nat, n as nat),
        decreases n - i,
    {
        proof {
            let tail = le_bytes(rest as nat, (n - i) as nat);
            assert(tail == seq![(rest % 256) as u8] + le_bytes((rest / 256) as nat, (n - i - 1) as nat));
            assert(v@ + tail =~= v@.push((rest % 256) as u8) + le_bytes((rest / 256) as nat, (n - i - 1) as nat));
        }
        v.push((rest % 256) as u8);
        rest = rest / 256;
        i += 1;
    }
    assert(le_bytes(rest as nat, 0) =~= Seq::<u8>::empty());
    assert(v@ + Seq::<u8>::empty() =~= v@);
    v
}

impl HeaderIdentity {
    pub fn raw(value: Vec<u8>) -> (h: Self)
        ensures
            h.kind == 1 && h.value@ == value@,
    {
        HeaderIdentity { kind: HeaderKind::Raw.as_code(), value }
    }

    /// The identity of a string, from its UTF-8 bytes.
    pub fn string(value: Vec<u8>) -> (h: Self)
        ensures
            h.kind == 2 && h.value@ == value@,
    {
        HeaderIdentity { kind: HeaderKind::String.as_code(), value }
    }

    pub fn bool(value: bool) -> (h: Self)
        ensures
            h.kind == 3 && h.value@ == seq![if value { 1u8 } else { 0u8 }],
    {
        let mut v: Vec<u8> = Vec::new();
        v.push(if value { 1u8 } else { 0u8 });
        HeaderIdentity { kind: HeaderKind::Bool.as_code(), value: v }
    }

    pub fn int8(value: i8) -> (h: Self)
        ensures
            h.kind == 4 && h.value@ == le_bytes(twos(value as int, 1), 1),
    {
        let u: u128 = if value >= 0 {
            value as u128
        } else {
            (value as i16 + 256) as u128
        };
        assert(pow256(1) == 256) by {
            reveal_with_fuel(pow256, 2);
        }
        HeaderIdentity { kind: HeaderKind::Int8.as_code(), value: le_bytes_vec(u, 1) }
    }

    pub fn int16(value: i16) -> (h: Self)
        ensures
            h.kind == 5 && h.value@ == le_bytes(twos(value as int, 2), 2),
    {
        let u: u128 = if value >= 0 {
            value as u128
        } else {
            (value as i32 + 65536) as u128
        };
        assert(pow256(2) == 65536) by {
            reveal_with_fuel(pow256, 3);
        }
        HeaderIdentity { kind: HeaderKind::Int16.as_code(), value: le_bytes_vec(u, 2) }
    }

    pub fn int32(value: i32) -> (h: Self)
        ensures
            h.kind == 6 && h.value@ == le_bytes(twos(value as int, 4), 4),
    {
        let u: u128 = if value >= 0 {
            value as u128
        } else {
            (value as i64 + 0x1_0000_0000) as u128
        };
        assert(pow256(4) == 0x1_0000_0000) by {
            reveal_with_fuel(pow256, 5);
        }
        HeaderIdentity { kind: HeaderKind::Int32.as_code(), value: le_bytes_vec(u, 4) }
    }

    pub fn int64(value: i64) -> (h: Self)
        ensures
            h.kind == 7 && h.value@ == le_bytes(twos(value as int, 8), 8),
    {
        let u: u128 = if value >= 0 {
            value as u128
        } else {
            (value as i128 + 0x1_0000_0000_0000_0000) as u128
        };
        assert(pow256(8) == 0x1_0000_0000_0000_0000) by {
            reveal_with_fuel(pow256, 9);
        }
        HeaderIdentity { kind: HeaderKind::Int64.as_code(), value: le_bytes_vec(u, 8) }
    }

    pub fn int128(value: i128) -> (h: Self)
        ensures
            h.kind == 8 && h.value@ == le_bytes(twos(value as int, 16), 16),
    {
        let u: u128 = if value >= 0 {
            value as u128
        } else {
            u128::MAX - ((-(value + 1)) as u128)
        };
        assert(pow256(16) == 0x1_0000_0000_0000_0000_0000_0000_0000_0000) by {
            reveal_with_fuel(pow256, 17);
        }
        HeaderIdentity { kind: HeaderKind::Int128.as_code(), value: le_bytes_vec(u, 16) }
    }

    pub fn uint8(value: u8) -> (h: Self)
        ensures
            h.kind == 9 && h.value@ == le_bytes(value as nat, 1),
    {
        HeaderIdentity { kind: HeaderKind::Uint8.as_code(), value: le_bytes_vec(value as u128, 1) }
    }

    pub fn uint16(value: u16) -> (h: Self)
        ensures
            h.kind == 10 && h.value@ == le_bytes(value as nat, 2),
    {
        HeaderIdentity { kind: HeaderKind::Uint16.as_code(), value: le_bytes_vec(value as u128, 2) }
    }

    pub fn uint32(value: u32) -> (h: Self)
        ensures
            h.kind == 11 && h.value@ == le_bytes(value as nat, 4),
    {
        HeaderIdentity { kind: HeaderKind::Uint32.as_code(), value: le_bytes_vec(value as u128, 4) }
    }

    pub fn uint64(value: u64) -> (h: Self)
        ensures
            h.kind == 12 && h.value@ == le_bytes(value as nat, 8),
    {
        HeaderIdentity { kind: HeaderKind::Uint64.as_code(), value: le_bytes_vec(value as u128, 8) }
    }

    pub fn uint128(value: u128) -> (h: Self)
        ensures
            h.kind == 13 && h.value@ == le_bytes(value as nat, 16),
    {
        HeaderIdentity { kind: HeaderKind::Uint128.as_code(), value: le_bytes_vec(value, 16) }
    }

    /// The identity of a 32-bit float, from its bit pattern (`f32::to_bits`).
    pub fn float32(bits: u32) -> (h: Self)
        ensures
            h.kind == 14 && h.value@ == le_bytes(bits as nat, 4),
    {
        HeaderIdentity { kind: HeaderKind::Float32.as_code(), value: le_bytes_vec(bits as u128, 4) }
    }

    /// The identity of a 64-bit float, from its bit pattern (`f64::to_bits`).
    pub fn float64(bits: u64) -> (h: Self)
        ensures
            h.kind == 15 && h.value@ == le_bytes(bits as nat, 8),
    {
        HeaderIdentity { kind: HeaderKind::Float64.as_code(), value: le_bytes_vec(bits as u128, 8) }
    }

    /// Whether two identities are the same: same kind, same bytes.
    pub fn same_as(&self, other: &HeaderIdentity) -> (b: bool)
        ensures
            b == (self.kind == other.kind && self.value@ == other.value@),
    {
        if self.kind != other.kind || self.value.len() != other.value.len() {
            return false;
        }
        let mut i: usize = 0;
        while i < self.value.len()
            invariant
                i <= self.value@.len(),
                self.value@.len() == other.value@.len(),
                forall|j: int| 0 <= j < i ==> self.value@[j] == other.value@[j],
            decreases self.value@.len() - i,
        {
            if self.value[i] != other.value[i] {
                return false;
            }
            i += 1;
        }
        assert(self.value@ =~= other.value@);
        true
    }
}

// ---------------------------------------------------------------------------
// Typed keys and values
// ---------------------------------------------------------------------------

/// The payload of a typed header key or value: one wire kind and its value.
/// Floats are held by their bit patterns (`to_bits`).
#[derive(Debug, Clone, PartialEq, Eq)]
pub enum HeaderScalar {
    Raw { value: Vec<u8> },
    String { value: String },
    Bool { value: bool },
    Int8 { value: i8 },
    Int16 { value: i16 },
    Int32 { value: i32 },
    Int64 { value: i64 },
    Int128 { value: i128 },
    UnsignedInt8 { value: u8 },
    UnsignedInt16 { value: u16 },
    UnsignedInt32 { value: u32 },
    UnsignedInt64 { value: u64 },
    UnsignedInt128 { value: u128 },
    Float32 { value: u32 },
    Float64 { value: u64 },
}

/// The identity of a typed scalar: its kind code and value bytes.
pub open spec fn spec_scalar_identity(s: HeaderScalar) -> (u8, Seq<u8>) {
    match s {
        HeaderScalar::Raw { value } => (1, value@),
        HeaderScalar::String { value } => (2, vstd::utf8::encode_utf8(value@)),
        HeaderScalar::Bool { value } => (3, seq![if value { 1u8 } else { 0u8 }]),
        HeaderScalar::Int8 { value } => (4, le_bytes(twos(value as int, 1), 1)),
        HeaderScalar::Int16 { value } => (5, le_bytes(twos(value as int, 2), 2)),
        HeaderScalar::Int32 { value } => (6, le_bytes(twos(value as int, 4), 4)),
        HeaderScalar::Int64 { value } => (7, le_bytes(twos(value as int, 8), 8)),
        HeaderScalar::Int128 { value } => (8, le_bytes(twos(value as int, 16), 16)),
        HeaderScalar::UnsignedInt8 { value } => (9, le_bytes(value as nat, 1)),
        HeaderScalar::UnsignedInt16 { value } => (10, le_bytes(value as nat, 2)),
        HeaderScalar::UnsignedInt32 { value } => (11, le_bytes(value as nat, 4)),
        HeaderScalar::UnsignedInt64 { value } => (12, le_bytes(value as nat, 8)),
        HeaderScalar::UnsignedInt128 { value } => (13, le_bytes(value as nat, 16)),
        HeaderScalar::Float32 { value } => (14, le_bytes(value as nat, 4)),
        HeaderScalar::Float64 { value } => (15, le_bytes(value as nat, 8)),
    }
}

pub open spec fn identity_is(h: HeaderIdentity, s: HeaderScalar) -> bool {
    (h.kind, h.value@) == spec_scalar_identity(s)
}

impl HeaderScalar {
    /// The identity that equality and hashing go by.
    pub fn identity(&self) -> (h: HeaderIdentity)
        ensures
            identity_is(h, *self),
    {
        match self {
            HeaderScalar::Raw { value } => {
                let v = value.clone();
                assert(v@ =~= value@);
                HeaderIdentity::raw(v)
            },
            HeaderScalar::String { value } => HeaderIdentity::string(value.as_str().as_bytes_vec()),
            HeaderScalar::Bool { value } => HeaderIdentity::bool(*value),
            HeaderScalar::Int8 { value } => HeaderIdentity::int8(*value),
            HeaderScalar::Int16 { value } => HeaderIdentity::int16(*value),
            HeaderScalar::Int32 { value } => HeaderIdentity::int32(*value),
            HeaderScalar::Int64 { value } => HeaderIdentity::int64(*value),
            HeaderScalar::Int128 { value } => HeaderIdentity::int128(*value),
            HeaderScalar::UnsignedInt8 { value } => HeaderIdentity::uint8(*value),
            HeaderScalar::UnsignedInt16 { value } => HeaderIdentity::uint16(*value),
            HeaderScalar::UnsignedInt32 { value } => HeaderIdentity::uint32(*value),
            HeaderScalar::UnsignedInt64 { value } => HeaderIdentity::uint64(*value),
            HeaderScalar::UnsignedInt128 { value } => HeaderIdentity::uint128(*value),
            HeaderScalar::Float32 { value } => HeaderIdentity::float32(*value),
            HeaderScalar::Float64 { value } => HeaderIdentity::float64(*value),
        }
    }
}

/// Typed key of a user header, for keys that must keep an explicit wire type.
#[derive(Debug, Clone, PartialEq, Eq)]
pub struct HeaderKey(pub HeaderScalar);

/// Typed value of a user header, for values that must keep an explicit wire
/// type.
#[derive(Debug, Clone, PartialEq, Eq)]
pub struct HeaderValue(pub HeaderScalar);

// ---------------------------------------------------------------------------
// Hashing
// ---------------------------------------------------------------------------

/// What `std::collections::hash_map::DefaultHasher::new()` finishes with after
/// hashing the kind code and then the bytes (the derived `Hash` of an
/// identity).
pub uninterp spec fn default_hash(kind: u8, value: Seq<u8>) -> u64;

/// The std default hash of an identity: a `DefaultHasher` built with `new`
/// (fixed keys, no per-process seed) fed the kind code and then the byte
/// vector. Its value depends on the two alone and is named `default_hash`.
#[verifier::external_body]
fn hash_identity(kind: u8, value: &Vec<u8>) -> (h: u64)
    ensures
        h == default_hash(kind, value@),
{
    let mut hasher = std::collections::hash_map::DefaultHasher::new();
    kind.hash(&mut hasher);
    value.hash(&mut hasher);
    hasher.finish()
}

/// The 64-bit hash of an identity.
pub fn header_identity_hash(identity: &HeaderIdentity) -> (h: u64)
    ensures
        h == default_hash(identity.kind, identity.value@),
{
    hash_identity(identity.kind, &identity.value)
}

/// A Python hash from a 64-bit hash: its bits as a signed machine word, with
/// `-1` (CPython's error sentinel) moved to `-2`.
pub open spec fn spec_py_hash(hash: u64) -> isize {
    if hash as isize == -1 {
        -2isize
    } else {
        hash as isize
    }
}

pub fn py_hash(hash: u64) -> (h: isize)
    ensures
        h == spec_py_hash(hash),
{
    let h = hash as isize;
    if h == -1 {
        -2
    } else {
        h
    }
}

/// The Python hash of a typed header key or value.
pub fn identity_py_hash(identity: &HeaderIdentity) -> (h: isize)
    ensures
        h == spec_py_hash(default_hash(identity.kind, identity.value@)),
{
    py_hash(header_identity_hash(identity))
}

// ---------------------------------------------------------------------------
// Rich comparison
// ---------------------------------------------------------------------------

/// A Python rich-comparison operator.
#[derive(Debug, Clone, Copy, PartialEq, Eq, Structural)]
pub enum CompareOp {
    Lt,
    Le,
    Eq,
    Ne,
    Gt,
    Ge,
}

/// The result of a Python rich comparison.
#[derive(Debug, Clone, Copy, PartialEq, Eq, Structural)]
pub enum RichCompareResult {
    Bool(bool),
    NotImplemented,
}

/// Compares a typed header key (or value) with `other`, which is `None` when
/// the other object is not of the same class: only `==` and `!=` are
/// defined, by identity; against another class `==` is false and `!=` true;
/// ordering is not implemented.
pub open spec fn spec_richcmp(identity: HeaderIdentity, other: Option<HeaderIdentity>, op: CompareOp) -> RichCompareResult {
    match other {
        None => match op {
            CompareOp::Eq => RichCompareResult::Bool(false),
            CompareOp::Ne => RichCompareResult::Bool(true),
            _ => RichCompareResult::NotImplemented,
        },
        Some(o) => {
            let same = identity.kind == o.kind && identity.value@ == o.value@;
            match op {
                CompareOp::Eq => RichCompareResult::Bool(same),
                CompareOp::Ne => RichCompareResult::Bool(!same),
                _ => RichCompareResult::NotImplemented,
            }
        },
    }
}

pub fn header_richcmp(identity: &HeaderIdentity, other: Option<&HeaderIdentity>, op: CompareOp) -> (r: RichCompareResult)
    ensures
        r == spec_richcmp(
            *identity,
            match other {
                Some(o) => Some(*o),
                None => None,
            },
            op,
        ),
{
    match other {
        None => match op {
            CompareOp::Eq => RichCompareResult::Bool(false),
            CompareOp::Ne => RichCompareResult::Bool(true),
            _ => RichCompareResult::NotImplemented,
        },
        Some(o) => match op {
            CompareOp::Eq => RichCompareResult::Bool(identity.same_as(o)),
            CompareOp::Ne => RichCompareResult::Bool(!identity.same_as(o)),
            _ => RichCompareResult::NotImplemented,
        },
    }
}

// ---------------------------------------------------------------------------
// Plain and typed header dictionaries
// ---------------------------------------------------------------------------

/// The two forms of a Python header dictionary: `dict[str, scalar]` or
/// `dict[HeaderKey, HeaderValue]`.
#[derive(Debug, Clone, Copy, PartialEq, Eq, Structural)]
pub enum PyUserHeadersKind {
    Plain,
    Typed,
}

pub const MIXED_HEADERS_MESSAGE: &'static str = "User headers must be either dict[str, str | bytes | bool | int | float] or dict[HeaderKey, HeaderValue]";

pub const KEY_TYPE_MESSAGE: &'static str = "User header keys must be strings or HeaderKey";

pub const TYPED_VALUE_MESSAGE: &'static str = "User header values must be HeaderValue when keys are HeaderKey";

pub const TYPED_KEY_MESSAGE: &'static str = "User header keys must be HeaderKey when values are HeaderValue";

pub const VALUE_TYPE_MESSAGE: &'static str = "User header values must be str, bytes, bool, int, float, or HeaderValue";

/// The form of one dictionary entry from what its key and value are: a
/// string key with a scalar value is plain, a `HeaderKey` with a
/// `HeaderValue` typed; anything else is refused with the message that
/// names what is wrong.
pub open spec fn spec_entry_kind(
    key_is_typed: bool,
    key_is_plain: bool,
    value_is_typed: bool,
    value_is_plain: bool,
) -> Result<PyUserHeadersKind, Seq<char>> {
    if !key_is_typed && !key_is_plain {
        Err(KEY_TYPE_MESSAGE@)
    } else if key_is_plain && value_is_plain {
        Ok(PyUserHeadersKind::Plain)
    } else if key_is_typed && value_is_typed {
        Ok(PyUserHeadersKind::Typed)
    } else if key_is_typed {
        Err(TYPED_VALUE_MESSAGE@)
    } else if value_is_typed {
        Err(TYPED_KEY_MESSAGE@)
    } else {
        Err(VALUE_TYPE_MESSAGE@)
    }
}

pub fn py_user_header_entry_kind(
    key_is_typed: bool,
    key_is_plain: bool,
    value_is_typed: bool,
    value_is_plain: bool,
) -> (r: Result<PyUserHeadersKind, &'static str>)
    ensures
        match r {
            Ok(k) => spec_entry_kind(key_is_typed, key_is_plain, value_is_typed, value_is_plain) == Ok::<
                PyUserHeadersKind,
                Seq<char>,
            >(k),
            Err(m) => spec_entry_kind(key_is_typed, key_is_plain, value_is_typed, value_is_plain) == Err::<
                PyUserHeadersKind,
                Seq<char>,
            >(m@),
        },
{
    if !key_is_typed && !key_is_plain {
        return Err(KEY_TYPE_MESSAGE);
    }
    if key_is_plain && value_is_plain {
        return Ok(PyUserHeadersKind::Plain);
    }
    if key_is_typed && value_is_typed {
        return Ok(PyUserHeadersKind::Typed);
    }
    if key_is_typed {
        return Err(TYPED_VALUE_MESSAGE);
    }
    if value_is_typed {
        return Err(TYPED_KEY_MESSAGE);
    }
    Err(VALUE_TYPE_MESSAGE)
}

/// The form of a dictionary whose entries have the forms `kinds`, in order:
/// the first entry fixes it, and an entry of the other form refuses the
/// dictionary.
pub open spec fn spec_headers_kind(kinds: Seq<PyUserHeadersKind>) -> Result<Option<PyUserHeadersKind>, Seq<char>> {
    if kinds.len() == 0 {
        Ok(None)
    } else if forall|i: int| 0 <= i < kinds.len() ==> #[trigger] kinds[i] == kinds[0] {
        Ok(Some(kinds[0]))
    } else {
        Err(MIXED_HEADERS_MESSAGE@)
    }
}

pub fn headers_kind(kinds: &Vec<PyUserHeadersKind>) -> (r: Result<Option<PyUserHeadersKind>, &'static str>)
    ensures
        match r {
            Ok(k) => spec_headers_kind(kinds@) == Ok::<Option<PyUserHeadersKind>, Seq<char>>(k),
            Err(m) => spec_headers_kind(kinds@) == Err::<Option<PyUserHeadersKind>, Seq<char>>(m@),
        },
{
    let mut current: Option<PyUserHeadersKind> = None;
    let mut i: usize = 0;
    while i < kinds.len()
        invariant
            i <= kinds@.len(),
            i == 0 <==> current is None,
            current matches Some(k) ==> k == kinds@[0] && forall|j: int| 0 <= j < i ==> #[trigger] kinds@[j] == k,
        decreases kinds@.len() - i,
    {
        let entry = kinds[i];
        match current {
            Some(k) => {
                if k != entry {
                    return Err(MIXED_HEADERS_MESSAGE);
                }
            },
            None => {
                current = Some(entry);
            },
        }
        i += 1;
    }
    Ok(current)
}

/// Whether header key and value kinds can be handed to Python as a plain
/// dictionary: every key a string, every value raw bytes, a string, a bool,
/// a 64-bit integer or a 64-bit float.
pub open spec fn plain_entry(key: HeaderKind, value: HeaderKind) -> bool {
    key == HeaderKind::String && (value == HeaderKind::Raw || value == HeaderKind::String || value
        == HeaderKind::Bool || value == HeaderKind::Int64 || value == HeaderKind::Float64)
}

/// The value kinds Python has a plain type for: `bytes`, `str`, `bool`,
/// `int` (as a 64-bit integer) and `float` (as a 64-bit float).
pub open spec fn has_plain_python_type(kind: HeaderKind) -> bool {
    ||| kind is Raw
    ||| kind is String
    ||| kind is Bool
    ||| kind is Int64
    ||| kind is Float64
}

pub fn can_use_plain_headers(entries: &Vec<(HeaderKind, HeaderKind)>) -> (b: bool)
    ensures
        b == forall|i: int| 0 <= i < entries@.len() ==> plain_entry(#[trigger] entries@[i].0, entries@[i].1),
        b == forall|i: int|
            0 <= i < entries@.len() ==> (#[trigger] entries@[i]).0 is String && has_plain_python_type(
                entries@[i].1,
            ),
{
    let mut i: usize = 0;
    while i < entries.len()
        invariant
            i <= entries@.len(),
            forall|j: int| 0 <= j < i ==> plain_entry(#[trigger] entries@[j].0, entries@[j].1),
        decreases entries@.len() - i,
    {
        let (k, v) = entries[i];
        let plain = k == HeaderKind::String && (v == HeaderKind::Raw || v == HeaderKind::String || v
            == HeaderKind::Bool || v == HeaderKind::Int64 || v == HeaderKind::Float64);
        if !plain {
            return false;
        }
        i += 1;
    }
    true
}

// ---------------------------------------------------------------------------
// Laws
// ---------------------------------------------------------------------------

/// Equal typed keys (or values) hash equally, as Python requires of
/// `__eq__` and `__hash__`.
pub proof fn law_equal_identities_hash_equally(a: HeaderIdentity, b: HeaderIdentity)
    requires
        spec_richcmp(a, Some(b), CompareOp::Eq) == RichCompareResult::Bool(true),
    ensures
        spec_py_hash(default_hash(a.kind, a.value@)) == spec_py_hash(default_hash(b.kind, b.value@)),
{
}

/// A Python hash is never CPython's error sentinel.
pub proof fn law_py_hash_never_sentinel(hash: u64)
    ensures
        spec_py_hash(hash) != -1,
{
}

/// `==` and `!=` are each other's negation against any object.
pub proof fn law_eq_ne_complementary(identity: HeaderIdentity, other: Option<HeaderIdentity>)
    ensures
        spec_richcmp(identity, other, CompareOp::Eq) matches RichCompareResult::Bool(e) && spec_richcmp(
            identity,
            other,
            CompareOp::Ne,
        ) == RichCompareResult::Bool(!e),
{
}

impl HeaderKey {
    pub fn identity(&self) -> (h: HeaderIdentity)
        ensures
            identity_is(h, self.0),
    {
        self.0.identity()
    }

    /// Python `hash()` of the key: by identity.
    pub fn __hash__(&self) -> (h: isize)
        ensures
            h == spec_py_hash(default_hash(spec_scalar_identity(self.0).0, spec_scalar_identity(self.0).1)),
    {
        identity_py_hash(&self.identity())
    }

    /// Python rich comparison with `other`, `None` when the other object is
    /// not a `HeaderKey`.
    pub fn __richcmp__(&self, other: Option<&HeaderKey>, op: CompareOp) -> (r: RichCompareResult)
        ensures
            r == spec_scalar_richcmp(
                self.0,
                match other {
                    Some(o) => Some(o.0),
                    None => None,
                },
                op,
            ),
    {
        let mine = self.identity();
        match other {
            Some(o) => {
                let theirs = o.identity();
                header_richcmp(&mine, Some(&theirs), op)
            },
            None => header_richcmp(&mine, None, op),
        }
    }
}

impl HeaderValue {
    pub fn identity(&self) -> (h: HeaderIdentity)
        ensures
            identity_is(h, self.0),
    {
        self.0.identity()
    }

    /// Python `hash()` of the value: by identity.
    pub fn __hash__(&self) -> (h: isize)
        ensures
            h == spec_py_hash(default_hash(spec_scalar_identity(self.0).0, spec_scalar_identity(self.0).1)),
    {
        identity_py_hash(&self.identity())
    }

    /// Python rich comparison with `other`, `None` when the other object is
    /// not a `HeaderValue`.
    pub fn __richcmp__(&self, other: Option<&HeaderValue>, op: CompareOp) -> (r: RichCompareResult)
        ensures
            r == spec_scalar_richcmp(
                self.0,
                match other {
                    Some(o) => Some(o.0),
                    None => None,
                },
                op,
            ),
    {
        let mine = self.identity();
        match other {
            Some(o) => {
                let theirs = o.identity();
                header_richcmp(&mine, Some(&theirs), op)
            },
            None => header_richcmp(&mine, None, op),
        }
    }
}

/// Rich comparison of typed scalars by identity.
pub open spec fn spec_scalar_richcmp(a: HeaderScalar, other: Option<HeaderScalar>, op: CompareOp) -> RichCompareResult {
    match other {
        None => match op {
            CompareOp::Eq => RichCompareResult::Bool(false),
            CompareOp::Ne => RichCompareResult::Bool(true),
            _ => RichCompareResult::NotImplemented,
        },
        Some(b) => {
            let same = spec_scalar_identity(a) == spec_scalar_identity(b);
            match op {
                CompareOp::Eq => RichCompareResult::Bool(same),
                CompareOp::Ne => RichCompareResult::Bool(!same),
                _ => RichCompareResult::NotImplemented,
            }
        },
    }
}

/// Typed keys of different kinds are never equal, so an integer key is not
/// the same as a string key that spells it.
pub proof fn law_kinds_separate_keys(a: HeaderScalar, b: HeaderScalar)
    requires
        spec_scalar_identity(a).0 != spec_scalar_identity(b).0,
    ensures
        spec_scalar_richcmp(a, Some(b), CompareOp::Eq) == RichCompareResult::Bool(false),
{
}

/// A header set can be handed to Python as a plain dictionary exactly when
/// every key is a string and every value is raw bytes, a string, a bool, a
/// 64-bit integer or a 64-bit float; any other key or value kind (a typed
/// key, a narrower or wider integer, a 32-bit float) needs typed headers.
pub proof fn law_plain_headers_by_kind(key: HeaderKind, value: HeaderKind)
    ensures
        plain_entry(key, value) == (key is String && has_plain_python_type(value)),
        plain_entry(key, value) == (key is String && (value is Raw || value is String || value is Bool
            || value is Int64 || value is Float64)),
{
}

/// Every wire kind has its own code, from 1 to 15, so no two kinds of
/// header share an identity.
pub proof fn law_kind_codes_distinct(a: HeaderKind, b: HeaderKind)
    ensures
        1 <= spec_kind_code(a) <= 15,
        spec_kind_code(a) == spec_kind_code(b) ==> a == b,
{
}

/// Typed headers compare by identity: `==` holds against another typed
/// header exactly when kind and bytes are the same and against anything
/// else never, `!=` is its negation, and ordering comparisons are not
/// implemented.
pub proof fn law_richcmp_by_identity(a: HeaderIdentity, other: Option<HeaderIdentity>, op: CompareOp)
    ensures
        op is Eq ==> spec_richcmp(a, other, op) == RichCompareResult::Bool(
            other matches Some(b) && a.kind == b.kind && a.value@ == b.value@,
        ),
        op is Ne ==> spec_richcmp(a, other, op) == RichCompareResult::Bool(
            !(other matches Some(b) && a.kind == b.kind && a.value@ == b.value@),
        ),
        !(op is Eq) && !(op is Ne) ==> spec_richcmp(a, other, op) == RichCompareResult::NotImplemented,
{
}

/// The Python hash is the 64-bit hash read as a signed number, except that
/// CPython's error value `-1` becomes `-2`.
pub proof fn law_py_hash_is_the_hash(hash: u64)
    ensures
        hash as isize != -1 ==> spec_py_hash(hash) == hash as isize,
        hash as isize == -1 ==> spec_py_hash(hash) == -2,
{
}

/// Numbers are identified by their little-endian bytes: an `n`-byte value
/// gives `n` bytes, the least significant first.
pub proof fn law_identity_bytes_little_endian(x: nat, n: nat)
    requires
        n >= 2,
    ensures
        le_bytes(x, n).len() == n,
        le_bytes(x, n)[0] == (x % 256) as u8,
        le_bytes(x, n)[1] == ((x / 256) % 256) as u8,
{
    crate::offsets::law_le_bytes_shape(x, n);
}

/// A negative number is identified by its two's complement: `v + 256^n`.
pub proof fn law_negative_numbers_twos_complement(v: int, n: nat)
    requires
        -pow256(n) <= v < 0,
    ensures
        twos(v, n) == v + pow256(n),
        0 <= twos(v, n) < pow256(n),
{
}

} // verus!
