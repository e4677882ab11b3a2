//! Values carried by bus messages.
//!
//! A message body is a tree of dynamically typed values. [`BusValue`] is that
//! tree as a closed set of variants, and the conversions on it fail with a
//! [`ShapeError`] that names the shape that was wanted and the one that was
//! found.

use vstd::prelude::*;
use vstd::string::StrSliceExecFns;
use vstd::string::StringSliceAdditionalSpecFns;
use vstd::utf8::encode_utf8_decode_utf8;

verus! {

/// The shape of a [`BusValue`], without what it carries.
#[derive(Clone, Copy, Debug, PartialEq, Eq, Structural)]
pub enum ValueKind {
    U8,
    Bool,
    I16,
    U16,
    I32,
    U32,
    I64,
    U64,
    Double,
    Str,
    Signature,
    ObjectPath,
    Variant,
    Array,
    Dict,
    Structure,
    Fd,
}

/// A conversion met a value of another shape than the one it converts.
#[derive(Clone, Copy, Debug, PartialEq, Eq, Structural)]
pub struct ShapeError {
    /// The shape the conversion takes.
    pub expected: ValueKind,
    /// The shape of the value it was given.
    pub found: ValueKind,
}

/// A value of a message body.
#[derive(Debug, PartialEq, Eq)]
pub enum BusValue {
    U8(u8),
    Bool(bool),
    I16(i16),
    U16(u16),
    I32(i32),
    U32(u32),
    I64(i64),
    U64(u64),
    /// A double-precision number, held as the integer nearest to it.
    Double(i64),
    Str(String),
    Signature(String),
    ObjectPath(String),
    /// A value wrapped as a variant.
    Variant(Box<BusValue>),
    Array(Vec<BusValue>),
    /// The entries of a dictionary, in the order they were received.
    Dict(Vec<DictEntry>),
    Structure(Vec<BusValue>),
    /// A file descriptor; the descriptor itself is not kept.
    Fd,
}

/// One entry of a dictionary.
#[derive(Debug, PartialEq, Eq)]
pub struct DictEntry {
    pub key: BusValue,
    pub value: BusValue,
}

/// Whether two texts hold the same characters.
pub fn same_text(a: &str, b: &str) -> (same: bool)
    ensures
        same == (a@ == b@),
{
    let x = a.as_bytes();
    let y = b.as_bytes();
    proof {
        // A text is determined by its encoding.
        encode_utf8_decode_utf8(a@);
        encode_utf8_decode_utf8(b@);
    }
    if x.len() != y.len() {
        return false;
    }
    let mut i: usize = 0;
    while i < x.len()
        invariant
            x@.len() == y@.len(),
            i <= x@.len(),
            forall|j: int| 0 <= j < i ==> x@[j] == y@[j],
            x@ == a.spec_bytes(),
            y@ == b.spec_bytes(),
        decreases x@.len() - i,
    {
        if x[i] != y[i] {
            return false;
        }
        i += 1;
    }
    proof {
        assert(x@ =~= y@);
    }
    true
}

/// The characters of a text.
pub fn characters(text: &str) -> (chars: Vec<char>)
    ensures
        chars@ == text@,
{
    let length = text.unicode_len();
    let mut chars: Vec<char> = Vec::new();
    let mut i: usize = 0;
    while i < length
        invariant
            length == text@.len(),
            i <= length,
            chars@ == text@.subrange(0, i as int),
        decreases length - i,
    {
        chars.push(text.get_char(i));
        assert(chars@ =~= text@.subrange(0, i as int + 1));
        i += 1;
    }
    assert(chars@ =~= text@);
    chars
}

impl BusValue {
    /// The shape of this value.
    pub open spec fn spec_kind(&self) -> ValueKind {
        match *self {
            BusValue::U8(_) => ValueKind::U8,
            BusValue::Bool(_) => ValueKind::Bool,
            BusValue::I16(_) => ValueKind::I16,
            BusValue::U16(_) => ValueKind::U16,
            BusValue::I32(_) => ValueKind::I32,
            BusValue::U32(_) => ValueKind::U32,
            BusValue::I64(_) => ValueKind::I64,
            BusValue::U64(_) => ValueKind::U64,
            BusValue::Double(_) => ValueKind::Double,
            BusValue::Str(_) => ValueKind::Str,
            BusValue::Signature(_) => ValueKind::Signature,
            BusValue::ObjectPath(_) => ValueKind::ObjectPath,
            BusValue::Variant(_) => ValueKind::Variant,
            BusValue::Array(_) => ValueKind::Array,
            BusValue::Dict(_) => ValueKind::Dict,
            BusValue::Structure(_) => ValueKind::Structure,
            BusValue::Fd => ValueKind::Fd,
        }
    }

    /// The error of a conversion that takes `expected` and was given this value.
    pub open spec fn mismatch(&self, expected: ValueKind) -> ShapeError {
        ShapeError { expected, found: self.spec_kind() }
    }

    /// This value, or what it wraps if it is a variant: one wrapper is taken
    /// off, not more.
    pub open spec fn spec_unwrapped(&self) -> BusValue {
        match *self {
            BusValue::Variant(inner) => *inner,
            _ => *self,
        }
    }

    /// The shape of this value.
    #[verifier::when_used_as_spec(spec_kind)]
    pub fn kind(&self) -> (kind: ValueKind)
        ensures
            kind == self.spec_kind(),
    {
        match self {
            BusValue::U8(_) => ValueKind::U8,
            BusValue::Bool(_) => ValueKind::Bool,
            BusValue::I16(_) => ValueKind::I16,
            BusValue::U16(_) => ValueKind::U16,
            BusValue::I32(_) => ValueKind::I32,
            BusValue::U32(_) => ValueKind::U32,
            BusValue::I64(_) => ValueKind::I64,
            BusValue::U64(_) => ValueKind::U64,
            BusValue::Double(_) => ValueKind::Double,
            BusValue::Str(_) => ValueKind::Str,
            BusValue::Signature(_) => ValueKind::Signature,
            BusValue::ObjectPath(_) => ValueKind::ObjectPath,
            BusValue::Variant(_) => ValueKind::Variant,
            BusValue::Array(_) => ValueKind::Array,
            BusValue::Dict(_) => ValueKind::Dict,
            BusValue::Structure(_) => ValueKind::Structure,
            BusValue::Fd => ValueKind::Fd,
        }
    }

    /// This value, or what it wraps if it is a variant.
    pub fn unwrapped(&self) -> (inner: &BusValue)
        ensures
            *inner == self.spec_unwrapped(),
    {
        match self {
            BusValue::Variant(inner) => &**inner,
            _ => self,
        }
    }

    /// The byte this value carries; only a `U8` converts.
    pub fn as_u8(&self) -> (out: Result<u8, ShapeError>)
        ensures
            out == (match *self {
                BusValue::U8(v) => Ok::<u8, ShapeError>(v),
                _ => Err(self.mismatch(ValueKind::U8)),
            }),
    {
        match self {
            BusValue::U8(v) => Ok(*v),
            _ => Err(ShapeError { expected: ValueKind::U8, found: self.kind() }),
        }
    }

    /// The number this value carries; only a `U32` converts.
    pub fn as_u32(&self) -> (out: Result<u32, ShapeError>)
        ensures
            out == (match *self {
                BusValue::U32(v) => Ok::<u32, ShapeError>(v),
                _ => Err(self.mismatch(ValueKind::U32)),
            }),
    {
        match self {
            BusValue::U32(v) => Ok(*v),
            _ => Err(ShapeError { expected: ValueKind::U32, found: self.kind() }),
        }
    }

    /// The integer nearest to the number this value carries; only a `Double`
    /// converts.
    pub fn as_double(&self) -> (out: Result<i64, ShapeError>)
        ensures
            out == (match *self {
                BusValue::Double(v) => Ok::<i64, ShapeError>(v),
                _ => Err(self.mismatch(ValueKind::Double)),
            }),
    {
        match self {
            BusValue::Double(v) => Ok(*v),
            _ => Err(ShapeError { expected: ValueKind::Double, found: self.kind() }),
        }
    }

    /// The text this value carries; only a `Str` converts.
    pub fn as_text(&self) -> (out: Result<&str, ShapeError>)
        ensures
            match *self {
                BusValue::Str(text) => out is Ok && out->Ok_0@ == text@,
                _ => out == Err::<&str, ShapeError>(self.mismatch(ValueKind::Str)),
            },
    {
        match self {
            BusValue::Str(text) => Ok(text.as_str()),
            _ => Err(ShapeError { expected: ValueKind::Str, found: self.kind() }),
        }
    }

    /// The object path this value carries; only an `ObjectPath` converts.
    pub fn as_object_path(&self) -> (out: Result<&str, ShapeError>)
        ensures
            match *self {
                BusValue::ObjectPath(path) => out is Ok && out->Ok_0@ == path@,
                _ => out == Err::<&str, ShapeError>(self.mismatch(ValueKind::ObjectPath)),
            },
    {
        match self {
            BusValue::ObjectPath(path) => Ok(path.as_str()),
            _ => Err(ShapeError { expected: ValueKind::ObjectPath, found: self.kind() }),
        }
    }

    /// The entries of this dictionary; only a `Dict` converts.
    pub fn as_dict(&self) -> (out: Result<&Vec<DictEntry>, ShapeError>)
        ensures
            match *self {
                BusValue::Dict(entries) => out == Ok::<&Vec<DictEntry>, ShapeError>(&entries),
                _ => out == Err::<&Vec<DictEntry>, ShapeError>(self.mismatch(ValueKind::Dict)),
            },
    {
        match self {
            BusValue::Dict(entries) => Ok(entries),
            _ => Err(ShapeError { expected: ValueKind::Dict, found: self.kind() }),
        }
    }

    /// The items of this array; only an `Array` converts.
    pub fn as_array(&self) -> (out: Result<&Vec<BusValue>, ShapeError>)
        ensures
            match *self {
                BusValue::Array(items) => out == Ok::<&Vec<BusValue>, ShapeError>(&items),
                _ => out == Err::<&Vec<BusValue>, ShapeError>(self.mismatch(ValueKind::Array)),
            },
    {
        match self {
            BusValue::Array(items) => Ok(items),
            _ => Err(ShapeError { expected: ValueKind::Array, found: self.kind() }),
        }
    }
}

/// Whether `entry` is filed under the text `key`.
pub open spec fn has_key(entry: DictEntry, key: Seq<char>) -> bool {
    entry.key matches BusValue::Str(text) && text@ == key
}

/// What is stored in a dictionary under the text `key`: the value of the
/// first entry filed under it, as it is.
pub open spec fn stored_under(entries: Seq<DictEntry>, key: Seq<char>) -> Option<BusValue>
    decreases entries.len(),
{
    if entries.len() == 0 {
        None
    } else if has_key(entries[0], key) {
        Some(entries[0].value)
    } else {
        stored_under(entries.drop_first(), key)
    }
}

/// What a dictionary holds under the text `key`: what is stored there, with
/// one variant wrapper taken off.
pub open spec fn lookup(entries: Seq<DictEntry>, key: Seq<char>) -> Option<BusValue> {
    match stored_under(entries, key) {
        Some(value) => Some(value.spec_unwrapped()),
        None => None,
    }
}

/// A dictionary in which no entry is filed under `key` stores nothing there.
pub proof fn lemma_stored_absent(entries: Seq<DictEntry>, key: Seq<char>)
    requires
        forall|i: int| 0 <= i < entries.len() ==> !has_key(#[trigger] entries[i], key),
    ensures
        stored_under(entries, key) is None,
    decreases entries.len(),
{
    if entries.len() > 0 {
        let rest = entries.drop_first();
        assert forall|i: int| 0 <= i < rest.len() implies !has_key(#[trigger] rest[i], key) by {
            assert(rest[i] == entries[i + 1]);
        }
        lemma_stored_absent(rest, key);
    }
}

/// A dictionary stores under `key` what its first entry filed there holds.
pub proof fn lemma_stored_first(entries: Seq<DictEntry>, key: Seq<char>, at: int)
    requires
        0 <= at < entries.len(),
        has_key(entries[at], key),
        forall|i: int| 0 <= i < at ==> !has_key(#[trigger] entries[i], key),
    ensures
        stored_under(entries, key) == Some(entries[at].value),
    decreases at,
{
    if at > 0 {
        let rest = entries.drop_first();
        assert(rest[at - 1] == entries[at]);
        assert forall|i: int| 0 <= i < at - 1 implies !has_key(#[trigger] rest[i], key) by {
            assert(rest[i] == entries[i + 1]);
        }
        lemma_stored_first(rest, key, at - 1);
    }
}

/// Finds what is stored under `key` in a dictionary.
pub fn dict_find<'a>(entries: &'a Vec<DictEntry>, key: &str) -> (found: Option<&'a BusValue>)
    ensures
        match found {
            Some(value) => stored_under(entries@, key@) == Some(*value),
            None => stored_under(entries@, key@) is None,
        },
{
    let mut i: usize = 0;
    while i < entries.len()
        invariant
            i <= entries@.len(),
            forall|j: int| 0 <= j < i ==> !has_key(#[trigger] entries@[j], key@),
        decreases entries@.len() - i,
    {
        let hit = match &entries[i].key {
            BusValue::Str(text) => same_text(text.as_str(), key),
            _ => false,
        };
        if hit {
            proof {
                lemma_stored_first(entries@, key@, i as int);
            }
            return Some(&entries[i].value);
        }
        i += 1;
    }
    proof {
        lemma_stored_absent(entries@, key@);
    }
    None
}

/// Looks `key` up in a dictionary: what is stored under it, with one variant
/// wrapper taken off.
pub fn dict_get<'a>(entries: &'a Vec<DictEntry>, key: &str) -> (found: Option<&'a BusValue>)
    ensures
        match found {
            Some(value) => lookup(entries@, key@) == Some(*value),
            None => lookup(entries@, key@) is None,
        },
{
    match dict_find(entries, key) {
        Some(value) => Some(value.unwrapped()),
        None => None,
    }
}

} // verus!
