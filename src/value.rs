use vstd::prelude::*;
use vstd::bytes::*;
use vstd::slice::*;
use vstd::string::*;
use vstd::utf8::*;

use crate::error::DataError;

verus! {

/// The logical type of a stored value; its tag is the first byte of the encoding.
#[derive(Debug, Clone, Copy, PartialEq, Eq, Structural)]
pub enum Type {
    Bool,
    U64,
    I64,
    F64,
    Instant,
    Str,
    Json,
    Blob,
}

impl Type {
    pub open spec fn spec_tag(self) -> u8 {
        match self {
            Type::Bool => 1,
            Type::U64 => 2,
            Type::I64 => 3,
            Type::F64 => 4,
            Type::Instant => 5,
            Type::Str => 7,
            Type::Json => 8,
            Type::Blob => 9,
        }
    }

    pub open spec fn spec_from_tag(tag: u8) -> Option<Type> {
        if tag == 1 {
            Some(Type::Bool)
        } else if tag == 2 {
            Some(Type::U64)
        } else if tag == 3 {
            Some(Type::I64)
        } else if tag == 4 {
            Some(Type::F64)
        } else if tag == 5 {
            Some(Type::Instant)
        } else if tag == 7 {
            Some(Type::Str)
        } else if tag == 8 {
            Some(Type::Json)
        } else if tag == 9 {
            Some(Type::Blob)
        } else {
            None
        }
    }

    /// The tag byte of this type.
    pub fn to_tag(self) -> (r: u8)
        ensures
            r == self.spec_tag(),
            Type::spec_from_tag(r) == Some(self),
    {
        match self {
            Type::Bool => 1,
            Type::U64 => 2,
            Type::I64 => 3,
            Type::F64 => 4,
            Type::Instant => 5,
            Type::Str => 7,
            Type::Json => 8,
            Type::Blob => 9,
        }
    }

    /// The type that a tag byte names, if any.
    pub fn from_tag(tag: u8) -> (r: Option<Type>)
        ensures
            r == Type::spec_from_tag(tag),
            r matches Some(t) ==> t.spec_tag() == tag,
    {
        match tag {
            1 => Some(Type::Bool),
            2 => Some(Type::U64),
            3 => Some(Type::I64),
            4 => Some(Type::F64),
            5 => Some(Type::Instant),
            7 => Some(Type::Str),
            8 => Some(Type::Json),
            9 => Some(Type::Blob),
            _ => None,
        }
    }
}

/// A value that a store holds.
///
/// `F64` carries the IEEE-754 bit pattern of a double, and `Instant` a UTC
/// timestamp in milliseconds since the epoch.
#[derive(Debug, Clone, PartialEq, Eq)]
pub enum Value {
    Bool(bool),
    U64(u64),
    I64(i64),
    F64(u64),
    Instant(i64),
    Str(String),
    Json(String),
    Blob(Vec<u8>),
}

/// The mathematical content of a `Value`.
pub enum ValueModel {
    Bool(bool),
    U64(u64),
    I64(i64),
    F64(u64),
    Instant(i64),
    Str(Seq<char>),
    Json(Seq<char>),
    Blob(Seq<u8>),
}

impl View for Value {
    type V = ValueModel;

    open spec fn view(&self) -> ValueModel {
        match self {
            Value::Bool(b) => ValueModel::Bool(*b),
            Value::U64(n) => ValueModel::U64(*n),
            Value::I64(n) => ValueModel::I64(*n),
            Value::F64(bits) => ValueModel::F64(*bits),
            Value::Instant(t) => ValueModel::Instant(*t),
            Value::Str(s) => ValueModel::Str(s@),
            Value::Json(s) => ValueModel::Json(s@),
            Value::Blob(b) => ValueModel::Blob(b@),
        }
    }
}

impl ValueModel {
    pub open spec fn value_type(self) -> Type {
        match self {
            ValueModel::Bool(_) => Type::Bool,
            ValueModel::U64(_) => Type::U64,
            ValueModel::I64(_) => Type::I64,
            ValueModel::F64(_) => Type::F64,
            ValueModel::Instant(_) => Type::Instant,
            ValueModel::Str(_) => Type::Str,
            ValueModel::Json(_) => Type::Json,
            ValueModel::Blob(_) => Type::Blob,
        }
    }

    /// A value whose variable-length body has a length that the 64-bit prefix can hold.
    pub open spec fn wf(self) -> bool {
        match self {
            ValueModel::Str(s) => encode_utf8(s).len() <= u64::MAX,
            ValueModel::Json(s) => encode_utf8(s).len() <= u64::MAX,
            ValueModel::Blob(b) => b.len() <= u64::MAX,
            _ => true,
        }
    }
}

/// A body preceded by its length as eight little-endian bytes.
pub open spec fn len_prefixed(body: Seq<u8>) -> Seq<u8> {
    spec_u64_to_le_bytes(body.len() as u64) + body
}

/// What follows the tag byte in the encoding of `v`.
pub open spec fn payload_of(v: ValueModel) -> Seq<u8> {
    match v {
        ValueModel::Bool(b) => seq![if b { 1u8 } else { 0u8 }],
        ValueModel::U64(n) => spec_u64_to_le_bytes(n),
        ValueModel::I64(n) => spec_u64_to_le_bytes(n as u64),
        ValueModel::F64(bits) => spec_u64_to_le_bytes(bits),
        ValueModel::Instant(t) => spec_u64_to_le_bytes(t as u64),
        ValueModel::Str(s) => len_prefixed(encode_utf8(s)),
        ValueModel::Json(s) => len_prefixed(encode_utf8(s)),
        ValueModel::Blob(b) => len_prefixed(b),
    }
}

/// The stored form of `v`: its type tag, then its payload.
pub open spec fn encoding_of(v: ValueModel) -> Seq<u8> {
    seq![v.value_type().spec_tag()] + payload_of(v)
}

/// The body of a length-prefixed payload, when the prefix matches the rest exactly.
pub open spec fn body_of(p: Seq<u8>) -> Option<Seq<u8>> {
    if p.len() >= 8 && spec_u64_from_le_bytes(p.subrange(0, 8)) as int == p.len() - 8 {
        Some(p.subrange(8, p.len() as int))
    } else {
        None
    }
}

/// The value of type `t` whose payload is `p`, if `p` is well formed.
pub open spec fn parse_payload(t: Type, p: Seq<u8>) -> Option<ValueModel> {
    match t {
        Type::Bool => if p.len() == 1 && p[0] <= 1 {
            Some(ValueModel::Bool(p[0] == 1))
        } else {
            None
        },
        Type::U64 => if p.len() == 8 {
            Some(ValueModel::U64(spec_u64_from_le_bytes(p)))
        } else {
            None
        },
        Type::I64 => if p.len() == 8 {
            Some(ValueModel::I64(spec_u64_from_le_bytes(p) as i64))
        } else {
            None
        },
        Type::F64 => if p.len() == 8 {
            Some(ValueModel::F64(spec_u64_from_le_bytes(p)))
        } else {
            None
        },
        Type::Instant => if p.len() == 8 {
            Some(ValueModel::Instant(spec_u64_from_le_bytes(p) as i64))
        } else {
            None
        },
        Type::Str => match body_of(p) {
            Some(b) => if valid_utf8(b) {
                Some(ValueModel::Str(decode_utf8(b)))
            } else {
                None
            },
            None => None,
        },
        Type::Json => match body_of(p) {
            Some(b) => if valid_utf8(b) {
                Some(ValueModel::Json(decode_utf8(b)))
            } else {
                None
            },
            None => None,
        },
        Type::Blob => match body_of(p) {
            Some(b) => Some(ValueModel::Blob(b)),
            None => None,
        },
    }
}

/// The value that the byte string `b` encodes, if it is a well-formed encoding.
pub open spec fn parse_value(b: Seq<u8>) -> Option<ValueModel> {
    if b.len() == 0 {
        None
    } else {
        match Type::spec_from_tag(b[0]) {
            Some(t) => parse_payload(t, b.drop_first()),
            None => None,
        }
    }
}

/// What `decode` reports for `b`: the value, or which error applies.
pub open spec fn decode_outcome_ok(b: Seq<u8>, r: Result<Value, DataError>) -> bool {
    match r {
        Ok(v) => parse_value(b) == Some(v@),
        Err(DataError::Empty) => b.len() == 0,
        Err(DataError::UnknownType { tag, bytes }) => b.len() > 0 && tag == b[0] && Type::spec_from_tag(tag) is None
            && bytes@ == b,
        Err(DataError::DecodingError { value_type, bytes }) => {
            &&& b.len() > 0
            &&& Type::spec_from_tag(b[0]) == Some(value_type)
            &&& parse_value(b) is None
            &&& bytes@ == b
        },
        Err(DataError::UnexpectedType { .. }) => false,
    }
}

/// The known type that the tag of `b` names, when it is not `expected`.
pub open spec fn other_tag(b: Seq<u8>, expected: Type) -> Option<Type> {
    if b.len() > 0 {
        match Type::spec_from_tag(b[0]) {
            Some(actual) => if actual != expected {
                Some(actual)
            } else {
                None
            },
            None => None,
        }
    } else {
        None
    }
}

/// Relies on `String::from_utf8`: it accepts exactly the well-formed UTF-8
/// byte strings and keeps the characters they encode.
#[verifier::external_body]
fn string_from_utf8(bytes: Vec<u8>) -> (r: Option<String>)
    ensures
        r is Some <==> valid_utf8(bytes@),
        r matches Some(s) ==> s@ == decode_utf8(bytes@),
{
    String::from_utf8(bytes).ok()
}

fn append_bytes(out: &mut Vec<u8>, src: &[u8])
    ensures
        final(out)@ == old(out)@ + src@,
{
    let mut i: usize = 0;
    while i < src.len()
        invariant
            0 <= i <= src@.len(),
            out@ == old(out)@ + src@.subrange(0, i as int),
        decreases src@.len() - i,
    {
        out.push(src[i]);
        i = i + 1;
        assert(out@ =~= old(out)@ + src@.subrange(0, i as int));
    }
    assert(src@.subrange(0, src@.len() as int) =~= src@);
}

fn append_prefixed(out: &mut Vec<u8>, body: &[u8])
    ensures
        final(out)@ == old(out)@ + len_prefixed(body@),
{
    let prefix = u64_to_le_bytes(body.len() as u64);
    append_bytes(out, prefix.as_slice());
    append_bytes(out, body);
    assert(final(out)@ =~= old(out)@ + len_prefixed(body@));
}

/// Encodes a value as its type tag followed by its payload.
pub fn encode(v: &Value) -> (r: Vec<u8>)
    ensures
        r@ == encoding_of(v@),
{
    let mut out: Vec<u8> = Vec::new();
    match v {
        Value::Bool(b) => {
            out.push(1u8);
            out.push(if *b { 1u8 } else { 0u8 });
        },
        Value::U64(n) => {
            out.push(2u8);
            append_bytes(&mut out, u64_to_le_bytes(*n).as_slice());
        },
        Value::I64(n) => {
            out.push(3u8);
            append_bytes(&mut out, u64_to_le_bytes(*n as u64).as_slice());
        },
        Value::F64(bits) => {
            out.push(4u8);
            append_bytes(&mut out, u64_to_le_bytes(*bits).as_slice());
        },
        Value::Instant(t) => {
            out.push(5u8);
            append_bytes(&mut out, u64_to_le_bytes(*t as u64).as_slice());
        },
        Value::Str(s) => {
            out.push(7u8);
            append_prefixed(&mut out, s.as_str().as_bytes());
        },
        Value::Json(s) => {
            out.push(8u8);
            append_prefixed(&mut out, s.as_str().as_bytes());
        },
        Value::Blob(b) => {
            out.push(9u8);
            append_prefixed(&mut out, b.as_slice());
        },
    }
    assert(out@ =~= encoding_of(v@));
    out
}

/// The body of the length-prefixed payload starting at index 1 of `bytes`.
fn prefixed_body(bytes: &[u8]) -> (r: Option<Vec<u8>>)
    requires
        bytes@.len() >= 1,
    ensures
        r matches Some(b) ==> body_of(bytes@.drop_first()) == Some(b@),
        r is None ==> body_of(bytes@.drop_first()) is None,
{
    let ghost p = bytes@.drop_first();
    if bytes.len() < 9 {
        return None;
    }
    let n = u64_from_le_bytes(slice_subrange(bytes, 1, 9));
    assert(bytes@.subrange(1, 9) =~= p.subrange(0, 8));
    if n != (bytes.len() - 9) as u64 {
        return None;
    }
    let body = slice_to_vec(slice_subrange(bytes, 9, bytes.len()));
    assert(body@ =~= p.subrange(8, p.len() as int));
    Some(body)
}

/// Reads the eight payload bytes of a fixed-width value.
fn fixed_payload(bytes: &[u8]) -> (r: Option<u64>)
    requires
        bytes@.len() >= 1,
    ensures
        r matches Some(n) ==> bytes@.len() == 9 && n == spec_u64_from_le_bytes(bytes@.drop_first()),
        r is None ==> bytes@.len() != 9,
{
    if bytes.len() != 9 {
        return None;
    }
    let n = u64_from_le_bytes(slice_subrange(bytes, 1, 9));
    assert(bytes@.subrange(1, 9) =~= bytes@.drop_first());
    Some(n)
}

/// Decodes the payload of a value whose tag names `t`.
fn decode_payload(t: Type, bytes: &[u8]) -> (r: Option<Value>)
    requires
        bytes@.len() >= 1,
    ensures
        r matches Some(v) ==> parse_payload(t, bytes@.drop_first()) == Some(v@),
        r is None ==> parse_payload(t, bytes@.drop_first()) is None,
{
    match t {
        Type::Bool => {
            if bytes.len() == 2 && bytes[1] <= 1 {
                Some(Value::Bool(bytes[1] == 1))
            } else {
                None
            }
        },
        Type::U64 => match fixed_payload(bytes) {
            Some(n) => Some(Value::U64(n)),
            None => None,
        },
        Type::I64 => match fixed_payload(bytes) {
            Some(n) => Some(Value::I64(n as i64)),
            None => None,
        },
        Type::F64 => match fixed_payload(bytes) {
            Some(n) => Some(Value::F64(n)),
            None => None,
        },
        Type::Instant => match fixed_payload(bytes) {
            Some(n) => Some(Value::Instant(n as i64)),
            None => None,
        },
        Type::Str => match prefixed_body(bytes) {
            Some(b) => match string_from_utf8(b) {
                Some(s) => Some(Value::Str(s)),
                None => None,
            },
            None => None,
        },
        Type::Json => match prefixed_body(bytes) {
            Some(b) => match string_from_utf8(b) {
                Some(s) => Some(Value::Json(s)),
                None => None,
            },
            None => None,
        },
        Type::Blob => match prefixed_body(bytes) {
            Some(b) => Some(Value::Blob(b)),
            None => None,
        },
    }
}

/// Decodes a tagged byte string into a value, rejecting empty, unknown-tag,
/// truncated, overlong and otherwise malformed input with an error.
pub fn decode(bytes: &[u8]) -> (r: Result<Value, DataError>)
    ensures
        decode_outcome_ok(bytes@, r),
        r is Ok <==> parse_value(bytes@) is Some,
{
    if bytes.len() == 0 {
        return Err(DataError::Empty);
    }
    match Type::from_tag(bytes[0]) {
        None => Err(DataError::UnknownType { tag: bytes[0], bytes: slice_to_vec(bytes) }),
        Some(t) => match decode_payload(t, bytes) {
            Some(v) => Ok(v),
            None => Err(DataError::DecodingError { value_type: t, bytes: slice_to_vec(bytes) }),
        },
    }
}

/// Decodes a tagged byte string that must hold a value of type `expected`.
///
/// A well-formed value of any other type is refused with `UnexpectedType`
/// rather than reinterpreted.
pub fn decode_expected(expected: Type, bytes: &[u8]) -> (r: Result<Value, DataError>)
    ensures
        other_tag(bytes@, expected) matches Some(actual) ==> r == Err::<Value, DataError>(
            DataError::UnexpectedType { expected, actual },
        ),
        other_tag(bytes@, expected) is None ==> decode_outcome_ok(bytes@, r),
        r matches Ok(v) ==> v@.value_type() == expected,
{
    if bytes.len() > 0 {
        match Type::from_tag(bytes[0]) {
            Some(actual) => {
                if actual != expected {
                    return Err(DataError::UnexpectedType { expected, actual });
                }
            },
            None => {},
        }
    }
    let r = decode(bytes);
    proof {
        if r is Ok {
            lemma_parse_value_type(bytes@);
        }
    }
    r
}

/// A value parsed from bytes has the type that the tag byte names.
proof fn lemma_parse_value_type(b: Seq<u8>)
    requires
        parse_value(b) is Some,
    ensures
        b.len() > 0,
        Type::spec_from_tag(b[0]) == Some(parse_value(b).unwrap().value_type()),
{
}

/// Every value reads back as itself: decoding the encoding of a value gives
/// that value again, with the same type and the same content.
pub proof fn lemma_decode_encode(v: ValueModel)
    requires
        v.wf(),
    ensures
        parse_value(encoding_of(v)) == Some(v),
{
    lemma_auto_spec_u64_to_from_le_bytes();
    let e = encoding_of(v);
    assert(e.drop_first() =~= payload_of(v));
    match v {
        ValueModel::Bool(b) => {},
        ValueModel::U64(n) => {},
        ValueModel::I64(n) => {
            assert((n as u64) as i64 == n) by (bit_vector);
        },
        ValueModel::F64(n) => {},
        ValueModel::Instant(n) => {
            assert((n as u64) as i64 == n) by (bit_vector);
        },
        ValueModel::Str(s) => {
            lemma_body_of_prefixed(encode_utf8(s));
            encode_utf8_valid_utf8(s);
            encode_utf8_decode_utf8(s);
        },
        ValueModel::Json(s) => {
            lemma_body_of_prefixed(encode_utf8(s));
            encode_utf8_valid_utf8(s);
            encode_utf8_decode_utf8(s);
        },
        ValueModel::Blob(b) => {
            lemma_body_of_prefixed(b);
        },
    }
}

proof fn lemma_body_of_prefixed(body: Seq<u8>)
    requires
        body.len() <= u64::MAX,
    ensures
        body_of(len_prefixed(body)) == Some(body),
{
    lemma_auto_spec_u64_to_from_le_bytes();
    let p = len_prefixed(body);
    let prefix = spec_u64_to_le_bytes(body.len() as u64);
    assert(p.subrange(0, 8) =~= prefix);
    assert(p.subrange(8, p.len() as int) =~= body);
}

/// The encoding is canonical: a byte string that decodes to a value is
/// exactly the encoding of that value, so no two byte strings decode alike.
pub proof fn lemma_encode_decode(b: Seq<u8>)
    requires
        parse_value(b) is Some,
    ensures
        parse_value(b).unwrap().wf(),
        encoding_of(parse_value(b).unwrap()) == b,
{
    lemma_auto_spec_u64_to_from_le_bytes();
    let v = parse_value(b).unwrap();
    let p = b.drop_first();
    assert(b =~= seq![b[0]] + p);
    match v {
        ValueModel::Bool(x) => {
            assert(payload_of(v) =~= p);
        },
        ValueModel::U64(n) => {},
        ValueModel::I64(n) => {
            let u = spec_u64_from_le_bytes(p);
            assert((u as i64) as u64 == u) by (bit_vector);
        },
        ValueModel::F64(n) => {},
        ValueModel::Instant(n) => {
            let u = spec_u64_from_le_bytes(p);
            assert((u as i64) as u64 == u) by (bit_vector);
        },
        ValueModel::Str(s) => {
            let body = body_of(p).unwrap();
            decode_utf8_encode_utf8(body);
            lemma_prefixed_of_body(p);
        },
        ValueModel::Json(s) => {
            let body = body_of(p).unwrap();
            decode_utf8_encode_utf8(body);
            lemma_prefixed_of_body(p);
        },
        ValueModel::Blob(body) => {
            lemma_prefixed_of_body(p);
        },
    }
}

proof fn lemma_prefixed_of_body(p: Seq<u8>)
    requires
        body_of(p) is Some,
    ensures
        body_of(p).unwrap().len() <= u64::MAX,
        len_prefixed(body_of(p).unwrap()) == p,
{
    lemma_auto_spec_u64_to_from_le_bytes();
    let body = body_of(p).unwrap();
    let n = spec_u64_from_le_bytes(p.subrange(0, 8));
    assert(body.len() == n);
    assert(spec_u64_to_le_bytes(n) == p.subrange(0, 8));
    assert(len_prefixed(body) =~= p);
}

/// A value written as one type and read through an accessor expecting another
/// is refused as `UnexpectedType`, never coerced: the tag of its encoding
/// names its own type, which `decode_expected` compares first.
pub proof fn lemma_mismatch_refused(v: ValueModel, expected: Type)
    requires
        v.value_type() != expected,
    ensures
        other_tag(encoding_of(v), expected) == Some(v.value_type()),
{
    let e = encoding_of(v);
    assert(e[0] == v.value_type().spec_tag());
    match v.value_type() {
        Type::Bool => {},
        Type::U64 => {},
        Type::I64 => {},
        Type::F64 => {},
        Type::Instant => {},
        Type::Str => {},
        Type::Json => {},
        Type::Blob => {},
    }
}

} // verus!
