//! The codec of messages whose fields are scalars: 64-bit integers, doubles
//! and strings, each either plain (proto3 implicit presence: a zero value is
//! not sent) or optional (sent whenever present). Field `i` of a message
//! (from 0) has field number `i + 1`.

use vstd::prelude::*;
use vstd::utf8::{decode_utf8, encode_utf8, valid_utf8};
use vstd::slice::slice_subrange;
use crate::wire::{
    i64_of_u64, varint_len, lemma_decode_varint_props, lemma_i64_roundtrip, lemma_key_roundtrip,
    lemma_le64_roundtrip, lemma_varint_roundtrip, put_fixed64, put_key, put_varint, read_fixed64,
    skip_field, spec_decode_key, spec_decode_varint, spec_i64_of_u64, spec_key, spec_le_bytes,
    spec_le_value, spec_skip_all, spec_skip_field, lemma_skip_field_mono, spec_u64_of_i64, spec_varint, take_key, take_varint,
    u64_of_i64, WireType, MAX_TAG, RECURSION_LIMIT,
};

verus! {

/// The type of a field.
#[derive(Clone, Copy, Debug, PartialEq, Eq, Structural)]
pub enum Kind {
    Int64,
    OptInt64,
    Double,
    OptDouble,
    Str,
    OptStr,
}

/// The value of a field. A double is held by its IEEE 754 bit pattern.
#[derive(Debug)]
pub enum Scalar {
    Int64(i64),
    OptInt64(Option<i64>),
    Double(u64),
    OptDouble(Option<u64>),
    Str(String),
    OptStr(Option<String>),
}

/// The value of a field, with strings as sequences of characters.
pub enum ScalarValue {
    Int64(i64),
    OptInt64(Option<i64>),
    Double(u64),
    OptDouble(Option<u64>),
    Str(Seq<char>),
    OptStr(Option<Seq<char>>),
}

impl View for Scalar {
    type V = ScalarValue;

    open spec fn view(&self) -> ScalarValue {
        match self {
            Scalar::Int64(i) => ScalarValue::Int64(*i),
            Scalar::OptInt64(o) => ScalarValue::OptInt64(*o),
            Scalar::Double(b) => ScalarValue::Double(*b),
            Scalar::OptDouble(o) => ScalarValue::OptDouble(*o),
            Scalar::Str(s) => ScalarValue::Str(s@),
            Scalar::OptStr(o) => ScalarValue::OptStr(
                match o {
                    Some(s) => Some(s@),
                    None => None,
                },
            ),
        }
    }
}

/// The values of a sequence of fields.
pub open spec fn values_of(v: Seq<Scalar>) -> Seq<ScalarValue> {
    v.map_values(|s: Scalar| s@)
}

/// The type of a field value.
pub open spec fn kind_of(v: ScalarValue) -> Kind {
    match v {
        ScalarValue::Int64(_) => Kind::Int64,
        ScalarValue::OptInt64(_) => Kind::OptInt64,
        ScalarValue::Double(_) => Kind::Double,
        ScalarValue::OptDouble(_) => Kind::OptDouble,
        ScalarValue::Str(_) => Kind::Str,
        ScalarValue::OptStr(_) => Kind::OptStr,
    }
}

/// The values `vals` have the field types `schema`, one for one.
pub open spec fn fits(schema: Seq<Kind>, vals: Seq<ScalarValue>) -> bool {
    &&& vals.len() == schema.len()
    &&& forall|i: int| 0 <= i < vals.len() ==> #[trigger] kind_of(vals[i]) == schema[i]
}

/// The value a field of type `k` has when the message does not carry it.
pub open spec fn default_value(k: Kind) -> ScalarValue {
    match k {
        Kind::Int64 => ScalarValue::Int64(0),
        Kind::OptInt64 => ScalarValue::OptInt64(None),
        Kind::Double => ScalarValue::Double(0),
        Kind::OptDouble => ScalarValue::OptDouble(None),
        Kind::Str => ScalarValue::Str(Seq::empty()),
        Kind::OptStr => ScalarValue::OptStr(None),
    }
}

/// The values of a message none of whose fields is set.
pub open spec fn defaults(schema: Seq<Kind>) -> Seq<ScalarValue> {
    schema.map_values(|k: Kind| default_value(k))
}

/// The bit pattern of negative zero.
pub const NEGATIVE_ZERO_BITS: u64 = 0x8000_0000_0000_0000;

/// The double with bit pattern `b` equals zero (it is `0.0` or `-0.0`).
pub open spec fn is_zero_double(b: u64) -> bool {
    b == 0 || b == NEGATIVE_ZERO_BITS
}

/// A length-delimited field: key, length, then the bytes.
pub open spec fn spec_length_delimited(tag: nat, bytes: Seq<u8>) -> Seq<u8> {
    spec_key(tag, WireType::LengthDelimited) + spec_varint(bytes.len()) + bytes
}

/// The encoding of field number `tag` with value `v`: a plain field equal to
/// zero or the empty string, and an optional field that is absent, take no
/// bytes.
pub open spec fn spec_encode_value(tag: nat, v: ScalarValue) -> Seq<u8> {
    match v {
        ScalarValue::Int64(i) => if i == 0 {
            Seq::empty()
        } else {
            spec_key(tag, WireType::Varint) + spec_varint(spec_u64_of_i64(i) as nat)
        },
        ScalarValue::OptInt64(Some(i)) => spec_key(tag, WireType::Varint) + spec_varint(
            spec_u64_of_i64(i) as nat,
        ),
        ScalarValue::Double(b) => if is_zero_double(b) {
            Seq::empty()
        } else {
            spec_key(tag, WireType::SixtyFourBit) + spec_le_bytes(b as nat, 8)
        },
        ScalarValue::OptDouble(Some(b)) => spec_key(tag, WireType::SixtyFourBit) + spec_le_bytes(
            b as nat,
            8,
        ),
        ScalarValue::Str(s) => if s.len() == 0 {
            Seq::empty()
        } else {
            spec_length_delimited(tag, encode_utf8(s))
        },
        ScalarValue::OptStr(Some(s)) => spec_length_delimited(tag, encode_utf8(s)),
        _ => Seq::empty(),
    }
}

/// The encoding of the fields of `vals` from the `i`-th on, in order.
pub open spec fn spec_encode_from(vals: Seq<ScalarValue>, i: nat) -> Seq<u8>
    decreases vals.len() - i,
{
    if i >= vals.len() {
        Seq::empty()
    } else {
        spec_encode_value(i + 1, vals[i as int]) + spec_encode_from(vals, i + 1)
    }
}

/// The encoding of a message with field values `vals`.
pub open spec fn spec_encode_record(vals: Seq<ScalarValue>) -> Seq<u8> {
    spec_encode_from(vals, 0)
}

/// Appends the length-delimited field `tag` holding `bytes`.
fn put_length_delimited(tag: u32, bytes: &[u8], buf: &mut Vec<u8>)
    requires
        1 <= tag <= MAX_TAG,
    ensures
        final(buf)@ == old(buf)@ + spec_length_delimited(tag as nat, bytes@),
{
    put_key(tag, WireType::LengthDelimited, buf);
    put_varint(bytes.len() as u64, buf);
    let ghost mid = buf@;
    buf.extend_from_slice(bytes);
    assert(buf@ == mid + bytes@);
}

/// Appends the encoding of field number `tag` with value `v`.
pub fn encode_value(tag: u32, v: &Scalar, buf: &mut Vec<u8>)
    requires
        1 <= tag <= MAX_TAG,
    ensures
        final(buf)@ == old(buf)@ + spec_encode_value(tag as nat, v@),
{
    match v {
        Scalar::Int64(i) => {
            if *i != 0 {
                put_key(tag, WireType::Varint, buf);
                put_varint(u64_of_i64(*i), buf);
            } else {
                assert(buf@ == old(buf)@ + Seq::<u8>::empty());
            }
        },
        Scalar::OptInt64(Some(i)) => {
            put_key(tag, WireType::Varint, buf);
            put_varint(u64_of_i64(*i), buf);
        },
        Scalar::Double(b) => {
            if *b != 0 && *b != NEGATIVE_ZERO_BITS {
                put_key(tag, WireType::SixtyFourBit, buf);
                put_fixed64(*b, buf);
            } else {
                assert(buf@ == old(buf)@ + Seq::<u8>::empty());
            }
        },
        Scalar::OptDouble(Some(b)) => {
            put_key(tag, WireType::SixtyFourBit, buf);
            put_fixed64(*b, buf);
        },
        Scalar::Str(s) => {
            let bytes = s.as_str().as_bytes();
            if bytes.len() != 0 {
                put_length_delimited(tag, bytes, buf);
            } else {
                proof {
                    vstd::utf8::encode_utf8_decode_utf8(s@);
                }
                assert(buf@ == old(buf)@ + Seq::<u8>::empty());
            }
        },
        Scalar::OptStr(Some(s)) => {
            put_length_delimited(tag, s.as_str().as_bytes(), buf);
        },
        _ => {
            assert(buf@ == old(buf)@ + Seq::<u8>::empty());
        },
    }
}

/// Appends the encoding of a message with field values `vals`.
pub fn encode_record(vals: &Vec<Scalar>, buf: &mut Vec<u8>)
    requires
        vals@.len() <= MAX_TAG,
    ensures
        final(buf)@ == old(buf)@ + spec_encode_record(values_of(vals@)),
{
    let ghost vs = values_of(vals@);
    let mut i: usize = 0;
    while i < vals.len()
        invariant
            i <= vals@.len() <= MAX_TAG,
            vs == values_of(vals@),
            buf@ + spec_encode_from(vs, i as nat) == old(buf)@ + spec_encode_record(vs),
        decreases vals@.len() - i,
    {
        let ghost before = buf@;
        encode_value((i + 1) as u32, &vals[i], buf);
        assert(buf@ + spec_encode_from(vs, (i + 1) as nat) == before + spec_encode_from(
            vs,
            i as nat,
        ));
        i = i + 1;
    }
    assert(spec_encode_from(vs, i as nat) == Seq::<u8>::empty());
    assert(buf@ + Seq::<u8>::empty() == buf@);
}


/// Bytes that are not the encoding of a message of the expected type.
#[derive(Clone, Copy, Debug, PartialEq, Eq, Structural)]
pub struct WireError;

/// The value of a field of type `kind` read from the start of `s` after a key
/// with wire type `wire_type`, with the number of bytes it takes. An integer
/// is a varint holding its two's complement pattern, a double eight bytes
/// least significant first, a string a length-delimited run of valid UTF-8.
/// A wire type that does not belong to the field type is an error.
pub open spec fn spec_decode_value(kind: Kind, wire_type: WireType, s: Seq<u8>) -> Option<
    (ScalarValue, nat),
> {
    match kind {
        Kind::Int64 | Kind::OptInt64 => if wire_type != WireType::Varint {
            None
        } else {
            match spec_decode_varint(s) {
                Some((v, n)) => {
                    let i = spec_i64_of_u64(v as u64);
                    Some(
                        (
                            if kind == Kind::Int64 {
                                ScalarValue::Int64(i)
                            } else {
                                ScalarValue::OptInt64(Some(i))
                            },
                            n,
                        ),
                    )
                },
                None => None,
            }
        },
        Kind::Double | Kind::OptDouble => if wire_type != WireType::SixtyFourBit || s.len() < 8 {
            None
        } else {
            let b = spec_le_value(s.take(8)) as u64;
            Some(
                (
                    if kind == Kind::Double {
                        ScalarValue::Double(b)
                    } else {
                        ScalarValue::OptDouble(Some(b))
                    },
                    8,
                ),
            )
        },
        Kind::Str | Kind::OptStr => if wire_type != WireType::LengthDelimited {
            None
        } else {
            match spec_decode_varint(s) {
                Some((len, n)) => if len <= s.len() - n && valid_utf8(
                    s.subrange(n as int, (n + len) as int),
                ) {
                    let chars = decode_utf8(s.subrange(n as int, (n + len) as int));
                    Some(
                        (
                            if kind == Kind::Str {
                                ScalarValue::Str(chars)
                            } else {
                                ScalarValue::OptStr(Some(chars))
                            },
                            n + len,
                        ),
                    )
                } else {
                    None
                },
                None => None,
            }
        },
    }
}

/// Reads the fields in `s` into `acc`, a field read later taking the place
/// of one with the same number read earlier. A field whose number the
/// schema does not have is passed over as prost's `skip_field` does with
/// `depth` levels of recursion left.
pub open spec fn spec_decode_fields(
    schema: Seq<Kind>,
    s: Seq<u8>,
    acc: Seq<ScalarValue>,
    depth: nat,
) -> Option<Seq<ScalarValue>>
    decreases s.len(),
{
    if s.len() == 0 {
        Some(acc)
    } else {
        match spec_decode_key(s) {
            Some((tag, wire_type, n)) => {
                let rest = s.skip(n as int);
                let step = if 1 <= tag <= schema.len() {
                    match spec_decode_value(schema[tag - 1], wire_type, rest) {
                        Some((v, m)) => Some((acc.update(tag - 1, v), m)),
                        None => None,
                    }
                } else {
                    match spec_skip_field(wire_type, tag, rest, depth) {
                        Some(m) => Some((acc, m)),
                        None => None,
                    }
                };
                match step {
                    Some((acc2, m)) => if 0 < n + m <= s.len() {
                        spec_decode_fields(schema, s.skip((n + m) as int), acc2, depth)
                    } else {
                        None
                    },
                    None => None,
                }
            },
            None => None,
        }
    }
}

/// The field values of the message of type `schema` that `s` encodes, or
/// `None` where `s` is not such an encoding.
pub open spec fn spec_decode_record(schema: Seq<Kind>, s: Seq<u8>) -> Option<Seq<ScalarValue>> {
    spec_decode_fields(schema, s, defaults(schema), RECURSION_LIMIT as nat)
}

/// The field values of the message of type `schema` that `s` encodes, where
/// `s` is nested one level inside another message (prost passes over its
/// unknown fields with one level of recursion less), or `None`.
pub open spec fn spec_decode_nested(schema: Seq<Kind>, s: Seq<u8>) -> Option<Seq<ScalarValue>> {
    spec_decode_fields(schema, s, defaults(schema), (RECURSION_LIMIT - 1) as nat)
}

/// Calls `core::str::from_utf8`, which gives the string whose UTF-8 encoding
/// is `bytes` where they are valid UTF-8, and fails otherwise.
#[verifier::external_body]
fn utf8_str(bytes: &[u8]) -> (r: Option<&str>)
    ensures
        r is Some <==> valid_utf8(bytes@),
        r matches Some(s) ==> encode_utf8(s@) == bytes@,
{
    core::str::from_utf8(bytes).ok()
}

/// Reads the value of a field of type `kind` after a key with wire type
/// `wire_type`, and gives it with the number of bytes left after it.
pub fn decode_value(kind: Kind, wire_type: WireType, bytes: &[u8]) -> (r: Result<
    (Scalar, usize),
    WireError,
>)
    ensures
        match spec_decode_value(kind, wire_type, bytes@) {
            Some((v, n)) => r matches Ok((x, left)) && x@ == v && left == bytes@.len() - n,
            None => r is Err,
        },
{
    match kind {
        Kind::Int64 | Kind::OptInt64 => {
            if wire_type != WireType::Varint {
                return Err(WireError);
            }
            match take_varint(bytes) {
                Ok((v, left)) => {
                    let i = i64_of_u64(v);
                    if kind == Kind::Int64 {
                        Ok((Scalar::Int64(i), left))
                    } else {
                        Ok((Scalar::OptInt64(Some(i)), left))
                    }
                },
                Err(_) => Err(WireError),
            }
        },
        Kind::Double | Kind::OptDouble => {
            if wire_type != WireType::SixtyFourBit || bytes.len() < 8 {
                return Err(WireError);
            }
            let b = read_fixed64(bytes);
            if kind == Kind::Double {
                Ok((Scalar::Double(b), bytes.len() - 8))
            } else {
                Ok((Scalar::OptDouble(Some(b)), bytes.len() - 8))
            }
        },
        Kind::Str | Kind::OptStr => {
            if wire_type != WireType::LengthDelimited {
                return Err(WireError);
            }
            match take_varint(bytes) {
                Ok((len, left)) => {
                    proof {
                        lemma_decode_varint_props(bytes@);
                    }
                    if len > left as u64 {
                        return Err(WireError);
                    }
                    let start = bytes.len() - left;
                    let end = start + len as usize;
                    let data = slice_subrange(bytes, start, end);
                    match utf8_str(data) {
                        Some(text) => {
                            let owned = text.to_owned();
                            proof {
                                vstd::utf8::encode_utf8_decode_utf8(text@);
                            }
                            if kind == Kind::Str {
                                Ok((Scalar::Str(owned), bytes.len() - end))
                            } else {
                                Ok((Scalar::OptStr(Some(owned)), bytes.len() - end))
                            }
                        },
                        None => Err(WireError),
                    }
                },
                Err(_) => Err(WireError),
            }
        },
    }
}

/// The value of a field of type `k` that the message does not carry.
pub fn default_scalar(k: Kind) -> (r: Scalar)
    ensures
        r@ == default_value(k),
{
    match k {
        Kind::Int64 => Scalar::Int64(0),
        Kind::OptInt64 => Scalar::OptInt64(None),
        Kind::Double => Scalar::Double(0),
        Kind::OptDouble => Scalar::OptDouble(None),
        Kind::Str => Scalar::Str(String::new()),
        Kind::OptStr => Scalar::OptStr(None),
    }
}

/// The field values of a message of type `schema` none of whose fields is set.
pub fn default_scalars(schema: &Vec<Kind>) -> (r: Vec<Scalar>)
    ensures
        r@.len() == schema@.len(),
        values_of(r@) == defaults(schema@),
{
    let mut r: Vec<Scalar> = Vec::new();
    let mut i: usize = 0;
    while i < schema.len()
        invariant
            i <= schema@.len(),
            r@.len() == i,
            values_of(r@) == defaults(schema@).take(i as int),
        decreases schema@.len() - i,
    {
        let x = default_scalar(schema[i]);
        let ghost before = r@;
        r.push(x);
        assert(values_of(r@) =~= values_of(before).push(x@));
        assert(defaults(schema@).take(i + 1) =~= defaults(schema@).take(i as int).push(
            default_value(schema@[i as int]),
        ));
        i = i + 1;
    }
    assert(defaults(schema@).take(i as int) =~= defaults(schema@));
    r
}

/// Decodes the message of type `schema` that `bytes` encode into its field
/// values.
#[verifier::spinoff_prover]
#[verifier::rlimit(40)]
pub fn decode_record(schema: &Vec<Kind>, bytes: &[u8]) -> (r: Result<Vec<Scalar>, WireError>)
    ensures
        match spec_decode_record(schema@, bytes@) {
            Some(vals) => r matches Ok(v) && values_of(v@) == vals,
            None => r is Err,
        },
{
    let mut acc = default_scalars(schema);
    let mut rest: &[u8] = bytes;
    while rest.len() > 0
        invariant
            acc@.len() == schema@.len(),
            spec_decode_fields(schema@, rest@, values_of(acc@), RECURSION_LIMIT as nat)
                == spec_decode_record(
                schema@,
                bytes@,
            ),
        decreases rest@.len(),
    {
        let (tag, wire_type, left) = match take_key(rest) {
            Ok(k) => k,
            Err(_) => return Err(WireError),
        };
        proof {
            lemma_decode_varint_props(rest@);
        }
        let after_key = slice_subrange(rest, rest.len() - left, rest.len());
        assert(after_key@ == rest@.skip((rest@.len() - left) as int));
        if 1 <= tag && (tag as usize) <= schema.len() {
            let (v, left2) = match decode_value(schema[(tag - 1) as usize], wire_type, after_key) {
                Ok(x) => x,
                Err(_) => return Err(WireError),
            };
            let ghost old_acc = acc@;
            acc.set((tag - 1) as usize, v);
            assert(values_of(acc@) == values_of(old_acc).update(tag - 1, v@));
            let next = slice_subrange(after_key, after_key.len() - left2, after_key.len());
            assert(next@ == rest@.skip((rest@.len() - left2) as int));
            rest = next;
        } else {
            let left2 = match skip_field(wire_type, tag, after_key) {
                Ok(l) => l,
                Err(_) => return Err(WireError),
            };
            let next = slice_subrange(after_key, after_key.len() - left2, after_key.len());
            assert(next@ == rest@.skip((rest@.len() - left2) as int));
            rest = next;
        }
    }
    Ok(acc)
}


/// The value a field takes back from its own encoding: a double equal to
/// zero comes back as positive zero (negative zero is not sent).
pub open spec fn normalize(v: ScalarValue) -> ScalarValue {
    match v {
        ScalarValue::Double(b) => if is_zero_double(b) {
            ScalarValue::Double(0)
        } else {
            v
        },
        _ => v,
    }
}

/// `normalize` applied to each value.
pub open spec fn normalized(vals: Seq<ScalarValue>) -> Seq<ScalarValue> {
    vals.map_values(|v: ScalarValue| normalize(v))
}

/// The value fits the machine: a string's UTF-8 encoding is shorter than 2^64 bytes.
pub open spec fn storable(v: ScalarValue) -> bool {
    match v {
        ScalarValue::Str(s) => encode_utf8(s).len() <= u64::MAX,
        ScalarValue::OptStr(Some(s)) => encode_utf8(s).len() <= u64::MAX,
        _ => true,
    }
}

/// Every value fits the machine.
pub open spec fn all_storable(vals: Seq<ScalarValue>) -> bool {
    forall|i: int| 0 <= i < vals.len() ==> #[trigger] storable(vals[i])
}

proof fn lemma_length_delimited_roundtrip(tag: nat, bytes: Seq<u8>, rest: Seq<u8>)
    requires
        1 <= tag <= MAX_TAG,
        bytes.len() <= u64::MAX,
    ensures
        ({
            let s = spec_length_delimited(tag, bytes) + rest;
            let kn = spec_key(tag, WireType::LengthDelimited).len();
            &&& spec_decode_key(s) == Some((tag, WireType::LengthDelimited, kn))
            &&& s.skip(kn as int) == spec_varint(bytes.len()) + bytes + rest
        }),
{
    let key = spec_key(tag, WireType::LengthDelimited);
    let tail = spec_varint(bytes.len()) + bytes + rest;
    assert(spec_length_delimited(tag, bytes) + rest == key + tail);
    lemma_key_roundtrip(tag, WireType::LengthDelimited, tail);
    assert((key + tail).skip(key.len() as int) == tail);
}

proof fn lemma_int_roundtrip(tag: nat, i: i64, rest: Seq<u8>)
    requires
        1 <= tag <= MAX_TAG,
    ensures
        ({
            let e = spec_key(tag, WireType::Varint) + spec_varint(spec_u64_of_i64(i) as nat);
            let s = e + rest;
            let kn = spec_key(tag, WireType::Varint).len();
            &&& spec_decode_key(s) == Some((tag, WireType::Varint, kn))
            &&& 0 < kn < e.len()
            &&& spec_decode_varint(s.skip(kn as int)) == Some(
                (spec_u64_of_i64(i) as nat, (e.len() - kn) as nat),
            )
            &&& spec_i64_of_u64(spec_u64_of_i64(i)) == i
        }),
{
    let u = spec_u64_of_i64(i);
    let key = spec_key(tag, WireType::Varint);
    let tail = spec_varint(u as nat) + rest;
    assert(key + spec_varint(u as nat) + rest == key + tail);
    lemma_key_roundtrip(tag, WireType::Varint, tail);
    assert((key + tail).skip(key.len() as int) == tail);
    lemma_varint_roundtrip(u, rest);
    lemma_i64_roundtrip(i);
    lemma_decode_varint_props(key + tail);
}

proof fn lemma_double_roundtrip(tag: nat, b: u64, rest: Seq<u8>)
    requires
        1 <= tag <= MAX_TAG,
    ensures
        ({
            let e = spec_key(tag, WireType::SixtyFourBit) + spec_le_bytes(b as nat, 8);
            let s = e + rest;
            let kn = spec_key(tag, WireType::SixtyFourBit).len();
            &&& spec_decode_key(s) == Some((tag, WireType::SixtyFourBit, kn))
            &&& 0 < kn
            &&& e.len() == kn + 8
            &&& s.skip(kn as int).len() >= 8
            &&& spec_le_value(s.skip(kn as int).take(8)) == b
        }),
{
    let key = spec_key(tag, WireType::SixtyFourBit);
    let tail = spec_le_bytes(b as nat, 8) + rest;
    assert(key + spec_le_bytes(b as nat, 8) + rest == key + tail);
    lemma_key_roundtrip(tag, WireType::SixtyFourBit, tail);
    assert((key + tail).skip(key.len() as int) == tail);
    lemma_le64_roundtrip(b);
    assert(tail.take(8) == spec_le_bytes(b as nat, 8));
    lemma_decode_varint_props(key + tail);
}

/// One field: an empty encoding means the value is its type's default;
/// otherwise the key and the value read back from the encoding, whatever
/// follows it.
#[verifier::spinoff_prover]
proof fn lemma_value_roundtrip(tag: nat, v: ScalarValue, rest: Seq<u8>)
    requires
        1 <= tag <= MAX_TAG,
        storable(v),
    ensures
        spec_encode_value(tag, v).len() == 0 ==> normalize(v) == default_value(kind_of(v)),
        spec_encode_value(tag, v).len() > 0 ==> ({
            let s = spec_encode_value(tag, v) + rest;
            match spec_decode_key(s) {
                Some((t, w, kn)) => t == tag && 0 < kn && kn <= spec_encode_value(tag, v).len()
                    && spec_decode_value(kind_of(v), w, s.skip(kn as int)) == Some(
                    (normalize(v), (spec_encode_value(tag, v).len() - kn) as nat),
                ),
                None => false,
            }
        }),
{
    match v {
        ScalarValue::Int64(i) => {
            if i != 0 {
                lemma_int_roundtrip(tag, i, rest);
            }
        },
        ScalarValue::OptInt64(Some(i)) => {
            lemma_int_roundtrip(tag, i, rest);
        },
        ScalarValue::Double(b) => {
            if !is_zero_double(b) {
                lemma_double_roundtrip(tag, b, rest);
            }
        },
        ScalarValue::OptDouble(Some(b)) => {
            lemma_double_roundtrip(tag, b, rest);
        },
        ScalarValue::Str(c) => {
            vstd::utf8::encode_utf8_decode_utf8(c);
            vstd::utf8::encode_utf8_valid_utf8(c);
            if c.len() != 0 {
                let bytes = encode_utf8(c);
                if bytes.len() == 0 {
                    assert(decode_utf8(bytes) == Seq::<char>::empty());
                }
                lemma_length_delimited_parts(tag, bytes, rest);
            }
        },
        ScalarValue::OptStr(Some(c)) => {
            vstd::utf8::encode_utf8_decode_utf8(c);
            vstd::utf8::encode_utf8_valid_utf8(c);
            lemma_length_delimited_parts(tag, encode_utf8(c), rest);
        },
        _ => {},
    }
}

/// The parts of a length-delimited field read back from its encoding:
/// the key, the length, then the bytes, whatever follows.
#[verifier::spinoff_prover]
pub proof fn lemma_length_delimited_parts(tag: nat, bytes: Seq<u8>, rest: Seq<u8>)
    requires
        1 <= tag <= MAX_TAG,
        bytes.len() <= u64::MAX,
    ensures
        ({
            let s = spec_length_delimited(tag, bytes) + rest;
            let kn = spec_key(tag, WireType::LengthDelimited).len();
            let vn = spec_varint(bytes.len()).len();
            &&& spec_decode_key(s) == Some((tag, WireType::LengthDelimited, kn))
            &&& 0 < kn
            &&& spec_length_delimited(tag, bytes).len() == kn + vn + bytes.len()
            &&& spec_decode_varint(s.skip(kn as int)) == Some((bytes.len(), vn))
            &&& s.skip(kn as int).len() - vn >= bytes.len()
            &&& s.skip(kn as int).subrange(vn as int, (vn + bytes.len()) as int) == bytes
        }),
{
    lemma_length_delimited_roundtrip(tag, bytes, rest);
    let s = spec_length_delimited(tag, bytes) + rest;
    let kn = spec_key(tag, WireType::LengthDelimited).len();
    lemma_decode_varint_props(s);
    let vs = spec_varint(bytes.len());
    lemma_varint_roundtrip(bytes.len() as u64, bytes + rest);
    assert(vs + bytes + rest == vs + (bytes + rest));
    assert((vs + bytes + rest).subrange(vs.len() as int, (vs.len() + bytes.len()) as int) == bytes);
}

/// The field is carried by the encoding: a plain field that is not zero or
/// the empty string, or an optional field that is present.
pub open spec fn is_sent(v: ScalarValue) -> bool {
    match v {
        ScalarValue::Int64(i) => i != 0,
        ScalarValue::OptInt64(o) => o is Some,
        ScalarValue::Double(b) => !is_zero_double(b),
        ScalarValue::OptDouble(o) => o is Some,
        ScalarValue::Str(c) => c.len() > 0,
        ScalarValue::OptStr(o) => o is Some,
    }
}

/// The values `acc` after reading the fields of `vals` from the `i`-th on:
/// each field the encoding carries takes the place of the old value.
pub open spec fn overlay_from(acc: Seq<ScalarValue>, vals: Seq<ScalarValue>, i: nat) -> Seq<
    ScalarValue,
> {
    Seq::new(
        acc.len(),
        |j: int|
            if i <= j < vals.len() && is_sent(vals[j]) {
                normalize(vals[j])
            } else {
                acc[j]
            },
    )
}

/// The values of message `old` after merging message `new` into it: each
/// field that the encoding of `new` carries replaces the field of `old`.
pub open spec fn spec_merge_values(old: Seq<ScalarValue>, new: Seq<ScalarValue>) -> Seq<
    ScalarValue,
> {
    overlay_from(old, new, 0)
}

proof fn lemma_sent_iff_encoded(tag: nat, v: ScalarValue)
    requires
        1 <= tag <= MAX_TAG,
    ensures
        spec_encode_value(tag, v).len() > 0 <==> is_sent(v),
        !is_sent(v) ==> normalize(v) == default_value(kind_of(v)),
{
    match v {
        ScalarValue::Str(c) => {
            vstd::utf8::encode_utf8_decode_utf8(c);
            if c.len() > 0 {
                assert(spec_encode_value(tag, v) == spec_length_delimited(tag, encode_utf8(c)));
                assert(spec_key(tag, WireType::LengthDelimited).len() > 0) by {
                    lemma_key_roundtrip(tag, WireType::LengthDelimited, Seq::empty());
                    lemma_decode_varint_props(spec_key(tag, WireType::LengthDelimited));
                }
            }
        },
        ScalarValue::Int64(i) => {
            if i != 0 {
                lemma_int_roundtrip(tag, i, Seq::empty());
            }
        },
        ScalarValue::OptInt64(Some(i)) => {
            lemma_int_roundtrip(tag, i, Seq::empty());
        },
        ScalarValue::Double(b) => {
            if !is_zero_double(b) {
                lemma_double_roundtrip(tag, b, Seq::empty());
            }
        },
        ScalarValue::OptDouble(Some(b)) => {
            lemma_double_roundtrip(tag, b, Seq::empty());
        },
        ScalarValue::OptStr(Some(c)) => {
            assert(spec_key(tag, WireType::LengthDelimited).len() > 0) by {
                lemma_key_roundtrip(tag, WireType::LengthDelimited, Seq::empty());
                lemma_decode_varint_props(spec_key(tag, WireType::LengthDelimited));
            }
        },
        _ => {},
    }
}

/// Reading the encoding of the fields of `vals` from the `i`-th on, then
/// whatever follows, is reading what follows after overlaying those fields.
#[verifier::spinoff_prover]
#[verifier::rlimit(40)]
proof fn lemma_fields_overlay(
    schema: Seq<Kind>,
    vals: Seq<ScalarValue>,
    i: nat,
    acc: Seq<ScalarValue>,
    rest: Seq<u8>,
    depth: nat,
)
    requires
        fits(schema, vals),
        fits(schema, acc),
        all_storable(vals),
        vals.len() <= MAX_TAG,
        i <= vals.len(),
    ensures
        spec_decode_fields(schema, spec_encode_from(vals, i) + rest, acc, depth)
            == spec_decode_fields(schema, rest, overlay_from(acc, vals, i), depth),
    decreases vals.len() - i,
{
    if i == vals.len() {
        assert(spec_encode_from(vals, i) + rest =~= rest);
        assert(overlay_from(acc, vals, i) =~= acc);
    } else {
        let v = vals[i as int];
        let e = spec_encode_value(i + 1, v);
        let tail = spec_encode_from(vals, i + 1) + rest;
        assert(spec_encode_from(vals, i) + rest =~= e + tail);
        assert(kind_of(v) == schema[i as int]);
        assert(storable(v));
        lemma_value_roundtrip(i + 1, v, tail);
        lemma_sent_iff_encoded(i + 1, v);
        if e.len() == 0 {
            assert(e + tail =~= tail);
            lemma_fields_overlay(schema, vals, i + 1, acc, rest, depth);
            assert(overlay_from(acc, vals, i) =~= overlay_from(acc, vals, i + 1));
        } else {
            let acc2 = acc.update(i as int, normalize(v));
            assert(fits(schema, acc2));
            let s = e + tail;
            let (t, w, kn) = spec_decode_key(s).unwrap();
            assert(s.skip(kn as int).skip((e.len() - kn) as int) =~= tail);
            assert(s.skip(e.len() as int) =~= tail);
            lemma_fields_overlay(schema, vals, i + 1, acc2, rest, depth);
            assert(overlay_from(acc2, vals, i + 1) =~= overlay_from(acc, vals, i));
        }
    }
}

/// Decoding the encoding of a message, with any recursion budget, gives its
/// field values back, a double equal to zero as positive zero.
pub proof fn lemma_fields_roundtrip(schema: Seq<Kind>, vals: Seq<ScalarValue>, depth: nat)
    requires
        fits(schema, vals),
        all_storable(vals),
        vals.len() <= MAX_TAG,
    ensures
        spec_decode_fields(schema, spec_encode_record(vals), defaults(schema), depth) == Some(
            normalized(vals),
        ),
{
    assert(fits(schema, defaults(schema)));
    lemma_fields_overlay(schema, vals, 0, defaults(schema), Seq::empty(), depth);
    assert(spec_encode_record(vals) + Seq::<u8>::empty() =~= spec_encode_record(vals));
    assert forall|j: int| 0 <= j < vals.len() implies #[trigger] overlay_from(
        defaults(schema),
        vals,
        0,
    )[j] == normalized(vals)[j] by {
        assert(kind_of(vals[j]) == schema[j]);
        lemma_sent_iff_encoded(1, vals[j]);
    }
    assert(overlay_from(defaults(schema), vals, 0) =~= normalized(vals));
}

/// Decoding the encoding of a message gives its field values back, a double
/// equal to zero as positive zero.
pub proof fn lemma_record_roundtrip(schema: Seq<Kind>, vals: Seq<ScalarValue>)
    requires
        fits(schema, vals),
        all_storable(vals),
        vals.len() <= MAX_TAG,
    ensures
        spec_decode_record(schema, spec_encode_record(vals)) == Some(normalized(vals)),
{
    lemma_fields_roundtrip(schema, vals, RECURSION_LIMIT as nat);
}

/// Decoding two encodings one after the other merges the second message
/// into the first: each field the second carries replaces the first's.
pub proof fn lemma_record_concat(schema: Seq<Kind>, a: Seq<ScalarValue>, b: Seq<ScalarValue>)
    requires
        fits(schema, a),
        fits(schema, b),
        all_storable(a),
        all_storable(b),
        schema.len() <= MAX_TAG,
    ensures
        spec_decode_record(schema, spec_encode_record(a) + spec_encode_record(b)) == Some(
            spec_merge_values(normalized(a), b),
        ),
{
    let d = RECURSION_LIMIT as nat;
    assert(fits(schema, defaults(schema)));
    lemma_fields_overlay(schema, a, 0, defaults(schema), spec_encode_record(b), d);
    lemma_record_roundtrip(schema, a);
    lemma_fields_overlay(schema, a, 0, defaults(schema), Seq::empty(), d);
    assert(spec_encode_record(a) + Seq::<u8>::empty() =~= spec_encode_record(a));
    assert(overlay_from(defaults(schema), a, 0) == normalized(a));
    assert(fits(schema, normalized(a)));
    lemma_fields_overlay(schema, b, 0, normalized(a), Seq::empty(), d);
    assert(spec_encode_record(b) + Seq::<u8>::empty() =~= spec_encode_record(b));
}

/// The decoded values keep the field types of the schema.
pub proof fn lemma_decode_fields_fits(
    schema: Seq<Kind>,
    s: Seq<u8>,
    acc: Seq<ScalarValue>,
    depth: nat,
)
    requires
        fits(schema, acc),
    ensures
        spec_decode_fields(schema, s, acc, depth) matches Some(vals) ==> fits(schema, vals),
    decreases s.len(),
{
    if s.len() > 0 {
        if let Some((tag, wire_type, n)) = spec_decode_key(s) {
            let rest = s.skip(n as int);
            if 1 <= tag <= schema.len() {
                if let Some((v, m)) = spec_decode_value(schema[tag - 1], wire_type, rest) {
                    if 0 < n + m <= s.len() {
                        assert(fits(schema, acc.update(tag - 1, v)));
                        lemma_decode_fields_fits(
                            schema,
                            s.skip((n + m) as int),
                            acc.update(tag - 1, v),
                            depth,
                        );
                    }
                }
            } else {
                if let Some(m) = spec_skip_field(wire_type, tag, rest, depth) {
                    if 0 < n + m <= s.len() {
                        lemma_decode_fields_fits(schema, s.skip((n + m) as int), acc, depth);
                    }
                }
            }
        }
    }
}

/// The values of a decoded message have the field types of its schema.
pub proof fn lemma_decode_record_fits(schema: Seq<Kind>, s: Seq<u8>)
    ensures
        spec_decode_record(schema, s) matches Some(vals) ==> fits(schema, vals),
{
    assert(fits(schema, defaults(schema)));
    lemma_decode_fields_fits(schema, s, defaults(schema), RECURSION_LIMIT as nat);
}

/// A field value that can be read is passed over by `skip_field` in the
/// same number of bytes, whatever recursion budget is left.
proof fn lemma_value_skips(kind: Kind, wire_type: WireType, tag: nat, s: Seq<u8>, depth: nat)
    requires
        depth > 0,
        spec_decode_value(kind, wire_type, s) is Some,
    ensures
        spec_skip_field(wire_type, tag, s, depth) == Some(
            spec_decode_value(kind, wire_type, s).unwrap().1,
        ),
{
}

/// Reading the fields of `s` with a recursion budget `d` fails where passing
/// over them with that budget fails, and otherwise reads what any larger
/// budget `d2` reads: the budget matters only to unknown fields.
pub proof fn lemma_fields_budget(
    schema: Seq<Kind>,
    s: Seq<u8>,
    acc: Seq<ScalarValue>,
    d: nat,
    d2: nat,
)
    requires
        0 < d <= d2,
    ensures
        spec_decode_fields(schema, s, acc, d) == if spec_skip_all(s, d) {
            spec_decode_fields(schema, s, acc, d2)
        } else {
            None
        },
    decreases s.len(),
{
    if s.len() > 0 {
        if let Some((tag, wire_type, n)) = spec_decode_key(s) {
            let rest = s.skip(n as int);
            if 1 <= tag <= schema.len() {
                if let Some((v, m)) = spec_decode_value(schema[tag - 1], wire_type, rest) {
                    lemma_value_skips(schema[tag - 1], wire_type, tag, rest, d);
                    if 0 < n + m <= s.len() {
                        lemma_fields_budget(schema, s.skip((n + m) as int), acc.update(tag - 1, v), d, d2);
                    }
                }
            } else {
                if let Some(m) = spec_skip_field(wire_type, tag, rest, d) {
                    lemma_skip_field_mono(wire_type, tag, rest, d, d2);
                    if 0 < n + m <= s.len() {
                        lemma_fields_budget(schema, s.skip((n + m) as int), acc, d, d2);
                    }
                }
            }
        }
    }
}

/// The number of bytes the encoding of field number `tag` with value `v` takes.
pub fn encoded_value_len(tag: u32, v: &Scalar) -> (r: usize)
    requires
        1 <= tag <= MAX_TAG,
        spec_encode_value(tag as nat, v@).len() <= usize::MAX,
    ensures
        r == spec_encode_value(tag as nat, v@).len(),
{
    match v {
        Scalar::Int64(i) => {
            if *i != 0 {
                varint_len((tag as u64) * 8) + varint_len(u64_of_i64(*i))
            } else {
                0
            }
        },
        Scalar::OptInt64(Some(i)) => varint_len((tag as u64) * 8) + varint_len(u64_of_i64(*i)),
        Scalar::Double(b) => {
            if *b != 0 && *b != NEGATIVE_ZERO_BITS {
                proof {
                    lemma_le64_roundtrip(*b);
                }
                varint_len((tag as u64) * 8 + 1) + 8
            } else {
                0
            }
        },
        Scalar::OptDouble(Some(b)) => {
            proof {
                lemma_le64_roundtrip(*b);
            }
            varint_len((tag as u64) * 8 + 1) + 8
        },
        Scalar::Str(s) => {
            let n = s.as_str().as_bytes().len();
            if n != 0 {
                varint_len((tag as u64) * 8 + 2) + varint_len(n as u64) + n
            } else {
                proof {
                    vstd::utf8::encode_utf8_decode_utf8(s@);
                }
                0
            }
        },
        Scalar::OptStr(Some(s)) => {
            let n = s.as_str().as_bytes().len();
            varint_len((tag as u64) * 8 + 2) + varint_len(n as u64) + n
        },
        _ => 0,
    }
}

/// The number of bytes the encoding of a message with field values `vals` takes.
pub fn encoded_record_len(vals: &Vec<Scalar>) -> (r: usize)
    requires
        vals@.len() <= MAX_TAG,
        spec_encode_record(values_of(vals@)).len() <= usize::MAX,
    ensures
        r == spec_encode_record(values_of(vals@)).len(),
{
    let ghost vs = values_of(vals@);
    let mut total: usize = 0;
    let mut i: usize = 0;
    while i < vals.len()
        invariant
            i <= vals@.len() <= MAX_TAG,
            vs == values_of(vals@),
            spec_encode_record(vs).len() <= usize::MAX,
            total + spec_encode_from(vs, i as nat).len() == spec_encode_record(vs).len(),
        decreases vals@.len() - i,
    {
        let n = encoded_value_len((i + 1) as u32, &vals[i]);
        total = total + n;
        i = i + 1;
    }
    total
}


/// The characters of an optional string.
pub open spec fn opt_chars(o: Option<String>) -> Option<Seq<char>> {
    match o {
        Some(s) => Some(s@),
        None => None,
    }
}

/// An optional string field holding a copy of `o`.
pub fn opt_str_scalar(o: &Option<String>) -> (r: Scalar)
    ensures
        r@ == ScalarValue::OptStr(opt_chars(*o)),
{
    match o {
        Some(s) => Scalar::OptStr(Some(s.clone())),
        None => Scalar::OptStr(None),
    }
}

/// Removes the last field value, a plain integer, and gives it.
pub fn pop_int64(v: &mut Vec<Scalar>) -> (r: i64)
    requires
        old(v)@.len() > 0,
        kind_of(old(v)@.last()@) == Kind::Int64,
    ensures
        final(v)@ == old(v)@.drop_last(),
        old(v)@.last()@ == ScalarValue::Int64(r),
{
    match v.pop() {
        Some(Scalar::Int64(i)) => i,
        _ => {
            proof {
                assert(false);
            }
            0
        },
    }
}

/// Removes the last field value, an optional integer, and gives it.
pub fn pop_opt_int64(v: &mut Vec<Scalar>) -> (r: Option<i64>)
    requires
        old(v)@.len() > 0,
        kind_of(old(v)@.last()@) == Kind::OptInt64,
    ensures
        final(v)@ == old(v)@.drop_last(),
        old(v)@.last()@ == ScalarValue::OptInt64(r),
{
    match v.pop() {
        Some(Scalar::OptInt64(i)) => i,
        _ => {
            proof {
                assert(false);
            }
            None
        },
    }
}

/// Removes the last field value, a plain double, and gives its bit pattern.
pub fn pop_double(v: &mut Vec<Scalar>) -> (r: u64)
    requires
        old(v)@.len() > 0,
        kind_of(old(v)@.last()@) == Kind::Double,
    ensures
        final(v)@ == old(v)@.drop_last(),
        old(v)@.last()@ == ScalarValue::Double(r),
{
    match v.pop() {
        Some(Scalar::Double(b)) => b,
        _ => {
            proof {
                assert(false);
            }
            0
        },
    }
}

/// Removes the last field value, an optional double, and gives its bit pattern.
pub fn pop_opt_double(v: &mut Vec<Scalar>) -> (r: Option<u64>)
    requires
        old(v)@.len() > 0,
        kind_of(old(v)@.last()@) == Kind::OptDouble,
    ensures
        final(v)@ == old(v)@.drop_last(),
        old(v)@.last()@ == ScalarValue::OptDouble(r),
{
    match v.pop() {
        Some(Scalar::OptDouble(b)) => b,
        _ => {
            proof {
                assert(false);
            }
            None
        },
    }
}

/// Removes the last field value, a plain string, and gives it.
pub fn pop_str(v: &mut Vec<Scalar>) -> (r: String)
    requires
        old(v)@.len() > 0,
        kind_of(old(v)@.last()@) == Kind::Str,
    ensures
        final(v)@ == old(v)@.drop_last(),
        old(v)@.last()@ == ScalarValue::Str(r@),
{
    match v.pop() {
        Some(Scalar::Str(s)) => s,
        _ => {
            proof {
                assert(false);
            }
            String::new()
        },
    }
}

/// Removes the last field value, an optional string, and gives it.
pub fn pop_opt_str(v: &mut Vec<Scalar>) -> (r: Option<String>)
    requires
        old(v)@.len() > 0,
        kind_of(old(v)@.last()@) == Kind::OptStr,
    ensures
        final(v)@ == old(v)@.drop_last(),
        old(v)@.last()@ == ScalarValue::OptStr(opt_chars(r)),
{
    match v.pop() {
        Some(Scalar::OptStr(s)) => s,
        _ => {
            proof {
                assert(false);
            }
            None
        },
    }
}

} // verus!
