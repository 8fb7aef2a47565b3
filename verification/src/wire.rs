//! Protocol Buffers wire primitives: base-128 varints, field keys,
//! little-endian 64-bit words and two's complement conversion.

use vstd::prelude::*;

verus! {

/// The varint encoding of `v`: seven bits per byte, least significant
/// group first, high bit set on every byte but the last.
pub open spec fn spec_varint(v: nat) -> Seq<u8>
    decreases v,
{
    if v < 128 {
        seq![v as u8]
    } else {
        seq![(v % 128 + 128) as u8] + spec_varint(v / 128)
    }
}

/// Reads a varint from `s` whose first `k` bytes have already been read.
/// Gives the value of the remaining groups and the total number of bytes read.
/// A varint has at most ten bytes, and its tenth byte may only be 0 or 1.
pub open spec fn varint_from(s: Seq<u8>, k: nat) -> Option<(nat, nat)>
    decreases 10 - k,
{
    if k >= 10 || k >= s.len() {
        None
    } else if s[k as int] < 128 {
        if k == 9 && s[k as int] >= 2 {
            None
        } else {
            Some((s[k as int] as nat, k + 1))
        }
    } else {
        match varint_from(s, k + 1) {
            Some((v, n)) => Some(((s[k as int] - 128) as nat + 128 * v, n)),
            None => None,
        }
    }
}

/// The value of the varint at the start of `s` and its length in bytes,
/// or `None` where `s` does not start with a valid varint.
pub open spec fn spec_decode_varint(s: Seq<u8>) -> Option<(nat, nat)> {
    varint_from(s, 0)
}

/// `2^(64 - 7k)` for `k <= 9`: the bound on the value of the groups from
/// the `k`-th on.
pub open spec fn group_bound(k: nat) -> nat {
    if k == 0 {
        0x1_0000_0000_0000_0000
    } else if k == 1 {
        0x200_0000_0000_0000
    } else if k == 2 {
        0x4_0000_0000_0000
    } else if k == 3 {
        0x800_0000_0000
    } else if k == 4 {
        0x10_0000_0000
    } else if k == 5 {
        0x2000_0000
    } else if k == 6 {
        0x40_0000
    } else if k == 7 {
        0x8000
    } else if k == 8 {
        0x100
    } else {
        2
    }
}

proof fn lemma_varint_from_props(s: Seq<u8>, k: nat)
    ensures
        varint_from(s, k) matches Some((v, n)) ==> k < n <= 10 && n <= s.len() && v < group_bound(k),
    decreases 10 - k,
{
    if k < 10 && k < s.len() && s[k as int] >= 128 {
        lemma_varint_from_props(s, k + 1);
    }
}

/// A decoded varint fits in 64 bits, takes one to ten bytes, and lies within `s`.
pub proof fn lemma_decode_varint_props(s: Seq<u8>)
    ensures
        spec_decode_varint(s) matches Some((v, n)) ==> 0 < n <= 10 && n <= s.len() && v
            <= u64::MAX,
{
    lemma_varint_from_props(s, 0);
}

/// A varint is read alike from any prefix of `s` that holds it whole.
pub proof fn lemma_decode_varint_prefix(s: Seq<u8>, p: nat)
    requires
        spec_decode_varint(s) matches Some((_, n)) && n <= p <= s.len(),
    ensures
        spec_decode_varint(s.take(p as int)) == spec_decode_varint(s),
{
    lemma_varint_from_prefix(s, p, 0);
}

proof fn lemma_varint_from_prefix(s: Seq<u8>, p: nat, k: nat)
    requires
        varint_from(s, k) matches Some((_, n)) && n <= p <= s.len(),
    ensures
        varint_from(s.take(p as int), k) == varint_from(s, k),
    decreases 10 - k,
{
    lemma_varint_from_props(s, k);
    if s[k as int] >= 128 {
        lemma_varint_from_prefix(s, p, k + 1);
    }
}

proof fn lemma_varint_len(v: nat, k: nat)
    requires
        k <= 9,
        v < group_bound(k),
    ensures
        k + spec_varint(v).len() <= 10,
        spec_varint(v).len() >= 1,
    decreases v,
{
    if v >= 128 {
        lemma_varint_len(v / 128, k + 1);
    }
}

proof fn lemma_varint_from_encoded(v: nat, k: nat, pre: Seq<u8>, rest: Seq<u8>)
    requires
        k <= 9,
        pre.len() == k,
        v < group_bound(k),
    ensures
        varint_from(pre + spec_varint(v) + rest, k) == Some((v, k + spec_varint(v).len())),
    decreases v,
{
    let s = pre + spec_varint(v) + rest;
    assert(s[k as int] == spec_varint(v)[0]);
    if v >= 128 {
        let b = (v % 128 + 128) as u8;
        let pre2 = pre.push(b);
        assert(pre + spec_varint(v) + rest == pre2 + spec_varint(v / 128) + rest);
        lemma_varint_from_encoded(v / 128, k + 1, pre2, rest);
    }
}

/// Decoding the varint encoding of a 64-bit value gives the value back,
/// whatever follows it.
pub proof fn lemma_varint_roundtrip(v: u64, rest: Seq<u8>)
    ensures
        spec_decode_varint(spec_varint(v as nat) + rest) == Some(
            (v as nat, spec_varint(v as nat).len()),
        ),
        1 <= spec_varint(v as nat).len() <= 10,
{
    let pre = Seq::<u8>::empty();
    assert(pre + spec_varint(v as nat) + rest == spec_varint(v as nat) + rest);
    lemma_varint_from_encoded(v as nat, 0, pre, rest);
    lemma_varint_len(v as nat, 0);
}


/// `256^n`.
pub open spec fn pow256(n: nat) -> nat
    decreases n,
{
    if n == 0 {
        1
    } else {
        256 * pow256((n - 1) as nat)
    }
}

/// The `n` low bytes of `v`, least significant first.
pub open spec fn spec_le_bytes(v: nat, n: nat) -> Seq<u8>
    decreases n,
{
    if n == 0 {
        Seq::empty()
    } else {
        seq![(v % 256) as u8] + spec_le_bytes(v / 256, (n - 1) as nat)
    }
}

/// The number whose bytes, least significant first, are `s`.
pub open spec fn spec_le_value(s: Seq<u8>) -> nat
    decreases s.len(),
{
    if s.len() == 0 {
        0
    } else {
        s[0] as nat + 256 * spec_le_value(s.drop_first())
    }
}

proof fn lemma_le_roundtrip_n(v: nat, n: nat)
    requires
        v < pow256(n),
    ensures
        spec_le_bytes(v, n).len() == n,
        spec_le_value(spec_le_bytes(v, n)) == v,
    decreases n,
{
    if n > 0 {
        lemma_le_roundtrip_n(v / 256, (n - 1) as nat);
        let s = spec_le_bytes(v, n);
        assert(s.drop_first() == spec_le_bytes(v / 256, (n - 1) as nat));
    }
}

/// Eight little-endian bytes give back the 64-bit word they encode.
pub proof fn lemma_le64_roundtrip(v: u64)
    ensures
        spec_le_bytes(v as nat, 8).len() == 8,
        spec_le_value(spec_le_bytes(v as nat, 8)) == v,
{
    assert(pow256(8) == 0x1_0000_0000_0000_0000) by {
        reveal_with_fuel(pow256, 9);
    }
    lemma_le_roundtrip_n(v as nat, 8);
}

/// Appends the eight bytes of `v`, least significant first.
pub fn put_fixed64(v: u64, buf: &mut Vec<u8>)
    ensures
        final(buf)@ == old(buf)@ + spec_le_bytes(v as nat, 8),
{
    let mut x: u64 = v;
    let mut i: usize = 0;
    while i < 8
        invariant
            i <= 8,
            buf@ + spec_le_bytes(x as nat, (8 - i) as nat) == old(buf)@ + spec_le_bytes(v as nat, 8),
        decreases 8 - i,
    {
        let ghost before = buf@;
        buf.push((x % 256) as u8);
        assert(spec_le_bytes(x as nat, (8 - i) as nat) == seq![(x % 256) as u8] + spec_le_bytes(
            (x / 256) as nat,
            (8 - i - 1) as nat,
        ));
        assert(buf@ + spec_le_bytes((x / 256) as nat, (8 - i - 1) as nat) == before
            + spec_le_bytes(x as nat, (8 - i) as nat));
        x = x / 256;
        i = i + 1;
    }
    assert(spec_le_bytes(x as nat, 0) == Seq::<u8>::empty());
    assert(buf@ + Seq::<u8>::empty() == buf@);
}

proof fn lemma_le_value_bound(s: Seq<u8>)
    ensures
        spec_le_value(s) < pow256(s.len()),
    decreases s.len(),
{
    if s.len() > 0 {
        lemma_le_value_bound(s.drop_first());
    }
}

/// Reads the 64-bit word whose eight bytes, least significant first, start `bytes`.
pub fn read_fixed64(bytes: &[u8]) -> (r: u64)
    requires
        bytes@.len() >= 8,
    ensures
        r == spec_le_value(bytes@.take(8)),
{
    let mut acc: u64 = 0;
    let mut i: usize = 8;
    while i > 0
        invariant
            i <= 8,
            bytes@.len() >= 8,
            acc == spec_le_value(bytes@.subrange(i as int, 8)),
        decreases i,
    {
        let ghost tail = bytes@.subrange(i as int, 8);
        proof {
            lemma_le_value_bound(tail);
            assert(pow256(7) == 0x100_0000_0000_0000) by {
                reveal_with_fuel(pow256, 8);
            }
            lemma_pow256_mono((8 - i) as nat, 7);
        }
        i = i - 1;
        let ghost s2 = bytes@.subrange(i as int, 8);
        assert(s2.drop_first() == tail);
        acc = bytes[i] as u64 + 256 * acc;
    }
    assert(bytes@.subrange(0, 8) == bytes@.take(8));
    acc
}

proof fn lemma_pow256_mono(a: nat, b: nat)
    requires
        a <= b,
    ensures
        pow256(a) <= pow256(b),
    decreases b,
{
    if a < b {
        lemma_pow256_mono(a, (b - 1) as nat);
    }
}

/// The 64-bit two's complement pattern of `i`.
pub open spec fn spec_u64_of_i64(i: i64) -> u64 {
    if i >= 0 {
        i as u64
    } else {
        (i + 0x1_0000_0000_0000_0000) as u64
    }
}

/// The signed number whose 64-bit two's complement pattern is `u`.
pub open spec fn spec_i64_of_u64(u: u64) -> i64 {
    if u <= i64::MAX {
        u as i64
    } else {
        (u - 0x1_0000_0000_0000_0000) as i64
    }
}

/// A signed number's bit pattern gives the number back.
pub proof fn lemma_i64_roundtrip(i: i64)
    ensures
        spec_i64_of_u64(spec_u64_of_i64(i)) == i,
{
}

/// The two's complement bit pattern of `i`.
pub fn u64_of_i64(i: i64) -> (r: u64)
    ensures
        r == spec_u64_of_i64(i),
{
    assert(i < 0 ==> (i as u64) as int == i + 0x1_0000_0000_0000_0000) by (bit_vector);
    assert(i >= 0 ==> (i as u64) as int == i) by (bit_vector);
    i as u64
}

/// The signed number whose two's complement bit pattern is `u`.
pub fn i64_of_u64(u: u64) -> (r: i64)
    ensures
        r == spec_i64_of_u64(u),
{
    assert(u > 0x7fff_ffff_ffff_ffff ==> (u as i64) as int == u - 0x1_0000_0000_0000_0000)
        by (bit_vector);
    assert(u <= 0x7fff_ffff_ffff_ffff ==> (u as i64) as int == u) by (bit_vector);
    u as i64
}

/// The wire types of Protocol Buffers, by their three-bit code.
#[derive(Clone, Copy, Debug, PartialEq, Eq, Structural)]
pub enum WireType {
    Varint,
    SixtyFourBit,
    LengthDelimited,
    StartGroup,
    EndGroup,
    ThirtyTwoBit,
}

impl WireType {
    /// The three-bit code of the wire type.
    pub open spec fn code(self) -> nat {
        match self {
            WireType::Varint => 0,
            WireType::SixtyFourBit => 1,
            WireType::LengthDelimited => 2,
            WireType::StartGroup => 3,
            WireType::EndGroup => 4,
            WireType::ThirtyTwoBit => 5,
        }
    }

    /// The wire type with code `c`, for `c <= 5`.
    pub open spec fn from_code(c: nat) -> WireType {
        if c == 0 {
            WireType::Varint
        } else if c == 1 {
            WireType::SixtyFourBit
        } else if c == 2 {
            WireType::LengthDelimited
        } else if c == 3 {
            WireType::StartGroup
        } else if c == 4 {
            WireType::EndGroup
        } else {
            WireType::ThirtyTwoBit
        }
    }
}

/// The largest field number.
pub const MAX_TAG: u32 = 0x1fff_ffff;

/// The key of a field: its number and wire type, as a varint.
pub open spec fn spec_key(tag: nat, wire_type: WireType) -> Seq<u8> {
    spec_varint(tag * 8 + wire_type.code())
}

/// The field number, wire type and length of the key at the start of `s`.
/// A key is a varint of at most 32 bits whose low three bits name one of the
/// six wire types and whose field number is not 0.
pub open spec fn spec_decode_key(s: Seq<u8>) -> Option<(nat, WireType, nat)> {
    match spec_decode_varint(s) {
        Some((k, n)) => if k > u32::MAX || k % 8 > 5 || k / 8 == 0 {
            None
        } else {
            Some((k / 8, WireType::from_code(k % 8), n))
        },
        None => None,
    }
}

/// Decoding a key encoding gives its field number and wire type back.
pub proof fn lemma_key_roundtrip(tag: nat, wire_type: WireType, rest: Seq<u8>)
    requires
        1 <= tag <= MAX_TAG,
    ensures
        spec_decode_key(spec_key(tag, wire_type) + rest) == Some(
            (tag, wire_type, spec_key(tag, wire_type).len()),
        ),
{
    let k = tag * 8 + wire_type.code();
    lemma_varint_roundtrip(k as u64, rest);
    assert(k % 8 == wire_type.code());
    assert(k / 8 == tag);
}

/// How many bytes `skip_field` of prost consumes to pass over a field with
/// wire type `wire_type` and number `tag` whose value starts `s`, with
/// `depth` levels of nesting left; `None` where it reports an error.
/// A varint, a 32-bit or a 64-bit word, or a length-delimited run of bytes
/// is passed over; a group is passed over up to the end-group key with its
/// number, its fields one level deeper; a lone end-group key is an error.
pub open spec fn spec_skip_field(wire_type: WireType, tag: nat, s: Seq<u8>, depth: nat) -> Option<
    nat,
>
    decreases s.len(), 1nat,
{
    if depth == 0 {
        None
    } else {
        match wire_type {
            WireType::Varint => match spec_decode_varint(s) {
                Some((_, n)) => Some(n),
                None => None,
            },
            WireType::ThirtyTwoBit => if s.len() >= 4 {
                Some(4)
            } else {
                None
            },
            WireType::SixtyFourBit => if s.len() >= 8 {
                Some(8)
            } else {
                None
            },
            WireType::LengthDelimited => match spec_decode_varint(s) {
                Some((len, n)) => if len <= s.len() - n {
                    Some(n + len)
                } else {
                    None
                },
                None => None,
            },
            WireType::StartGroup => spec_skip_group(tag, s, depth),
            WireType::EndGroup => None,
        }
    }
}

/// How many bytes passing over the fields of a group numbered `tag` consumes,
/// up to and with its end-group key.
pub open spec fn spec_skip_group(tag: nat, s: Seq<u8>, depth: nat) -> Option<nat>
    decreases s.len(), 0nat,
{
    match spec_decode_key(s) {
        Some((t, w, n)) => {
            if w == WireType::EndGroup {
                if t == tag {
                    Some(n)
                } else {
                    None
                }
            } else if 0 < n <= s.len() {
                match spec_skip_field(w, t, s.skip(n as int), (depth - 1) as nat) {
                    Some(m) => if m <= s.len() - n {
                        match spec_skip_group(tag, s.skip((n + m) as int), depth) {
                            Some(r) => Some(n + m + r),
                            None => None,
                        }
                    } else {
                        None
                    },
                    None => None,
                }
            } else {
                None
            }
        },
        None => None,
    }
}

/// Whether every field in `s` can be passed over as prost's `skip_field`
/// does with `depth` levels of nesting left, the last ending where `s` ends.
pub open spec fn spec_skip_all(s: Seq<u8>, depth: nat) -> bool
    decreases s.len(),
{
    if s.len() == 0 {
        true
    } else {
        match spec_decode_key(s) {
            Some((tag, wire_type, n)) => match spec_skip_field(
                wire_type,
                tag,
                s.skip(n as int),
                depth,
            ) {
                Some(m) => if 0 < n + m <= s.len() {
                    spec_skip_all(s.skip((n + m) as int), depth)
                } else {
                    false
                },
                None => false,
            },
            None => false,
        }
    }
}

/// Passing over a field with some recursion budget left consumes the same
/// bytes with any larger budget.
pub proof fn lemma_skip_field_mono(wire_type: WireType, tag: nat, s: Seq<u8>, d: nat, d2: nat)
    requires
        d <= d2,
        spec_skip_field(wire_type, tag, s, d) is Some,
    ensures
        spec_skip_field(wire_type, tag, s, d2) == spec_skip_field(wire_type, tag, s, d),
    decreases s.len(), 1nat,
{
    if wire_type == WireType::StartGroup {
        lemma_skip_group_mono(tag, s, d, d2);
    }
}

/// Passing over the fields of a group with some recursion budget left
/// consumes the same bytes with any larger budget.
pub proof fn lemma_skip_group_mono(tag: nat, s: Seq<u8>, d: nat, d2: nat)
    requires
        0 < d <= d2,
        spec_skip_group(tag, s, d) is Some,
    ensures
        spec_skip_group(tag, s, d2) == spec_skip_group(tag, s, d),
    decreases s.len(), 0nat,
{
    let (t, w, n) = spec_decode_key(s).unwrap();
    if w != WireType::EndGroup {
        let m = spec_skip_field(w, t, s.skip(n as int), (d - 1) as nat).unwrap();
        lemma_skip_field_mono(w, t, s.skip(n as int), (d - 1) as nat, (d2 - 1) as nat);
        lemma_skip_group_mono(tag, s.skip((n + m) as int), d, d2);
    }
}

/// The recursion budget with which prost starts to decode a message.
pub const RECURSION_LIMIT: u32 = 100;

#[verifier::external_type_specification]
#[verifier::external_body]
pub struct ExDecodeError(prost::DecodeError);

/// Calls `prost::encoding::encode_varint`, which appends the base-128
/// encoding of `value` to `buf`.
#[verifier::external_body]
pub(crate) fn put_varint(value: u64, buf: &mut Vec<u8>)
    ensures
        final(buf)@ == old(buf)@ + spec_varint(value as nat),
{
    prost::encoding::encode_varint(value, buf)
}

/// Calls `prost::encoding::encoded_len_varint`, which gives the length of the
/// base-128 encoding of `value`.
#[verifier::external_body]
pub(crate) fn varint_len(value: u64) -> (r: usize)
    ensures
        r == spec_varint(value as nat).len(),
{
    prost::encoding::encoded_len_varint(value)
}

/// Calls `prost::encoding::decode_varint` on `bytes` and gives the value read
/// with the number of bytes left after it. It fails where `bytes` does not
/// start with a varint of at most ten bytes whose value fits in 64 bits.
#[verifier::external_body]
pub(crate) fn take_varint(bytes: &[u8]) -> (r: Result<(u64, usize), prost::DecodeError>)
    ensures
        match spec_decode_varint(bytes@) {
            Some((v, n)) => r matches Ok((x, left)) && x == v && left == bytes@.len() - n,
            None => r is Err,
        },
{
    let mut b = bytes;
    let v = prost::encoding::decode_varint(&mut b)?;
    Ok((v, b.len()))
}

/// Calls `prost::encoding::encode_key`, which appends the key of field
/// `tag` with wire type `wire_type` to `buf`.
#[verifier::external_body]
pub(crate) fn put_key(tag: u32, wire_type: WireType, buf: &mut Vec<u8>)
    requires
        1 <= tag <= MAX_TAG,
    ensures
        final(buf)@ == old(buf)@ + spec_key(tag as nat, wire_type),
{
    let w = match wire_type {
        WireType::Varint => prost::encoding::WireType::Varint,
        WireType::SixtyFourBit => prost::encoding::WireType::SixtyFourBit,
        WireType::LengthDelimited => prost::encoding::WireType::LengthDelimited,
        WireType::StartGroup => prost::encoding::WireType::StartGroup,
        WireType::EndGroup => prost::encoding::WireType::EndGroup,
        WireType::ThirtyTwoBit => prost::encoding::WireType::ThirtyTwoBit,
    };
    prost::encoding::encode_key(tag, w, buf)
}

/// Calls `prost::encoding::decode_key` on `bytes` and gives the field number,
/// the wire type and the number of bytes left after the key.
#[verifier::external_body]
pub(crate) fn take_key(bytes: &[u8]) -> (r: Result<(u32, WireType, usize), prost::DecodeError>)
    ensures
        match spec_decode_key(bytes@) {
            Some((t, w, n)) => r matches Ok((tag, wire_type, left)) && tag == t && wire_type == w
                && left == bytes@.len() - n,
            None => r is Err,
        },
{
    let mut b = bytes;
    let (tag, w) = prost::encoding::decode_key(&mut b)?;
    let wire_type = match w {
        prost::encoding::WireType::Varint => WireType::Varint,
        prost::encoding::WireType::SixtyFourBit => WireType::SixtyFourBit,
        prost::encoding::WireType::LengthDelimited => WireType::LengthDelimited,
        prost::encoding::WireType::StartGroup => WireType::StartGroup,
        prost::encoding::WireType::EndGroup => WireType::EndGroup,
        prost::encoding::WireType::ThirtyTwoBit => WireType::ThirtyTwoBit,
    };
    Ok((tag, wire_type, b.len()))
}

/// Calls `prost::encoding::skip_field` on `bytes` with a fresh decode
/// context, and gives the number of bytes left after the field.
#[verifier::external_body]
pub(crate) fn skip_field(wire_type: WireType, tag: u32, bytes: &[u8]) -> (r: Result<usize, prost::DecodeError>)
    ensures
        match spec_skip_field(wire_type, tag as nat, bytes@, RECURSION_LIMIT as nat) {
            Some(n) => r matches Ok(left) && left == bytes@.len() - n,
            None => r is Err,
        },
{
    let w = match wire_type {
        WireType::Varint => prost::encoding::WireType::Varint,
        WireType::SixtyFourBit => prost::encoding::WireType::SixtyFourBit,
        WireType::LengthDelimited => prost::encoding::WireType::LengthDelimited,
        WireType::StartGroup => prost::encoding::WireType::StartGroup,
        WireType::EndGroup => prost::encoding::WireType::EndGroup,
        WireType::ThirtyTwoBit => prost::encoding::WireType::ThirtyTwoBit,
    };
    let mut b = bytes;
    prost::encoding::skip_field(w, tag, &mut b, prost::encoding::DecodeContext::default())?;
    Ok(b.len())
}


/// What follows the length at the start of `s`.
pub open spec fn after_length(s: Seq<u8>) -> Seq<u8> {
    match spec_decode_varint(s) {
        Some((_, n)) => s.skip(n as int),
        None => Seq::empty(),
    }
}

/// Calls `prost::Message::merge_length_delimited` on the unit message `()`
/// with `bytes`, a length followed by exactly that many bytes: prost passes
/// over each field of those bytes with `skip_field`, one level of recursion
/// below a fresh decode context. Gives the number of bytes left (none).
#[verifier::external_body]
pub(crate) fn skip_nested_fields(bytes: &[u8]) -> (r: Result<usize, prost::DecodeError>)
    requires
        spec_decode_varint(bytes@) matches Some((len, n)) && n + len == bytes@.len(),
    ensures
        r is Ok <==> spec_skip_all(after_length(bytes@), (RECURSION_LIMIT - 1) as nat),
        r matches Ok(left) ==> left == 0,
{
    let mut b = bytes;
    let mut unit = ();
    prost::Message::merge_length_delimited(&mut unit, &mut b)?;
    Ok(b.len())
}

} // verus!
