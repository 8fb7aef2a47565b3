//! Messages as typed values: those whose fields are all scalars, and those
//! that hold a list of such messages in field number 1.

use vstd::prelude::*;
use vstd::slice::slice_subrange;
use crate::record::{
    decode_record, defaults, encode_record, encoded_record_len, fits, lemma_length_delimited_parts, lemma_decode_record_fits,
    lemma_fields_budget, lemma_fields_roundtrip, lemma_record_concat, lemma_record_roundtrip, all_storable, normalized,
    spec_merge_values, spec_decode_nested, spec_decode_record, spec_encode_record,
    spec_length_delimited, values_of, Kind, Scalar, ScalarValue, WireError,
};
use crate::wire::{
    after_length, lemma_decode_varint_prefix, lemma_decode_varint_props, lemma_key_roundtrip, skip_nested_fields, lemma_varint_roundtrip, put_key, put_varint,
    skip_field, spec_decode_key, spec_decode_varint, spec_key, spec_skip_field, spec_varint,
    take_key, take_varint, varint_len, WireType, MAX_TAG, RECURSION_LIMIT,
};

verus! {

/// A message whose fields are scalars, field `i` (from 0) numbered `i + 1`.
pub trait ProtoMessage: Sized {
    /// The types of the fields, in order.
    spec fn spec_schema() -> Seq<Kind>;

    /// The values of the fields, in order.
    spec fn spec_values(&self) -> Seq<ScalarValue>;

    /// The types of the fields, in order.
    fn schema() -> (r: Vec<Kind>)
        ensures
            r@ == Self::spec_schema(),
    ;

    /// The values of the fields, in order.
    fn to_scalars(&self) -> (r: Vec<Scalar>)
        ensures
            values_of(r@) == self.spec_values(),
    ;

    /// The message with the given field values.
    fn from_scalars(v: Vec<Scalar>) -> (r: Self)
        requires
            fits(Self::spec_schema(), values_of(v@)),
        ensures
            r.spec_values() == values_of(v@),
    ;

    /// The values of a message have the types of its schema, of which there are few.
    proof fn lemma_schema(&self)
        ensures
            fits(Self::spec_schema(), self.spec_values()),
            Self::spec_schema().len() <= 16,
    ;

    /// The encoding of the message.
    fn encode_to_vec(&self) -> (r: Vec<u8>)
        ensures
            r@ == spec_encode_record(self.spec_values()),
    {
        proof {
            self.lemma_schema();
        }
        let mut buf: Vec<u8> = Vec::new();
        let vals = self.to_scalars();
        encode_record(&vals, &mut buf);
        assert(buf@ =~= spec_encode_record(self.spec_values()));
        buf
    }

    /// The number of bytes the encoding of the message takes.
    fn encoded_len(&self) -> (r: usize)
        requires
            spec_encode_record(self.spec_values()).len() <= usize::MAX,
        ensures
            r == spec_encode_record(self.spec_values()).len(),
    {
        proof {
            self.lemma_schema();
        }
        let vals = self.to_scalars();
        encoded_record_len(&vals)
    }

    /// The message that `bytes` encode; an error where they are not the
    /// encoding of a message of this type.
    fn decode(bytes: &[u8]) -> (r: Result<Self, WireError>)
        ensures
            match spec_decode_record(Self::spec_schema(), bytes@) {
                Some(vals) => r matches Ok(m) && m.spec_values() == vals,
                None => r is Err,
            },
    {
        let schema = Self::schema();
        match decode_record(&schema, bytes) {
            Ok(vals) => {
                proof {
                    lemma_decode_record_fits(Self::spec_schema(), bytes@);
                }
                Ok(Self::from_scalars(vals))
            },
            Err(e) => Err(e),
        }
    }
}

/// Decoding the encoding of a message gives back a message with the same
/// field values, save that a double equal to zero comes back as positive
/// zero.
pub proof fn lemma_message_roundtrip<M: ProtoMessage>(m: M)
    requires
        all_storable(m.spec_values()),
    ensures
        spec_decode_record(M::spec_schema(), spec_encode_record(m.spec_values())) == Some(
            normalized(m.spec_values()),
        ),
{
    m.lemma_schema();
    lemma_record_roundtrip(M::spec_schema(), m.spec_values());
}


/// Decoding the encoding of `a` followed by the encoding of `b` gives `a`
/// with `b` merged into it: each field that the encoding of `b` carries
/// replaces that of `a`.
pub proof fn lemma_message_concat<M: ProtoMessage>(a: M, b: M)
    requires
        all_storable(a.spec_values()),
        all_storable(b.spec_values()),
    ensures
        spec_decode_record(
            M::spec_schema(),
            spec_encode_record(a.spec_values()) + spec_encode_record(b.spec_values()),
        ) == Some(spec_merge_values(normalized(a.spec_values()), b.spec_values())),
{
    a.lemma_schema();
    b.lemma_schema();
    lemma_record_concat(M::spec_schema(), a.spec_values(), b.spec_values());
}

/// The field values of each message in a list.
pub open spec fn item_values<M: ProtoMessage>(items: Seq<M>) -> Seq<Seq<ScalarValue>> {
    items.map_values(|m: M| m.spec_values())
}

/// The encoding of the list entries from the `i`-th on: each a
/// length-delimited field number 1 holding the entry's encoding.
pub open spec fn spec_encode_items_from(items: Seq<Seq<ScalarValue>>, i: nat) -> Seq<u8>
    decreases items.len() - i,
{
    if i >= items.len() {
        Seq::empty()
    } else {
        spec_length_delimited(1, spec_encode_record(items[i as int])) + spec_encode_items_from(
            items,
            i + 1,
        )
    }
}

/// The encoding of a message holding the list `items`.
pub open spec fn spec_encode_list(items: Seq<Seq<ScalarValue>>) -> Seq<u8> {
    spec_encode_items_from(items, 0)
}

/// Reads the fields in `s`, appending each field number 1 to `acc` as a
/// message of type `schema`. Field number 1 must be length-delimited; other
/// fields are passed over as prost's `skip_field` does.
pub open spec fn spec_decode_items(
    schema: Seq<Kind>,
    s: Seq<u8>,
    acc: Seq<Seq<ScalarValue>>,
) -> Option<Seq<Seq<ScalarValue>>>
    decreases s.len(),
{
    if s.len() == 0 {
        Some(acc)
    } else {
        match spec_decode_key(s) {
            Some((tag, wire_type, n)) => {
                let rest = s.skip(n as int);
                let step = if tag == 1 {
                    if wire_type != WireType::LengthDelimited {
                        None
                    } else {
                        match spec_decode_varint(rest) {
                            Some((len, vn)) => if len <= rest.len() - vn {
                                match spec_decode_nested(
                                    schema,
                                    rest.subrange(vn as int, (vn + len) as int),
                                ) {
                                    Some(item) => Some((acc.push(item), vn + len)),
                                    None => None,
                                }
                            } else {
                                None
                            },
                            None => None,
                        }
                    }
                } else {
                    match spec_skip_field(wire_type, tag, rest, RECURSION_LIMIT as nat) {
                        Some(m) => Some((acc, m)),
                        None => None,
                    }
                };
                match step {
                    Some((acc2, m)) => if 0 < n + m <= s.len() {
                        spec_decode_items(schema, s.skip((n + m) as int), acc2)
                    } else {
                        None
                    },
                    None => None,
                }
            },
            None => None,
        }
    }
}

/// The entries of the list message that `s` encodes, with entries of type
/// `schema`, or `None` where `s` is not such an encoding.
pub open spec fn spec_decode_list(schema: Seq<Kind>, s: Seq<u8>) -> Option<Seq<Seq<ScalarValue>>> {
    spec_decode_items(schema, s, Seq::empty())
}

/// A message holding a list of messages in its field number 1.
pub trait ProtoList: Sized {
    /// The type of the entries.
    type Item: ProtoMessage;

    /// The entries, in order.
    spec fn spec_items(&self) -> Seq<Self::Item>;

    /// The entries, in order.
    fn items(&self) -> (r: &Vec<Self::Item>)
        ensures
            r@ == self.spec_items(),
    ;

    /// The message holding the list `items`.
    fn from_items(items: Vec<Self::Item>) -> (r: Self)
        ensures
            r.spec_items() == items@,
    ;

    /// The encoding of the message.
    fn encode_to_vec(&self) -> (r: Vec<u8>)
        ensures
            r@ == spec_encode_list(item_values(self.spec_items())),
    {
        let items = self.items();
        let ghost vals = item_values(self.spec_items());
        let mut buf: Vec<u8> = Vec::new();
        let mut i: usize = 0;
        while i < items.len()
            invariant
                i <= items@.len(),
                items@ == self.spec_items(),
                vals == item_values(self.spec_items()),
                buf@ + spec_encode_items_from(vals, i as nat) == spec_encode_list(vals),
            decreases items@.len() - i,
        {
            let ghost before = buf@;
            let body = items[i].encode_to_vec();
            put_key(1, WireType::LengthDelimited, &mut buf);
            put_varint(body.len() as u64, &mut buf);
            buf.extend_from_slice(body.as_slice());
            assert(buf@ == before + spec_length_delimited(1, spec_encode_record(vals[i as int])));
            assert(buf@ + spec_encode_items_from(vals, (i + 1) as nat) == before
                + spec_encode_items_from(vals, i as nat));
            i = i + 1;
        }
        assert(spec_encode_items_from(vals, i as nat) == Seq::<u8>::empty());
        assert(buf@ + Seq::<u8>::empty() == buf@);
        buf
    }

    /// The number of bytes the encoding of the message takes.
    fn encoded_len(&self) -> (r: usize)
        requires
            spec_encode_list(item_values(self.spec_items())).len() <= usize::MAX,
        ensures
            r == spec_encode_list(item_values(self.spec_items())).len(),
    {
        let items = self.items();
        let ghost vals = item_values(self.spec_items());
        let mut total: usize = 0;
        let mut i: usize = 0;
        while i < items.len()
            invariant
                i <= items@.len(),
                items@ == self.spec_items(),
                vals == item_values(self.spec_items()),
                spec_encode_list(vals).len() <= usize::MAX,
                total + spec_encode_items_from(vals, i as nat).len() == spec_encode_list(vals).len(),
            decreases items@.len() - i,
        {
            assert(vals[i as int] == items@[i as int].spec_values());
            let n = items[i].encoded_len();
            let part = varint_len(10) + varint_len(n as u64) + n;
            total = total + part;
            i = i + 1;
        }
        total
    }

    /// The message that `bytes` encode; an error where they are not the
    /// encoding of a list of this type. The unknown fields of an entry are
    /// passed over one level of recursion below those of the list.
    #[verifier::spinoff_prover]
    #[verifier::rlimit(40)]
    fn decode(bytes: &[u8]) -> (r: Result<Self, WireError>)
        ensures
            match spec_decode_list(<Self::Item as ProtoMessage>::spec_schema(), bytes@) {
                Some(items) => r matches Ok(m) && item_values(m.spec_items()) == items,
                None => r is Err,
            },
    {
        let ghost schema = <Self::Item as ProtoMessage>::spec_schema();
        let mut acc: Vec<Self::Item> = Vec::new();
        let mut rest: &[u8] = bytes;
        assert(item_values(acc@) =~= Seq::<Seq<ScalarValue>>::empty());
        while rest.len() > 0
            invariant
                schema == <Self::Item as ProtoMessage>::spec_schema(),
                spec_decode_items(schema, rest@, item_values(acc@)) == spec_decode_list(
                    schema,
                    bytes@,
                ),
            decreases rest@.len(),
        {
            let (tag, wire_type, left) = match take_key(rest) {
                Ok(k) => k,
                Err(_) => return Err(WireError),
            };
            proof {
                lemma_decode_varint_props(rest@);
            }
            let after_key = slice_subrange(rest, rest.len() - left, rest.len());
            assert(after_key@ == rest@.skip((rest@.len() - left) as int));
            if tag == 1 {
                if wire_type != WireType::LengthDelimited {
                    return Err(WireError);
                }
                let (len, left2) = match take_varint(after_key) {
                    Ok(x) => x,
                    Err(_) => return Err(WireError),
                };
                proof {
                    lemma_decode_varint_props(after_key@);
                }
                if len > left2 as u64 {
                    return Err(WireError);
                }
                let start = after_key.len() - left2;
                let end = start + len as usize;
                let body = slice_subrange(after_key, start, end);
                let framed = slice_subrange(after_key, 0, end);
                proof {
                    lemma_decode_varint_prefix(after_key@, end as nat);
                    assert(framed@ =~= after_key@.take(end as int));
                    assert(after_length(framed@) =~= body@);
                    lemma_fields_budget(
                        schema,
                        body@,
                        defaults(schema),
                        (RECURSION_LIMIT - 1) as nat,
                        RECURSION_LIMIT as nat,
                    );
                }
                if skip_nested_fields(framed).is_err() {
                    return Err(WireError);
                }
                let item = match <Self::Item as ProtoMessage>::decode(body) {
                    Ok(m) => m,
                    Err(e) => return Err(e),
                };
                let ghost old_acc = acc@;
                acc.push(item);
                assert(item_values(acc@) == item_values(old_acc).push(item.spec_values()));
                let next = slice_subrange(after_key, end, after_key.len());
                assert(next@ == rest@.skip((rest@.len() - (after_key.len() - end)) as int));
                rest = next;
            } else {
                let left2 = match skip_field(wire_type, tag, after_key) {
                    Ok(l) => l,
                    Err(_) => return Err(WireError),
                };
                let next = slice_subrange(after_key, after_key.len() - left2, after_key.len());
                assert(next@ == rest@.skip((rest@.len() - left2) as int));
                rest = next;
            }
        }
        Ok(Self::from_items(acc))
    }
}


/// Every entry has the types of `schema`, fits the machine, and has an
/// encoding shorter than 2^64 bytes.
pub open spec fn items_fit(schema: Seq<Kind>, items: Seq<Seq<ScalarValue>>) -> bool {
    forall|i: int|
        0 <= i < items.len() ==> {
            &&& fits(schema, #[trigger] items[i])
            &&& items[i].len() <= MAX_TAG
            &&& all_storable(items[i])
            &&& spec_encode_record(items[i]).len() <= u64::MAX
        }
}

/// `normalized` applied to each entry.
pub open spec fn normalized_items(items: Seq<Seq<ScalarValue>>) -> Seq<Seq<ScalarValue>> {
    items.map_values(|v: Seq<ScalarValue>| normalized(v))
}

/// Reading the encoding of the entries of `items` from the `i`-th on, then
/// whatever follows, appends those entries and goes on with what follows.
#[verifier::spinoff_prover]
#[verifier::rlimit(40)]
proof fn lemma_items_append(
    schema: Seq<Kind>,
    items: Seq<Seq<ScalarValue>>,
    i: nat,
    acc: Seq<Seq<ScalarValue>>,
    rest: Seq<u8>,
)
    requires
        items_fit(schema, items),
        i <= items.len(),
    ensures
        spec_decode_items(schema, spec_encode_items_from(items, i) + rest, acc)
            == spec_decode_items(schema, rest, acc + normalized_items(items).skip(i as int)),
    decreases items.len() - i,
{
    if i == items.len() {
        assert(spec_encode_items_from(items, i) + rest =~= rest);
        assert(acc + normalized_items(items).skip(i as int) =~= acc);
    } else {
        let body = spec_encode_record(items[i as int]);
        let tail = spec_encode_items_from(items, i + 1) + rest;
        let s = spec_length_delimited(1, body) + tail;
        assert(spec_encode_items_from(items, i) + rest =~= s);
        assert(fits(schema, items[i as int]));
        assert(items[i as int].len() == schema.len());
        lemma_length_delimited_parts(1, body, tail);
        lemma_fields_roundtrip(schema, items[i as int], (RECURSION_LIMIT - 1) as nat);
        let kn = spec_key(1, WireType::LengthDelimited).len();
        let vn = spec_varint(body.len()).len();
        assert(s.skip(kn as int).skip((vn + body.len()) as int) =~= tail);
        assert(s.skip((kn + vn + body.len()) as int) =~= tail);
        let acc2 = acc.push(normalized(items[i as int]));
        lemma_items_append(schema, items, i + 1, acc2, rest);
        assert(acc2 + normalized_items(items).skip((i + 1) as int) =~= acc
            + normalized_items(items).skip(i as int));
    }
}

/// Decoding the encoding of a list message gives its entries back, each as
/// `normalized`.
pub proof fn lemma_list_roundtrip(schema: Seq<Kind>, items: Seq<Seq<ScalarValue>>)
    requires
        items_fit(schema, items),
    ensures
        spec_decode_list(schema, spec_encode_list(items)) == Some(normalized_items(items)),
{
    lemma_items_append(schema, items, 0, Seq::empty(), Seq::empty());
    assert(spec_encode_list(items) + Seq::<u8>::empty() =~= spec_encode_list(items));
    assert(Seq::<Seq<ScalarValue>>::empty() + normalized_items(items).skip(0) =~= normalized_items(
        items,
    ));
}

/// Decoding the encoding of list `a` followed by that of list `b` gives the
/// entries of `a` then those of `b`.
pub proof fn lemma_list_concat(
    schema: Seq<Kind>,
    a: Seq<Seq<ScalarValue>>,
    b: Seq<Seq<ScalarValue>>,
)
    requires
        items_fit(schema, a),
        items_fit(schema, b),
    ensures
        spec_decode_list(schema, spec_encode_list(a) + spec_encode_list(b)) == Some(
            normalized_items(a + b),
        ),
{
    lemma_items_append(schema, a, 0, Seq::empty(), spec_encode_list(b));
    let na = Seq::<Seq<ScalarValue>>::empty() + normalized_items(a).skip(0);
    lemma_items_append(schema, b, 0, na, Seq::empty());
    assert(spec_encode_list(b) + Seq::<u8>::empty() =~= spec_encode_list(b));
    assert(na + normalized_items(b).skip(0) =~= normalized_items(a + b));
}

/// Decoding the encoding of a list message gives back entries with the same
/// field values as its own, save that a double equal to zero comes back as
/// positive zero.
pub proof fn lemma_list_message_roundtrip<L: ProtoList>(l: L)
    requires
        forall|i: int|
            0 <= i < l.spec_items().len() ==> {
                &&& all_storable(#[trigger] l.spec_items()[i].spec_values())
                &&& spec_encode_record(l.spec_items()[i].spec_values()).len() <= u64::MAX
            },
    ensures
        spec_decode_list(
            <L::Item as ProtoMessage>::spec_schema(),
            spec_encode_list(item_values(l.spec_items())),
        ) == Some(normalized_items(item_values(l.spec_items()))),
{
    let items = item_values(l.spec_items());
    let schema = <L::Item as ProtoMessage>::spec_schema();
    assert forall|i: int| 0 <= i < items.len() implies {
        &&& fits(schema, #[trigger] items[i])
        &&& items[i].len() <= MAX_TAG
        &&& all_storable(items[i])
        &&& spec_encode_record(items[i]).len() <= u64::MAX
    } by {
        l.spec_items()[i].lemma_schema();
        assert(all_storable(l.spec_items()[i].spec_values()));
    }
    lemma_list_roundtrip(schema, items);
}


/// Decoding the encoding of list message `a` followed by that of `b` gives
/// the entries of `a` then those of `b`, each with the same field values,
/// save that a double equal to zero comes back as positive zero.
pub proof fn lemma_list_message_concat<L: ProtoList>(a: L, b: L)
    requires
        forall|i: int|
            0 <= i < a.spec_items().len() ==> {
                &&& all_storable(#[trigger] a.spec_items()[i].spec_values())
                &&& spec_encode_record(a.spec_items()[i].spec_values()).len() <= u64::MAX
            },
        forall|i: int|
            0 <= i < b.spec_items().len() ==> {
                &&& all_storable(#[trigger] b.spec_items()[i].spec_values())
                &&& spec_encode_record(b.spec_items()[i].spec_values()).len() <= u64::MAX
            },
    ensures
        spec_decode_list(
            <L::Item as ProtoMessage>::spec_schema(),
            spec_encode_list(item_values(a.spec_items())) + spec_encode_list(
                item_values(b.spec_items()),
            ),
        ) == Some(normalized_items(item_values(a.spec_items()) + item_values(b.spec_items()))),
{
    let schema = <L::Item as ProtoMessage>::spec_schema();
    let ia = item_values(a.spec_items());
    let ib = item_values(b.spec_items());
    assert forall|i: int| 0 <= i < ia.len() implies {
        &&& fits(schema, #[trigger] ia[i])
        &&& ia[i].len() <= MAX_TAG
        &&& all_storable(ia[i])
        &&& spec_encode_record(ia[i]).len() <= u64::MAX
    } by {
        a.spec_items()[i].lemma_schema();
        assert(all_storable(a.spec_items()[i].spec_values()));
    }
    assert forall|i: int| 0 <= i < ib.len() implies {
        &&& fits(schema, #[trigger] ib[i])
        &&& ib[i].len() <= MAX_TAG
        &&& all_storable(ib[i])
        &&& spec_encode_record(ib[i]).len() <= u64::MAX
    } by {
        b.spec_items()[i].lemma_schema();
        assert(all_storable(b.spec_items()[i].spec_values()));
    }
    lemma_list_concat(schema, ia, ib);
}

} // verus!
