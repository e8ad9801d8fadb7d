//! What the decoder guarantees of payloads built with the structured
//! encoding: they decode to the fields they were built from, and every
//! strict prefix of them fails with the field that is cut short.
use vstd::prelude::*;
use vstd::bytes::{
    lemma_auto_spec_u32_to_from_le_bytes,
    lemma_auto_spec_u64_to_from_le_bytes,
    spec_u32_to_le_bytes,
    spec_u64_to_le_bytes,
};
use crate::codec::{
    BuyInstruction,
    CreateView,
    DecodeError,
    EventView,
    Field,
    buy_discriminator,
    create_discriminator,
    decode_spec,
    le_u32_at,
    structured_texts,
    text_field,
    three_texts,
    utf8_text,
};

verus! {

/// A text field in the structured encoding: byte count, then the bytes.
pub open spec fn encode_text(b: Seq<u8>) -> Seq<u8> {
    spec_u32_to_le_bytes(b.len() as u32) + b
}

/// A create payload in the structured encoding, followed by the creator.
pub open spec fn create_payload(name: Seq<u8>, symbol: Seq<u8>, uri: Seq<u8>, creator: Seq<u8>) -> Seq<
    u8,
> {
    create_discriminator() + encode_text(name) + encode_text(symbol) + encode_text(uri) + creator
}

/// A buy payload in the structured encoding.
pub open spec fn buy_payload(amount: u64, max_sol_cost: u64) -> Seq<u8> {
    buy_discriminator() + spec_u64_to_le_bytes(amount) + spec_u64_to_le_bytes(max_sol_cost)
}

/// The byte strings of a create payload's texts can be encoded.
pub open spec fn encodable(name: Seq<u8>, symbol: Seq<u8>, uri: Seq<u8>) -> bool {
    name.len() <= u32::MAX && symbol.len() <= u32::MAX && uri.len() <= u32::MAX
}

proof fn lemma_text_field_ok(d: Seq<u8>, at: int, b: Seq<u8>, t: Seq<char>, lf: Field, bf: Field)
    requires
        0 <= at,
        at + 4 + b.len() <= d.len(),
        b.len() <= u32::MAX,
        d.subrange(at, at + 4) == spec_u32_to_le_bytes(b.len() as u32),
        d.subrange(at + 4, at + 4 + b.len()) == b,
        utf8_text(b) == Some(t),
    ensures
        text_field(d, at, lf, bf) == Ok::<(Seq<char>, int), DecodeError>((t, at + 4 + b.len())),
{
    lemma_auto_spec_u32_to_from_le_bytes();
    let x = b.len() as u32;
    assert(spec_u32_to_le_bytes(x).len() == 4);
    assert(vstd::bytes::spec_u32_from_le_bytes(spec_u32_to_le_bytes(x)) == x);
    assert(le_u32_at(d, at) == b.len());
}

proof fn lemma_u32_bytes_len(x: u32)
    ensures
        spec_u32_to_le_bytes(x).len() == 4,
{
    lemma_auto_spec_u32_to_from_le_bytes();
}

/// Where the texts of `d` lie when `d[base..]` starts with three encoded
/// texts: all three decode, and the record ends after the third.
proof fn lemma_three_texts_at(
    d: Seq<u8>,
    base: int,
    nb: Seq<u8>,
    sb: Seq<u8>,
    ub: Seq<u8>,
    n: Seq<char>,
    s: Seq<char>,
    u: Seq<char>,
)
    requires
        0 <= base,
        encodable(nb, sb, ub),
        base + 12 + nb.len() + sb.len() + ub.len() <= d.len(),
        d.subrange(base, base + 12 + nb.len() + sb.len() + ub.len()) == encode_text(nb) + encode_text(
            sb,
        ) + encode_text(ub),
        utf8_text(nb) == Some(n),
        utf8_text(sb) == Some(s),
        utf8_text(ub) == Some(u),
    ensures
        three_texts(d, base) == Ok::<(Seq<char>, Seq<char>, Seq<char>, int), DecodeError>(
            (n, s, u, base + 12 + nb.len() + sb.len() + ub.len()),
        ),
{
    lemma_u32_bytes_len(nb.len() as u32);
    lemma_u32_bytes_len(sb.len() as u32);
    lemma_u32_bytes_len(ub.len() as u32);
    let rec = encode_text(nb) + encode_text(sb) + encode_text(ub);
    let o1 = base;
    let o2 = o1 + 4 + nb.len();
    let o3 = o2 + 4 + sb.len();
    let end = o3 + 4 + ub.len();
    assert(d.subrange(o1, o1 + 4) =~= rec.subrange(0, 4));
    assert(rec.subrange(0, 4) =~= spec_u32_to_le_bytes(nb.len() as u32));
    assert(d.subrange(o1 + 4, o2) =~= nb) by {
        assert(forall|i: int|
            0 <= i < nb.len() ==> #[trigger] d.subrange(o1 + 4, o2)[i] == rec[4 + i]);
        assert(forall|i: int| 0 <= i < nb.len() ==> rec[4 + i] == #[trigger] encode_text(nb)[4 + i]);
    }
    lemma_text_field_ok(d, o1, nb, n, Field::NameLength, Field::Name);
    assert(d.subrange(o2, o2 + 4) =~= spec_u32_to_le_bytes(sb.len() as u32)) by {
        assert(forall|i: int| 0 <= i < 4 ==> #[trigger] d.subrange(o2, o2 + 4)[i] == rec[o2 - base + i]);
    }
    assert(d.subrange(o2 + 4, o3) =~= sb) by {
        assert(forall|i: int| 0 <= i < sb.len() ==> #[trigger] d.subrange(o2 + 4, o3)[i] == rec[o2 + 4 - base + i]);
    }
    lemma_text_field_ok(d, o2, sb, s, Field::SymbolLength, Field::Symbol);
    assert(d.subrange(o3, o3 + 4) =~= spec_u32_to_le_bytes(ub.len() as u32)) by {
        assert(forall|i: int| 0 <= i < 4 ==> #[trigger] d.subrange(o3, o3 + 4)[i] == rec[o3 - base + i]);
    }
    assert(d.subrange(o3 + 4, end) =~= ub) by {
        assert(forall|i: int| 0 <= i < ub.len() ==> #[trigger] d.subrange(o3 + 4, end)[i] == rec[o3 + 4 - base + i]);
    }
    lemma_text_field_ok(d, o3, ub, u, Field::UriLength, Field::Uri);
}

/// A create payload built from byte strings that are valid UTF-8 and a
/// 32-byte creator decodes to exactly those texts and that creator; a buy
/// payload decodes to exactly its amount and cost.
pub proof fn lemma_decode_round_trip(
    name: Seq<u8>,
    symbol: Seq<u8>,
    uri: Seq<u8>,
    creator: Seq<u8>,
    n: Seq<char>,
    s: Seq<char>,
    u: Seq<char>,
    amount: u64,
    max_sol_cost: u64,
)
    requires
        encodable(name, symbol, uri),
        creator.len() == 32,
        utf8_text(name) == Some(n),
        utf8_text(symbol) == Some(s),
        utf8_text(uri) == Some(u),
    ensures
        decode_spec(create_payload(name, symbol, uri, creator)) == Ok::<EventView, DecodeError>(
            EventView::Create(CreateView { name: n, symbol: s, uri: u, user: creator }),
        ),
        decode_spec(buy_payload(amount, max_sol_cost)) == Ok::<EventView, DecodeError>(
            EventView::Buy(BuyInstruction { amount, max_sol_cost }),
        ),
{
    lemma_u32_bytes_len(name.len() as u32);
    lemma_u32_bytes_len(symbol.len() as u32);
    lemma_u32_bytes_len(uri.len() as u32);
    let rec = encode_text(name) + encode_text(symbol) + encode_text(uri);
    let p = create_payload(name, symbol, uri, creator);
    let end: int = 8 + rec.len() as int;
    assert(p =~= create_discriminator() + rec + creator);
    assert(p.subrange(0, 8) =~= create_discriminator());
    assert(p.subrange(8, end) =~= rec);
    lemma_three_texts_at(p, 8, name, symbol, uri, n, s, u);
    let tail = p.subrange(8, p.len() as int);
    assert(tail.subrange(0, rec.len() as int) =~= rec);
    lemma_three_texts_at(tail, 0, name, symbol, uri, n, s, u);
    assert(structured_texts(tail) == None::<(Seq<char>, Seq<char>, Seq<char>)>);
    assert(p.subrange(end, end + 32) =~= creator);

    lemma_auto_spec_u64_to_from_le_bytes();
    let q = buy_payload(amount, max_sol_cost);
    assert(q.subrange(0, 8) =~= buy_discriminator());
    assert(q.subrange(8, 16) =~= spec_u64_to_le_bytes(amount));
    assert(q.subrange(16, 24) =~= spec_u64_to_le_bytes(max_sol_cost));
    assert(q.subrange(0, 8)[0] != create_discriminator()[0]);
}

/// The field that a prefix of `l` bytes of an encoded record ends inside.
pub open spec fn record_cut_field(name: Seq<u8>, symbol: Seq<u8>, l: int) -> Field {
    if l < 4 {
        Field::NameLength
    } else if l < 4 + name.len() {
        Field::Name
    } else if l < 8 + name.len() {
        Field::SymbolLength
    } else if l < 8 + name.len() + symbol.len() {
        Field::Symbol
    } else if l < 12 + name.len() + symbol.len() {
        Field::UriLength
    } else {
        Field::Uri
    }
}

/// The length of the encoded record of three texts.
pub open spec fn record_len(name: Seq<u8>, symbol: Seq<u8>, uri: Seq<u8>) -> int {
    (12 + name.len() + symbol.len() + uri.len()) as int
}

/// The error for a create payload cut to its first `k` bytes.
pub open spec fn create_cut_error(name: Seq<u8>, symbol: Seq<u8>, uri: Seq<u8>, k: int) -> DecodeError {
    if k < 8 {
        DecodeError::TooShort
    } else if k - 8 < record_len(name, symbol, uri) {
        DecodeError::Missing(record_cut_field(name, symbol, k - 8))
    } else {
        DecodeError::Missing(Field::User)
    }
}

proof fn lemma_text_field_cut(d: Seq<u8>, at: int, b: Seq<u8>, t: Seq<char>, lf: Field, bf: Field)
    requires
        0 <= at <= d.len(),
        b.len() <= u32::MAX,
        utf8_text(b) == Some(t),
        forall|i: int|
            at <= i < d.len() && i < at + 4 + b.len() ==> #[trigger] d[i] == encode_text(b)[i - at],
    ensures
        d.len() < at + 4 ==> text_field(d, at, lf, bf) == Err::<(Seq<char>, int), DecodeError>(
            DecodeError::Missing(lf),
        ),
        at + 4 <= d.len() < at + 4 + b.len() ==> text_field(d, at, lf, bf) == Err::<
            (Seq<char>, int),
            DecodeError,
        >(DecodeError::Missing(bf)),
        d.len() >= at + 4 + b.len() ==> text_field(d, at, lf, bf) == Ok::<
            (Seq<char>, int),
            DecodeError,
        >((t, at + 4 + b.len())),
{
    lemma_u32_bytes_len(b.len() as u32);
    let e = encode_text(b);
    if d.len() >= at + 4 {
        assert(d.subrange(at, at + 4) =~= spec_u32_to_le_bytes(b.len() as u32)) by {
            assert(forall|j: int| 0 <= j < 4 ==> #[trigger] d.subrange(at, at + 4)[j] == d[at + j]);
            assert(forall|j: int| 0 <= j < 4 ==> #[trigger] e[j] == spec_u32_to_le_bytes(b.len() as u32)[j]);
        }
        lemma_auto_spec_u32_to_from_le_bytes();
        let x = b.len() as u32;
        assert(spec_u32_to_le_bytes(x).len() == 4);
        assert(vstd::bytes::spec_u32_from_le_bytes(spec_u32_to_le_bytes(x)) == x);
        assert(le_u32_at(d, at) == b.len());
        if d.len() >= at + 4 + b.len() {
            assert(d.subrange(at + 4, at + 4 + b.len()) =~= b) by {
                assert(forall|j: int|
                    0 <= j < b.len() ==> #[trigger] d.subrange(at + 4, at + 4 + b.len())[j] == d[at + 4 + j]);
                assert(forall|j: int| 0 <= j < b.len() ==> #[trigger] e[4 + j] == b[j]);
            }
            lemma_text_field_ok(d, at, b, t, lf, bf);
        }
    }
}

/// Decoding three texts from `base` where the bytes agree with an encoded
/// record as far as they go: the field the bytes end in is missing, or all
/// three decode.
proof fn lemma_three_texts_cut(
    d: Seq<u8>,
    base: int,
    nb: Seq<u8>,
    sb: Seq<u8>,
    ub: Seq<u8>,
    n: Seq<char>,
    s: Seq<char>,
    u: Seq<char>,
)
    requires
        0 <= base <= d.len(),
        encodable(nb, sb, ub),
        utf8_text(nb) == Some(n),
        utf8_text(sb) == Some(s),
        utf8_text(ub) == Some(u),
        forall|i: int|
            base <= i < d.len() && i < base + record_len(nb, sb, ub) ==> #[trigger] d[i] == (
            encode_text(nb) + encode_text(sb) + encode_text(ub))[i - base],
    ensures
        d.len() - base < record_len(nb, sb, ub) ==> three_texts(d, base) == Err::<
            (Seq<char>, Seq<char>, Seq<char>, int),
            DecodeError,
        >(DecodeError::Missing(record_cut_field(nb, sb, d.len() - base))),
        d.len() - base >= record_len(nb, sb, ub) ==> three_texts(d, base) == Ok::<
            (Seq<char>, Seq<char>, Seq<char>, int),
            DecodeError,
        >((n, s, u, base + record_len(nb, sb, ub))),
{
    lemma_u32_bytes_len(nb.len() as u32);
    lemma_u32_bytes_len(sb.len() as u32);
    lemma_u32_bytes_len(ub.len() as u32);
    let e1 = encode_text(nb);
    let e2 = encode_text(sb);
    let e3 = encode_text(ub);
    let rec = e1 + e2 + e3;
    let o2 = base + e1.len();
    let o3 = o2 + e2.len();
    assert forall|i: int| base <= i < d.len() && i < base + 4 + nb.len() implies #[trigger] d[i]
        == e1[i - base] by {
        assert(rec[i - base] == e1[i - base]);
    }
    lemma_text_field_cut(d, base, nb, n, Field::NameLength, Field::Name);
    if d.len() >= o2 {
        assert forall|i: int| o2 <= i < d.len() && i < o2 + 4 + sb.len() implies #[trigger] d[i]
            == e2[i - o2] by {
            assert(rec[i - base] == e2[i - o2]);
        }
        lemma_text_field_cut(d, o2, sb, s, Field::SymbolLength, Field::Symbol);
        if d.len() >= o3 {
            assert forall|i: int| o3 <= i < d.len() && i < o3 + 4 + ub.len() implies #[trigger] d[i]
                == e3[i - o3] by {
                assert(rec[i - base] == e3[i - o3]);
            }
            lemma_text_field_cut(d, o3, ub, u, Field::UriLength, Field::Uri);
        }
    }
}

/// Every strict prefix of a create payload fails to decode, naming the
/// field it cuts short, except the one that ends exactly where the texts
/// end (that prefix is itself a structured record, decoded with a zero
/// creator). Every strict prefix of a buy payload fails too.
pub proof fn lemma_truncation_fails(
    name: Seq<u8>,
    symbol: Seq<u8>,
    uri: Seq<u8>,
    creator: Seq<u8>,
    n: Seq<char>,
    s: Seq<char>,
    u: Seq<char>,
    amount: u64,
    max_sol_cost: u64,
    k: int,
)
    requires
        encodable(name, symbol, uri),
        creator.len() == 32,
        utf8_text(name) == Some(n),
        utf8_text(symbol) == Some(s),
        utf8_text(uri) == Some(u),
        0 <= k,
    ensures
        k < create_payload(name, symbol, uri, creator).len() && k != 8 + record_len(name, symbol, uri)
            ==> decode_spec(create_payload(name, symbol, uri, creator).subrange(0, k)) == Err::<
            EventView,
            DecodeError,
        >(create_cut_error(name, symbol, uri, k)),
        k < 24 ==> decode_spec(buy_payload(amount, max_sol_cost).subrange(0, k)) == Err::<
            EventView,
            DecodeError,
        >(if k < 8 {
            DecodeError::TooShort
        } else {
            DecodeError::Missing(Field::BuyArgs)
        }),
{
    lemma_u32_bytes_len(name.len() as u32);
    lemma_u32_bytes_len(symbol.len() as u32);
    lemma_u32_bytes_len(uri.len() as u32);
    let rec = encode_text(name) + encode_text(symbol) + encode_text(uri);
    let p = create_payload(name, symbol, uri, creator);
    assert(p =~= create_discriminator() + rec + creator);
    assert(rec.len() == record_len(name, symbol, uri));
    if k < p.len() && k != 8 + record_len(name, symbol, uri) && k >= 8 {
        let t = p.subrange(0, k);
        assert(t.subrange(0, 8) =~= create_discriminator());
        let tail = t.subrange(8, k);
        assert forall|i: int| 0 <= i < tail.len() && i < rec.len() implies #[trigger] tail[i] == rec[i] by {
            assert(tail[i] == p[8 + i]);
        }
        lemma_three_texts_cut(tail, 0, name, symbol, uri, n, s, u);
        assert(tail =~= t.subrange(8, t.len() as int));
        assert(structured_texts(tail) == None::<(Seq<char>, Seq<char>, Seq<char>)>);
        assert forall|i: int| 8 <= i < t.len() && i < 8 + rec.len() implies #[trigger] t[i] == rec[i
            - 8] by {
            assert(t[i] == p[i]);
        }
        lemma_three_texts_cut(t, 8, name, symbol, uri, n, s, u);
    }

    lemma_auto_spec_u64_to_from_le_bytes();
    let q = buy_payload(amount, max_sol_cost);
    if 8 <= k < 24 {
        let t = q.subrange(0, k);
        assert(t.subrange(0, 8) =~= buy_discriminator());
        assert(t.subrange(0, 8)[0] != create_discriminator()[0]);
    }
}

} // verus!
