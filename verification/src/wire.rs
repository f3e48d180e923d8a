//! Spec-level definition of the Kafka wire primitives.
//!
//! Every scalar and composite wire type has a spec encoder producing the
//! exact byte sequence, and a spec decoder that is a partial function from a
//! byte sequence and a start position to the decoded value and the position
//! after it.  The executable writer and reader are verified against these
//! functions, and the round-trip lemmas below show that each decoder is a
//! left inverse of its encoder.

use vstd::prelude::*;

verus! {

// ---------------------------------------------------------------
// Spec encoders
// ---------------------------------------------------------------

/// One byte, 0 or 1.
pub open spec fn enc_bool(b: bool) -> Seq<u8> {
    seq![if b { 1u8 } else { 0u8 }]
}

pub open spec fn enc_i8(x: i8) -> Seq<u8> {
    seq![x as u8]
}

/// Big-endian two's-complement bytes.
pub open spec fn enc_i16(x: i16) -> Seq<u8> {
    seq![((x as u16) >> 8) as u8, (x as u16) as u8]
}

pub open spec fn enc_i32(x: i32) -> Seq<u8> {
    seq![
        ((x as u32) >> 24) as u8,
        ((x as u32) >> 16) as u8,
        ((x as u32) >> 8) as u8,
        (x as u32) as u8,
    ]
}

pub open spec fn enc_i64(x: i64) -> Seq<u8> {
    seq![
        ((x as u64) >> 56) as u8,
        ((x as u64) >> 48) as u8,
        ((x as u64) >> 40) as u8,
        ((x as u64) >> 32) as u8,
        ((x as u64) >> 24) as u8,
        ((x as u64) >> 16) as u8,
        ((x as u64) >> 8) as u8,
        (x as u64) as u8,
    ]
}

/// Unsigned base-128 varint: seven bits per byte, least significant group
/// first, continuation bit 0x80 on every byte but the last.
pub open spec fn enc_uvarint(u: u32) -> Seq<u8>
    decreases u,
{
    if u < 128 {
        seq![u as u8]
    } else {
        seq![(u % 128 + 128) as u8] + enc_uvarint(u / 128)
    }
}

/// Zig-zag mapping of a signed 32-bit value onto an unsigned one:
/// 0, -1, 1, -2, 2, ... become 0, 1, 2, 3, 4, ...
pub open spec fn zigzag(n: i32) -> u32 {
    if n >= 0 {
        (2 * (n as int)) as u32
    } else {
        (-2 * (n as int) - 1) as u32
    }
}

pub open spec fn unzigzag(u: u32) -> i32 {
    if u % 2 == 0 {
        (u / 2) as i32
    } else {
        (-((u as int + 1) / 2)) as i32
    }
}

/// Signed varint: zig-zag, then base-128 groups.
pub open spec fn enc_varint(n: i32) -> Seq<u8> {
    enc_uvarint(zigzag(n))
}

/// `string`: `i16` byte length, then the bytes.
pub open spec fn enc_string(b: Seq<u8>) -> Seq<u8> {
    enc_i16(b.len() as i16) + b
}

/// `nullable_string`: length -1 denotes null.
pub open spec fn enc_nullable_string(o: Option<Seq<u8>>) -> Seq<u8> {
    match o {
        Option::None => enc_i16(-1i16),
        Option::Some(b) => enc_string(b),
    }
}

/// `bytes` used inside record batches: varint byte length, then the bytes.
pub open spec fn enc_varlen_bytes(b: Seq<u8>) -> Seq<u8> {
    enc_varint(b.len() as i32) + b
}

/// `bytes`: `i32` byte length, then the bytes.
pub open spec fn enc_bytes(b: Seq<u8>) -> Seq<u8> {
    enc_i32(b.len() as i32) + b
}

// ---------------------------------------------------------------
// Spec decoders
// ---------------------------------------------------------------

pub open spec fn dec_bool(s: Seq<u8>, i: int) -> Option<(bool, int)> {
    if 0 <= i && i + 1 <= s.len() {
        Option::Some((s[i] != 0, i + 1))
    } else {
        Option::None
    }
}

pub open spec fn dec_i8(s: Seq<u8>, i: int) -> Option<(i8, int)> {
    if 0 <= i && i + 1 <= s.len() {
        Option::Some((s[i] as i8, i + 1))
    } else {
        Option::None
    }
}

pub open spec fn dec_i16(s: Seq<u8>, i: int) -> Option<(i16, int)> {
    if 0 <= i && i + 2 <= s.len() {
        Option::Some((((s[i] as u16) << 8 | (s[i + 1] as u16)) as i16, i + 2))
    } else {
        Option::None
    }
}

pub open spec fn dec_i32(s: Seq<u8>, i: int) -> Option<(i32, int)> {
    if 0 <= i && i + 4 <= s.len() {
        Option::Some((
            ((s[i] as u32) << 24 | (s[i + 1] as u32) << 16 | (s[i + 2] as u32) << 8 | (s[i
                + 3] as u32)) as i32,
            i + 4,
        ))
    } else {
        Option::None
    }
}

pub open spec fn dec_i64(s: Seq<u8>, i: int) -> Option<(i64, int)> {
    if 0 <= i && i + 8 <= s.len() {
        Option::Some((
            ((s[i] as u64) << 56 | (s[i + 1] as u64) << 48 | (s[i + 2] as u64) << 40 | (s[i
                + 3] as u64) << 32 | (s[i + 4] as u64) << 24 | (s[i + 5] as u64) << 16 | (s[i
                + 6] as u64) << 8 | (s[i + 7] as u64)) as i64,
            i + 8,
        ))
    } else {
        Option::None
    }
}

/// Base-128 decode of at most `fuel` bytes, as an unbounded natural:
/// a byte below 128 ends the number, any other byte contributes its low
/// seven bits and the remaining groups are worth 128 times as much.
pub open spec fn dec_uvarint_nat(s: Seq<u8>, i: int, fuel: nat) -> Option<(nat, int)>
    decreases fuel,
{
    if fuel == 0 || !(0 <= i && i + 1 <= s.len()) {
        Option::None
    } else {
        let b = s[i];
        if b < 128 {
            Option::Some((b as nat, i + 1))
        } else {
            match dec_uvarint_nat(s, i + 1, (fuel - 1) as nat) {
                Option::None => Option::None,
                Option::Some((v, j)) => Option::Some(((b - 128) as nat + 128 * v, j)),
            }
        }
    }
}

/// A 32-bit varint takes at most five bytes, and the value must fit.
pub open spec fn dec_uvarint(s: Seq<u8>, i: int) -> Option<(u32, int)> {
    match dec_uvarint_nat(s, i, 5) {
        Option::None => Option::None,
        Option::Some((v, j)) => if v <= u32::MAX as nat {
            Option::Some((v as u32, j))
        } else {
            Option::None
        },
    }
}

pub open spec fn dec_varint(s: Seq<u8>, i: int) -> Option<(i32, int)> {
    match dec_uvarint(s, i) {
        Option::None => Option::None,
        Option::Some((u, j)) => Option::Some((unzigzag(u), j)),
    }
}

/// `n` raw bytes.
pub open spec fn dec_raw(s: Seq<u8>, i: int, n: int) -> Option<(Seq<u8>, int)> {
    if 0 <= i && 0 <= n && i + n <= s.len() {
        Option::Some((s.subrange(i, i + n), i + n))
    } else {
        Option::None
    }
}

pub open spec fn dec_string(s: Seq<u8>, i: int) -> Option<(Seq<u8>, int)> {
    match dec_i16(s, i) {
        Option::None => Option::None,
        Option::Some((n, j)) => if n < 0 {
            Option::None
        } else {
            dec_raw(s, j, n as int)
        },
    }
}

pub open spec fn dec_nullable_string(s: Seq<u8>, i: int) -> Option<(Option<Seq<u8>>, int)> {
    match dec_i16(s, i) {
        Option::None => Option::None,
        Option::Some((n, j)) => if n == -1 {
            Option::Some((Option::None, j))
        } else if n < 0 {
            Option::None
        } else {
            match dec_raw(s, j, n as int) {
                Option::None => Option::None,
                Option::Some((b, k)) => Option::Some((Option::Some(b), k)),
            }
        },
    }
}

pub open spec fn dec_bytes(s: Seq<u8>, i: int) -> Option<(Seq<u8>, int)> {
    match dec_i32(s, i) {
        Option::None => Option::None,
        Option::Some((n, j)) => if n < 0 {
            Option::None
        } else {
            dec_raw(s, j, n as int)
        },
    }
}

pub open spec fn dec_varlen_bytes(s: Seq<u8>, i: int) -> Option<(Seq<u8>, int)> {
    match dec_varint(s, i) {
        Option::None => Option::None,
        Option::Some((n, j)) => if n < 0 {
            Option::None
        } else {
            dec_raw(s, j, n as int)
        },
    }
}

/// The elements of an `i32` array, without the count.
pub open spec fn enc_i32_elems(xs: Seq<i32>) -> Seq<u8>
    decreases xs.len(),
{
    if xs.len() == 0 {
        Seq::<u8>::empty()
    } else {
        enc_i32(xs[0]) + enc_i32_elems(xs.skip(1))
    }
}

/// `array<i32>`: `i32` count, then the elements.
pub open spec fn enc_i32_array(xs: Seq<i32>) -> Seq<u8> {
    enc_i32(xs.len() as i32) + enc_i32_elems(xs)
}

pub open spec fn dec_i32_elems(s: Seq<u8>, i: int, n: nat) -> Option<(Seq<i32>, int)>
    decreases n,
{
    if n == 0 {
        Option::Some((Seq::<i32>::empty(), i))
    } else {
        match dec_i32(s, i) {
            Option::None => Option::None,
            Option::Some((x, j)) => match dec_i32_elems(s, j, (n - 1) as nat) {
                Option::None => Option::None,
                Option::Some((xs, k)) => Option::Some((seq![x] + xs, k)),
            },
        }
    }
}

pub open spec fn dec_i32_array(s: Seq<u8>, i: int) -> Option<(Seq<i32>, int)> {
    match dec_i32(s, i) {
        Option::None => Option::None,
        Option::Some((n, j)) => if n == -1 {
            Option::Some((Seq::<i32>::empty(), j))
        } else if n < 0 {
            Option::None
        } else {
            dec_i32_elems(s, j, n as nat)
        },
    }
}

// ---------------------------------------------------------------
// Round-trip laws: each decoder is a left inverse of its encoder,
// wherever the encoding sits inside a larger buffer.
// ---------------------------------------------------------------

/// A buffer region equal to `a + b` splits into a region equal to `a`
/// and one equal to `b`.
pub proof fn lemma_concat_prefix(s: Seq<u8>, i: int, a: Seq<u8>, b: Seq<u8>)
    requires
        0 <= i,
        i + a.len() + b.len() <= s.len(),
        s.subrange(i, i + a.len() + b.len()) == a + b,
    ensures
        s.subrange(i, i + a.len()) == a,
        s.subrange(i + a.len(), i + a.len() + b.len()) == b,
{
    let whole = s.subrange(i, i + a.len() + b.len());
    assert(s.subrange(i, i + a.len()) =~= a) by {
        assert forall|m: int| 0 <= m < a.len() implies s.subrange(i, i + a.len())[m] == a[m] by {
            assert(whole[m] == s[i + m]);
            assert((a + b)[m] == a[m]);
        }
    }
    assert(s.subrange(i + a.len(), i + a.len() + b.len()) =~= b) by {
        assert forall|m: int| 0 <= m < b.len() implies s.subrange(
            i + a.len(),
            i + a.len() + b.len(),
        )[m] == b[m] by {
            assert(whole[a.len() + m] == s[i + a.len() + m]);
            assert((a + b)[a.len() + m] == b[m]);
        }
    }
}

/// Decoding a buffer that holds `enc_bool(x)` at `i` yields `x`.
pub proof fn lemma_dec_enc_bool(s: Seq<u8>, i: int, x: bool)
    requires
        0 <= i,
        i + 1 <= s.len(),
        s.subrange(i, i + 1) == enc_bool(x),
    ensures
        dec_bool(s, i) == Option::<(bool, int)>::Some((x, i + 1)),
{
    assert(s.subrange(i, i + 1)[0] == s[i + 0]);
    assert(s[i] == enc_bool(x)[0]);
}

/// Decoding a buffer that holds `enc_i8(x)` at `i` yields `x`.
pub proof fn lemma_dec_enc_i8(s: Seq<u8>, i: int, x: i8)
    requires
        0 <= i,
        i + 1 <= s.len(),
        s.subrange(i, i + 1) == enc_i8(x),
    ensures
        dec_i8(s, i) == Option::<(i8, int)>::Some((x, i + 1)),
{
    assert(s.subrange(i, i + 1)[0] == s[i + 0]);
    assert(s[i] == enc_i8(x)[0]);
    assert((x as u8) as i8 == x) by (bit_vector);
}

/// Decoding a buffer that holds `enc_i16(x)` at `i` yields `x`.
pub proof fn lemma_dec_enc_i16(s: Seq<u8>, i: int, x: i16)
    requires
        0 <= i,
        i + 2 <= s.len(),
        s.subrange(i, i + 2) == enc_i16(x),
    ensures
        dec_i16(s, i) == Option::<(i16, int)>::Some((x, i + 2)),
{
    assert(s.subrange(i, i + 2)[0] == s[i + 0]);
    assert(s.subrange(i, i + 2)[1] == s[i + 1]);
    assert(s[i] == enc_i16(x)[0]);
    assert(s[i + 1] == enc_i16(x)[1]);
    assert(((((((x as u16) >> 8) as u8) as u16) << 8) | ((((x as u16) as u8)) as u16)) as i16
        == x) by (bit_vector);
}

/// Decoding a buffer that holds `enc_i32(x)` at `i` yields `x`.
pub proof fn lemma_dec_enc_i32(s: Seq<u8>, i: int, x: i32)
    requires
        0 <= i,
        i + 4 <= s.len(),
        s.subrange(i, i + 4) == enc_i32(x),
    ensures
        dec_i32(s, i) == Option::<(i32, int)>::Some((x, i + 4)),
{
    assert forall|k: int| 0 <= k < 4 implies s[i + k] == enc_i32(x)[k] by {
        assert(s.subrange(i, i + 4)[k] == s[i + k]);
    }
    assert(s[i + 0] == enc_i32(x)[0]);
    assert(s[i + 1] == enc_i32(x)[1]);
    assert(s[i + 2] == enc_i32(x)[2]);
    assert(s[i + 3] == enc_i32(x)[3]);
    assert((((((x as u32) >> 24) as u8) as u32) << 24 | ((((x as u32) >> 16) as u8) as u32) << 16
        | ((((x as u32) >> 8) as u8) as u32) << 8 | (((x as u32) as u8) as u32)) as i32
        == x) by (bit_vector);
}

/// Decoding a buffer that holds `enc_i64(x)` at `i` yields `x`.
pub proof fn lemma_dec_enc_i64(s: Seq<u8>, i: int, x: i64)
    requires
        0 <= i,
        i + 8 <= s.len(),
        s.subrange(i, i + 8) == enc_i64(x),
    ensures
        dec_i64(s, i) == Option::<(i64, int)>::Some((x, i + 8)),
{
    assert forall|k: int| 0 <= k < 8 implies s[i + k] == enc_i64(x)[k] by {
        assert(s.subrange(i, i + 8)[k] == s[i + k]);
    }
    assert(s[i + 0] == enc_i64(x)[0]);
    assert(s[i + 1] == enc_i64(x)[1]);
    assert(s[i + 2] == enc_i64(x)[2]);
    assert(s[i + 3] == enc_i64(x)[3]);
    assert(s[i + 4] == enc_i64(x)[4]);
    assert(s[i + 5] == enc_i64(x)[5]);
    assert(s[i + 6] == enc_i64(x)[6]);
    assert(s[i + 7] == enc_i64(x)[7]);
    assert((((((x as u64) >> 56) as u8) as u64) << 56 | ((((x as u64) >> 48) as u8) as u64) << 48
        | ((((x as u64) >> 40) as u8) as u64) << 40 | ((((x as u64) >> 32) as u8) as u64) << 32
        | ((((x as u64) >> 24) as u8) as u64) << 24 | ((((x as u64) >> 16) as u8) as u64) << 16
        | ((((x as u64) >> 8) as u8) as u64) << 8 | (((x as u64) as u8) as u64)) as i64
        == x) by (bit_vector);
}

/// The byte count of an unsigned varint: one to five bytes, with the usual
/// seven-bit thresholds.
pub proof fn lemma_enc_uvarint_len(u: u32)
    ensures
        1 <= enc_uvarint(u).len() <= 5,
        u < 0x80 ==> enc_uvarint(u).len() == 1,
        u < 0x4000 ==> enc_uvarint(u).len() <= 2,
        u < 0x200000 ==> enc_uvarint(u).len() <= 3,
        u < 0x10000000 ==> enc_uvarint(u).len() <= 4,
    decreases u,
{
    if u >= 128 {
        lemma_enc_uvarint_len(u / 128);
    }
}

/// Base-128 decoding undoes base-128 encoding, with any fuel that covers
/// the encoded length.
pub proof fn lemma_dec_enc_uvarint_nat(s: Seq<u8>, i: int, u: u32, fuel: nat)
    requires
        0 <= i,
        i + enc_uvarint(u).len() <= s.len(),
        s.subrange(i, i + enc_uvarint(u).len()) == enc_uvarint(u),
        fuel >= enc_uvarint(u).len(),
    ensures
        dec_uvarint_nat(s, i, fuel) == Option::<(nat, int)>::Some(
            (u as nat, i + enc_uvarint(u).len()),
        ),
    decreases u,
{
    let e = enc_uvarint(u);
    let sub = s.subrange(i, i + e.len());
    if u < 128 {
        assert(sub[0] == s[i + 0]);
        assert(s[i] == u as u8);
    } else {
        let tail = enc_uvarint(u / 128);
        assert(sub[0] == s[i + 0]);
        assert(s[i] == (u % 128 + 128) as u8);
        assert(s.subrange(i + 1, i + 1 + tail.len()) =~= tail) by {
            assert forall|k: int| 0 <= k < tail.len() implies s.subrange(
                i + 1,
                i + 1 + tail.len(),
            )[k] == tail[k] by {
                assert(s.subrange(i + 1, i + 1 + tail.len())[k] == s[i + 1 + k]);
                assert(sub[1 + k] == s[i + (1 + k)]);
                assert(e[1 + k] == tail[k]);
            }
        }
        lemma_dec_enc_uvarint_nat(s, i + 1, u / 128, (fuel - 1) as nat);
        assert(s[i] >= 128);
        assert((s[i] - 128) as nat + 128 * ((u / 128) as nat) == u as nat);
    }
}

/// Varint round trip for the unsigned value.
pub proof fn lemma_dec_enc_uvarint(s: Seq<u8>, i: int, u: u32)
    requires
        0 <= i,
        i + enc_uvarint(u).len() <= s.len(),
        s.subrange(i, i + enc_uvarint(u).len()) == enc_uvarint(u),
    ensures
        dec_uvarint(s, i) == Option::<(u32, int)>::Some((u, i + enc_uvarint(u).len())),
{
    lemma_enc_uvarint_len(u);
    lemma_dec_enc_uvarint_nat(s, i, u, 5);
}

/// A signed varint also takes one to five bytes.
pub proof fn lemma_enc_varint_len(n: i32)
    ensures
        1 <= enc_varint(n).len() <= 5,
{
    lemma_enc_uvarint_len(zigzag(n));
}

/// A varint-length blob takes at most five bytes more than its contents.
pub proof fn lemma_enc_varlen_bytes_len(b: Seq<u8>)
    ensures
        b.len() + 1 <= enc_varlen_bytes(b).len() <= b.len() + 5,
{
    lemma_enc_varint_len(b.len() as i32);
}

/// The zig-zag map is undone by its inverse, for every signed 32-bit value.
pub proof fn lemma_unzigzag_zigzag(n: i32)
    ensures
        unzigzag(zigzag(n)) == n,
{
}

/// Signed varint round trip: decoding an encoded varint, wherever it sits
/// in a larger buffer, yields the value back.
pub proof fn lemma_dec_enc_varint(s: Seq<u8>, i: int, n: i32)
    requires
        0 <= i,
        i + enc_varint(n).len() <= s.len(),
        s.subrange(i, i + enc_varint(n).len()) == enc_varint(n),
    ensures
        dec_varint(s, i) == Option::<(i32, int)>::Some((n, i + enc_varint(n).len())),
{
    lemma_dec_enc_uvarint(s, i, zigzag(n));
    lemma_unzigzag_zigzag(n);
}

/// String round trip, for contents short enough for the `i16` length.
pub proof fn lemma_dec_enc_string(s: Seq<u8>, i: int, b: Seq<u8>)
    requires
        0 <= i,
        b.len() <= i16::MAX,
        i + enc_string(b).len() <= s.len(),
        s.subrange(i, i + enc_string(b).len()) == enc_string(b),
    ensures
        dec_string(s, i) == Option::<(Seq<u8>, int)>::Some((b, i + enc_string(b).len())),
{
    let e = enc_string(b);
    let n = b.len() as i16;
    assert(s.subrange(i, i + 2) =~= enc_i16(n)) by {
        assert forall|k: int| 0 <= k < 2 implies s.subrange(i, i + 2)[k] == enc_i16(n)[k] by {
            assert(s.subrange(i, i + e.len())[k] == s[i + k]);
        }
    }
    lemma_dec_enc_i16(s, i, n);
    assert(s.subrange(i + 2, i + 2 + b.len()) =~= b) by {
        assert forall|k: int| 0 <= k < b.len() implies s.subrange(i + 2, i + 2 + b.len())[k]
            == b[k] by {
            assert(s.subrange(i, i + e.len())[2 + k] == s[i + 2 + k]);
        }
    }
}

/// Nullable string round trip.
pub proof fn lemma_dec_enc_nullable_string(s: Seq<u8>, i: int, o: Option<Seq<u8>>)
    requires
        0 <= i,
        o matches Option::Some(b) ==> b.len() <= i16::MAX,
        i + enc_nullable_string(o).len() <= s.len(),
        s.subrange(i, i + enc_nullable_string(o).len()) == enc_nullable_string(o),
    ensures
        dec_nullable_string(s, i) == Option::<(Option<Seq<u8>>, int)>::Some(
            (o, i + enc_nullable_string(o).len()),
        ),
{
    match o {
        Option::None => {
            lemma_dec_enc_i16(s, i, -1i16);
        },
        Option::Some(b) => {
            lemma_dec_enc_string(s, i, b);
        },
    }
}

/// `bytes` round trip, for contents short enough for the `i32` length.
pub proof fn lemma_dec_enc_bytes(s: Seq<u8>, i: int, b: Seq<u8>)
    requires
        0 <= i,
        b.len() <= i32::MAX,
        i + enc_bytes(b).len() <= s.len(),
        s.subrange(i, i + enc_bytes(b).len()) == enc_bytes(b),
    ensures
        dec_bytes(s, i) == Option::<(Seq<u8>, int)>::Some((b, i + enc_bytes(b).len())),
{
    let e = enc_bytes(b);
    let n = b.len() as i32;
    assert(s.subrange(i, i + 4) =~= enc_i32(n)) by {
        assert forall|k: int| 0 <= k < 4 implies s.subrange(i, i + 4)[k] == enc_i32(n)[k] by {
            assert(s.subrange(i, i + e.len())[k] == s[i + k]);
        }
    }
    lemma_dec_enc_i32(s, i, n);
    assert(s.subrange(i + 4, i + 4 + b.len()) =~= b) by {
        assert forall|k: int| 0 <= k < b.len() implies s.subrange(i + 4, i + 4 + b.len())[k]
            == b[k] by {
            assert(s.subrange(i, i + e.len())[4 + k] == s[i + 4 + k]);
        }
    }
}

/// The elements of an `i32` array decode back, one after another.
pub proof fn lemma_dec_enc_i32_elems(s: Seq<u8>, i: int, xs: Seq<i32>)
    requires
        0 <= i,
        i + enc_i32_elems(xs).len() <= s.len(),
        s.subrange(i, i + enc_i32_elems(xs).len()) == enc_i32_elems(xs),
    ensures
        dec_i32_elems(s, i, xs.len()) == Option::<(Seq<i32>, int)>::Some(
            (xs, i + enc_i32_elems(xs).len()),
        ),
    decreases xs.len(),
{
    let e = enc_i32_elems(xs);
    if xs.len() == 0 {
        assert(dec_i32_elems(s, i, 0) == Option::<(Seq<i32>, int)>::Some(
            (Seq::<i32>::empty(), i),
        ));
        assert(xs =~= Seq::<i32>::empty());
    } else {
        assert(e == enc_i32(xs[0]) + enc_i32_elems(xs.skip(1)));
        assert(s.subrange(i, i + 4) =~= enc_i32(xs[0])) by {
            assert forall|k: int| 0 <= k < 4 implies s.subrange(i, i + 4)[k] == enc_i32(
                xs[0],
            )[k] by {
                assert(s.subrange(i, i + e.len())[k] == s[i + k]);
            }
        }
        lemma_dec_enc_i32(s, i, xs[0]);
        let tail = enc_i32_elems(xs.skip(1));
        assert(s.subrange(i + 4, i + 4 + tail.len()) =~= tail) by {
            assert forall|k: int| 0 <= k < tail.len() implies s.subrange(
                i + 4,
                i + 4 + tail.len(),
            )[k] == tail[k] by {
                assert(s.subrange(i, i + e.len())[4 + k] == s[i + 4 + k]);
            }
        }
        lemma_dec_enc_i32_elems(s, i + 4, xs.skip(1));
        assert(xs =~= seq![xs[0]] + xs.skip(1));
    }
}

/// `array<i32>` round trip, for counts that fit the `i32` prefix.
pub proof fn lemma_dec_enc_i32_array(s: Seq<u8>, i: int, xs: Seq<i32>)
    requires
        0 <= i,
        xs.len() <= i32::MAX,
        i + enc_i32_array(xs).len() <= s.len(),
        s.subrange(i, i + enc_i32_array(xs).len()) == enc_i32_array(xs),
    ensures
        dec_i32_array(s, i) == Option::<(Seq<i32>, int)>::Some((xs, i + enc_i32_array(xs).len())),
{
    let e = enc_i32_array(xs);
    let n = xs.len() as i32;
    assert(s.subrange(i, i + 4) =~= enc_i32(n)) by {
        assert forall|k: int| 0 <= k < 4 implies s.subrange(i, i + 4)[k] == enc_i32(n)[k] by {
            assert(s.subrange(i, i + e.len())[k] == s[i + k]);
        }
    }
    lemma_dec_enc_i32(s, i, n);
    let tail = enc_i32_elems(xs);
    assert(s.subrange(i + 4, i + 4 + tail.len()) =~= tail) by {
        assert forall|k: int| 0 <= k < tail.len() implies s.subrange(
            i + 4,
            i + 4 + tail.len(),
        )[k] == tail[k] by {
            assert(s.subrange(i, i + e.len())[4 + k] == s[i + 4 + k]);
        }
    }
    lemma_dec_enc_i32_elems(s, i + 4, xs);
}

/// Varint-length byte blob round trip.
pub proof fn lemma_dec_enc_varlen_bytes(s: Seq<u8>, i: int, b: Seq<u8>)
    requires
        0 <= i,
        b.len() <= i32::MAX,
        i + enc_varlen_bytes(b).len() <= s.len(),
        s.subrange(i, i + enc_varlen_bytes(b).len()) == enc_varlen_bytes(b),
    ensures
        dec_varlen_bytes(s, i) == Option::<(Seq<u8>, int)>::Some(
            (b, i + enc_varlen_bytes(b).len()),
        ),
{
    let n = b.len() as i32;
    let vl = enc_varint(n).len() as int;
    assert(s.subrange(i, i + vl) =~= enc_varint(n)) by {
        assert forall|k: int| 0 <= k < vl implies s.subrange(i, i + vl)[k] == enc_varint(n)[k] by {
            assert(s.subrange(i, i + enc_varlen_bytes(b).len())[k] == s[i + k]);
        }
    }
    lemma_dec_enc_varint(s, i, n);
    assert(s.subrange(i + vl, i + vl + b.len()) =~= b) by {
        assert forall|k: int| 0 <= k < b.len() implies s.subrange(i + vl, i + vl + b.len())[k]
            == b[k] by {
            assert(s.subrange(i, i + enc_varlen_bytes(b).len())[vl + k] == s[i + vl + k]);
        }
    }
}

} // verus!
