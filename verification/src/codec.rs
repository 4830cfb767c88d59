use vstd::prelude::*;
use base64::Engine;
use sha2::Digest;

verus! {

// ---------------------------------------------------------------------------
// Hexadecimal
// ---------------------------------------------------------------------------

/// The value of one hexadecimal digit, upper or lower case.
pub open spec fn hex_digit_value(c: char) -> Option<u8> {
    if '0' <= c && c <= '9' {
        Some((c as u32 - '0' as u32) as u8)
    } else if 'a' <= c && c <= 'f' {
        Some((c as u32 - 'a' as u32 + 10) as u8)
    } else if 'A' <= c && c <= 'F' {
        Some((c as u32 - 'A' as u32 + 10) as u8)
    } else {
        None
    }
}

/// Hexadecimal decoding: an even number of hex digits, two per byte, high
/// nibble first; anything else has no decoding.
pub open spec fn hex_decoding(s: Seq<char>) -> Option<Seq<u8>> {
    if s.len() % 2 == 0 && forall|i: int| 0 <= i < s.len() ==> #[trigger] hex_digit_value(s[i]) is Some {
        Some(Seq::new(s.len() / 2, |i: int|
            (hex_digit_value(s[2 * i]).unwrap() * 16 + hex_digit_value(s[2 * i + 1]).unwrap()) as u8))
    } else {
        None
    }
}

/// The lower-case hex digit of a nibble.
pub open spec fn hex_lower_digit(n: int) -> char {
    if n < 10 { (n + '0' as int) as char } else { (n - 10 + 'a' as int) as char }
}

/// Lower-case hexadecimal encoding, two digits per byte, high nibble first.
pub open spec fn hex_lower(b: Seq<u8>) -> Seq<char> {
    Seq::new(2 * b.len(), |i: int|
        if i % 2 == 0 { hex_lower_digit(b[i / 2] as int / 16) } else { hex_lower_digit(b[i / 2] as int % 16) })
}

/// Each lower-case digit reads back as its nibble.
pub proof fn lemma_hex_lower_digit_value(n: int)
    requires
        0 <= n < 16,
    ensures
        hex_digit_value(hex_lower_digit(n)) == Some(n as u8),
{
    if n < 10 {
        assert(((n + '0' as int) as char) as u32 == n + 48);
    } else {
        assert(((n - 10 + 'a' as int) as char) as u32 == n + 87);
    }
}

/// Decoding what lower-case hex encoding writes gives the bytes back.
pub proof fn hex_encoding_round_trips(b: Seq<u8>)
    ensures
        hex_decoding(hex_lower(b)) == Some(b),
{
    let s = hex_lower(b);
    assert forall|i: int| 0 <= i < s.len() implies #[trigger] hex_digit_value(s[i]) is Some by {
        if i % 2 == 0 {
            lemma_hex_lower_digit_value(b[i / 2] as int / 16);
        } else {
            lemma_hex_lower_digit_value(b[i / 2] as int % 16);
        }
    }
    let d = hex_decoding(s).unwrap();
    assert forall|i: int| 0 <= i < b.len() implies d[i] == b[i] by {
        lemma_hex_lower_digit_value(b[i] as int / 16);
        lemma_hex_lower_digit_value(b[i] as int % 16);
        assert(s[2 * i] == hex_lower_digit(b[i] as int / 16));
        assert(s[2 * i + 1] == hex_lower_digit(b[i] as int % 16));
        assert((2 * i + 1) / 2 == i);
    }
    assert(d =~= b);
}

/// Decodes a hex string, upper or lower case digits.
///
/// Calls `hex::decode`, which refuses an odd length and any character that is
/// not a hex digit, and otherwise yields one byte per digit pair, high nibble
/// first.
#[verifier::external_body]
pub(crate) fn hex_decode(s: &str) -> (r: Option<Vec<u8>>)
    ensures
        match r {
            Some(v) => hex_decoding(s@) == Some(v@),
            None => hex_decoding(s@) is None,
        },
{
    hex::decode(s).ok()
}

/// Encodes bytes as lower-case hex.
///
/// Calls `hex::encode`, which writes two lower-case digits per byte from the
/// table `0123456789abcdef`, high nibble first; `requires` keeps the encoded
/// length within `usize`.
#[verifier::external_body]
pub(crate) fn hex_encode(b: &[u8]) -> (r: String)
    requires
        2 * b@.len() <= usize::MAX,
    ensures
        r@ == hex_lower(b@),
{
    hex::encode(b)
}

// ---------------------------------------------------------------------------
// Base64 (standard alphabet, padded)
// ---------------------------------------------------------------------------

/// Padded standard base64: each three bytes become four symbols of six bits,
/// high bits first; a final one or two bytes are padded with zero bits to two
/// or three symbols and then with `=` to four.
pub open spec fn base64_encoding(b: Seq<u8>) -> Seq<char>
    decreases b.len(),
{
    if b.len() == 0 {
        Seq::empty()
    } else if b.len() == 1 {
        seq![base64_symbol(b[0] as int / 4), base64_symbol((b[0] as int % 4) * 16), '=', '=']
    } else if b.len() == 2 {
        seq![base64_symbol(b[0] as int / 4), base64_symbol((b[0] as int % 4) * 16 + b[1] as int / 16),
            base64_symbol((b[1] as int % 16) * 4), '=']
    } else {
        seq![base64_symbol(b[0] as int / 4), base64_symbol((b[0] as int % 4) * 16 + b[1] as int / 16),
            base64_symbol((b[1] as int % 16) * 4 + b[2] as int / 64), base64_symbol(b[2] as int % 64)]
            + base64_encoding(b.skip(3))
    }
}

/// Decoding padded standard base64: a text decodes to the bytes whose
/// encoding it is (there is at most one such), and any other text has no
/// decoding.
pub open spec fn base64_decoding(s: Seq<char>) -> Option<Seq<u8>> {
    if exists|b: Seq<u8>| base64_encoding(b) == s {
        Some(choose|b: Seq<u8>| base64_encoding(b) == s)
    } else {
        None
    }
}

/// Decodes padded standard base64.
///
/// Calls `base64::engine::general_purpose::STANDARD.decode`. That engine
/// requires canonical padding and zero trailing bits, so it accepts exactly
/// the texts that its encoder writes: it answers the bytes whose encoding the
/// text is, and refuses a text that encodes no bytes.
#[verifier::external_body]
fn base64_decode_standard(s: &str) -> (r: Option<Vec<u8>>)
    ensures
        match r {
            Some(v) => base64_encoding(v@) == s@,
            None => forall|b: Seq<u8>| base64_encoding(b) != s@,
        },
{
    base64::engine::general_purpose::STANDARD.decode(s).ok()
}

/// Decodes padded standard base64: the text's decoding, or `None` when it has
/// none.
pub(crate) fn base64_decode(s: &str) -> (r: Option<Vec<u8>>)
    ensures
        match r {
            Some(v) => base64_decoding(s@) == Some(v@),
            None => base64_decoding(s@) is None,
        },
{
    let r = base64_decode_standard(s);
    proof {
        if r is Some {
            lemma_base64_decoding_of_encoding(r->0@);
        }
    }
    r
}

/// Encodes bytes as padded standard base64.
///
/// Calls `base64::engine::general_purpose::STANDARD.encode`, which writes
/// `base64_encoding` of the bytes; it panics only when the encoded length
/// overflows `usize`, which `requires` rules out.
#[verifier::external_body]
pub(crate) fn base64_encode(b: &[u8]) -> (r: String)
    requires
        (b@.len() / 3) * 4 + 4 <= usize::MAX,
    ensures
        r@ == base64_encoding(b@),
{
    base64::engine::general_purpose::STANDARD.encode(b)
}

/// The encoding of `n` bytes has `4 * ceil(n / 3)` symbols.
pub proof fn lemma_base64_encoding_len(b: Seq<u8>)
    ensures
        base64_encoding(b).len() == 4 * ((b.len() + 2) / 3),
    decreases b.len(),
{
    if b.len() >= 3 {
        lemma_base64_encoding_len(b.skip(3));
    }
}

/// The bytes of one encoded group are determined by its symbols.
proof fn lemma_base64_group(x0: int, x1: int, x2: int, y0: int, y1: int, y2: int)
    requires
        0 <= x0 < 256, 0 <= x1 < 256, 0 <= x2 < 256,
        0 <= y0 < 256, 0 <= y1 < 256, 0 <= y2 < 256,
        x0 / 4 == y0 / 4,
        (x0 % 4) * 16 + x1 / 16 == (y0 % 4) * 16 + y1 / 16,
        (x1 % 16) * 4 + x2 / 64 == (y1 % 16) * 4 + y2 / 64,
        x2 % 64 == y2 % 64,
    ensures
        x0 == y0, x1 == y1, x2 == y2,
{
}

/// Distinct byte strings have distinct encodings.
pub proof fn lemma_base64_encoding_injective(a: Seq<u8>, b: Seq<u8>)
    requires
        base64_encoding(a) == base64_encoding(b),
    ensures
        a == b,
    decreases a.len(),
{
    lemma_base64_encoding_len(a);
    lemma_base64_encoding_len(b);
    let (ea, eb) = (base64_encoding(a), base64_encoding(b));
    if a.len() == 0 || b.len() == 0 {
        assert(a =~= b);
        return;
    }
    let a0 = a[0] as int;
    let b0 = b[0] as int;
    let a1 = if a.len() > 1 { a[1] as int } else { 0 };
    let b1 = if b.len() > 1 { b[1] as int } else { 0 };
    let a2 = if a.len() > 2 { a[2] as int } else { 0 };
    let b2 = if b.len() > 2 { b[2] as int } else { 0 };
    lemma_base64_symbol(a0 / 4, b0 / 4);
    lemma_base64_symbol((a0 % 4) * 16 + a1 / 16, (b0 % 4) * 16 + b1 / 16);
    lemma_base64_symbol((a1 % 16) * 4 + a2 / 64, (b1 % 16) * 4 + b2 / 64);
    lemma_base64_symbol(a2 % 64, b2 % 64);
    lemma_base64_symbol((a0 % 4) * 16, (b0 % 4) * 16);
    lemma_base64_symbol((a1 % 16) * 4, (b1 % 16) * 4);
    lemma_base64_symbol((a0 % 4) * 16, (b0 % 4) * 16 + b1 / 16);
    lemma_base64_symbol((a0 % 4) * 16 + a1 / 16, (b0 % 4) * 16);
    lemma_base64_symbol((a1 % 16) * 4, (b1 % 16) * 4 + b2 / 64);
    lemma_base64_symbol((a1 % 16) * 4 + a2 / 64, (b1 % 16) * 4);
    assert(ea[0] == eb[0] && ea[1] == eb[1] && ea[2] == eb[2] && ea[3] == eb[3]);
    // the padding tells the group's length
    assert(a.len() == 1 <==> ea[2] == '=');
    assert(b.len() == 1 <==> eb[2] == '=');
    assert(a.len() == 2 <==> (ea[2] != '=' && ea[3] == '='));
    assert(b.len() == 2 <==> (eb[2] != '=' && eb[3] == '='));
    if a.len() == 1 {
        assert(b.len() == 1);
        lemma_base64_group(a0, 0, 0, b0, 0, 0);
        assert(a =~= b);
    } else if a.len() == 2 {
        assert(b.len() == 2);
        lemma_base64_group(a0, a1, 0, b0, b1, 0);
        assert(a =~= b);
    } else {
        assert(b.len() >= 3);
        lemma_base64_group(a0, a1, a2, b0, b1, b2);
        assert(ea.skip(4) =~= base64_encoding(a.skip(3)));
        assert(eb.skip(4) =~= base64_encoding(b.skip(3)));
        lemma_base64_encoding_injective(a.skip(3), b.skip(3));
        assert(a =~= a.take(3) + a.skip(3));
        assert(b =~= b.take(3) + b.skip(3));
        assert(a.take(3) =~= b.take(3));
    }
}

/// The encoding of bytes decodes back to them.
pub proof fn lemma_base64_decoding_of_encoding(b: Seq<u8>)
    ensures
        base64_decoding(base64_encoding(b)) == Some(b),
{
    let s = base64_encoding(b);
    assert(exists|x: Seq<u8>| base64_encoding(x) == s);
    let c = choose|x: Seq<u8>| base64_encoding(x) == s;
    lemma_base64_encoding_injective(c, b);
}

// ---------------------------------------------------------------------------
// SHA-256
// ---------------------------------------------------------------------------

/// The SHA-256 digest of a byte string.
pub uninterp spec fn sha256_of(b: Seq<u8>) -> Seq<u8>;

/// SHA-256 of a byte string.
///
/// Calls `sha2::Sha256::digest`; the digest is named by `sha256_of` and, as the
/// type `GenericArray<u8, U32>` that it returns fixes, is 32 bytes long.
#[verifier::external_body]
pub(crate) fn sha256(b: &[u8]) -> (r: Vec<u8>)
    ensures
        r@ == sha256_of(b@),
        r@.len() == 32,
{
    sha2::Sha256::digest(b).to_vec()
}

/// The SHA-256 digest of a byte string (32 bytes).
pub fn sha256_digest(bytes: &[u8]) -> (r: Vec<u8>)
    ensures
        r@ == sha256_of(bytes@),
        r@.len() == 32,
{
    sha256(bytes)
}

// ---------------------------------------------------------------------------
// Big-endian integers
// ---------------------------------------------------------------------------

/// The `n` low-order bytes of `x`, most significant first.
pub open spec fn be_bytes(x: nat, n: nat) -> Seq<u8>
    decreases n,
{
    if n == 0 {
        Seq::empty()
    } else {
        be_bytes(x / 256, (n - 1) as nat).push((x % 256) as u8)
    }
}

/// The 16 bytes of an identifier, as `Uuid::as_bytes` lays them out.
pub open spec fn uuid_bytes(id: u128) -> Seq<u8> {
    be_bytes(id as nat, 16)
}

pub proof fn lemma_be_bytes_len(x: nat, n: nat)
    ensures
        be_bytes(x, n).len() == n,
    decreases n,
{
    if n > 0 {
        lemma_be_bytes_len(x / 256, (n - 1) as nat);
    }
}

/// Two numbers below `256^n` with the same `n` bytes are equal.
pub proof fn lemma_be_bytes_injective(x: nat, y: nat, n: nat)
    requires
        x < pow256(n),
        y < pow256(n),
        be_bytes(x, n) == be_bytes(y, n),
    ensures
        x == y,
    decreases n,
{
    if n > 0 {
        let (bx, by) = (be_bytes(x / 256, (n - 1) as nat), be_bytes(y / 256, (n - 1) as nat));
        lemma_be_bytes_len(x / 256, (n - 1) as nat);
        lemma_be_bytes_len(y / 256, (n - 1) as nat);
        assert(be_bytes(x, n).last() == (x % 256) as u8);
        assert(be_bytes(y, n).last() == (y % 256) as u8);
        assert(be_bytes(x, n).drop_last() =~= bx);
        assert(be_bytes(y, n).drop_last() =~= by);
        assert(x / 256 < pow256((n - 1) as nat)) by (nonlinear_arith)
            requires x < pow256(n), pow256(n) == 256 * pow256((n - 1) as nat);
        assert(y / 256 < pow256((n - 1) as nat)) by (nonlinear_arith)
            requires y < pow256(n), pow256(n) == 256 * pow256((n - 1) as nat);
        lemma_be_bytes_injective(x / 256, y / 256, (n - 1) as nat);
        assert(x == 256 * (x / 256) + x % 256);
        assert(y == 256 * (y / 256) + y % 256);
    }
}

/// `256^n`.
pub open spec fn pow256(n: nat) -> nat
    decreases n,
{
    if n == 0 { 1 } else { 256 * pow256((n - 1) as nat) }
}

pub proof fn lemma_pow256_values()
    ensures
        pow256(4) == 0x1_0000_0000,
        pow256(8) == 0x1_0000_0000_0000_0000,
        pow256(16) == 0x1_0000_0000_0000_0000_0000_0000_0000_0000,
{
    reveal_with_fuel(pow256, 17);
}

/// The two's-complement bits of an `i32`.
pub open spec fn i32_bits(v: i32) -> u32 {
    #[verifier::truncate] (v as u32)
}

/// The two's-complement bits of an `i64`.
pub open spec fn i64_bits(v: i64) -> u64 {
    #[verifier::truncate] (v as u64)
}

/// Appends the `n` low-order bytes of `x`, most significant first.
pub fn push_be_bytes(out: &mut Vec<u8>, x: u128, n: usize)
    requires
        n <= 16,
    ensures
        final(out)@ == old(out)@ + be_bytes(x as nat, n as nat),
    decreases n,
{
    if n > 0 {
        push_be_bytes(out, x / 256, n - 1);
        out.push((x % 256) as u8);
        proof {
            assert(be_bytes(x as nat, n as nat) == be_bytes((x / 256) as nat, (n - 1) as nat).push(
                (x % 256) as u8));
        }
    } else {
        assert(be_bytes(x as nat, 0) =~= Seq::<u8>::empty());
        assert(old(out)@ + Seq::<u8>::empty() =~= old(out)@);
    }
    assert(final(out)@ =~= old(out)@ + be_bytes(x as nat, n as nat));
}

/// Whether two byte strings are equal.
pub fn bytes_equal(a: &[u8], b: &[u8]) -> (eq: bool)
    ensures
        eq == (a@ == b@),
{
    if a.len() != b.len() {
        return false;
    }
    let n = a.len();
    for i in 0..n
        invariant
            n == a@.len(),
            n == b@.len(),
            forall|j: int| 0 <= j < i ==> a@[j] == b@[j],
    {
        if a[i] != b[i] {
            return false;
        }
    }
    assert(a@ =~= b@);
    true
}

/// Whether every byte is zero.
pub fn all_zero(a: &[u8]) -> (z: bool)
    ensures
        z == forall|j: int| 0 <= j < a@.len() ==> a@[j] == 0,
{
    let n = a.len();
    for i in 0..n
        invariant
            n == a@.len(),
            forall|j: int| 0 <= j < i ==> a@[j] == 0,
    {
        if a[i] != 0 {
            return false;
        }
    }
    true
}

/// Appends the bytes of `data`.
pub fn push_all(out: &mut Vec<u8>, data: &[u8])
    ensures
        final(out)@ == old(out)@ + data@,
{
    let ghost start = out@;
    let n = data.len();
    for i in 0..n
        invariant
            n == data@.len(),
            out@ == start + data@.subrange(0, i as int),
    {
        out.push(data[i]);
        assert(data@.subrange(0, i + 1) == data@.subrange(0, i as int).push(data@[i as int]));
        assert(out@ =~= start + data@.subrange(0, i + 1));
    }
    assert(data@.subrange(0, n as int) =~= data@);
}

// ---------------------------------------------------------------------------
// Derived identifiers
// ---------------------------------------------------------------------------

/// The identifiers `parts`, 16 bytes each, one after the other.
pub open spec fn uuid_concat(parts: Seq<u128>) -> Seq<u8>
    decreases parts.len(),
{
    if parts.len() == 0 {
        Seq::empty()
    } else {
        uuid_concat(parts.drop_last()) + uuid_bytes(parts.last())
    }
}

/// The bytes hashed to derive an identifier.
pub open spec fn derivation_message(domain: Seq<u8>, context: Seq<u8>, parts: Seq<u128>) -> Seq<u8> {
    domain + context + uuid_concat(parts)
}

/// The first 16 bytes of a digest, stamped with version 8 and the RFC 4122
/// variant.
pub open spec fn stamp_uuid(hash: Seq<u8>) -> Seq<u8> {
    Seq::new(16, |i: int|
        if i == 6 { (hash[6] & 0x0f) | 0x80 } else if i == 8 { (hash[8] & 0x3f) | 0x80 } else { hash[i] })
}

/// The identifier derived from a domain, a context and identifiers.
pub open spec fn derived_id(domain: Seq<u8>, context: Seq<u8>, parts: Seq<u128>) -> Seq<u8> {
    stamp_uuid(sha256_of(derivation_message(domain, context, parts)))
}

/// Derives a deterministic identifier: SHA-256 of the domain, the context and
/// the identifiers' bytes, cut to 16 bytes and stamped with version 8 and the
/// RFC 4122 variant.
pub fn derive_id(domain: &[u8], context: &[u8], parts: &[u128]) -> (id: Vec<u8>)
    ensures
        id@ == derived_id(domain@, context@, parts@),
{
    let mut message: Vec<u8> = Vec::new();
    push_all(&mut message, domain);
    push_all(&mut message, context);
    let n = parts.len();
    for i in 0..n
        invariant
            n == parts@.len(),
            message@ == domain@ + context@ + uuid_concat(parts@.subrange(0, i as int)),
    {
        push_be_bytes(&mut message, parts[i], 16);
        assert(parts@.subrange(0, i + 1).drop_last() =~= parts@.subrange(0, i as int));
        assert(message@ =~= domain@ + context@ + uuid_concat(parts@.subrange(0, i + 1)));
    }
    assert(parts@.subrange(0, n as int) =~= parts@);
    let hash = sha256(message.as_slice());
    let mut id: Vec<u8> = Vec::new();
    for i in 0..16
        invariant
            hash@.len() == 32,
            hash@ == sha256_of(derivation_message(domain@, context@, parts@)),
            id@ =~= stamp_uuid(hash@).subrange(0, i as int),
    {
        let b = hash[i];
        if i == 6 {
            id.push((b & 0x0f) | 0x80);
        } else if i == 8 {
            id.push((b & 0x3f) | 0x80);
        } else {
            id.push(b);
        }
    }
    id
}

/// A derived identifier is 16 bytes, carries version 8 in the high nibble of
/// byte 6 and the RFC 4122 variant (`10`) in the top bits of byte 8.
pub proof fn derived_ids_are_version_8_rfc_4122(domain: Seq<u8>, context: Seq<u8>, parts: Seq<u128>)
    ensures
        derived_id(domain, context, parts).len() == 16,
        derived_id(domain, context, parts)[6] >> 4u8 == 8,
        derived_id(domain, context, parts)[8] >> 6u8 == 2,
{
    let h = sha256_of(derivation_message(domain, context, parts));
    let (a, b) = (h[6], h[8]);
    assert(((a & 0x0f) | 0x80) >> 4u8 == 8) by (bit_vector);
    assert(((b & 0x3f) | 0x80) >> 6u8 == 2) by (bit_vector);
}

/// The base64 symbol of a 6-bit value (standard alphabet).
pub open spec fn base64_symbol(v: int) -> char {
    if v < 26 {
        (v + 65) as char
    } else if v < 52 {
        (v - 26 + 97) as char
    } else if v < 62 {
        (v - 52 + 48) as char
    } else if v == 62 {
        '+'
    } else {
        '/'
    }
}

/// Distinct 6-bit values have distinct symbols, and none is the padding `=`.
pub proof fn lemma_base64_symbol(v: int, w: int)
    requires
        0 <= v < 64,
        0 <= w < 64,
    ensures
        base64_symbol(v) != '=',
        base64_symbol(v) == base64_symbol(w) ==> v == w,
{
    assert(base64_symbol(v) as int == if v < 26 { v + 65 } else if v < 52 { v + 71 } else if v < 62 { v - 4 }
        else if v == 62 { 43 } else { 47 });
    assert(base64_symbol(w) as int == if w < 26 { w + 65 } else if w < 52 { w + 71 } else if w < 62 { w - 4 }
        else if w == 62 { 43 } else { 47 });
}

} // verus!
