//! Byte and integer utilities.

use vstd::prelude::*;

verus! {

/// 256 to the power `n`.
pub open spec fn pow256(n: nat) -> nat
    decreases n,
{
    if n == 0 {
        1
    } else {
        256 * pow256((n - 1) as nat)
    }
}

/// The number that `s` writes in base 256, most significant byte first.
pub open spec fn be_value(s: Seq<u8>) -> nat
    decreases s.len(),
{
    if s.len() == 0 {
        0
    } else {
        256 * be_value(s.drop_last()) + s.last() as nat
    }
}

/// The number that `s` writes in base 256, least significant byte first.
pub open spec fn le_value(s: Seq<u8>) -> nat
    decreases s.len(),
{
    if s.len() == 0 {
        0
    } else {
        s[0] as nat + 256 * le_value(s.drop_first())
    }
}

/// A number written with `n` bytes is below `256^n`.
pub proof fn lemma_be_value_bound(s: Seq<u8>)
    ensures
        be_value(s) < pow256(s.len()),
    decreases s.len(),
{
    if s.len() > 0 {
        lemma_be_value_bound(s.drop_last());
    }
}

/// A number written with `n` bytes is below `256^n`.
pub proof fn lemma_le_value_bound(s: Seq<u8>)
    ensures
        le_value(s) < pow256(s.len()),
    decreases s.len(),
{
    if s.len() > 0 {
        lemma_le_value_bound(s.drop_first());
    }
}

/// Different bytes write different numbers: two sequences of one length
/// that write the same number, least significant byte first, are the same.
pub proof fn lemma_le_value_injective(a: Seq<u8>, b: Seq<u8>)
    requires
        a.len() == b.len(),
        le_value(a) == le_value(b),
    ensures
        a == b,
    decreases a.len(),
{
    if a.len() > 0 {
        lemma_le_value_injective(a.drop_first(), b.drop_first());
        assert(a =~= seq![a[0]] + a.drop_first());
        assert(b =~= seq![b[0]] + b.drop_first());
    } else {
        assert(a =~= b);
    }
}

/// The values of `pow256` at the widths of the machine integers.
pub proof fn lemma_pow256_widths()
    ensures
        pow256(4) == 0x1_0000_0000,
        pow256(8) == 0x1_0000_0000_0000_0000,
        pow256(16) == 0x1_0000_0000_0000_0000_0000_0000_0000_0000,
{
    reveal_with_fuel(pow256, 17);
}

/// `pow256` grows with its argument.
pub proof fn lemma_pow256_monotonic(a: nat, b: nat)
    requires
        a <= b,
    ensures
        pow256(a) <= pow256(b),
        pow256(a) >= 1,
    decreases b,
{
    if a < b {
        lemma_pow256_monotonic(a, (b - 1) as nat);
    } else if a > 0 {
        lemma_pow256_monotonic((a - 1) as nat, (a - 1) as nat);
    }
}

/// Reads up to eight bytes as a number, most significant byte first.
fn be_bytes_to_u64(slice: &[u8]) -> (r: u64)
    requires
        slice@.len() <= 8,
    ensures
        r == be_value(slice@),
{
    let mut acc: u64 = 0;
    let mut i: usize = 0;
    while i < slice.len()
        invariant
            i <= slice@.len() <= 8,
            acc == be_value(slice@.take(i as int)),
        decreases slice@.len() - i,
    {
        proof {
            let prefix = slice@.take(i as int);
            let next = slice@.take(i + 1);
            assert(next.drop_last() == prefix);
            lemma_be_value_bound(prefix);
            lemma_pow256_monotonic(i as nat, 7);
            lemma_pow256_widths();
            reveal_with_fuel(pow256, 9);
        }
        acc = acc * 256 + slice[i] as u64;
        i += 1;
    }
    proof {
        assert(slice@.take(i as int) == slice@);
    }
    acc
}

/// Reads up to eight bytes as a number, least significant byte first.
fn le_bytes_to_u64(slice: &[u8]) -> (r: u64)
    requires
        slice@.len() <= 8,
    ensures
        r == le_value(slice@),
{
    let mut acc: u64 = 0;
    let mut i: usize = slice.len();
    while i > 0
        invariant
            i <= slice@.len() <= 8,
            acc == le_value(slice@.skip(i as int)),
        decreases i,
    {
        proof {
            let suffix = slice@.skip(i as int);
            let next = slice@.skip(i - 1);
            assert(next.drop_first() == suffix);
            lemma_le_value_bound(suffix);
            lemma_pow256_monotonic(suffix.len(), 7);
            reveal_with_fuel(pow256, 9);
        }
        i -= 1;
        acc = acc * 256 + slice[i] as u64;
    }
    proof {
        assert(slice@.skip(0) == slice@);
    }
    acc
}

/// Converts sixteen bytes, least significant first, into a `u128`.
pub fn u8_le_slice_to_u128(slice: &[u8]) -> (r: u128)
    requires
        slice@.len() == 16,
    ensures
        r == le_value(slice@),
{
    let mut acc: u128 = 0;
    let mut i: usize = slice.len();
    while i > 0
        invariant
            i <= slice@.len() == 16,
            acc == le_value(slice@.skip(i as int)),
        decreases i,
    {
        proof {
            let suffix = slice@.skip(i as int);
            assert(slice@.skip(i - 1).drop_first() == suffix);
            lemma_le_value_bound(suffix);
            lemma_pow256_monotonic(suffix.len(), 15);
            reveal_with_fuel(pow256, 17);
        }
        i -= 1;
        acc = acc * 256 + slice[i] as u128;
    }
    proof {
        assert(slice@.skip(0) == slice@);
    }
    acc
}

/// The eight bytes of a `u64`, most significant first.
pub fn u64_to_bigendian_u8array(x: u64) -> (bytes: [u8; 8])
    ensures
        be_value(bytes@) == x,
{
    proof {
        assert((x >> 56) <= 0xff && ((x >> 48) & 0xff) <= 0xff && ((x >> 40) & 0xff) <= 0xff && ((x
            >> 32) & 0xff) <= 0xff && ((x >> 24) & 0xff) <= 0xff && ((x >> 16) & 0xff) <= 0xff && ((x
            >> 8) & 0xff) <= 0xff && (x & 0xff) <= 0xff) by (bit_vector);
        assert(x == (x >> 56) * 0x100_0000_0000_0000 + ((x >> 48) & 0xff) * 0x1_0000_0000_0000 + ((x
            >> 40) & 0xff) * 0x100_0000_0000 + ((x >> 32) & 0xff) * 0x1_0000_0000 + ((x >> 24)
            & 0xff) * 0x100_0000 + ((x >> 16) & 0xff) * 0x1_0000 + ((x >> 8) & 0xff) * 0x100 + (x
            & 0xff)) by (bit_vector);
    }
    let b0: u8 = (x >> 56) as u8;
    let b1: u8 = ((x >> 48) & 0xff) as u8;
    let b2: u8 = ((x >> 40) & 0xff) as u8;
    let b3: u8 = ((x >> 32) & 0xff) as u8;
    let b4: u8 = ((x >> 24) & 0xff) as u8;
    let b5: u8 = ((x >> 16) & 0xff) as u8;
    let b6: u8 = ((x >> 8) & 0xff) as u8;
    let b7: u8 = (x & 0xff) as u8;
    let bytes: [u8; 8] = [b0, b1, b2, b3, b4, b5, b6, b7];
    proof {
        let s = bytes@;
        assert(s =~= seq![b0, b1, b2, b3, b4, b5, b6, b7]);
        let first7 = s.drop_last();
        let first6 = first7.drop_last();
        let first5 = first6.drop_last();
        let first4 = first5.drop_last();
        let first3 = first4.drop_last();
        let first2 = first3.drop_last();
        let first1 = first2.drop_last();
        assert(first1 =~= seq![b0]);
        assert(first1.drop_last().len() == 0);
        assert(be_value(first1.drop_last()) == 0);
        assert(be_value(first1) == b0);
        assert(be_value(first2) == 256 * be_value(first1) + b1);
        assert(be_value(first3) == 256 * be_value(first2) + b2);
        assert(be_value(first4) == 256 * be_value(first3) + b3);
        assert(be_value(first5) == 256 * be_value(first4) + b4);
        assert(be_value(first6) == 256 * be_value(first5) + b5);
        assert(be_value(first7) == 256 * be_value(first6) + b6);
        assert(be_value(s) == 256 * be_value(first7) + b7);
    }
    bytes
}

/// Converts eight bytes, most significant first, into a `u64`.
pub fn u8_be_slice_to_u64(slice: &[u8]) -> (r: u64)
    requires
        slice@.len() == 8,
    ensures
        r == be_value(slice@),
{
    be_bytes_to_u64(slice)
}

/// Converts eight bytes, least significant first, into a `u64`.
pub fn u8_le_slice_to_u64(slice: &[u8]) -> (r: u64)
    requires
        slice@.len() == 8,
    ensures
        r == le_value(slice@),
{
    le_bytes_to_u64(slice)
}

/// Converts four bytes, most significant first, into a `u32`.
pub fn u8_be_slice_to_u32(slice: &[u8]) -> (r: u32)
    requires
        slice@.len() == 4,
    ensures
        r == be_value(slice@),
{
    let wide = be_bytes_to_u64(slice);
    proof {
        lemma_be_value_bound(slice@);
        lemma_pow256_widths();
    }
    wide as u32
}

/// Converts four bytes, least significant first, into a `u32`.
pub fn u8_le_slice_to_u32(slice: &[u8]) -> (r: u32)
    requires
        slice@.len() == 4,
    ensures
        r == le_value(slice@),
{
    let wide = le_bytes_to_u64(slice);
    proof {
        lemma_le_value_bound(slice@);
        lemma_pow256_widths();
    }
    wide as u32
}


/// `p` is a power of two.
pub open spec fn is_power_of_two(p: nat) -> bool
    decreases p,
{
    p == 1 || (p > 1 && p % 2 == 0 && is_power_of_two(p / 2))
}

/// No power of two lies strictly between a power of two and its double.
pub proof fn lemma_powers_of_two_apart(p: nat, q: nat)
    requires
        is_power_of_two(p),
        is_power_of_two(q),
        p <= q < 2 * p,
    ensures
        p == q,
    decreases p,
{
    if p != 1 && q != 1 {
        lemma_powers_of_two_apart(p / 2, q / 2);
    }
}

/// A power of two below another is at most half of it.
pub proof fn lemma_powers_of_two_gap(p: nat, q: nat)
    requires
        is_power_of_two(p),
        is_power_of_two(q),
        p < q,
    ensures
        2 * p <= q,
{
    if 2 * p > q {
        lemma_powers_of_two_apart(q / 2, p);
    }
}

/// At most one power of two lies in `n..2n`, so the contract of
/// `min_greater_equal_power_of_two` leaves one result only.
pub proof fn lemma_power_of_two_in_window_unique(n: nat, p: nat, q: nat)
    requires
        is_power_of_two(p),
        is_power_of_two(q),
        n <= p < 2 * n,
        n <= q < 2 * n,
    ensures
        p == q,
{
    if p < q {
        lemma_powers_of_two_gap(p, q);
    } else if q < p {
        lemma_powers_of_two_gap(q, p);
    }
}

/// The largest power of two that a `u32` holds.
proof fn lemma_top_power_of_two()
    ensures
        is_power_of_two(0x8000_0000),
{
    reveal_with_fuel(is_power_of_two, 33);
}

/// The smallest power of two that is greater than or equal to `n`. For 0 it
/// is 0, and where that power does not fit in 32 bits, `u32::MAX`.
pub fn min_greater_equal_power_of_two(n: u32) -> (r: u32)
    ensures
        n == 0 ==> r == 0,
        n > 0x8000_0000 ==> r == u32::MAX,
        0 < n <= 0x8000_0000 ==> is_power_of_two(r as nat) && n <= r < 2 * n,
        0 < n <= 0x8000_0000 ==> forall|q: nat| is_power_of_two(q) && q >= n ==> q >= r,
{
    if n == 0 {
        return 0;
    }
    if n > 0x8000_0000 {
        return u32::MAX;
    }
    let mut p: u32 = 1;
    while p < n
        invariant
            0 < n <= 0x8000_0000,
            0 < p <= 0x8000_0000,
            p < 2 * n,
            is_power_of_two(p as nat),
        decreases 0x8000_0000 - p,
    {
        proof {
            lemma_top_power_of_two();
            lemma_powers_of_two_gap(p as nat, 0x8000_0000);
            assert(is_power_of_two(2 * p as nat));
        }
        p = p * 2;
    }
    proof {
        assert forall|q: nat| is_power_of_two(q) && q >= n implies q >= p by {
            if q < p {
                lemma_powers_of_two_gap(q, p as nat);
            }
        }
    }
    p
}

/// Splits a 64-bit number into its low and its high 32 bits.
pub fn u64_to_u32_pair(x: u64) -> (r: (u32, u32))
    ensures
        r.0 == x & 0xFFFF_FFFF,
        r.1 == x >> 32,
        r.0 == x % 0x1_0000_0000,
        r.1 == x / 0x1_0000_0000,
        r.0 + 0x1_0000_0000 * r.1 == x,
{
    proof {
        assert(x & 0xFFFF_FFFF == x % 0x1_0000_0000) by (bit_vector);
        assert(x >> 32 == x / 0x1_0000_0000) by (bit_vector);
        assert((x & 0xFFFF_FFFF) <= 0xFFFF_FFFF) by (bit_vector);
        assert((x >> 32) <= 0xFFFF_FFFF) by (bit_vector);
    }
    ((x & 0xFFFF_FFFF) as u32, (x >> 32) as u32)
}


/// The error of `base64`'s decoder.
#[verifier::external_type_specification]
#[verifier::external_body]
pub struct ExDecodeError(base64::DecodeError);

/// The text that `base64::encode_config` gives for `input` with the URL-safe
/// alphabet and padding.
pub uninterp spec fn base64_url_safe_text(input: Seq<u8>) -> Seq<char>;

/// The bytes that `base64::decode_config` reads from `input` with the URL-safe
/// alphabet and padding, where it accepts `input`.
pub uninterp spec fn base64_url_safe_bytes(input: Seq<u8>) -> Option<Seq<u8>>;

/// Encodes bytes as URL-safe Base64 with padding.
///
/// Calls `base64::encode_config` with `base64::URL_SAFE`. Trusted: the text
/// depends on the input bytes alone. The `requires` keeps the encoded length
/// within `usize`, beyond which the encoder panics.
#[verifier::external_body]
fn encode_url_safe(input: &[u8]) -> (text: String)
    requires
        input@.len() <= usize::MAX / 4 * 3,
    ensures
        text@ == base64_url_safe_text(input@),
{
    base64::encode_config(input, base64::URL_SAFE)
}

/// Decodes URL-safe Base64 with padding.
///
/// Calls `base64::decode_config` with `base64::URL_SAFE`. Trusted: whether the
/// input is accepted, and the bytes read from it, depend on the input alone.
/// The `requires` leaves out the lengths on which the decoder's size estimate
/// overflows and panics.
#[verifier::external_body]
fn decode_url_safe(input: &[u8]) -> (bytes: Result<Vec<u8>, base64::DecodeError>)
    requires
        input@.len() <= usize::MAX - 3,
    ensures
        bytes is Ok <==> base64_url_safe_bytes(input@) is Some,
        bytes is Ok ==> base64_url_safe_bytes(input@) == Some(bytes->Ok_0@),
{
    base64::decode_config(input, base64::URL_SAFE)
}

/// The URL-safe Base64 text, with padding, of the bytes.
pub fn b64enc(input: &[u8]) -> (text: String)
    requires
        input@.len() <= usize::MAX / 4 * 3,
    ensures
        text@ == base64_url_safe_text(input@),
{
    encode_url_safe(input)
}

/// The bytes that a URL-safe Base64 text writes; the decoder's error where
/// the text is not Base64.
pub fn b64dec(input: &[u8]) -> (bytes: Result<Vec<u8>, base64::DecodeError>)
    requires
        input@.len() <= usize::MAX - 3,
    ensures
        bytes is Ok <==> base64_url_safe_bytes(input@) is Some,
        bytes is Ok ==> base64_url_safe_bytes(input@) == Some(bytes->Ok_0@),
{
    decode_url_safe(input)
}

} // verus!
