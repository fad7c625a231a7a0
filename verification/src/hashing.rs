//! Content addressing: a 128-bit digest of a file's bytes, rendered as a
//! 32-character lowercase hexadecimal identifier. The identifier doubles as
//! the remote filename and the server-side deduplication key.

use vstd::prelude::*;
use vstd::string::*;

verus! {

/// The 128-bit content digest of a byte sequence, as computed by the xxh3
/// 128-bit hash: a pure function of the bytes alone.
pub uninterp spec fn xxh3_digest(data: Seq<u8>) -> u128;

/// Relies on xxhash_rust::xxh3::xxh3_128: the digest depends on the input
/// bytes alone.
#[verifier::external_body]
fn xxh3_128_of(data: &[u8]) -> (r: u128)
    ensures
        r == xxh3_digest(data@),
{
    xxhash_rust::xxh3::xxh3_128(data)
}

/// The lowercase character for one hexadecimal digit (a value below 16).
pub open spec fn hex_char(d: u128) -> char {
    if d == 0 {
        '0'
    } else if d == 1 {
        '1'
    } else if d == 2 {
        '2'
    } else if d == 3 {
        '3'
    } else if d == 4 {
        '4'
    } else if d == 5 {
        '5'
    } else if d == 6 {
        '6'
    } else if d == 7 {
        '7'
    } else if d == 8 {
        '8'
    } else if d == 9 {
        '9'
    } else if d == 10 {
        'a'
    } else if d == 11 {
        'b'
    } else if d == 12 {
        'c'
    } else if d == 13 {
        'd'
    } else if d == 14 {
        'e'
    } else {
        'f'
    }
}

/// The nibble of `h` that stands at position `i` of its hexadecimal
/// rendering, most significant nibble first.
pub open spec fn nibble(h: u128, i: int) -> u128 {
    (h >> ((124 - 4 * i) as u128)) & 0xf
}

/// A 128-bit value as exactly 32 lowercase hexadecimal characters, most
/// significant nibble first (leading zeros kept).
pub open spec fn hex32(h: u128) -> Seq<char> {
    Seq::new(32, |i: int| hex_char(nibble(h, i)))
}

/// The content-addressed identifier of a byte sequence: its digest in
/// lowercase hexadecimal.
pub open spec fn content_id(data: Seq<u8>) -> Seq<char> {
    hex32(xxh3_digest(data))
}

pub(crate) fn hex_char_str(d: u128) -> (r: &'static str)
    requires
        d < 16,
    ensures
        r@ =~= seq![hex_char(d)],
{
    proof {
        reveal_strlit("0");
        reveal_strlit("1");
        reveal_strlit("2");
        reveal_strlit("3");
        reveal_strlit("4");
        reveal_strlit("5");
        reveal_strlit("6");
        reveal_strlit("7");
        reveal_strlit("8");
        reveal_strlit("9");
        reveal_strlit("a");
        reveal_strlit("b");
        reveal_strlit("c");
        reveal_strlit("d");
        reveal_strlit("e");
        reveal_strlit("f");
    }
    if d == 0 {
        "0"
    } else if d == 1 {
        "1"
    } else if d == 2 {
        "2"
    } else if d == 3 {
        "3"
    } else if d == 4 {
        "4"
    } else if d == 5 {
        "5"
    } else if d == 6 {
        "6"
    } else if d == 7 {
        "7"
    } else if d == 8 {
        "8"
    } else if d == 9 {
        "9"
    } else if d == 10 {
        "a"
    } else if d == 11 {
        "b"
    } else if d == 12 {
        "c"
    } else if d == 13 {
        "d"
    } else if d == 14 {
        "e"
    } else {
        "f"
    }
}

/// Render a 128-bit value as its 32-character lowercase hexadecimal form.
pub fn to_hex32(h: u128) -> (r: String)
    ensures
        r@ == hex32(h),
{
    let mut s = String::new();
    let mut i: usize = 0;
    while i < 32
        invariant
            i <= 32,
            s@ =~= hex32(h).take(i as int),
        decreases 32 - i,
    {
        let sh: u128 = 124 - 4 * (i as u128);
        let d: u128 = (h >> sh) & 0xf;
        assert((h >> sh) & 0xf < 16) by (bit_vector);
        assert(d == nibble(h, i as int));
        let c = hex_char_str(d);
        s.append(c);
        assert(s@ =~= hex32(h).take(i as int + 1));
        i = i + 1;
    }
    proof {
        assert(hex32(h).take(32) =~= hex32(h));
    }
    s
}

/// Compute the content-addressed identifier of `data`: the lowercase
/// hexadecimal rendering of its 128-bit content digest.
pub fn hash_id(data: &[u8]) -> (r: String)
    ensures
        r@ == content_id(data@),
{
    let h = xxh3_128_of(data);
    to_hex32(h)
}

/// Law: content addressing is deterministic — equal byte sequences always
/// yield the identical identifier, in this call and in any later one.
pub proof fn lemma_content_id_deterministic(b1: Seq<u8>, b2: Seq<u8>)
    requires
        b1 == b2,
    ensures
        content_id(b1) == content_id(b2),
{
}

proof fn lemma_hex_char_injective(a: u128, b: u128)
    requires
        a < 16,
        b < 16,
        hex_char(a) == hex_char(b),
    ensures
        a == b,
{
}

/// Law: the hexadecimal rendering is injective, so two files receive the
/// same identifier only if their 128-bit digests collide.
pub proof fn lemma_hex32_injective(h1: u128, h2: u128)
    requires
        hex32(h1) == hex32(h2),
    ensures
        h1 == h2,
{
    assert forall|i: int| 0 <= i < 32 implies nibble(h1, i) == nibble(h2, i) by {
        assert(hex32(h1)[i] == hex32(h2)[i]);
        assert(hex32(h1)[i] == hex_char(nibble(h1, i)));
        assert(hex32(h2)[i] == hex_char(nibble(h2, i)));
        let sh = (124 - 4 * i) as u128;
        assert((h1 >> sh) & 0xf < 16) by (bit_vector);
        assert((h2 >> sh) & 0xf < 16) by (bit_vector);
        assert(nibble(h1, i) == (h1 >> sh) & 0xf);
        assert(nibble(h2, i) == (h2 >> sh) & 0xf);
        lemma_hex_char_injective(nibble(h1, i), nibble(h2, i));
    }
    assert(nibble(h1, 0) == nibble(h2, 0));
    assert(nibble(h1, 1) == nibble(h2, 1));
    assert(nibble(h1, 2) == nibble(h2, 2));
    assert(nibble(h1, 3) == nibble(h2, 3));
    assert(nibble(h1, 4) == nibble(h2, 4));
    assert(nibble(h1, 5) == nibble(h2, 5));
    assert(nibble(h1, 6) == nibble(h2, 6));
    assert(nibble(h1, 7) == nibble(h2, 7));
    assert(nibble(h1, 8) == nibble(h2, 8));
    assert(nibble(h1, 9) == nibble(h2, 9));
    assert(nibble(h1, 10) == nibble(h2, 10));
    assert(nibble(h1, 11) == nibble(h2, 11));
    assert(nibble(h1, 12) == nibble(h2, 12));
    assert(nibble(h1, 13) == nibble(h2, 13));
    assert(nibble(h1, 14) == nibble(h2, 14));
    assert(nibble(h1, 15) == nibble(h2, 15));
    assert(nibble(h1, 16) == nibble(h2, 16));
    assert(nibble(h1, 17) == nibble(h2, 17));
    assert(nibble(h1, 18) == nibble(h2, 18));
    assert(nibble(h1, 19) == nibble(h2, 19));
    assert(nibble(h1, 20) == nibble(h2, 20));
    assert(nibble(h1, 21) == nibble(h2, 21));
    assert(nibble(h1, 22) == nibble(h2, 22));
    assert(nibble(h1, 23) == nibble(h2, 23));
    assert(nibble(h1, 24) == nibble(h2, 24));
    assert(nibble(h1, 25) == nibble(h2, 25));
    assert(nibble(h1, 26) == nibble(h2, 26));
    assert(nibble(h1, 27) == nibble(h2, 27));
    assert(nibble(h1, 28) == nibble(h2, 28));
    assert(nibble(h1, 29) == nibble(h2, 29));
    assert(nibble(h1, 30) == nibble(h2, 30));
    assert(nibble(h1, 31) == nibble(h2, 31));
    assert(h1 == h2) by (bit_vector)
        requires
            (h1 >> 124u128) & 0xf == (h2 >> 124u128) & 0xf,
            (h1 >> 120u128) & 0xf == (h2 >> 120u128) & 0xf,
            (h1 >> 116u128) & 0xf == (h2 >> 116u128) & 0xf,
            (h1 >> 112u128) & 0xf == (h2 >> 112u128) & 0xf,
            (h1 >> 108u128) & 0xf == (h2 >> 108u128) & 0xf,
            (h1 >> 104u128) & 0xf == (h2 >> 104u128) & 0xf,
            (h1 >> 100u128) & 0xf == (h2 >> 100u128) & 0xf,
            (h1 >> 96u128) & 0xf == (h2 >> 96u128) & 0xf,
            (h1 >> 92u128) & 0xf == (h2 >> 92u128) & 0xf,
            (h1 >> 88u128) & 0xf == (h2 >> 88u128) & 0xf,
            (h1 >> 84u128) & 0xf == (h2 >> 84u128) & 0xf,
            (h1 >> 80u128) & 0xf == (h2 >> 80u128) & 0xf,
            (h1 >> 76u128) & 0xf == (h2 >> 76u128) & 0xf,
            (h1 >> 72u128) & 0xf == (h2 >> 72u128) & 0xf,
            (h1 >> 68u128) & 0xf == (h2 >> 68u128) & 0xf,
            (h1 >> 64u128) & 0xf == (h2 >> 64u128) & 0xf,
            (h1 >> 60u128) & 0xf == (h2 >> 60u128) & 0xf,
            (h1 >> 56u128) & 0xf == (h2 >> 56u128) & 0xf,
            (h1 >> 52u128) & 0xf == (h2 >> 52u128) & 0xf,
            (h1 >> 48u128) & 0xf == (h2 >> 48u128) & 0xf,
            (h1 >> 44u128) & 0xf == (h2 >> 44u128) & 0xf,
            (h1 >> 40u128) & 0xf == (h2 >> 40u128) & 0xf,
            (h1 >> 36u128) & 0xf == (h2 >> 36u128) & 0xf,
            (h1 >> 32u128) & 0xf == (h2 >> 32u128) & 0xf,
            (h1 >> 28u128) & 0xf == (h2 >> 28u128) & 0xf,
            (h1 >> 24u128) & 0xf == (h2 >> 24u128) & 0xf,
            (h1 >> 20u128) & 0xf == (h2 >> 20u128) & 0xf,
            (h1 >> 16u128) & 0xf == (h2 >> 16u128) & 0xf,
            (h1 >> 12u128) & 0xf == (h2 >> 12u128) & 0xf,
            (h1 >> 8u128) & 0xf == (h2 >> 8u128) & 0xf,
            (h1 >> 4u128) & 0xf == (h2 >> 4u128) & 0xf,
            (h1 >> 0u128) & 0xf == (h2 >> 0u128) & 0xf,
    ;
}

} // verus!
