//! SHA-256 digests, and bytes and numbers in hexadecimal.

use sha2::Digest;
use vstd::prelude::*;
use vstd::string::*;
use vstd::utf8::encode_utf8;

verus! {

/// The SHA-256 digest of bytes.
pub uninterp spec fn sha256_digest(bytes: Seq<u8>) -> Seq<u8>;

/// `sha2::Sha256`: the digest of the bytes, 32 bytes that depend on these alone.
#[verifier::external_body]
fn sha256(bytes: &[u8]) -> (r: Vec<u8>)
    ensures
        r@ == sha256_digest(bytes@),
        r@.len() == 32,
{
    let mut hasher = sha2::Sha256::new();
    hasher.update(bytes);
    hasher.finalize().to_vec()
}

/// The digest of a text.
pub open spec fn text_digest(text: Seq<char>) -> Seq<u8> {
    sha256_digest(encode_utf8(text))
}

/// The digest of a text.
pub fn digest_of(text: &str) -> (r: Vec<u8>)
    ensures
        r@ == text_digest(text@),
        r@.len() == 32,
{
    sha256(text.as_bytes())
}

/// A hexadecimal digit.
pub open spec fn hex_char(d: nat) -> char {
    if d == 0 {
        '0'
    } else if d == 1 {
        '1'
    } else if d == 2 {
        '2'
    } else if d == 3 {
        '3'
    } else if d == 4 {
        '4'
    } else if d == 5 {
        '5'
    } else if d == 6 {
        '6'
    } else if d == 7 {
        '7'
    } else if d == 8 {
        '8'
    } else if d == 9 {
        '9'
    } else if d == 10 {
        'a'
    } else if d == 11 {
        'b'
    } else if d == 12 {
        'c'
    } else if d == 13 {
        'd'
    } else if d == 14 {
        'e'
    } else {
        'f'
    }
}

fn hex_digit(d: u64) -> (r: char)
    requires
        d < 16,
    ensures
        r == hex_char(d as nat),
{
    match d {
        0 => '0',
        1 => '1',
        2 => '2',
        3 => '3',
        4 => '4',
        5 => '5',
        6 => '6',
        7 => '7',
        8 => '8',
        9 => '9',
        10 => 'a',
        11 => 'b',
        12 => 'c',
        13 => 'd',
        14 => 'e',
        _ => 'f',
    }
}

/// A number in hexadecimal, without leading zeros.
pub open spec fn hex(n: nat) -> Seq<char>
    decreases n,
{
    if n < 16 {
        seq![hex_char(n)]
    } else {
        hex(n / 16).push(hex_char(n % 16))
    }
}

/// The last hexadecimal digits of a number, this many of them.
pub open spec fn hex_padded(n: nat, digits: nat) -> Seq<char>
    decreases digits,
{
    if digits == 0 {
        Seq::empty()
    } else {
        hex_padded(n / 16, (digits - 1) as nat).push(hex_char(n % 16))
    }
}

/// Bytes in hexadecimal, two digits each.
pub open spec fn hex_bytes(bytes: Seq<u8>) -> Seq<char>
    decreases bytes.len(),
{
    if bytes.len() == 0 {
        Seq::empty()
    } else {
        hex_bytes(bytes.drop_last()).push(hex_char((bytes.last() / 16) as nat)).push(
            hex_char((bytes.last() % 16) as nat),
        )
    }
}

/// A number in hexadecimal, without leading zeros.
pub fn hex_text(n: u64) -> (r: String)
    ensures
        r@ == hex(n as nat),
    decreases n,
{
    if n < 16 {
        let mut s: String = String::new();
        s.push(hex_digit(n));
        proof {
            assert(s@ =~= seq![hex_char(n as nat)]);
        }
        s
    } else {
        let mut s: String = hex_text(n / 16);
        s.push(hex_digit(n % 16));
        s
    }
}

/// The last hexadecimal digits of a number, this many of them.
pub fn hex_padded_text(n: u64, digits: u8) -> (r: String)
    ensures
        r@ == hex_padded(n as nat, digits as nat),
    decreases digits,
{
    if digits == 0 {
        String::new()
    } else {
        let mut s: String = hex_padded_text(n / 16, digits - 1);
        s.push(hex_digit(n % 16));
        s
    }
}

/// Bytes in hexadecimal, two digits each.
pub fn hex_bytes_text(bytes: &Vec<u8>) -> (r: String)
    ensures
        r@ == hex_bytes(bytes@),
{
    let mut s: String = String::new();
    let mut i: usize = 0;
    proof {
        assert(bytes@.take(0) =~= Seq::empty());
    }
    while i < bytes.len()
        invariant
            i <= bytes.len(),
            s@ == hex_bytes(bytes@.take(i as int)),
        decreases bytes.len() - i,
    {
        let b: u8 = bytes[i];
        s.push(hex_digit((b / 16) as u64));
        s.push(hex_digit((b % 16) as u64));
        proof {
            let next = bytes@.take(i as int + 1);
            assert(next.drop_last() =~= bytes@.take(i as int));
            assert(next.last() == b);
        }
        i = i + 1;
    }
    proof {
        assert(bytes@.take(i as int) =~= bytes@);
    }
    s
}

/// The number that bytes stand for, the least significant first.
pub open spec fn little_endian(bytes: Seq<u8>) -> nat
    decreases bytes.len(),
{
    if bytes.len() == 0 {
        0
    } else {
        bytes[0] as nat + 256 * little_endian(bytes.skip(1))
    }
}

proof fn lemma_little_endian_bound(bytes: Seq<u8>, k: nat)
    requires
        bytes.len() == k,
        k <= 8,
    ensures
        little_endian(bytes) < vstd::arithmetic::power2::pow2(8 * k),
    decreases k,
{
    if k == 0 {
        vstd::arithmetic::power2::lemma2_to64();
    } else {
        lemma_little_endian_bound(bytes.skip(1), (k - 1) as nat);
        vstd::arithmetic::power2::lemma_pow2_adds(8, (8 * (k - 1)) as nat);
        vstd::arithmetic::power2::lemma2_to64();
        assert(8 + 8 * (k - 1) == 8 * k);
    }
}

/// The number that up to eight bytes from a place on stand for.
fn read_little_endian(bytes: &Vec<u8>, from: usize, to: usize) -> (r: u64)
    requires
        from <= to <= bytes.len(),
        to - from <= 8,
    ensures
        r == little_endian(bytes@.subrange(from as int, to as int)),
    decreases to - from,
{
    let ghost part = bytes@.subrange(from as int, to as int);
    if from == to {
        return 0;
    }
    let rest: u64 = read_little_endian(bytes, from + 1, to);
    proof {
        assert(part.skip(1) =~= bytes@.subrange(from as int + 1, to as int));
        lemma_little_endian_bound(part.skip(1), (part.len() - 1) as nat);
        let k = part.len() as nat;
        assert(8 * (k - 1) <= 56);
        if 8 * (k - 1) < 56 {
            vstd::arithmetic::power2::lemma_pow2_strictly_increases((8 * (k - 1)) as nat, 56);
        }
        vstd::arithmetic::power2::lemma2_to64_rest();
    }
    bytes[from] as u64 + 256 * rest
}

/// The number that the first four bytes of a digest of a text stand for.
pub fn digest_u32(text: &str) -> (r: u64)
    ensures
        r == little_endian(text_digest(text@).take(4)),
{
    let d = digest_of(text);
    proof {
        assert(d@.subrange(0, 4) =~= d@.take(4));
    }
    read_little_endian(&d, 0, 4)
}

/// The number that the first eight bytes of a digest of a text stand for.
pub fn digest_u64(text: &str) -> (r: u64)
    ensures
        r == little_endian(text_digest(text@).take(8)),
{
    let d = digest_of(text);
    proof {
        assert(d@.subrange(0, 8) =~= d@.take(8));
    }
    read_little_endian(&d, 0, 8)
}

} // verus!
