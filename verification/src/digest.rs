//! SHA-256 digests as text.

use vstd::prelude::*;

verus! {

/// The SHA-256 digest of a sequence of bytes.
pub uninterp spec fn sha256(bytes: Seq<u8>) -> Seq<u8>;

/// `sha2::Sha256::digest`: 32 bytes that are a function of the input alone.
#[verifier::external_body]
fn sha256_digest(bytes: &[u8]) -> (r: Vec<u8>)
    ensures
        r@ == sha256(bytes@),
        r@.len() == 32,
{
    <sha2::Sha256 as sha2::Digest>::digest(bytes).to_vec()
}

/// The hexadecimal digit of a number below sixteen, in lower case.
pub open spec fn hex_digit(value: int) -> char {
    if value < 10 {
        (48 + value) as char
    } else {
        (87 + value) as char
    }
}

/// Two hexadecimal digits for each byte.
pub open spec fn hex(bytes: Seq<u8>) -> Seq<char>
    decreases bytes.len(),
{
    if bytes.len() == 0 {
        Seq::empty()
    } else {
        hex(bytes.drop_last()).push(hex_digit(bytes.last() as int / 16)).push(
            hex_digit(bytes.last() as int % 16),
        )
    }
}

fn hex_digit_exec(value: u8) -> (r: char)
    requires
        value < 16,
    ensures
        r == hex_digit(value as int),
{
    if value < 10 {
        (48 + value) as char
    } else {
        (87 + value) as char
    }
}

/// Two hexadecimal digits for each byte.
pub fn hex_text(bytes: &Vec<u8>) -> (r: String)
    ensures
        r@ == hex(bytes@),
{
    let mut out = String::new();
    let mut i: usize = 0;
    while i < bytes.len()
        invariant
            i <= bytes@.len(),
            out@ == hex(bytes@.take(i as int)),
        decreases bytes.len() - i,
    {
        assert(bytes@.take(i + 1).drop_last() =~= bytes@.take(i as int));
        out.push(hex_digit_exec(bytes[i] / 16));
        out.push(hex_digit_exec(bytes[i] % 16));
        i = i + 1;
    }
    assert(bytes@.take(bytes@.len() as int) =~= bytes@);
    out
}

/// The SHA-256 digest of some bytes, in hexadecimal digits.
pub fn digest_text(bytes: &[u8]) -> (r: String)
    ensures
        r@ == hex(sha256(bytes@)),
        r@.len() == 64,
{
    let digest = sha256_digest(bytes);
    proof {
        hex_len(digest@);
    }
    hex_text(&digest)
}

proof fn hex_len(bytes: Seq<u8>)
    ensures
        hex(bytes).len() == 2 * bytes.len(),
    decreases bytes.len(),
{
    if bytes.len() > 0 {
        hex_len(bytes.drop_last());
    }
}

/// Different bytes have different hexadecimal texts.
pub proof fn hex_is_injective(left: Seq<u8>, right: Seq<u8>)
    requires
        hex(left) == hex(right),
    ensures
        left == right,
    decreases left.len(),
{
    hex_len(left);
    hex_len(right);
    if left.len() > 0 {
        let a = left.last();
        let b = right.last();
        let l = hex(left);
        let r = hex(right);
        let n = l.len() as int;
        assert(l[n - 1] == hex_digit(a as int % 16));
        assert(r[n - 1] == hex_digit(b as int % 16));
        assert(l[n - 2] == hex_digit(a as int / 16));
        assert(r[n - 2] == hex_digit(b as int / 16));
        assert(a as int / 16 == b as int / 16);
        assert(a as int % 16 == b as int % 16);
        assert(a == b);
        assert(hex(left.drop_last()) =~= l.take(n - 2));
        assert(hex(right.drop_last()) =~= r.take(n - 2));
        hex_is_injective(left.drop_last(), right.drop_last());
        assert(left =~= left.drop_last().push(a));
        assert(right =~= right.drop_last().push(b));
    } else {
        assert(left =~= right);
    }
}

/// Whether a character is the hexadecimal digit, in lower case, of a number.
pub open spec fn stands_for(c: char, value: int) -> bool {
    '0' <= c <= '9' && c as int - '0' as int == value || 'a' <= c <= 'f' && c as int - 'a' as int
        + 10 == value
}

/// Each byte is written as two digits in lower case, the higher one first, in
/// the order of the bytes.
pub proof fn each_byte_has_two_digits(bytes: Seq<u8>, i: int)
    requires
        0 <= i < bytes.len(),
    ensures
        hex(bytes).len() == 2 * bytes.len(),
        stands_for(hex(bytes)[2 * i], bytes[i] as int / 16),
        stands_for(hex(bytes)[2 * i + 1], bytes[i] as int % 16),
    decreases bytes.len(),
{
    hex_len(bytes);
    hex_len(bytes.drop_last());
    if i < bytes.len() - 1 {
        each_byte_has_two_digits(bytes.drop_last(), i);
        assert(bytes.drop_last()[i] == bytes[i]);
    }
}

} // verus!
