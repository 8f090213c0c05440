//! The checksum of the release archive, as the descriptor states it.

use vstd::prelude::*;

verus! {

/// The SHA-256 digest of `input`, as `hmac_sha256::Hash::hash` computes it.
pub uninterp spec fn sha256(input: Seq<u8>) -> Seq<u8>;

/// Calls `hmac_sha256::Hash::hash`, which digests the whole input in one go
/// and returns the 32 bytes of the digest. The bytes are a function of the
/// input alone, and `sha256` is their name. The hasher counts the bits of its
/// input in a `usize`: an input whose bits it cannot count is kept out.
#[verifier::external_body]
fn digest(input: &[u8]) -> (out: [u8; 32])
    requires
        input@.len() * 8 <= usize::MAX,
    ensures
        out@ == sha256(input@),
{
    hmac_sha256::Hash::hash(input)
}

/// The digit that stands for a number below sixteen.
pub open spec fn hex_digit(n: int) -> char {
    "0123456789abcdef"@[n]
}

/// The bytes in order, each as two hexadecimal digits in lower case, the
/// upper half of the byte first.
pub open spec fn hex(bytes: Seq<u8>) -> Seq<char>
    decreases bytes.len(),
{
    if bytes.len() == 0 {
        Seq::empty()
    } else {
        hex(bytes.drop_last()).push(hex_digit(bytes.last() as int / 16)).push(
            hex_digit(bytes.last() as int % 16),
        )
    }
}

/// The digit of `n` as text.
fn digit(n: u8) -> (text: &'static str)
    requires
        n < 16,
    ensures
        text@ == seq![hex_digit(n as int)],
{
    proof {
        reveal_strlit("0123456789abcdef");
        reveal_strlit("0");
        reveal_strlit("1");
        reveal_strlit("2");
        reveal_strlit("3");
        reveal_strlit("4");
        reveal_strlit("5");
        reveal_strlit("6");
        reveal_strlit("7");
        reveal_strlit("8");
        reveal_strlit("9");
        reveal_strlit("a");
        reveal_strlit("b");
        reveal_strlit("c");
        reveal_strlit("d");
        reveal_strlit("e");
        reveal_strlit("f");
    }
    let text = match n {
        0 => "0",
        1 => "1",
        2 => "2",
        3 => "3",
        4 => "4",
        5 => "5",
        6 => "6",
        7 => "7",
        8 => "8",
        9 => "9",
        10 => "a",
        11 => "b",
        12 => "c",
        13 => "d",
        14 => "e",
        _ => "f",
    };
    assert(text@ =~= seq![hex_digit(n as int)]);
    text
}

/// The bytes written out in hexadecimal digits, two to a byte.
pub fn hex_encode(bytes: &[u8]) -> (text: String)
    ensures
        text@ == hex(bytes@),
{
    let mut text = String::new();
    let mut i: usize = 0;
    assert(bytes@.take(0) =~= Seq::empty());
    while i < bytes.len()
        invariant
            i <= bytes.len(),
            text@ == hex(bytes@.take(i as int)),
        decreases bytes.len() - i,
    {
        let byte: u8 = bytes[i];
        text.append(digit(byte / 16));
        text.append(digit(byte % 16));
        proof {
            let done = bytes@.take(i + 1);
            assert(done.drop_last() =~= bytes@.take(i as int));
            assert(done.last() == byte);
            assert(text@ =~= hex(done));
        }
        i += 1;
    }
    assert(bytes@.take(bytes.len() as int) =~= bytes@);
    text
}

/// The checksum of an archive with these bytes, as the descriptor states it:
/// the SHA-256 digest in hexadecimal digits.
pub fn sha256sum(bytes: &[u8]) -> (sum: String)
    requires
        bytes@.len() * 8 <= usize::MAX,
    ensures
        sum@ == hex(sha256(bytes@)),
{
    let out = digest(bytes);
    hex_encode(out.as_slice())
}

} // verus!
