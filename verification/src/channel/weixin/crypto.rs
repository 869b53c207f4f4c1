//! How files are encrypted before they are uploaded.

use vstd::prelude::*;
use vstd::string::*;

use crate::number;
use crate::outside;

verus! {

/// How many bytes of padding fill up the last block; a full block where nothing is missing.
pub open spec fn pad_len(n: int, block_size: int) -> int {
    block_size - n % block_size
}

/// Bytes with padding up to whole blocks: each byte of padding tells how long the padding is.
pub open spec fn padded(b: Seq<u8>, block_size: int) -> Seq<u8> {
    let n = pad_len(b.len() as int, block_size);
    b + Seq::new(n as nat, |i: int| (n % 256) as u8)
}

/// Pads bytes up to whole blocks.
pub fn pkcs7_pad(input: &[u8], block_size: usize) -> (r: Vec<u8>)
    requires
        block_size > 0,
    ensures
        r@ == padded(input@, block_size as int),
{
    let mut out: Vec<u8> = Vec::new();
    let n: usize = input.len();
    let mut i: usize = 0;
    while i < n
        invariant
            i <= n,
            n == input@.len(),
            out@ == input@.take(i as int),
        decreases n - i,
    {
        out.push(input[i]);
        i = i + 1;
        assert(input@.take(i as int) =~= input@.take(i - 1).push(input@[i - 1]));
    }
    assert(input@.take(i as int) =~= input@);
    let pad: usize = block_size - n % block_size;
    let byte: u8 = (pad % 256) as u8;
    let ghost tail = Seq::new(pad as nat, |k: int| byte);
    let mut k: usize = 0;
    assert(input@ + tail.take(0) =~= input@);
    while k < pad
        invariant
            k <= pad,
            tail == Seq::new(pad as nat, |k: int| byte),
            out@ == input@ + tail.take(k as int),
        decreases pad - k,
    {
        out.push(byte);
        k = k + 1;
        assert(input@ + tail.take(k as int) =~= (input@ + tail.take(k - 1)).push(byte));
    }
    assert(out@ =~= padded(input@, block_size as int));
    out
}

/// Padded bytes without their padding, as the last byte tells.
pub open spec fn unpadded(b: Seq<u8>) -> Seq<u8> {
    b.take(b.len() - b.last())
}

/// Padding fills up whole blocks and can be taken away again, so no two contents look alike when
/// padded.
pub proof fn law_padding_is_reversible(b: Seq<u8>, block_size: int)
    requires
        0 < block_size <= 255,
    ensures
        padded(b, block_size).len() % block_size as nat == 0,
        padded(b, block_size).len() > b.len(),
        padded(b, block_size).len() <= b.len() + block_size,
        unpadded(padded(b, block_size)) == b,
{
    let len = b.len() as int;
    let n = pad_len(len, block_size);
    assert(0 <= len % block_size < block_size) by (nonlinear_arith)
        requires
            block_size > 0,
    ;
    let p = padded(b, block_size);
    assert(p.len() == len + n);
    assert((len + (block_size - len % block_size)) % block_size == 0) by (nonlinear_arith)
        requires
            block_size > 0,
    {
        vstd::arithmetic::div_mod::lemma_fundamental_div_mod(len, block_size);
        let q = len / block_size;
        assert(len + (block_size - len % block_size) == block_size * (q + 1)) by (nonlinear_arith)
            requires
                len == block_size * q + len % block_size,
        ;
        vstd::arithmetic::div_mod::lemma_mod_multiples_basic(q + 1, block_size);
    }
    assert(p.last() == n);
    assert(unpadded(p) =~= b);
}

/// Whole blocks, each encrypted by itself.
pub open spec fn encrypted_blocks(key: Seq<u8>, b: Seq<u8>) -> Seq<u8>
    decreases b.len(),
{
    if b.len() < 16 {
        Seq::empty()
    } else {
        encrypted_blocks(key, b.take(b.len() - 16)) + outside::aes128_block(
            key,
            b.skip(b.len() - 16),
        )
    }
}

/// Pads bytes to whole blocks and encrypts each by itself.
pub fn aes_128_ecb_pkcs7_encrypt(key: &[u8; 16], plaintext: &[u8]) -> (r: Vec<u8>)
    ensures
        r@ == encrypted_blocks(key@, padded(plaintext@, 16)),
        r@.len() == padded(plaintext@, 16).len(),
{
    let buffer = pkcs7_pad(plaintext, 16);
    let n: usize = buffer.len();
    let mut out: Vec<u8> = Vec::new();
    let mut i: usize = 0;
    proof {
        law_padding_is_reversible(plaintext@, 16);
        assert(buffer@.take(0).len() < 16);
    }
    while i < n
        invariant
            i <= n,
            n == buffer@.len(),
            n % 16 == 0,
            i % 16 == 0,
            out@.len() == i,
            out@ == encrypted_blocks(key@, buffer@.take(i as int)),
        decreases n - i,
    {
        let block: [u8; 16] = [
            buffer[i],
            buffer[i + 1],
            buffer[i + 2],
            buffer[i + 3],
            buffer[i + 4],
            buffer[i + 5],
            buffer[i + 6],
            buffer[i + 7],
            buffer[i + 8],
            buffer[i + 9],
            buffer[i + 10],
            buffer[i + 11],
            buffer[i + 12],
            buffer[i + 13],
            buffer[i + 14],
            buffer[i + 15],
        ];
        let cipher = outside::aes128_encrypt_block(key, &block);
        let ghost before = out@;
        let ghost more = buffer@.take(i + 16);
        proof {
            assert(more.skip(more.len() - 16) =~= block@);
            assert(more.take(more.len() - 16) =~= buffer@.take(i as int));
        }
        let mut k: usize = 0;
        assert(before + cipher@.take(0) =~= before);
        while k < 16
            invariant
                k <= 16,
                cipher@.len() == 16,
                out@ == before + cipher@.take(k as int),
            decreases 16 - k,
        {
            out.push(cipher[k]);
            k = k + 1;
            assert(before + cipher@.take(k as int) =~= (before + cipher@.take(k - 1)).push(
                cipher@[k - 1],
            ));
        }
        assert(cipher@.take(16) =~= cipher@);
        i = i + 16;
    }
    assert(buffer@.take(i as int) =~= buffer@);
    out
}

/// Writes bytes as lower-case hexadecimal digits.
pub fn hex_lower(bytes: &[u8]) -> (r: String)
    ensures
        r@ == number::hex_of(bytes@),
{
    let mut out = String::new();
    let n: usize = bytes.len();
    let mut i: usize = 0;
    while i < n
        invariant
            i <= n,
            n == bytes@.len(),
            out@ == number::hex_of(bytes@.take(i as int)),
        decreases n - i,
    {
        let ghost before = out@;
        let b: u8 = bytes[i];
        out.push(number::hex_digit(b / 16));
        out.push(number::hex_digit(b % 16));
        i = i + 1;
        proof {
            let all = number::hex_of(bytes@.take(i as int));
            let expected = before.push(number::hex_char((b / 16) as nat)).push(
                number::hex_char((b % 16) as nat),
            );
            assert(all.len() == expected.len());
            assert forall|j: int| 0 <= j < all.len() implies all[j] == expected[j] by {
                if j < before.len() {
                    assert(bytes@.take(i as int)[j / 2] == bytes@.take(i - 1)[j / 2]);
                } else {
                    assert(j / 2 == i - 1);
                }
            }
            assert(all =~= expected);
        }
    }
    assert(bytes@.take(i as int) =~= bytes@);
    out
}

} // verus!
