//! The byte string that the MAC authenticates.
//!
//! It is the additional authenticated data, the initialization vector and the
//! ciphertext, closed by the number of bits of additional authenticated data
//! as a 64-bit big-endian integer.
use vstd::prelude::*;

verus! {

/// Bytes in the length field that closes the MAC input.
pub const LEN_FIELD_BYTES: usize = 8;

/// The most bytes of additional authenticated data whose number of bits the
/// length field can hold.
pub const MAX_AAD_LEN: u64 = 0x1fff_ffff_ffff_ffff;

/// The `width` lowest base-256 digits of `n`, the most significant first.
pub open spec fn be_bytes(n: nat, width: nat) -> Seq<u8>
    decreases width,
{
    if width == 0 {
        Seq::empty()
    } else {
        be_bytes(n / 256, (width - 1) as nat).push((n % 256) as u8)
    }
}

/// The length field for additional authenticated data of `aad_len` bytes.
pub open spec fn len_field(aad_len: nat) -> Seq<u8> {
    be_bytes(8 * aad_len, LEN_FIELD_BYTES as nat)
}

/// What the MAC is computed over.
pub open spec fn mac_input(aad: Seq<u8>, iv: Seq<u8>, ciphertext: Seq<u8>) -> Seq<u8> {
    aad + iv + ciphertext + len_field(aad.len())
}

/// 256 to the power `width`.
pub open spec fn pow256(width: nat) -> nat
    decreases width,
{
    if width == 0 {
        1
    } else {
        256 * pow256((width - 1) as nat)
    }
}

/// `be_bytes` yields exactly `width` digits.
pub proof fn lemma_be_bytes_len(n: nat, width: nat)
    ensures
        be_bytes(n, width).len() == width,
    decreases width,
{
    if width > 0 {
        lemma_be_bytes_len(n / 256, (width - 1) as nat);
    }
}

/// Numbers below `256^width` with the same digits are the same number.
pub proof fn lemma_be_bytes_injective(a: nat, b: nat, width: nat)
    requires
        be_bytes(a, width) == be_bytes(b, width),
        a < pow256(width),
        b < pow256(width),
    ensures
        a == b,
    decreases width,
{
    if width > 0 {
        let w = (width - 1) as nat;
        let da = be_bytes(a / 256, w);
        let db = be_bytes(b / 256, w);
        assert(da.push((a % 256) as u8).drop_last() == da);
        assert(db.push((b % 256) as u8).drop_last() == db);
        assert(da.push((a % 256) as u8).last() == (a % 256) as u8);
        assert(db.push((b % 256) as u8).last() == (b % 256) as u8);
        assert(da == db);
        assert(a % 256 == b % 256);
        lemma_be_bytes_injective(a / 256, b / 256, w);
    }
}

/// The MAC input tells what it was laid out from: with initialization vectors
/// of one length, and additional authenticated data within the length field's
/// reach, equal inputs come from equal parts. The length field is what keeps
/// bytes from moving between the additional authenticated data and what follows.
pub proof fn lemma_mac_input_injective(
    aad1: Seq<u8>,
    iv1: Seq<u8>,
    ciphertext1: Seq<u8>,
    aad2: Seq<u8>,
    iv2: Seq<u8>,
    ciphertext2: Seq<u8>,
)
    requires
        mac_input(aad1, iv1, ciphertext1) == mac_input(aad2, iv2, ciphertext2),
        iv1.len() == iv2.len(),
        aad1.len() <= MAX_AAD_LEN,
        aad2.len() <= MAX_AAD_LEN,
    ensures
        aad1 == aad2,
        iv1 == iv2,
        ciphertext1 == ciphertext2,
{
    let m1 = mac_input(aad1, iv1, ciphertext1);
    let m2 = mac_input(aad2, iv2, ciphertext2);
    let f1 = len_field(aad1.len());
    let f2 = len_field(aad2.len());
    lemma_be_bytes_len(8 * aad1.len(), 8);
    lemma_be_bytes_len(8 * aad2.len(), 8);
    let n = m1.len() as int;
    assert(m1.subrange(n - 8, n) == f1);
    assert(m2.subrange(n - 8, n) == f2);
    assert(pow256(8) == 0x1_0000_0000_0000_0000) by {
        reveal_with_fuel(pow256, 9);
    }
    lemma_be_bytes_injective(8 * aad1.len(), 8 * aad2.len(), 8);
    let a = aad1.len() as int;
    let v = iv1.len() as int;
    assert(m1.subrange(0, a) == aad1);
    assert(m2.subrange(0, a) == aad2);
    assert(m1.subrange(a, a + v) == iv1);
    assert(m2.subrange(a, a + v) == iv2);
    assert(m1.subrange(a + v, n - 8) == ciphertext1);
    assert(m2.subrange(a + v, n - 8) == ciphertext2);
}

/// The eight big-endian bytes of `n`.
pub fn u64_to_be_bytes(n: u64) -> (out: Vec<u8>)
    ensures
        out@ == be_bytes(n as nat, 8),
{
    let mut out: Vec<u8> = vec![0u8; 8];
    let mut rest: u64 = n;
    let mut i: usize = 8;
    while i > 0
        invariant
            i <= 8,
            out@.len() == 8,
            be_bytes(n as nat, 8) == be_bytes(rest as nat, i as nat) + out@.subrange(i as int, 8),
        decreases i,
    {
        let ghost before = out@;
        let digit: u8 = (rest % 256) as u8;
        i -= 1;
        out.set(i, digit);
        proof {
            let high = be_bytes((rest / 256) as nat, i as nat);
            assert(be_bytes(rest as nat, (i + 1) as nat) == high.push(digit));
            assert(high.push(digit) + before.subrange(i + 1, 8) == high + out@.subrange(
                i as int,
                8,
            ));
        }
        rest = rest / 256;
    }
    assert(be_bytes(rest as nat, 0) + out@.subrange(0, 8) == out@);
    out
}

/// Appends `part` to `buf`.
fn append(buf: &mut Vec<u8>, part: &[u8])
    ensures
        final(buf)@ == old(buf)@ + part@,
{
    let mut i: usize = 0;
    while i < part.len()
        invariant
            i <= part@.len(),
            buf@ == old(buf)@ + part@.subrange(0, i as int),
        decreases part@.len() - i,
    {
        buf.push(part[i]);
        i += 1;
    }
    assert(part@.subrange(0, i as int) == part@);
}

/// Lays out what the MAC is computed over. There is no such byte string where
/// the additional authenticated data has more bits than the length field holds.
pub fn build_mac_input(aad: &[u8], iv: &[u8], ciphertext: &[u8]) -> (r: Option<Vec<u8>>)
    ensures
        match r {
            Some(input) => aad@.len() <= MAX_AAD_LEN && input@ == mac_input(
                aad@,
                iv@,
                ciphertext@,
            ),
            None => aad@.len() > MAX_AAD_LEN,
        },
{
    if aad.len() as u64 > MAX_AAD_LEN {
        return None;
    }
    let bits: u64 = (aad.len() as u64) * 8;
    let field = u64_to_be_bytes(bits);
    let mut input: Vec<u8> = Vec::new();
    append(&mut input, aad);
    append(&mut input, iv);
    append(&mut input, ciphertext);
    append(&mut input, field.as_slice());
    assert(input@ == mac_input(aad@, iv@, ciphertext@));
    Some(input)
}

} // verus!
