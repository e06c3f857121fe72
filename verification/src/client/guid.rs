//! Packed guids: a mask byte, then one byte of the guid for each bit set in the mask.

use vstd::prelude::*;
use vstd::arithmetic::power::pow;
use vstd::arithmetic::power2::pow2;

verus! {

/// Bit `bit` of the mask is set.
pub open spec fn mask_bit(mask: u8, bit: nat) -> bool {
    (mask as nat / pow2(bit)) % 2 == 1
}

/// The part of a packed guid from byte `bit` on: its value and how many bytes it takes.
pub open spec fn unpack_from(mask: u8, bytes: Seq<u8>, bit: nat) -> Option<(nat, nat)>
    decreases 8 - bit,
{
    if bit >= 8 {
        Some((0, 0))
    } else if mask_bit(mask, bit) {
        if bytes.len() == 0 {
            None
        } else {
            match unpack_from(mask, bytes.drop_first(), bit + 1) {
                None => None,
                Some((v, n)) => Some((bytes[0] as nat * pow(256, bit) as nat + v, n + 1)),
            }
        }
    } else {
        unpack_from(mask, bytes, bit + 1)
    }
}

/// The packed guid at the start of `d`: its value and how many bytes it takes.
pub open spec fn packed_guid(d: Seq<u8>) -> Option<(nat, nat)> {
    if d.len() == 0 {
        None
    } else {
        match unpack_from(d[0], d.drop_first(), 0) {
            None => None,
            Some((v, n)) => Some((v, n + 1)),
        }
    }
}

proof fn lemma_pow_step(bit: nat)
    ensures
        pow(256, bit + 1) == 256 * pow(256, bit),
        pow(256, bit) > 0,
        pow2(bit + 1) == 2 * pow2(bit),
        pow2(bit) > 0,
{
    vstd::arithmetic::power::lemma_pow_adds(256, bit, 1);
    vstd::arithmetic::power::lemma_pow1(256);
    vstd::arithmetic::power::lemma_pow_positive(256, bit);
    vstd::arithmetic::power2::lemma_pow2_unfold(bit + 1);
    vstd::arithmetic::power2::lemma_pow2_pos(bit);
}

proof fn lemma_pow256_8()
    ensures
        pow(256, 8) == 0x1_0000_0000_0000_0000,
        pow(256, 0) == 1,
        pow2(0) == 1,
{
    vstd::arithmetic::power::lemma_pow0(256);
    vstd::arithmetic::power2::lemma2_to64();
    lemma_pow_step(0);
    lemma_pow_step(1);
    lemma_pow_step(2);
    lemma_pow_step(3);
    lemma_pow_step(4);
    lemma_pow_step(5);
    lemma_pow_step(6);
    lemma_pow_step(7);
}

/// Reads the packed guid that starts at `start`; `None` when the bytes end first.
/// Gives the guid and the position after it.
pub fn parse_packed_guid(d: &[u8], start: usize) -> (r: Option<(u64, usize)>)
    requires
        start <= d@.len(),
    ensures
        match packed_guid(d@.skip(start as int)) {
            None => r is None,
            Some((v, n)) => r matches Some((g, p)) && g as nat == v && p == start + n,
        },
        r matches Some((_, p)) ==> start < p <= d@.len(),
{
    if start >= d.len() {
        return None;
    }
    let mask = d[start];
    let ghost body = d@.skip(start as int + 1);
    proof {
        lemma_pow256_8();
        assert(d@.skip(start as int).drop_first() =~= body);
        assert(d@.skip(start as int)[0] == mask);
    }
    let mut pos: usize = start + 1;
    let mut bit: usize = 0;
    let mut acc: u128 = 0;
    let mut scale: u128 = 1;
    let mut div: u16 = 1;
    while bit < 8
        invariant
            start < d@.len(),
            mask == d@[start as int],
            body == d@.skip(start as int + 1),
            packed_guid(d@.skip(start as int)) == (match unpack_from(mask, body, 0) {
                None => None,
                Some((v, n)) => Some((v, n + 1)),
            }),
            start + 1 <= pos <= d@.len(),
            bit <= 8,
            scale == pow(256, bit as nat),
            div as nat == pow2(bit as nat),
            acc < scale,
            unpack_from(mask, body, 0) == (match unpack_from(mask, d@.skip(pos as int), bit as nat) {
                None => None,
                Some((v, n)) => Some(((acc + v) as nat, (n + (pos - start - 1)) as nat)),
            }),
        decreases 8 - bit,
    {
        proof {
            lemma_pow_step(bit as nat);
            vstd::arithmetic::power::lemma_pow_increases(256, (bit + 1) as nat, 8);
            lemma_pow256_8();
            vstd::arithmetic::power2::lemma_pow2_strictly_increases((bit + 1) as nat, 9);
            vstd::arithmetic::power2::lemma2_to64();
        }
        let ghost rest = d@.skip(pos as int);
        if (mask as u16 / div) % 2 == 1 {
            if pos >= d.len() {
                assert(rest.len() == 0);
                assert(unpack_from(mask, rest, bit as nat) is None);
                assert(packed_guid(d@.skip(start as int)) is None);
                return None;
            }
            let b = d[pos];
            proof {
                assert(rest.drop_first() =~= d@.skip(pos as int + 1));
                assert(rest[0] == b);
                assert(acc + b * scale < 256 * scale) by (nonlinear_arith)
                    requires
                        acc < scale,
                        b < 256,
                ;
            }
            acc = acc + (b as u128) * scale;
            pos = pos + 1;
        }
        scale = scale * 256;
        div = div * 2;
        bit = bit + 1;
    }
    assert(unpack_from(mask, d@.skip(pos as int), 8) == Some((0nat, 0nat)));
    Some((acc as u64, pos))
}

} // verus!
