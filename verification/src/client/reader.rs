//! A cursor over the bytes of an incoming packet body.

use vstd::prelude::*;

use vstd::arithmetic::power::pow;

use crate::bytes::le_value;
use crate::errors::FieldError;

verus! {

/// Reads fields one after the other from a packet body.
pub struct ByteReader<'a> {
    data: &'a [u8],
    pos: usize,
}

impl<'a> ByteReader<'a> {
    /// The whole body.
    pub closed spec fn data(&self) -> Seq<u8> {
        self.data@
    }

    /// How many bytes were read so far.
    pub closed spec fn pos(&self) -> nat {
        self.pos as nat
    }

    /// The bytes not read yet.
    pub open spec fn rest(&self) -> Seq<u8> {
        self.data().skip(self.pos() as int)
    }

    pub closed spec fn wf(&self) -> bool {
        self.pos <= self.data@.len()
    }

    /// A well-formed reader is inside its data, and the rest is what lies after it.
    pub proof fn lemma_inside(&self)
        requires
            self.wf(),
        ensures
            self.pos() <= self.data().len(),
            self.rest().len() == self.data().len() - self.pos(),
    {
    }

    pub fn new(data: &'a [u8]) -> (reader: Self)
        ensures
            reader.wf(),
            reader.data() == data@,
            reader.pos() == 0,
    {
        ByteReader { data, pos: 0 }
    }

    pub fn position(&self) -> (pos: usize)
        ensures
            pos == self.pos(),
    {
        self.pos
    }

    /// Reads `n` bytes; fails, reading nothing, when fewer remain.
    pub fn read_bytes(&mut self, n: usize) -> (bytes: Result<Vec<u8>, FieldError>)
        requires
            old(self).wf(),
        ensures
            final(self).wf(),
            final(self).data() == old(self).data(),
            old(self).rest().len() >= n ==> bytes is Ok && bytes->Ok_0@ == old(self).data().subrange(
                old(self).pos() as int,
                old(self).pos() + n,
            ) && final(self).pos() == old(self).pos() + n && bytes->Ok_0@ == old(self).rest().take(n as int)
                && final(self).rest() == old(self).rest().skip(n as int),
            old(self).rest().len() < n ==> bytes is Err && final(self).pos() == old(self).pos(),
    {
        proof {
            lemma_rest_len(self.data@, self.pos as int);
        }
        if self.data.len() - self.pos < n {
            return Err(FieldError::CannotRead);
        }
        let data = self.data;
        let start = self.pos;
        proof {
            lemma_rest_split(data@, start as int, n as int);
        }
        let mut out: Vec<u8> = Vec::new();
        let mut k: usize = 0;
        while k < n
            invariant
                start + n <= data.len(),
                data.len() == data@.len(),
                k <= n,
                out@ == data@.subrange(start as int, start + k),
            decreases n - k,
        {
            out.push(data[start + k]);
            k = k + 1;
            assert(out@ =~= data@.subrange(start as int, start + k));
        }
        self.pos = start + n;
        Ok(out)
    }

    /// Skips `n` bytes; fails, skipping nothing, when fewer remain.
    pub fn skip(&mut self, n: usize) -> (r: Result<(), FieldError>)
        requires
            old(self).wf(),
        ensures
            final(self).wf(),
            final(self).data() == old(self).data(),
            old(self).rest().len() >= n ==> r is Ok && final(self).pos() == old(self).pos() + n
                && final(self).rest() == old(self).rest().skip(n as int),
            old(self).rest().len() < n ==> r is Err && final(self).pos() == old(self).pos(),
    {
        proof {
            lemma_rest_len(self.data@, self.pos as int);
        }
        if self.data.len() - self.pos < n {
            return Err(FieldError::CannotRead);
        }
        proof {
            lemma_rest_split(self.data@, self.pos as int, n as int);
        }
        self.pos = self.pos + n;
        Ok(())
    }

    /// Reads up to and including the next zero byte, or to the end when there is none
    /// (what `BufRead::read_until(0, ..)` reads).
    pub fn read_until_nul(&mut self) -> (bytes: Vec<u8>)
        requires
            old(self).wf(),
        ensures
            final(self).wf(),
            final(self).data() == old(self).data(),
            bytes@ == until_nul(old(self).rest()),
            final(self).pos() == old(self).pos() + bytes@.len(),
            final(self).rest() == old(self).rest().skip(bytes@.len() as int),
    {
        proof {
            lemma_rest_len(self.data@, self.pos as int);
        }
        let data = self.data;
        let start = self.pos;
        let ghost rest = data@.subrange(start as int, data@.len() as int);
        proof {
            assert(rest =~= data@.skip(start as int));
        }
        let mut out: Vec<u8> = Vec::new();
        let mut k: usize = start;
        while k < data.len()
            invariant
                start <= k <= data.len(),
                data.len() == data@.len(),
                rest == data@.subrange(start as int, data@.len() as int),
                self.data@ == data@,
                self.pos == start,
                old(self).data@ == data@,
                old(self).pos == start,
                out@ == data@.subrange(start as int, k as int),
                forall|m: int| start <= m < k ==> data@[m] != 0,
            decreases data.len() - k,
        {
            let b = data[k];
            out.push(b);
            k = k + 1;
            assert(out@ =~= data@.subrange(start as int, k as int));
            if b == 0 {
                proof {
                    lemma_until_nul_found(rest, (k - 1 - start) as int);
                    lemma_rest_split(data@, start as int, (k - start) as int);
                }
                self.pos = k;
                return out;
            }
        }
        proof {
            lemma_until_nul_missing(rest);
            lemma_rest_split(data@, start as int, (k - start) as int);
        }
        assert(out@ =~= rest);
        self.pos = k;
        out
    }

    pub fn read_u8(&mut self) -> (v: Result<u8, FieldError>)
        requires
            old(self).wf(),
        ensures
            final(self).wf(),
            final(self).data() == old(self).data(),
            old(self).rest().len() >= 1 ==> v == Ok::<u8, FieldError>(
                old(self).data()[old(self).pos() as int],
            ) && final(self).pos() == old(self).pos() + 1 && v->Ok_0 == old(self).rest()[0]
                && final(self).rest() == old(self).rest().skip(1),
            old(self).rest().len() < 1 ==> v is Err && final(self).pos() == old(self).pos(),
    {
        proof {
            lemma_rest_len(self.data@, self.pos as int);
        }
        if self.pos >= self.data.len() {
            return Err(FieldError::CannotRead);
        }
        proof {
            lemma_rest_split(self.data@, self.pos as int, 1);
        }
        let v = self.data[self.pos];
        self.pos = self.pos + 1;
        Ok(v)
    }

    /// Reads `n` bytes (at most 8) as a little-endian integer.
    fn read_le(&mut self, n: usize) -> (v: Result<u64, FieldError>)
        requires
            old(self).wf(),
            n <= 8,
        ensures
            final(self).wf(),
            final(self).data() == old(self).data(),
            old(self).rest().len() >= n ==> v is Ok && v->Ok_0 as nat == le_value(
                old(self).data().subrange(old(self).pos() as int, old(self).pos() + n),
            ) && final(self).pos() == old(self).pos() + n && v->Ok_0 as nat == le_value(old(self).rest().take(n as int))
                && final(self).rest() == old(self).rest().skip(n as int),
            old(self).rest().len() < n ==> v is Err && final(self).pos() == old(self).pos(),
    {
        proof {
            lemma_rest_len(self.data@, self.pos as int);
        }
        if self.data.len() - self.pos < n {
            return Err(FieldError::CannotRead);
        }
        let data = self.data;
        let start = self.pos;
        proof {
            lemma_rest_split(data@, start as int, n as int);
        }
        let mut value: u64 = 0;
        let mut k: usize = n;
        proof {
            vstd::arithmetic::power::lemma_pow0(256);
            assert(data@.subrange(start + k, start + n) =~= Seq::<u8>::empty());
        }
        while k > 0
            invariant
                start + n <= data.len(),
                data.len() == data@.len(),
                k <= n <= 8,
                value as nat == le_value(data@.subrange(start + k, start + n)),
                (value as nat) < pow(256, (n - k) as nat),
            decreases k,
        {
            let ghost old_k = k;
            let ghost p = pow(256, (n - k) as nat);
            proof {
                lemma_pow256_le_max(n - k + 1);
                vstd::arithmetic::power::lemma_pow_adds(256, 1, (n - k) as nat);
                vstd::arithmetic::power::lemma_pow1(256);
            }
            assert(value * 256 + 255 < pow(256, (n - k + 1) as nat)) by (nonlinear_arith)
                requires
                    value < p,
                    pow(256, (n - k + 1) as nat) == 256 * p,
            ;
            k = k - 1;
            value = value * 256 + data[start + k] as u64;
            let ghost s = data@.subrange(start + k, start + n);
            assert(s.drop_first() =~= data@.subrange(start + old_k, start + n));
        }
        self.pos = start + n;
        Ok(value)
    }

    pub fn read_u16_le(&mut self) -> (v: Result<u16, FieldError>)
        requires
            old(self).wf(),
        ensures
            final(self).wf(),
            final(self).data() == old(self).data(),
            old(self).rest().len() >= 2 ==> v is Ok && v->Ok_0 as nat == le_value(
                old(self).data().subrange(old(self).pos() as int, old(self).pos() + 2int),
            ) && final(self).pos() == old(self).pos() + 2 && v->Ok_0 as nat == le_value(old(self).rest().take(2))
                && final(self).rest() == old(self).rest().skip(2),
            old(self).rest().len() < 2 ==> v is Err && final(self).pos() == old(self).pos(),
    {
        let ghost start = self.pos();
        let v = self.read_le(2)?;
        proof {
            crate::bytes::lemma_le_value_bound(self.data().subrange(start as int, start + 2int));
            vstd::arithmetic::power::lemma_pow_adds(256, 1, 1);
            vstd::arithmetic::power::lemma_pow1(256);
        }
        Ok(v as u16)
    }

    pub fn read_u32_le(&mut self) -> (v: Result<u32, FieldError>)
        requires
            old(self).wf(),
        ensures
            final(self).wf(),
            final(self).data() == old(self).data(),
            old(self).rest().len() >= 4 ==> v is Ok && v->Ok_0 as nat == le_value(
                old(self).data().subrange(old(self).pos() as int, old(self).pos() + 4int),
            ) && final(self).pos() == old(self).pos() + 4 && v->Ok_0 as nat == le_value(old(self).rest().take(4))
                && final(self).rest() == old(self).rest().skip(4),
            old(self).rest().len() < 4 ==> v is Err && final(self).pos() == old(self).pos(),
    {
        let ghost start = self.pos();
        let v = self.read_le(4)?;
        proof {
            crate::bytes::lemma_le_value_bound(self.data().subrange(start as int, start + 4int));
            lemma_pow256_le_max(4);
        }
        Ok(v as u32)
    }

    pub fn read_u64_le(&mut self) -> (v: Result<u64, FieldError>)
        requires
            old(self).wf(),
        ensures
            final(self).wf(),
            final(self).data() == old(self).data(),
            old(self).rest().len() >= 8 ==> v is Ok && v->Ok_0 as nat == le_value(
                old(self).data().subrange(old(self).pos() as int, old(self).pos() + 8int),
            ) && final(self).pos() == old(self).pos() + 8 && v->Ok_0 as nat == le_value(old(self).rest().take(8))
                && final(self).rest() == old(self).rest().skip(8),
            old(self).rest().len() < 8 ==> v is Err && final(self).pos() == old(self).pos(),
    {
        self.read_le(8)
    }
}

/// What `until_nul` takes is a prefix of what it is given.
pub proof fn lemma_until_nul_prefix(rest: Seq<u8>)
    ensures
        until_nul(rest).len() <= rest.len(),
        until_nul(rest) == rest.take(until_nul(rest).len() as int),
{
    reveal(until_nul);
    if exists|z: int| 0 <= z < rest.len() && rest[z] == 0 {
        let w = choose|z: int| 0 <= z < rest.len() && rest[z] == 0;
        let first = choose|z: int| 0 <= z < rest.len() && rest[z] == 0 && forall|m: int| 0 <= m < z ==> rest[m] != 0;
        lemma_first_zero_exists(rest, w);
        assert(until_nul(rest) =~= rest.take(until_nul(rest).len() as int));
    } else {
        assert(rest =~= rest.take(rest.len() as int));
    }
}

proof fn lemma_first_zero_exists(rest: Seq<u8>, w: int)
    requires
        0 <= w < rest.len(),
        rest[w] == 0,
    ensures
        exists|z: int| 0 <= z < rest.len() && rest[z] == 0 && forall|m: int| 0 <= m < z ==> rest[m] != 0,
    decreases w,
{
    if exists|m: int| 0 <= m < w && rest[m] == 0 {
        let m = choose|m: int| 0 <= m < w && rest[m] == 0;
        lemma_first_zero_exists(rest, m);
    } else {
        assert(forall|m: int| 0 <= m < w ==> rest[m] != 0);
    }
}

proof fn lemma_rest_len(data: Seq<u8>, p: int)
    requires
        0 <= p <= data.len(),
    ensures
        data.skip(p).len() == data.len() - p,
{
}

proof fn lemma_rest_split(data: Seq<u8>, p: int, n: int)
    requires
        0 <= p,
        0 <= n,
        p + n <= data.len(),
    ensures
        data.skip(p).take(n) == data.subrange(p, p + n),
        data.skip(p + n) == data.skip(p).skip(n),
        n > 0 ==> data.skip(p)[0] == data[p],
{
    assert(data.skip(p).take(n) =~= data.subrange(p, p + n));
    assert(data.skip(p + n) =~= data.skip(p).skip(n));
}

/// The prefix of `rest` up to and including its first zero byte, or all of `rest`.
#[verifier::opaque]
pub open spec fn until_nul(rest: Seq<u8>) -> Seq<u8> {
    if exists|z: int| 0 <= z < rest.len() && rest[z] == 0 {
        let z = choose|z: int| 0 <= z < rest.len() && rest[z] == 0 && forall|m: int| 0 <= m < z ==> rest[m] != 0;
        rest.subrange(0, z + 1)
    } else {
        rest
    }
}

proof fn lemma_until_nul_found(rest: Seq<u8>, z: int)
    requires
        0 <= z < rest.len(),
        rest[z] == 0,
        forall|m: int| 0 <= m < z ==> rest[m] != 0,
    ensures
        until_nul(rest) == rest.subrange(0, z + 1),
{
    reveal(until_nul);
    assert(exists|w: int| 0 <= w < rest.len() && rest[w] == 0);
    let w = choose|w: int| 0 <= w < rest.len() && rest[w] == 0 && forall|m: int| 0 <= m < w ==> rest[m] != 0;
    assert(0 <= w < rest.len() && rest[w] == 0 && forall|m: int| 0 <= m < w ==> rest[m] != 0);
    if w < z {
        assert(rest[w] != 0);
    } else if w > z {
        assert(rest[z] != 0);
    }
}

/// Before its last byte, a field read up to a zero byte holds no zero; its last byte is
/// zero or it holds no zero at all.
pub proof fn lemma_until_nul_zeros(rest: Seq<u8>)
    ensures
        forall|i: int| 0 <= i < until_nul(rest).len() - 1 ==> #[trigger] until_nul(rest)[i] != 0,
        until_nul(rest).len() > 0 && until_nul(rest).last() != 0 ==> forall|i: int|
            0 <= i < until_nul(rest).len() ==> #[trigger] until_nul(rest)[i] != 0,
{
    if exists|z: int| 0 <= z < rest.len() && rest[z] == 0 {
        let w = choose|z: int| 0 <= z < rest.len() && rest[z] == 0;
        lemma_first_zero_exists(rest, w);
        let z = choose|z: int| 0 <= z < rest.len() && rest[z] == 0 && forall|m: int| 0 <= m < z ==> rest[m] != 0;
        lemma_until_nul_found(rest, z);
    } else {
        reveal(until_nul);
    }
}

proof fn lemma_until_nul_missing(rest: Seq<u8>)
    requires
        forall|m: int| 0 <= m < rest.len() ==> rest[m] != 0,
    ensures
        until_nul(rest) == rest,
{
    reveal(until_nul);
}

/// `256^n` for the small powers the reader uses.
pub proof fn lemma_pow256_le_max(n: int)
    requires
        0 <= n <= 8,
    ensures
        n <= 2 ==> pow(256, n as nat) <= 65536,
        n <= 4 ==> pow(256, n as nat) <= 0x1_0000_0000,
        pow(256, n as nat) <= 0x1_0000_0000_0000_0000,
        n == 2 ==> pow(256, n as nat) == 65536,
        n == 4 ==> pow(256, n as nat) == 0x1_0000_0000,
{
    reveal_with_fuel(vstd::arithmetic::power::pow, 9);
}

} // verus!
