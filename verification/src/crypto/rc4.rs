//! The RC4 stream cipher that protects world-packet headers, and the header
//! encryptor and decryptor keyed from the session key.

use vstd::prelude::*;

use super::hash::{hmac_sha1, hmac_sha1_digest};

verus! {

/// The mathematical state of an RC4 cipher: the two indices and the 256-byte permutation.
pub struct Rc4State {
    pub i: u8,
    pub j: u8,
    pub s: Seq<u8>,
}

/// `s` with the entries at `a` and `b` exchanged.
pub open spec fn swap(s: Seq<u8>, a: int, b: int) -> Seq<u8> {
    s.update(a, s[b]).update(b, s[a])
}

/// The identity permutation the key schedule starts from.
pub open spec fn identity_state() -> Seq<u8> {
    Seq::new(256, |k: int| k as u8)
}

/// The permutation and the index `j` after the first `n` rounds of the key schedule.
pub open spec fn ksa(key: Seq<u8>, n: nat) -> (Seq<u8>, u8)
    recommends
        key.len() > 0,
    decreases n,
{
    if n == 0 {
        (identity_state(), 0u8)
    } else {
        let (s, j) = ksa(key, (n - 1) as nat);
        let k = (n - 1) as int;
        let j2 = ((j + s[k] + key[k % (key.len() as int)]) % 256) as u8;
        (swap(s, k, j2 as int), j2)
    }
}

/// The cipher state right after keying with `key`.
pub open spec fn rc4_init(key: Seq<u8>) -> Rc4State {
    Rc4State { i: 0, j: 0, s: ksa(key, 256).0 }
}

/// One step of the keystream generator: the next state and the keystream byte.
pub open spec fn prga_step(st: Rc4State) -> (Rc4State, u8) {
    let i = ((st.i + 1) % 256) as u8;
    let j = ((st.j + st.s[i as int]) % 256) as u8;
    let s = swap(st.s, i as int, j as int);
    (Rc4State { i, j, s }, s[((s[i as int] + s[j as int]) % 256) as int])
}

/// The state after `n` keystream bytes and those bytes.
pub open spec fn keystream(st: Rc4State, n: nat) -> (Rc4State, Seq<u8>)
    decreases n,
{
    if n == 0 {
        (st, Seq::empty())
    } else {
        let (st1, ks) = keystream(st, (n - 1) as nat);
        let (st2, b) = prga_step(st1);
        (st2, ks.push(b))
    }
}

/// Byte-wise exclusive or of `data` with (a prefix of) `ks`.
pub open spec fn xor_seq(data: Seq<u8>, ks: Seq<u8>) -> Seq<u8> {
    Seq::new(data.len(), |k: int| data[k] ^ ks[k])
}

/// What `RC4::encrypt` returns for `data` from the state `st`.
pub open spec fn rc4_output(st: Rc4State, data: Seq<u8>) -> Seq<u8> {
    xor_seq(data, keystream(st, data.len()).1)
}

/// The byte value `v` occurs in the state.
pub open spec fn occurs(s: Seq<u8>, v: u8) -> bool {
    exists|k: int| 0 <= k < s.len() && s[k] == v
}

/// The state is a permutation of the 256 byte values.
pub open spec fn is_permutation(s: Seq<u8>) -> bool {
    &&& s.len() == 256
    &&& forall|v: u8| #[trigger] occurs(s, v)
}

/// The RC4 stream cipher.
#[derive(Debug)]
pub struct RC4 {
    i: u8,
    j: u8,
    pub state: [u8; 256],
}

impl View for RC4 {
    type V = Rc4State;

    closed spec fn view(&self) -> Rc4State {
        Rc4State { i: self.i, j: self.j, s: self.state@ }
    }
}

impl RC4 {
    /// Keys the cipher with `key` (the key schedule, KSA).
    pub fn new(key: Vec<u8>) -> (rc4: Self)
        requires
            0 < key.len() <= 256,
        ensures
            rc4@ == rc4_init(key@),
    {
        let mut state = [0u8;256];
        let mut k: usize = 0;
        while k < 256
            invariant
                k <= 256,
                forall|m: int| 0 <= m < k ==> state@[m] == m as u8,
            decreases 256 - k,
        {
            state[k] = k as u8;
            k = k + 1;
        }
        assert(state@ =~= identity_state());
        let mut j: u8 = 0;
        let mut i: usize = 0;
        while i < 256
            invariant
                i <= 256,
                0 < key@.len() <= 256,
                state@.len() == 256,
                (state@, j) == ksa(key@, i as nat),
            decreases 256 - i,
        {
            j = j.wrapping_add(state[i]).wrapping_add(key[i % key.len()]);
            let a = state[i];
            let b = state[j as usize];
            state[i] = b;
            state[j as usize] = a;
            i = i + 1;
            assert(state@ =~= ksa(key@, i as nat).0);
        }
        RC4 { i: 0, j: 0, state }
    }

    /// The next keystream byte (PRGA).
    pub fn next(&mut self) -> (b: u8)
        ensures
            (final(self)@, b) == prga_step(old(self)@),
    {
        self.i = self.i.wrapping_add(1);
        self.j = self.j.wrapping_add(self.state[self.i as usize]);
        let a = self.state[self.i as usize];
        let c = self.state[self.j as usize];
        self.state[self.i as usize] = c;
        self.state[self.j as usize] = a;
        assert(self.state@ =~= swap(old(self).state@, self.i as int, self.j as int));
        self.state[(self.state[self.i as usize].wrapping_add(self.state[self.j as usize])) as usize]
    }

    /// Exclusive-or of `data` with the next `data.len()` keystream bytes.
    pub fn encrypt(&mut self, data: &[u8]) -> (encrypted: Vec<u8>)
        ensures
            encrypted@ == rc4_output(old(self)@, data@),
            final(self)@ == keystream(old(self)@, data@.len()).0,
    {
        let mut encrypted: Vec<u8> = Vec::new();
        let mut k: usize = 0;
        while k < data.len()
            invariant
                k <= data@.len(),
                self@ == keystream(old(self)@, k as nat).0,
                encrypted@ == xor_seq(data@.subrange(0, k as int), keystream(old(self)@, k as nat).1),
            decreases data@.len() - k,
        {
            let b = self.next();
            encrypted.push(data[k] ^ b);
            k = k + 1;
            proof {
                lemma_keystream_len(old(self)@, k as nat);
            }
            assert(encrypted@ =~= xor_seq(
                data@.subrange(0, k as int),
                keystream(old(self)@, k as nat).1,
            ));
        }
        assert(data@.subrange(0, k as int) =~= data@);
        encrypted
    }
}

/// The keystream holds exactly the requested number of bytes.
pub proof fn lemma_keystream_len(st: Rc4State, n: nat)
    ensures
        keystream(st, n).1.len() == n,
    decreases n,
{
    if n > 0 {
        lemma_keystream_len(st, (n - 1) as nat);
    }
}

/// Decrypting with a cipher in the same state as the one that encrypted gives the
/// plaintext back: RC4 output applied twice from one state is the identity.
pub proof fn lemma_rc4_roundtrip(st: Rc4State, data: Seq<u8>)
    ensures
        rc4_output(st, rc4_output(st, data)) == data,
{
    let ks = keystream(st, data.len()).1;
    lemma_keystream_len(st, data.len());
    let once = rc4_output(st, data);
    assert(once.len() == data.len());
    assert forall|k: int| 0 <= k < data.len() implies #[trigger] rc4_output(st, once)[k]
        == data[k] by {
        let a = data[k];
        let b = ks[k];
        assert((a ^ b) ^ b == a) by (bit_vector);
    }
    assert(rc4_output(st, once) =~= data);
}

/// The keystream of `n1 + n2` bytes is the keystream of `n1` bytes followed by the
/// keystream of `n2` bytes from the state reached after the first `n1`.
pub proof fn lemma_keystream_split(st: Rc4State, n1: nat, n2: nat)
    ensures
        keystream(st, n1 + n2).0 == keystream(keystream(st, n1).0, n2).0,
        keystream(st, n1 + n2).1 == keystream(st, n1).1 + keystream(keystream(st, n1).0, n2).1,
    decreases n2,
{
    if n2 == 0 {
        assert(keystream(st, n1).1 + Seq::<u8>::empty() =~= keystream(st, n1).1);
    } else {
        lemma_keystream_split(st, n1, (n2 - 1) as nat);
        let mid = keystream(st, n1).0;
        assert(keystream(st, n1 + n2).1 =~= keystream(st, n1).1 + keystream(mid, n2).1) by {
            assert((n1 + n2 - 1) as nat == n1 + (n2 - 1) as nat);
        }
    }
}

/// Encrypting a message in two calls gives the same bytes and the same final state as
/// encrypting it in one call.
pub proof fn lemma_rc4_output_split(st: Rc4State, m1: Seq<u8>, m2: Seq<u8>)
    ensures
        rc4_output(st, m1 + m2) == rc4_output(st, m1) + rc4_output(keystream(st, m1.len()).0, m2),
        keystream(st, (m1 + m2).len()).0 == keystream(keystream(st, m1.len()).0, m2.len()).0,
{
    lemma_keystream_split(st, m1.len(), m2.len());
    let mid = keystream(st, m1.len()).0;
    lemma_keystream_len(st, m1.len());
    lemma_keystream_len(mid, m2.len());
    assert(rc4_output(st, m1 + m2) =~= rc4_output(st, m1) + rc4_output(mid, m2));
}

proof fn lemma_swap_keeps_permutation(s: Seq<u8>, a: int, b: int)
    requires
        is_permutation(s),
        0 <= a < 256,
        0 <= b < 256,
    ensures
        is_permutation(swap(s, a, b)),
{
    let t = swap(s, a, b);
    assert forall|v: u8| #[trigger] occurs(t, v) by {
        assert(occurs(s, v));
        let k = choose|k: int| 0 <= k < s.len() && s[k] == v;
        if k == a {
            assert(t[b] == v);
        } else if k == b {
            assert(t[a] == v);
        } else {
            assert(t[k] == v);
        }
    }
}

proof fn lemma_ksa_permutation(key: Seq<u8>, n: nat)
    requires
        key.len() > 0,
        n <= 256,
    ensures
        is_permutation(ksa(key, n).0),
    decreases n,
{
    if n == 0 {
        let s = identity_state();
        assert forall|v: u8| #[trigger] occurs(s, v) by {
            assert(s[v as int] == v);
        }
    } else {
        lemma_ksa_permutation(key, (n - 1) as nat);
        let (s, j) = ksa(key, (n - 1) as nat);
        let k = (n - 1) as int;
        let j2 = ((j + s[k] + key[k % (key.len() as int)]) % 256) as u8;
        lemma_swap_keeps_permutation(s, k, j2 as int);
    }
}

/// Every state a keyed cipher goes through holds each of the 256 byte values exactly
/// once: keying gives a permutation and generating keystream keeps it one.
pub proof fn lemma_state_stays_permutation(key: Seq<u8>, n: nat)
    requires
        0 < key.len() <= 256,
    ensures
        is_permutation(rc4_init(key).s),
        is_permutation(keystream(rc4_init(key), n).0.s),
    decreases n,
{
    lemma_ksa_permutation(key, 256);
    if n > 0 {
        lemma_state_stays_permutation(key, (n - 1) as nat);
        let st = keystream(rc4_init(key), (n - 1) as nat).0;
        let i = ((st.i + 1) % 256) as u8;
        let j = ((st.j + st.s[i as int]) % 256) as u8;
        lemma_swap_keeps_permutation(st.s, i as int, j as int);
    }
}

fn encryption_key() -> (key: Vec<u8>)
    ensures
        key@ == encryption_key_bytes(),
{
    let key: Vec<u8> = vec![0xC2, 0xB3, 0x72, 0x3C, 0xC6, 0xAE, 0xD9, 0xB5, 0x34, 0x3C, 0x53, 0xEE, 0x2F, 0x43, 0x67, 0xCE];
    assert(key@ =~= encryption_key_bytes());
    key
}

fn decryption_key() -> (key: Vec<u8>)
    ensures
        key@ == decryption_key_bytes(),
{
    let key: Vec<u8> = vec![0xCC, 0x98, 0xAE, 0x04, 0xE8, 0x97, 0xEA, 0xCA, 0x12, 0xDD, 0xC0, 0x93, 0x42, 0x91, 0x53, 0x57];
    assert(key@ =~= decryption_key_bytes());
    key
}

/// The HMAC key from which the client derives the cipher for what it sends.
pub open spec fn encryption_key_bytes() -> Seq<u8> {
    seq![0xC2u8, 0xB3, 0x72, 0x3C, 0xC6, 0xAE, 0xD9, 0xB5, 0x34, 0x3C, 0x53, 0xEE, 0x2F, 0x43, 0x67, 0xCE]
}

/// The HMAC key from which the client derives the cipher for what it receives.
pub open spec fn decryption_key_bytes() -> Seq<u8> {
    seq![0xCCu8, 0x98, 0xAE, 0x04, 0xE8, 0x97, 0xEA, 0xCA, 0x12, 0xDD, 0xC0, 0x93, 0x42, 0x91, 0x53, 0x57]
}

/// The number of keystream bytes discarded right after keying.
pub open spec fn sync_len() -> nat {
    1024
}

/// The cipher state a header cipher starts with: RC4 keyed with
/// HMAC-SHA1(`hmac_key`, `secret`), after discarding the first 1024 keystream bytes.
pub open spec fn header_cipher_state(hmac_key: Seq<u8>, secret: Seq<u8>) -> Rc4State {
    keystream(rc4_init(hmac_sha1(hmac_key, secret)), sync_len()).0
}

/// Encrypts the headers of the packets the client sends.
pub struct Encryptor {
    instance: RC4,
}

impl View for Encryptor {
    type V = Rc4State;

    closed spec fn view(&self) -> Rc4State {
        self.instance@
    }
}

impl Encryptor {
    pub fn new(secret: &[u8]) -> (encryptor: Self)
        ensures
            encryptor@ == header_cipher_state(encryption_key_bytes(), secret@),
    {
        let key = encryption_key();
        let sync: Vec<u8> = vec![0u8; 1024];
        let mut encryptor = RC4::new(hmac_sha1_digest(key.as_slice(), secret));
        let _ = encryptor.encrypt(sync.as_slice());
        Self { instance: encryptor }
    }

    pub fn encrypt(&mut self, data: &[u8]) -> (encrypted: Vec<u8>)
        ensures
            encrypted@ == rc4_output(old(self)@, data@),
            final(self)@ == keystream(old(self)@, data@.len()).0,
    {
        self.instance.encrypt(data)
    }
}

/// Decrypts the headers of the packets the server sends.
pub struct Decryptor {
    instance: RC4,
}

impl View for Decryptor {
    type V = Rc4State;

    closed spec fn view(&self) -> Rc4State {
        self.instance@
    }
}

impl Decryptor {
    pub fn new(secret: &[u8]) -> (decryptor: Self)
        ensures
            decryptor@ == header_cipher_state(decryption_key_bytes(), secret@),
    {
        let key = decryption_key();
        let sync: Vec<u8> = vec![0u8; 1024];
        let mut decryptor = RC4::new(hmac_sha1_digest(key.as_slice(), secret));
        let _ = decryptor.encrypt(sync.as_slice());
        Self { instance: decryptor }
    }

    pub fn decrypt(&mut self, data: &[u8]) -> (decrypted: Vec<u8>)
        ensures
            decrypted@ == rc4_output(old(self)@, data@),
            final(self)@ == keystream(old(self)@, data@.len()).0,
    {
        self.instance.encrypt(data)
    }
}

} // verus!
