//! The client side of the SRP6 handshake of the login server: session key, client
//! proof and the check of the server proof.

use vstd::prelude::*;
use vstd::arithmetic::power::pow;
use vstd::string::StringSliceAdditionalSpecFns;

use super::bignum::{
    abs, bignum_add, bignum_from_le, bignum_modpow, bignum_mul, bignum_sub, nat_to_le, BigNum,
};
use super::hash::{sha1, sha1_digest};
use crate::bytes::{extend_bytes, le_value};

verus! {

/// The bytes of even index of `bytes`.
pub open spec fn even_bytes(bytes: Seq<u8>) -> Seq<u8> {
    Seq::new(((bytes.len() + 1) / 2) as nat, |k: int| bytes[2 * k])
}

/// The bytes of odd index of `bytes`.
pub open spec fn odd_bytes(bytes: Seq<u8>) -> Seq<u8> {
    Seq::new((bytes.len() / 2) as nat, |k: int| bytes[2 * k + 1])
}

/// The session key made from the shared secret: the SHA-1 of its even bytes and the
/// SHA-1 of its odd bytes, interleaved byte by byte.
pub open spec fn interleaved_key(secret: Seq<u8>) -> Seq<u8> {
    let h1 = sha1(even_bytes(secret));
    let h2 = sha1(odd_bytes(secret));
    Seq::new(40, |k: int| if k % 2 == 0 { h1[k / 2] } else { h2[k / 2] })
}

/// The private key `x = H(salt | H(account ":" password))`, read little-endian.
pub open spec fn srp_x(account: Seq<u8>, password: Seq<u8>, salt: Seq<u8>) -> int {
    le_value(sha1(salt + sha1(account + seq![58u8] + password))) as int
}

/// The scrambling parameter `u = H(A | B)`, read little-endian.
pub open spec fn srp_u(public_ephemeral: int, server_ephemeral: int) -> int {
    le_value(sha1(nat_to_le(abs(public_ephemeral)) + nat_to_le(abs(server_ephemeral)))) as int
}

/// The shared secret `S = (B - 3 * g^x mod N)^(a + u * x) mod N`.
pub open spec fn srp_secret(
    modulus: int,
    generator: int,
    private_ephemeral: int,
    public_ephemeral: int,
    server_ephemeral: int,
    x: int,
) -> int {
    let verifier = pow(generator, x as nat) % modulus;
    let u = srp_u(public_ephemeral, server_ephemeral);
    pow(server_ephemeral - 3 * verifier, (private_ephemeral + u * x) as nat) % modulus
}

/// `H(N) xor H(g)`.
pub open spec fn xor_hash(modulus: int, generator: int) -> Seq<u8> {
    let n_hash = sha1(nat_to_le(abs(modulus)));
    let g_hash = sha1(nat_to_le(abs(generator)));
    Seq::new(20, |k: int| g_hash[k] ^ n_hash[k])
}

/// The client proof `M1 = H(H(N) xor H(g) | H(account) | salt | A | B | K)`.
pub open spec fn client_proof_of(
    modulus: int,
    generator: int,
    account: Seq<u8>,
    salt: Seq<u8>,
    public_ephemeral: int,
    server_ephemeral: int,
    session_key: Seq<u8>,
) -> Seq<u8> {
    sha1(
        xor_hash(modulus, generator) + sha1(account) + salt + nat_to_le(abs(public_ephemeral))
            + nat_to_le(abs(server_ephemeral)) + session_key,
    )
}

/// The proof the server is expected to send back: `H(A | M1 | K)`.
pub open spec fn expected_server_proof(
    public_ephemeral: Seq<u8>,
    client_proof: Seq<u8>,
    session_key: Seq<u8>,
) -> Seq<u8> {
    sha1(public_ephemeral + client_proof + session_key)
}

/// Draws the 19 random bytes of the private ephemeral with `rand::random`.
/// Trusted: nothing is stated of the bytes, which depend on chance.
#[verifier::external_body]
pub(crate) fn random_private_ephemeral() -> (bytes: [u8; 19]) {
    rand::random()
}

/// The client state of the SRP6 handshake.
pub struct Srp {
    pub session_key: Vec<u8>,
    modulus: BigNum,
    generator: BigNum,
    private_ephemeral: BigNum,
    public_ephemeral: BigNum,
    server_ephemeral: BigNum,
    salt: [u8; 32],
    client_proof: Option<[u8; 20]>,
}

impl Srp {
    pub closed spec fn modulus(&self) -> int {
        self.modulus.value()
    }

    pub closed spec fn generator(&self) -> int {
        self.generator.value()
    }

    pub closed spec fn private_ephemeral(&self) -> int {
        self.private_ephemeral.value()
    }

    pub closed spec fn public_ephemeral_value(&self) -> int {
        self.public_ephemeral.value()
    }

    pub closed spec fn server_ephemeral(&self) -> int {
        self.server_ephemeral.value()
    }

    pub closed spec fn session_key_bytes(&self) -> Seq<u8> {
        self.session_key@
    }

    pub closed spec fn salt(&self) -> Seq<u8> {
        self.salt@
    }

    pub closed spec fn client_proof(&self) -> Option<Seq<u8>> {
        match self.client_proof {
            Some(p) => Some(p@),
            None => None,
        }
    }

    /// The bytes of `A` as `BigInt::to_bytes_le` gives them.
    pub open spec fn public_ephemeral_bytes(&self) -> Seq<u8> {
        nat_to_le(abs(self.public_ephemeral_value()))
    }

    /// The invariant every `Srp` keeps: canonical numbers, a positive modulus, and
    /// `A = g^a mod N`.
    pub closed spec fn wf(&self) -> bool {
        &&& self.modulus.wf()
        &&& self.generator.wf()
        &&& self.private_ephemeral.wf()
        &&& self.public_ephemeral.wf()
        &&& self.server_ephemeral.wf()
        &&& self.modulus.value() > 0
        &&& self.generator.value() >= 0
        &&& self.private_ephemeral.value() >= 0
        &&& self.server_ephemeral.value() >= 0
        &&& self.public_ephemeral.value() == pow(self.generator.value(), self.private_ephemeral.value() as nat) % self.modulus.value()
    }

    /// `A` is exactly 32 bytes long, as `public_ephemeral` needs it to be.
    pub fn public_ephemeral_is_full(&self) -> (full: bool)
        requires
            self.wf(),
        ensures
            full == (self.public_ephemeral_bytes().len() == 32),
    {
        proof {
            use_wf_public(self);
        }
        self.public_ephemeral.magnitude.len() == 32
    }

    /// Whether the client proof was computed.
    pub fn has_client_proof(&self) -> (computed: bool)
        ensures
            computed == (self.client_proof() is Some),
    {
        self.client_proof.is_some()
    }

    /// The 32 bytes of `A`, least significant first.
    pub fn public_ephemeral(&mut self) -> (bytes: [u8; 32])
        requires
            old(self).wf(),
            old(self).public_ephemeral_bytes().len() == 32,
        ensures
            bytes@ == old(self).public_ephemeral_bytes(),
            *final(self) == *old(self),
    {
        proof {
            use_wf_public(self);
        }
        let mut bytes = [0u8;32];
        let mut k: usize = 0;
        while k < 32
            invariant
                k <= 32,
                self.public_ephemeral.magnitude@.len() == 32,
                forall|m: int| 0 <= m < k ==> bytes@[m] == self.public_ephemeral.magnitude@[m],
            decreases 32 - k,
        {
            bytes[k] = self.public_ephemeral.magnitude[k];
            k = k + 1;
        }
        assert(bytes@ =~= self.public_ephemeral.magnitude@);
        bytes
    }

    /// A copy of the session key.
    pub fn session_key(&mut self) -> (key: Vec<u8>)
        ensures
            key@ == old(self).session_key_bytes(),
            *final(self) == *old(self),
    {
        self.session_key.clone()
    }

    /// Computes the client proof `M1`, keeps it and returns it.
    pub fn calculate_proof(&mut self, account: &str) -> (proof: [u8; 20])
        requires
            old(self).wf(),
        ensures
            final(self).wf(),
            proof@ == client_proof_of(
                old(self).modulus(),
                old(self).generator(),
                account.spec_bytes(),
                old(self).salt(),
                old(self).public_ephemeral_value(),
                old(self).server_ephemeral(),
                old(self).session_key_bytes(),
            ),
            final(self).client_proof() == Some(proof@),
            final(self).same_numbers(*old(self)),
            final(self).session_key_bytes() == old(self).session_key_bytes(),
    {
        let mut data = self.calculate_xor_hash();
        let account_hash = Self::calculate_account_hash(account);
        extend_bytes(&mut data, account_hash.as_slice());
        extend_bytes(&mut data, self.salt.as_slice());
        extend_bytes(&mut data, self.public_ephemeral.magnitude.as_slice());
        extend_bytes(&mut data, self.server_ephemeral.magnitude.as_slice());
        extend_bytes(&mut data, self.session_key.as_slice());
        let result = sha1_digest(data.as_slice());
        let mut output = [0u8;20];
        let mut k: usize = 0;
        while k < 20
            invariant
                k <= 20,
                result@.len() == 20,
                forall|m: int| 0 <= m < k ==> output@[m] == result@[m],
            decreases 20 - k,
        {
            output[k] = result[k];
            k = k + 1;
        }
        assert(output@ =~= result@);
        proof {
            use_wf_public(self);
            use_wf_server(self);
        }
        assert(data@ =~= xor_hash(self.modulus(), self.generator()) + sha1(account.spec_bytes())
            + self.salt() + nat_to_le(abs(self.public_ephemeral_value())) + nat_to_le(
            abs(self.server_ephemeral()),
        ) + self.session_key_bytes());
        self.client_proof = Some(output);
        output
    }

    /// Computes the session key `K` from the account name and password.
    pub fn calculate_session_key(&mut self, account: &str, password: &str)
        requires
            old(self).wf(),
        ensures
            final(self).wf(),
            final(self).same_numbers(*old(self)),
            final(self).client_proof() == old(self).client_proof(),
            final(self).session_key_bytes() == interleaved_key(
                nat_to_le(
                    abs(
                        srp_secret(
                            old(self).modulus(),
                            old(self).generator(),
                            old(self).private_ephemeral(),
                            old(self).public_ephemeral_value(),
                            old(self).server_ephemeral(),
                            srp_x(account.spec_bytes(), password.spec_bytes(), old(self).salt()),
                        ),
                    ),
                ),
            ),
    {
        let salt = self.salt;
        let x = self.calculate_x(account, password, salt.as_slice());
        let verifier = bignum_modpow(&self.generator, &x, &self.modulus);
        let secret = self.calculate_s(x, verifier);
        self.session_key = Self::calculate_interleaved(secret);
    }

    /// Checks the server proof against `H(A | M1 | K)`.
    pub fn validate_proof(&mut self, server_proof: [u8; 20]) -> (valid: bool)
        requires
            old(self).wf(),
            old(self).client_proof() is Some,
            old(self).public_ephemeral_bytes().len() == 32,
        ensures
            valid == (server_proof@ == expected_server_proof(
                old(self).public_ephemeral_bytes(),
                old(self).client_proof().unwrap(),
                old(self).session_key_bytes(),
            )),
            *final(self) == *old(self),
    {
        let public_ephemeral = self.public_ephemeral();
        let mut data: Vec<u8> = Vec::new();
        extend_bytes(&mut data, public_ephemeral.as_slice());
        let client_proof = match self.client_proof {
            Some(p) => p,
            None => [0u8;20],
        };
        extend_bytes(&mut data, client_proof.as_slice());
        extend_bytes(&mut data, self.session_key.as_slice());
        let result = sha1_digest(data.as_slice());
        let mut equal = true;
        let mut k: usize = 0;
        while k < 20
            invariant
                k <= 20,
                result@.len() == 20,
                equal == (forall|m: int| 0 <= m < k ==> result@[m] == server_proof@[m]),
            decreases 20 - k,
        {
            if result[k] != server_proof[k] {
                equal = false;
            }
            k = k + 1;
        }
        assert(data@ =~= public_ephemeral@ + client_proof@ + self.session_key@);
        assert(equal == (server_proof@ =~= result@));
        equal
    }

    /// The numbers of the handshake are unchanged.
    pub closed spec fn same_numbers(&self, other: Srp) -> bool {
        &&& self.modulus == other.modulus
        &&& self.generator == other.generator
        &&& self.private_ephemeral == other.private_ephemeral
        &&& self.public_ephemeral == other.public_ephemeral
        &&& self.server_ephemeral == other.server_ephemeral
        &&& self.salt == other.salt
    }

    fn calculate_account_hash(account: &str) -> (hash: Vec<u8>)
        ensures
            hash@ == sha1(account.spec_bytes()),
            hash@.len() == 20,
    {
        sha1_digest(account.as_bytes())
    }

    fn calculate_xor_hash(&self) -> (hash: Vec<u8>)
        requires
            self.wf(),
        ensures
            hash@ == xor_hash(self.modulus(), self.generator()),
    {
        let n_hash = sha1_digest(self.modulus.magnitude.as_slice());
        let g_hash = sha1_digest(self.generator.magnitude.as_slice());
        let mut hash: Vec<u8> = Vec::new();
        let mut k: usize = 0;
        while k < g_hash.len()
            invariant
                k <= 20,
                g_hash@.len() == 20,
                n_hash@.len() == 20,
                hash@.len() == k,
                forall|m: int| 0 <= m < k ==> hash@[m] == g_hash@[m] ^ n_hash@[m],
            decreases 20 - k,
        {
            hash.push(g_hash[k] ^ n_hash[k]);
            k = k + 1;
        }
        proof {
            use_wf_numbers(self);
        }
        assert(hash@ =~= xor_hash(self.modulus(), self.generator()));
        hash
    }

    fn calculate_x(&self, account: &str, password: &str, salt: &[u8]) -> (x: BigNum)
        ensures
            x.wf(),
            x.value() == srp_x(account.spec_bytes(), password.spec_bytes(), salt@),
    {
        let mut identity: Vec<u8> = Vec::new();
        extend_bytes(&mut identity, account.as_bytes());
        identity.push(58u8);
        extend_bytes(&mut identity, password.as_bytes());
        let identity_hash = sha1_digest(identity.as_slice());
        let mut data: Vec<u8> = Vec::new();
        extend_bytes(&mut data, salt);
        extend_bytes(&mut data, identity_hash.as_slice());
        let x = sha1_digest(data.as_slice());
        assert(identity@ =~= account.spec_bytes() + seq![58u8] + password.spec_bytes());
        bignum_from_le(x.as_slice())
    }

    fn calculate_u(&self) -> (u: BigNum)
        requires
            self.wf(),
        ensures
            u.wf(),
            u.value() == srp_u(self.public_ephemeral_value(), self.server_ephemeral()),
            u.value() >= 0,
    {
        let mut data: Vec<u8> = Vec::new();
        extend_bytes(&mut data, self.public_ephemeral.magnitude.as_slice());
        extend_bytes(&mut data, self.server_ephemeral.magnitude.as_slice());
        let u = sha1_digest(data.as_slice());
        proof {
            use_wf_public(self);
            use_wf_server(self);
        }
        bignum_from_le(u.as_slice())
    }

    fn calculate_s(&self, x: BigNum, verifier: BigNum) -> (secret: BigNum)
        requires
            self.wf(),
            x.value() >= 0,
            verifier.value() == pow(self.generator(), x.value() as nat) % self.modulus(),
        ensures
            secret.wf(),
            secret.value() == srp_secret(
                self.modulus(),
                self.generator(),
                self.private_ephemeral(),
                self.public_ephemeral_value(),
                self.server_ephemeral(),
                x.value(),
            ),
            secret.value() >= 0,
    {
        let three = bignum_from_le(&[3u8]);
        proof {
            reveal_with_fuel(le_value, 2);
        }
        let u = self.calculate_u();
        let scaled = bignum_mul(&three, &verifier);
        let base = bignum_sub(&self.server_ephemeral, &scaled);
        let ux = bignum_mul(&u, &x);
        let exponent = bignum_add(&self.private_ephemeral, &ux);
        proof {
            assert(u.value() * x.value() >= 0) by (nonlinear_arith)
                requires
                    u.value() >= 0,
                    x.value() >= 0,
            ;
        }
        let secret = bignum_modpow(&base, &exponent, &self.modulus);
        secret
    }

    fn calculate_interleaved(secret: BigNum) -> (key: Vec<u8>)
        requires
            secret.wf(),
        ensures
            key@ == interleaved_key(nat_to_le(abs(secret.value()))),
    {
        let bytes = &secret.magnitude;
        let mut even: Vec<u8> = Vec::new();
        let mut odd: Vec<u8> = Vec::new();
        let mut k: usize = 0;
        while k < bytes.len()
            invariant
                k <= bytes@.len(),
                even@ == even_bytes(bytes@.subrange(0, k as int)),
                odd@ == odd_bytes(bytes@.subrange(0, k as int)),
            decreases bytes@.len() - k,
        {
            if k % 2 == 0 {
                even.push(bytes[k]);
            } else {
                odd.push(bytes[k]);
            }
            k = k + 1;
            assert(even@ =~= even_bytes(bytes@.subrange(0, k as int)));
            assert(odd@ =~= odd_bytes(bytes@.subrange(0, k as int)));
        }
        assert(bytes@.subrange(0, k as int) =~= bytes@);
        let hashed1 = sha1_digest(even.as_slice());
        let hashed2 = sha1_digest(odd.as_slice());
        let mut key: Vec<u8> = Vec::new();
        let mut m: usize = 0;
        while m < hashed1.len()
            invariant
                m <= 20,
                hashed1@.len() == 20,
                hashed2@.len() == 20,
                key@.len() == 2 * m,
                forall|t: int| 0 <= t < 2 * m ==> key@[t] == (if t % 2 == 0 { hashed1@[t / 2] } else { hashed2@[t / 2] }),
            decreases 20 - m,
        {
            key.push(hashed1[m]);
            key.push(hashed2[m]);
            m = m + 1;
        }
        assert(key@ =~= interleaved_key(bytes@));
        key
    }

    /// A handshake with the server's parameters and a private ephemeral `a` drawn at random.
    pub fn new(n: &[u8], g: &[u8], server_ephemeral: &[u8; 32], salt: [u8; 32]) -> (srp: Self)
        requires
            le_value(n@) > 0,
        ensures
            srp.wf(),
            srp.modulus() == le_value(n@),
            srp.generator() == le_value(g@),
            srp.server_ephemeral() == le_value(server_ephemeral@),
            srp.salt() == salt@,
            0 <= srp.private_ephemeral() < pow(256, 19),
            srp.session_key_bytes() == Seq::<u8>::empty(),
            srp.client_proof() is None,
    {
        let secret_bytes = random_private_ephemeral();
        Self::with_private_ephemeral(n, g, server_ephemeral, salt, secret_bytes)
    }

    /// A handshake with the server's parameters and the given private ephemeral `a`.
    pub fn with_private_ephemeral(
        n: &[u8],
        g: &[u8],
        server_ephemeral: &[u8; 32],
        salt: [u8; 32],
        secret_bytes: [u8; 19],
    ) -> (srp: Self)
        requires
            le_value(n@) > 0,
        ensures
            srp.wf(),
            srp.modulus() == le_value(n@),
            srp.generator() == le_value(g@),
            srp.server_ephemeral() == le_value(server_ephemeral@),
            srp.private_ephemeral() == le_value(secret_bytes@),
            srp.public_ephemeral_value() == pow(le_value(g@) as int, le_value(secret_bytes@)) % (le_value(n@) as int),
            srp.salt() == salt@,
            0 <= srp.private_ephemeral() < pow(256, 19),
            srp.session_key_bytes() == Seq::<u8>::empty(),
            srp.client_proof() is None,
    {
        let modulus = bignum_from_le(n);
        let generator = bignum_from_le(g);
        let private_ephemeral = bignum_from_le(secret_bytes.as_slice());
        let public_ephemeral = bignum_modpow(&generator, &private_ephemeral, &modulus);
        let server_ephemeral = bignum_from_le(server_ephemeral.as_slice());
        proof {
            crate::bytes::lemma_le_value_bound(secret_bytes@);
        }
        Self {
            session_key: Vec::new(),
            modulus,
            generator,
            private_ephemeral,
            public_ephemeral,
            server_ephemeral,
            salt,
            client_proof: None,
        }
    }
}

proof fn use_wf_public(srp: &Srp)
    requires
        srp.wf(),
    ensures
        srp.public_ephemeral.magnitude@ == srp.public_ephemeral_bytes(),
{
}

proof fn use_wf_server(srp: &Srp)
    requires
        srp.wf(),
    ensures
        srp.server_ephemeral.magnitude@ == nat_to_le(abs(srp.server_ephemeral())),
{
}

proof fn use_wf_numbers(srp: &Srp)
    requires
        srp.wf(),
    ensures
        srp.modulus.magnitude@ == nat_to_le(abs(srp.modulus())),
        srp.generator.magnitude@ == nat_to_le(abs(srp.generator())),
{
}

/// Handshakes with the same numbers agree on every number and on the salt.
pub proof fn lemma_same_numbers(a: Srp, b: Srp)
    requires
        a.same_numbers(b),
    ensures
        a.modulus() == b.modulus(),
        a.generator() == b.generator(),
        a.private_ephemeral() == b.private_ephemeral(),
        a.public_ephemeral_value() == b.public_ephemeral_value(),
        a.server_ephemeral() == b.server_ephemeral(),
        a.salt() == b.salt(),
{
}

} // verus!
