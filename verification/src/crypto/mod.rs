pub mod bignum;
pub mod hash;
pub mod rc4;
pub mod srp;

pub use rc4::{Decryptor, Encryptor, RC4};
