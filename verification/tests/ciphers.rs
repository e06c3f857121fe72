use tentacli::crypto::rc4::{Decryptor, Encryptor, RC4};

#[test]
fn rc4_known_vector() {
    let mut rc4 = RC4::new(b"Key".to_vec());
    let out = rc4.encrypt(b"Plaintext");
    assert_eq!(out, vec![187, 243, 22, 232, 217, 64, 175, 10, 211]);
}

#[test]
fn rc4_decrypts_what_it_encrypted() {
    let mut sender = RC4::new(b"secret key".to_vec());
    let mut receiver = RC4::new(b"secret key".to_vec());
    let plain = b"a packet header".to_vec();
    let sealed = sender.encrypt(&plain);
    assert_ne!(sealed, plain);
    assert_eq!(receiver.encrypt(&sealed), plain);
}

#[test]
fn rc4_streams_across_calls() {
    let mut whole = RC4::new(vec![1, 2, 3]);
    let mut parts = RC4::new(vec![1, 2, 3]);
    let all = whole.encrypt(&[9u8; 10]);
    let mut split = parts.encrypt(&[9u8; 4]);
    split.extend(parts.encrypt(&[9u8; 6]));
    assert_eq!(all, split);
}

fn session_key() -> Vec<u8> {
    let hex = "90521b4ffabb802aaf15c8dfd3d9a3ad96c67c6b5ed72651f2b6fdabe5c9c688bab4f3d052752c96";
    (0..hex.len()).step_by(2).map(|i| u8::from_str_radix(&hex[i..i + 2], 16).unwrap()).collect()
}

#[test]
fn header_encryptor_uses_hmac_key_and_drops_1024_bytes() {
    let mut encryptor = Encryptor::new(&session_key());
    let out = encryptor.encrypt(&[0, 4, 0xED, 0x01, 0, 0]);
    assert_eq!(out, vec![27, 58, 50, 250, 31, 184]);
}

#[test]
fn header_decryptor_differs_from_encryptor() {
    let mut encryptor = Encryptor::new(&session_key());
    let mut decryptor = Decryptor::new(&session_key());
    assert_ne!(encryptor.encrypt(&[0u8; 6]), decryptor.decrypt(&[0u8; 6]));
}

#[test]
fn rc4_state_is_a_permutation() {
    let mut rc4 = RC4::new(vec![0x13, 0x37, 0xAB]);
    for _ in 0..100 {
        rc4.next();
    }
    let mut seen = [false; 256];
    for b in rc4.state.iter() {
        assert!(!seen[*b as usize]);
        seen[*b as usize] = true;
    }
}
